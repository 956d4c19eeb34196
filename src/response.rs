use vstd::prelude::*;

use crate::headers::HeaderMap;
use crate::http_enums::ResponseStatusCode;
use crate::json::{json_text_of, write_json};
use crate::text::{find, lemma_find_from, occurs_at};
use crate::server_errors::ResponseErrors;

verus! {

/// Each pair of `es` in order, as `\r\n<name>: <value>`.
pub open spec fn render_headers(es: Seq<(Seq<char>, Seq<char>)>) -> Seq<char>
    decreases es.len(),
{
    if es.len() == 0 {
        Seq::empty()
    } else {
        render_headers(es.drop_last()) + "\r\n"@ + es.last().0 + ": "@ + es.last().1
    }
}

/// The decimal digit for `d`.
pub open spec fn digit_char(d: nat) -> char {
    if d == 0 {
        '0'
    } else if d == 1 {
        '1'
    } else if d == 2 {
        '2'
    } else if d == 3 {
        '3'
    } else if d == 4 {
        '4'
    } else if d == 5 {
        '5'
    } else if d == 6 {
        '6'
    } else if d == 7 {
        '7'
    } else if d == 8 {
        '8'
    } else {
        '9'
    }
}

/// `n` in decimal, without leading zeros.
pub open spec fn decimal(n: nat) -> Seq<char>
    decreases n,
{
    if n < 10 {
        seq![digit_char(n)]
    } else {
        decimal(n / 10).push(digit_char(n % 10))
    }
}

/// The number of bytes of `t` in UTF-8.
pub open spec fn byte_len(t: Seq<char>) -> nat {
    vstd::utf8::encode_utf8(t).len()
}

/// What follows the status line and headers when the body is the JSON text `t`: the two
/// body headers, the blank line, the body and a line break.
pub open spec fn json_part(t: Seq<char>) -> Seq<char> {
    "\r\n"@ + "Content-Type"@ + ": "@ + "application/json"@ + "\r\n"@ + "Content-Length"@ + ": "@
        + decimal(byte_len(t)) + "\r\n\r\n"@ + t + "\r\n"@
}

/// The bytes of a response with `status`, the header pairs `headers` in order if any, and the
/// JSON text `body` if any.
pub open spec fn response_text(
    status: ResponseStatusCode,
    headers: Option<Seq<(Seq<char>, Seq<char>)>>,
    body: Option<Seq<char>>,
) -> Seq<char> {
    "HTTP/1.1 "@ + status.text() + match headers {
        None => Seq::empty(),
        Some(es) => render_headers(es),
    } + match body {
        None => "\r\n\r\n"@,
        Some(t) => json_part(t),
    }
}

/// What is sent instead of a response that could not be encoded.
pub open spec fn fallback_text() -> Seq<char> {
    "HTTP/1.1 500 INTERNAL SERVER ERROR\r\n"@
}

/// The pairs of an optional header mapping.
pub open spec fn entries_of(headers: Option<HeaderMap>) -> Option<Seq<(Seq<char>, Seq<char>)>> {
    match headers {
        None => None,
        Some(h) => Some(h.entries()),
    }
}

/// The digit `d` as text.
fn digit_str(d: usize) -> (r: &'static str)
    requires
        d < 10,
    ensures
        r@ == seq![digit_char(d as nat)],
{
    proof {
        reveal_strlit("0");
        reveal_strlit("1");
        reveal_strlit("2");
        reveal_strlit("3");
        reveal_strlit("4");
        reveal_strlit("5");
        reveal_strlit("6");
        reveal_strlit("7");
        reveal_strlit("8");
        reveal_strlit("9");
    }
    let r = if d == 0 {
        "0"
    } else if d == 1 {
        "1"
    } else if d == 2 {
        "2"
    } else if d == 3 {
        "3"
    } else if d == 4 {
        "4"
    } else if d == 5 {
        "5"
    } else if d == 6 {
        "6"
    } else if d == 7 {
        "7"
    } else if d == 8 {
        "8"
    } else {
        "9"
    };
    assert(r@ =~= seq![digit_char(d as nat)]);
    r
}

/// `n` written in decimal.
pub fn decimal_text(n: usize) -> (r: String)
    ensures
        r@ == decimal(n as nat),
    decreases n,
{
    if n < 10 {
        String::from_str(digit_str(n))
    } else {
        let mut r = decimal_text(n / 10);
        r.append(digit_str(n % 10));
        assert(r@ =~= decimal(n as nat));
        r
    }
}

/// Each header pair in order, as `\r\n<name>: <value>`.
pub fn parse_headers(headers: &HeaderMap) -> (r: String)
    ensures
        r@ == render_headers(headers.entries()),
{
    let ghost es = headers.entries();
    let mut r = String::new();
    let mut i: usize = 0;
    while i < headers.pair_count()
        invariant
            es == headers.entries(),
            i <= es.len(),
            r@ == render_headers(es.subrange(0, i as int)),
        decreases es.len() - i,
    {
        r.append("\r\n");
        r.append(headers.name_at(i).as_str());
        r.append(": ");
        r.append(headers.value_at(i).as_str());
        proof {
            let pre = es.subrange(0, i + 1);
            assert(pre.drop_last() =~= es.subrange(0, i as int));
        }
        i += 1;
    }
    assert(es.subrange(0, i as int) =~= es);
    r
}

/// The bytes of a response with `status`, the given headers and the JSON text `body`.
pub fn render_response(status: ResponseStatusCode, headers: &Option<HeaderMap>, body: Option<&str>) -> (r: String)
    ensures
        r@ == response_text(
            status,
            entries_of(*headers),
            match body {
                None => None,
                Some(t) => Some(t@),
            },
        ),
{
    let mut r = String::from_str("HTTP/1.1 ");
    r.append(status.as_str());
    match headers {
        None => {},
        Some(h) => {
            let rendered = parse_headers(h);
            r.append(rendered.as_str());
        },
    }
    let ghost start = r@;
    assert(start =~= "HTTP/1.1 "@ + status.text() + match entries_of(*headers) {
        None => Seq::empty(),
        Some(es) => render_headers(es),
    });
    match body {
        None => {
            r.append("\r\n\r\n");
            assert(r@ =~= start + "\r\n\r\n"@);
        },
        Some(t) => {
            let mut json_headers = HeaderMap::new();
            json_headers.insert(String::from_str("Content-Type"), String::from_str("application/json"));
            let bytes = t.as_bytes();
            assert(bytes@.len() == byte_len(t@));
            let length = decimal_text(bytes.len());
            let ghost digits = length@;
            proof {
                reveal_strlit("Content-Type");
                reveal_strlit("Content-Length");
                assert("Content-Type"@[8] != "Content-Length"@[8]);
            }
            json_headers.insert(String::from_str("Content-Length"), length);
            let ghost es = json_headers.entries();
            assert(es =~= seq![("Content-Type"@, "application/json"@), ("Content-Length"@, digits)]);
            proof {
                let one = es.drop_last();
                assert(one.drop_last() =~= Seq::<(Seq<char>, Seq<char>)>::empty());
                assert(one.len() == 1 && one.last() == es[0]);
                assert(render_headers(one.drop_last()) == Seq::<char>::empty());
                assert(Seq::<char>::empty() + "\r\n"@ =~= "\r\n"@);
                assert(render_headers(one) =~= "\r\n"@ + "Content-Type"@ + ": "@ + "application/json"@);
                assert(render_headers(es) =~= "\r\n"@ + "Content-Type"@ + ": "@ + "application/json"@
                    + "\r\n"@ + "Content-Length"@ + ": "@ + digits);
            }
            let rendered = parse_headers(&json_headers);
            r.append(rendered.as_str());
            r.append("\r\n\r\n");
            r.append(t);
            r.append("\r\n");
            assert(r@ =~= start + json_part(t@));
        },
    }
    r
}

/// The bytes of a response with `status`, the given headers and the JSON value `json`, or the
/// encode error where the value cannot be written out.
pub open spec fn encode_outcome(
    status: ResponseStatusCode,
    headers: Option<HeaderMap>,
    json: Option<serde_json::Value>,
) -> Option<Seq<char>> {
    match json {
        None => Some(response_text(status, entries_of(headers), None)),
        Some(v) => match json_text_of(v) {
            None => None,
            Some(t) => Some(response_text(status, entries_of(headers), Some(t))),
        },
    }
}

/// Encodes a response, failing only where the JSON body cannot be written out.
pub fn parse_data(
    status_code: ResponseStatusCode,
    headers: Option<HeaderMap>,
    json: Option<serde_json::Value>,
) -> (r: Result<String, ResponseErrors>)
    ensures
        match encode_outcome(status_code, headers, json) {
            Some(t) => r matches Ok(s) && s@ == t,
            None => r matches Err(e) && e == ResponseErrors::ParseJson,
        },
{
    match json {
        None => Ok(render_response(status_code, &headers, None)),
        Some(v) => match write_json(&v) {
            Ok(text) => Ok(render_response(status_code, &headers, Some(text.as_str()))),
            Err(_) => Err(ResponseErrors::ParseJson),
        },
    }
}

/// The encoded response, or the fixed internal-error status line where encoding failed.
pub fn get_parsed_data(parsed_or_fail: Result<String, ResponseErrors>) -> (r: String)
    ensures
        match parsed_or_fail {
            Ok(s) => r@ == s@,
            Err(_) => r@ == fallback_text(),
        },
{
    match parsed_or_fail {
        Ok(value) => value,
        Err(_) => String::from_str("HTTP/1.1 500 INTERNAL SERVER ERROR\r\n"),
    }
}

/// The bytes to write back for a response: the encoded response, or the internal-error
/// status line where the JSON body cannot be written out.
pub fn encode_response(
    status_code: ResponseStatusCode,
    headers: Option<HeaderMap>,
    json: Option<serde_json::Value>,
) -> (r: String)
    ensures
        match encode_outcome(status_code, headers, json) {
            Some(t) => r@ == t,
            None => r@ == fallback_text(),
        },
{
    get_parsed_data(parse_data(status_code, headers, json))
}

/// A response with a JSON body `t` is the bodiless response up to its blank line, then the
/// content-type header, a content-length header giving the byte length of `t`, the blank line,
/// `t` and a line break.
pub proof fn lemma_json_body_framing(
    status: ResponseStatusCode,
    headers: Option<Seq<(Seq<char>, Seq<char>)>>,
    t: Seq<char>,
)
    ensures
        ({
            let r = response_text(status, headers, Some(t));
            let bare = response_text(status, headers, None);
            let p = bare.len() - 4;
            &&& bare.subrange(p, bare.len() as int) == "\r\n\r\n"@
            &&& r.subrange(0, p) == bare.subrange(0, p)
            &&& r.subrange(p, r.len() as int)
                == "\r\nContent-Type: application/json\r\nContent-Length: "@ + decimal(byte_len(t))
                + "\r\n\r\n"@ + t + "\r\n"@
        }),
{
    reveal_strlit("\r\n\r\n");
    reveal_strlit("\r\n");
    reveal_strlit(": ");
    reveal_strlit("Content-Type");
    reveal_strlit("Content-Length");
    reveal_strlit("application/json");
    reveal_strlit("\r\nContent-Type: application/json\r\nContent-Length: ");
    let start = "HTTP/1.1 "@ + status.text() + match headers {
        None => Seq::empty(),
        Some(es) => render_headers(es),
    };
    let r = response_text(status, headers, Some(t));
    let bare = response_text(status, headers, None);
    assert(r == start + json_part(t));
    assert(bare == start + "\r\n\r\n"@);
    let p = bare.len() - 4;
    assert(p == start.len());
    assert(bare.subrange(p, bare.len() as int) =~= "\r\n\r\n"@);
    assert(r.subrange(0, p) =~= bare.subrange(0, p));
    assert("\r\nContent-Type: application/json\r\nContent-Length: "@ =~= "\r\n"@ + "Content-Type"@
        + ": "@ + "application/json"@ + "\r\n"@ + "Content-Length"@ + ": "@);
    assert(r.subrange(p, r.len() as int) =~= json_part(t));
}

/// `x` holds no carriage return and no line feed.
pub open spec fn single_line(x: Seq<char>) -> bool {
    forall|i: int| 0 <= i < x.len() ==> x[i] != '\r' && x[i] != '\n'
}

/// `x` holds no blank line.
spec fn no_blank_line(x: Seq<char>) -> bool {
    forall|j: int| !occurs_at(x, "\r\n\r\n"@, j)
}

/// `x` ends with a character that is not part of a line break.
spec fn clean_end(x: Seq<char>) -> bool {
    x.len() > 0 && x.last() != '\r' && x.last() != '\n'
}

proof fn lemma_single_line_has_no_blank_line(x: Seq<char>)
    requires
        single_line(x),
    ensures
        no_blank_line(x),
{
    reveal_strlit("\r\n\r\n");
    assert forall|j: int| !occurs_at(x, "\r\n\r\n"@, j) by {
        if occurs_at(x, "\r\n\r\n"@, j) {
            assert(x.subrange(j, j + 4)[0] == x[j]);
        }
    }
}

/// Adding a line break and a non-empty line to text with no blank line and a clean end
/// makes no blank line.
proof fn lemma_append_line(x: Seq<char>, l: Seq<char>)
    requires
        no_blank_line(x),
        clean_end(x),
        single_line(l),
        l.len() > 0,
    ensures
        no_blank_line(x + "\r\n"@ + l),
        clean_end(x + "\r\n"@ + l),
{
    reveal_strlit("\r\n\r\n");
    reveal_strlit("\r\n");
    let y = x + "\r\n"@ + l;
    let n = x.len() as int;
    assert(y[n] == '\r' && y[n + 1] == '\n');
    assert forall|j: int| !occurs_at(y, "\r\n\r\n"@, j) by {
        if occurs_at(y, "\r\n\r\n"@, j) {
            let w = y.subrange(j, j + 4);
            assert(w[0] == y[j] && w[1] == y[j + 1] && w[2] == y[j + 2] && w[3] == y[j + 3]);
            if j + 4 <= n {
                assert(x.subrange(j, j + 4) =~= w);
                assert(occurs_at(x, "\r\n\r\n"@, j));
            } else if j == n - 3 {
                assert(y[j + 3] == '\r');
            } else if j == n - 2 {
                assert(y[j + 1] == x.last());
            } else if j == n - 1 {
                assert(y[j] == x.last());
            } else if j == n {
                assert(y[j + 2] == l[0]);
            } else if j == n + 1 {
            } else {
                assert(y[j] == l[j - n - 2]);
            }
        }
    }
    assert(y.last() == l.last());
}

/// The rendered header pairs, one line each, keep text with no blank line and a clean end so.
proof fn lemma_headers_keep_no_blank_line(x: Seq<char>, es: Seq<(Seq<char>, Seq<char>)>)
    requires
        no_blank_line(x),
        clean_end(x),
        forall|i: int| 0 <= i < es.len() ==> single_line(#[trigger] es[i].0) && single_line(es[i].1),
    ensures
        no_blank_line(x + render_headers(es)),
        clean_end(x + render_headers(es)),
    decreases es.len(),
{
    reveal_strlit(": ");
    if es.len() == 0 {
        assert(x + render_headers(es) =~= x);
    } else {
        let init = es.drop_last();
        assert forall|i: int| 0 <= i < init.len() implies single_line(#[trigger] init[i].0) && single_line(
            init[i].1,
        ) by {
            assert(init[i] == es[i]);
        }
        lemma_headers_keep_no_blank_line(x, init);
        let (name, value) = es.last();
        assert(es.last() == es[es.len() - 1]);
        let l = name + ": "@ + value;
        assert(single_line(l)) by {
            assert forall|i: int| 0 <= i < l.len() implies l[i] != '\r' && l[i] != '\n' by {
                if i < name.len() {
                } else if i < name.len() + 2 {
                    assert(l[i] == ": "@[i - name.len()]);
                } else {
                    assert(l[i] == value[i - name.len() - 2]);
                }
            }
        }
        lemma_append_line(x + render_headers(init), l);
        assert(x + render_headers(es) =~= x + render_headers(init) + "\r\n"@ + l);
    }
}

/// Every status line text is a single line.
proof fn lemma_status_single_line(status: ResponseStatusCode)
    ensures
        single_line(status.text()),
{
    match status {
        ResponseStatusCode::CONTINUE => {
            reveal_strlit("100 CONTINUE");
        },
        ResponseStatusCode::SWITCHING_PROTOCOLS => {
            reveal_strlit("101 SWITCHING PROTOCOLS");
        },
        ResponseStatusCode::EARLY_HINTS => {
            reveal_strlit("102 EARLY HINTS");
        },
        ResponseStatusCode::OK => {
            reveal_strlit("200 OK");
        },
        ResponseStatusCode::CREATED => {
            reveal_strlit("201 CREATED");
        },
        ResponseStatusCode::ACCEPTED => {
            reveal_strlit("202 ACCEPTED");
        },
        ResponseStatusCode::NON_AUTHORITATIVE_INFORMATION => {
            reveal_strlit("203 NON AUTHORITATIVE INFORMATION");
        },
        ResponseStatusCode::NO_CONTENT => {
            reveal_strlit("204 NO CONTENT");
        },
        ResponseStatusCode::RESET_CONTENT => {
            reveal_strlit("205 RESET CONTENT");
        },
        ResponseStatusCode::PARTIAL_CONTENT => {
            reveal_strlit("206 PARTIAL CONTENT");
        },
        ResponseStatusCode::MULTIPLE_CHOICES => {
            reveal_strlit("300 MULTIPLE CHOICES");
        },
        ResponseStatusCode::MOVED_PERMANENTLY => {
            reveal_strlit("301 MOVED PERMANENTLY");
        },
        ResponseStatusCode::FOUND => {
            reveal_strlit("302 FOUND");
        },
        ResponseStatusCode::SEE_OTHER => {
            reveal_strlit("303 SEE OTHER");
        },
        ResponseStatusCode::NOT_MODIFIED => {
            reveal_strlit("304 NOT MODIFIED");
        },
        ResponseStatusCode::TEMPORARY_REDIRECT => {
            reveal_strlit("305 TEMPORARY REDIRECT");
        },
        ResponseStatusCode::PERMANENT_REDIRECT => {
            reveal_strlit("306 PERMANENT REDIRECT");
        },
        ResponseStatusCode::BAD_REQUEST => {
            reveal_strlit("400 BAD REQUEST");
        },
        ResponseStatusCode::UNAUTHORIZED => {
            reveal_strlit("401 UNAUTHORIZED");
        },
        ResponseStatusCode::PAYMENT_REQUIRED => {
            reveal_strlit("402 PAYMENT REQUIRED");
        },
        ResponseStatusCode::FORBIDDEN => {
            reveal_strlit("403 FORBIDDEN");
        },
        ResponseStatusCode::NOT_FOUND => {
            reveal_strlit("404 NOT FOUND");
        },
        ResponseStatusCode::METHOD_NOT_ALLOWED => {
            reveal_strlit("405 METHOD NOT ALLOWED");
        },
        ResponseStatusCode::NOT_ACCEPTABLE => {
            reveal_strlit("406 NOT ACCEPTABLE");
        },
        ResponseStatusCode::PROXY_AUTHENTICATION_REQUIRED => {
            reveal_strlit("407 PROXY AUTHENTICATION REQUIRED");
        },
        ResponseStatusCode::REQUEST_TIMEOUT => {
            reveal_strlit("408 REQUEST TIMEOUT");
        },
        ResponseStatusCode::CONFLICT => {
            reveal_strlit("409 CONFLICT");
        },
        ResponseStatusCode::GONE => {
            reveal_strlit("410 GONE");
        },
        ResponseStatusCode::LENGTH_REQUIRED => {
            reveal_strlit("411 LENGTH REQUIRED");
        },
        ResponseStatusCode::PRECONDITION_FAILED => {
            reveal_strlit("412 PRECONDITION FAILED");
        },
        ResponseStatusCode::PAYLOAD_TOO_LARGE => {
            reveal_strlit("413 PAYLOAD TOO LARGE");
        },
        ResponseStatusCode::URI_TOO_LONG => {
            reveal_strlit("414 URI TOO LONG");
        },
        ResponseStatusCode::UNSUPPORTED_MEDIA_TYPE => {
            reveal_strlit("415 UNSUPPORTED MEDIA TYPE");
        },
        ResponseStatusCode::RANGE_NOT_SATISFIABLE => {
            reveal_strlit("416 RANGE NOT SATISFIABLE");
        },
        ResponseStatusCode::EXPECTATION_FAILED => {
            reveal_strlit("417 EXPECTATION FAILED");
        },
        ResponseStatusCode::IM_A_TEAPOT => {
            reveal_strlit("418 IM A_TEAPOT");
        },
        ResponseStatusCode::UNPROCESSABLE_ENTITY => {
            reveal_strlit("422 UNPROCESSABLE ENTITY");
        },
        ResponseStatusCode::TOO_EARLY => {
            reveal_strlit("425 TOO EARLY");
        },
        ResponseStatusCode::UPGRADE_REQUIRED => {
            reveal_strlit("426 UPGRADE REQUIRED");
        },
        ResponseStatusCode::PRECONDITION_REQUIRED => {
            reveal_strlit("428 PRECONDITION REQUIRED");
        },
        ResponseStatusCode::TOO_MANY_REQUESTS => {
            reveal_strlit("429 TOO MANY_REQUESTS");
        },
        ResponseStatusCode::REQUEST_HEADER_FIELDS_TOO_LARGE => {
            reveal_strlit("431 REQUEST HEADER FIELDS TOO LARGE");
        },
        ResponseStatusCode::UNAVAILABLE_FOR_LEGAL_REASONS => {
            reveal_strlit("451 UNAVAILABLE FOR LEGAL REASONS");
        },
        ResponseStatusCode::INTERNAL_SERVER_ERROR => {
            reveal_strlit("500 INTERNAL SERVER ERROR");
        },
        ResponseStatusCode::NOT_IMPLEMENTED => {
            reveal_strlit("501 NOT IMPLEMENTED");
        },
        ResponseStatusCode::BAD_GATEWAY => {
            reveal_strlit("502 BAD GATEWAY");
        },
        ResponseStatusCode::SERVICE_UNAVAILABLE => {
            reveal_strlit("503 SERVICE UNAVAILABLE");
        },
        ResponseStatusCode::GATEWAY_TIMEOUT => {
            reveal_strlit("504 GATEWAY TIMEOUT");
        },
        ResponseStatusCode::HTTP_VERSION_NOT_SUPPORTED => {
            reveal_strlit("505 HTTP VERSION NOT SUPPORTED");
        },
        ResponseStatusCode::VARIANT_ALSO_NEGOTIATES => {
            reveal_strlit("506 VARIANT ALSO NEGOTIATES");
        },
        ResponseStatusCode::INSUFFICIENT_STORAGE => {
            reveal_strlit("507 INSUFFICIENT STORAGE");
        },
        ResponseStatusCode::LOOP_DETECTED => {
            reveal_strlit("508 LOOP DETECTED");
        },
        ResponseStatusCode::NOT_EXTENDED => {
            reveal_strlit("510 NOT EXTENDED");
        },
        ResponseStatusCode::NETWORK_AUTHENTICATION_REQUIRED => {
            reveal_strlit("511 NETWORK AUTHENTICATION REQUIRED");
        },
    }
}

/// A decimal number is a single line.
proof fn lemma_decimal_single_line(n: nat)
    ensures
        single_line(decimal(n)),
        decimal(n).len() > 0,
    decreases n,
{
    if n >= 10 {
        lemma_decimal_single_line(n / 10);
    }
}

/// With a JSON body and header names and values free of line breaks, a response is a header
/// section holding no blank line, whose last two lines are the content type and the byte
/// length of the body text, then the blank line, the body text and a line break.
pub proof fn lemma_json_head_has_no_blank_line(
    status: ResponseStatusCode,
    headers: Option<Seq<(Seq<char>, Seq<char>)>>,
    t: Seq<char>,
)
    requires
        headers matches Some(es) ==> forall|i: int|
            0 <= i < es.len() ==> single_line(#[trigger] es[i].0) && single_line(es[i].1),
    ensures
        ({
            let head = "HTTP/1.1 "@ + status.text() + match headers {
                None => Seq::empty(),
                Some(es) => render_headers(es),
            } + "\r\nContent-Type: application/json"@ + "\r\nContent-Length: "@ + decimal(
                byte_len(t),
            );
            &&& response_text(status, headers, Some(t)) == head + "\r\n\r\n"@ + t + "\r\n"@
            &&& find(head, "\r\n\r\n"@) is None
        }),
{
    reveal_strlit("HTTP/1.1 ");
    reveal_strlit("\r\n");
    reveal_strlit(": ");
    reveal_strlit("Content-Type");
    reveal_strlit("Content-Length");
    reveal_strlit("application/json");
    reveal_strlit("Content-Type: application/json");
    reveal_strlit("Content-Length: ");
    reveal_strlit("\r\nContent-Type: application/json");
    reveal_strlit("\r\nContent-Length: ");
    reveal_strlit("\r\n\r\n");
    let es = match headers {
        None => Seq::<(Seq<char>, Seq<char>)>::empty(),
        Some(es) => es,
    };
    assert(render_headers(Seq::<(Seq<char>, Seq<char>)>::empty()) == Seq::<char>::empty());
    let start = "HTTP/1.1 "@ + status.text();
    lemma_status_single_line(status);
    assert(single_line(start)) by {
        assert forall|i: int| 0 <= i < start.len() implies start[i] != '\r' && start[i] != '\n' by {
            if i >= 9 {
                assert(start[i] == status.text()[i - 9]);
            }
        }
    }
    lemma_single_line_has_no_blank_line(start);
    assert(clean_end(start)) by {
        if status.text().len() == 0 {
            assert(start.last() == ' ');
        } else {
            assert(start.last() == status.text().last());
        }
    }
    lemma_headers_keep_no_blank_line(start, es);
    let x = start + render_headers(es);
    let l1 = "Content-Type: application/json"@;
    assert(single_line(l1));
    lemma_append_line(x, l1);
    let digits = decimal(byte_len(t));
    lemma_decimal_single_line(byte_len(t));
    let l2 = "Content-Length: "@ + digits;
    assert(single_line(l2)) by {
        assert forall|i: int| 0 <= i < l2.len() implies l2[i] != '\r' && l2[i] != '\n' by {
            if i >= 16 {
                assert(l2[i] == digits[i - 16]);
            }
        }
    }
    lemma_append_line(x + "\r\n"@ + l1, l2);
    let head = x + "\r\nContent-Type: application/json"@ + "\r\nContent-Length: "@ + digits;
    assert(head =~= x + "\r\n"@ + l1 + "\r\n"@ + l2);
    assert(response_text(status, headers, Some(t)) =~= head + "\r\n\r\n"@ + t + "\r\n"@);
    lemma_find_from(head, "\r\n\r\n"@, 0);
}

} // verus!
