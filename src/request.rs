use vstd::prelude::*;

use crate::headers::HeaderMap;
use crate::http_enums::{method_named, RequestMethod};
use crate::json::{json_parse_of, parse_json};
use crate::server_errors::{RequestErrorView, RequestErrors};
use crate::text::{
    chars_of, contains, find, find_chars, find_from, first_nul_from, lemma_find_from,
    lemma_find_from_first, lossy_text, occurs_at,
    lossy_text_of, meaningful_len, slice_chars, text_between,
};

verus! {

/// The blank line that ends the header section.
pub open spec fn separator() -> Seq<char> {
    "\r\n\r\n"@
}

/// The line break between header-section lines.
pub open spec fn line_break() -> Seq<char> {
    "\r\n"@
}

/// What marks a line as the request line.
pub open spec fn version_marker() -> Seq<char> {
    "HTTP/1.1"@
}

/// What parts a header's name from its value.
pub open spec fn header_delimiter() -> Seq<char> {
    ": "@
}

/// The lines of `s` from position `start` on, cut at each line break.
pub open spec fn lines_from(s: Seq<char>, start: int) -> Seq<Seq<char>>
    decreases s.len() - start,
    via lines_from_decreases
{
    if start < 0 || start > s.len() {
        seq![]
    } else {
        match find_from(s, line_break(), start) {
            None => seq![s.subrange(start, s.len() as int)],
            Some(e) => seq![s.subrange(start, e)] + lines_from(s, e + 2),
        }
    }
}

#[via_fn]
proof fn lines_from_decreases(s: Seq<char>, start: int) {
    reveal_strlit("\r\n");
    if 0 <= start {
        lemma_find_from(s, line_break(), start);
    }
}

/// The lines of `s`, cut at each line break.
pub open spec fn lines(s: Seq<char>) -> Seq<Seq<char>> {
    lines_from(s, 0)
}

/// A line that names the protocol version.
pub open spec fn is_request_line(line: Seq<char>) -> bool {
    contains(line, version_marker())
}

/// A line that holds the header delimiter; every such line but the request line is a header.
pub open spec fn is_header_line(line: Seq<char>) -> bool {
    contains(line, header_delimiter())
}

/// The part of a header line before its first delimiter.
pub open spec fn header_name(line: Seq<char>) -> Seq<char> {
    line.subrange(0, find(line, header_delimiter())->0)
}

/// The part of a header line after its first delimiter.
pub open spec fn header_value(line: Seq<char>) -> Seq<char> {
    line.subrange(find(line, header_delimiter())->0 + 2, line.len() as int)
}

/// The position of the first request line among `ls`.
pub open spec fn request_line_index(ls: Seq<Seq<char>>) -> Option<int>
    decreases ls.len(),
{
    if ls.len() == 0 {
        None
    } else {
        match request_line_index(ls.drop_last()) {
            Some(k) => Some(k),
            None => if is_request_line(ls.last()) {
                Some(ls.len() - 1)
            } else {
                None
            },
        }
    }
}

/// The line at `i` of `ls` is read as a header: it holds the delimiter and is not the line
/// at `skip`.
pub open spec fn counts_as_header(ls: Seq<Seq<char>>, skip: Option<int>, i: int) -> bool {
    skip != Some(i) && is_header_line(ls[i])
}

/// The header mapping of `ls` leaving out the line at `skip`: each header line in turn maps
/// its name to its value, a later line replacing an earlier value of the same name.
pub open spec fn headers_except(ls: Seq<Seq<char>>, skip: Option<int>) -> Map<
    Seq<char>,
    Seq<char>,
>
    decreases ls.len(),
{
    if ls.len() == 0 {
        Map::empty()
    } else {
        let m = headers_except(ls.drop_last(), skip);
        let line = ls.last();
        if counts_as_header(ls, skip, ls.len() - 1) {
            m.insert(header_name(line), header_value(line))
        } else {
            m
        }
    }
}

/// The header mapping of the lines `ls` of a header section: every line but the request line
/// that holds the delimiter is a header.
pub open spec fn headers_of(ls: Seq<Seq<char>>) -> Map<Seq<char>, Seq<char>> {
    headers_except(ls, request_line_index(ls))
}

/// Leaving out a line past the end leaves out nothing.
proof fn lemma_skip_past_end(ls: Seq<Seq<char>>, k: int)
    requires
        k >= ls.len(),
    ensures
        headers_except(ls, Some(k)) == headers_except(ls, None),
    decreases ls.len(),
{
    if ls.len() > 0 {
        lemma_skip_past_end(ls.drop_last(), k);
    }
}

/// The request line found among some lines stays the one found when lines are added.
proof fn lemma_request_line_kept(ls: Seq<Seq<char>>, l: Seq<char>)
    requires
        request_line_index(ls) is Some,
    ensures
        request_line_index(ls.push(l)) == request_line_index(ls),
        request_line_index(ls)->0 < ls.len(),
    decreases ls.len(),
{
    assert(ls.push(l).drop_last() =~= ls);
    if ls.len() > 0 && request_line_index(ls.drop_last()) is Some {
        lemma_request_line_kept(ls.drop_last(), ls.last());
    }
}

/// The method and path of a request line: its first and second space-separated tokens.
pub open spec fn parse_request_line(line: Seq<char>) -> Result<
    (RequestMethod, Seq<char>),
    RequestErrorView,
> {
    match find(line, " "@) {
        None => Err(RequestErrorView::HTTPHeader(line)),
        Some(i) => {
            let token = line.subrange(0, i);
            let rest = line.subrange(i + 1, line.len() as int);
            let path = match find(rest, " "@) {
                None => rest,
                Some(j) => rest.subrange(0, j),
            };
            match method_named(token) {
                None => Err(RequestErrorView::HTTPRequest(token)),
                Some(m) => Ok((m, path)),
            }
        }
    }
}

/// What a request's text says before its body is read as JSON.
pub struct RequestHeadView {
    pub method: RequestMethod,
    pub path: Seq<char>,
    pub headers: Map<Seq<char>, Seq<char>>,
    pub body: Seq<char>,
}

/// The head of the request whose text is `s`, and its body text, or why there is none.
pub open spec fn decode_head(s: Seq<char>) -> Result<RequestHeadView, RequestErrorView> {
    match find(s, separator()) {
        None => Err(RequestErrorView::UnparsedRequest(s)),
        Some(i) => {
            let head = s.subrange(0, i);
            let ls = lines(head);
            match request_line_index(ls) {
                None => Err(RequestErrorView::HTTPHeader(head)),
                Some(k) => match parse_request_line(ls[k]) {
                    Err(e) => Err(e),
                    Ok((method, path)) => Ok(
                        RequestHeadView {
                            method,
                            path,
                            headers: headers_of(ls),
                            body: s.subrange(i + 4, s.len() as int),
                        },
                    ),
                },
            }
        }
    }
}

/// Splits a request's text at its first blank line into the header section and the body.
pub fn separate_body_from_header(request_txt: &str) -> (r: Result<(String, String), RequestErrors>)
    ensures
        match find(request_txt@, separator()) {
            None => r matches Err(e) && e@ == RequestErrorView::UnparsedRequest(request_txt@),
            Some(i) => r matches Ok((h, b)) && h@ == request_txt@.subrange(0, i) && b@
                == request_txt@.subrange(i + 4, request_txt@.len() as int),
        },
{
    let cs = chars_of(request_txt);
    let sep = chars_of("\r\n\r\n");
    proof {
        reveal_strlit("\r\n\r\n");
    }
    match find_chars(cs.as_slice(), sep.as_slice(), 0) {
        None => Err(RequestErrors::UnparsedRequest { request: String::from_str(request_txt) }),
        Some(i) => {
            proof {
                lemma_find_from(cs@, sep@, 0);
            }
            let n = cs.len();
            assert(i + 4 <= n);
            let head = text_between(request_txt, 0, i);
            let body = text_between(request_txt, i + 4, n);
            Ok((head, body))
        }
    }
}

/// Reads the method and path off a request line.
pub fn parse_request_header(header_line: &str) -> (r: Result<(RequestMethod, String), RequestErrors>)
    ensures
        match parse_request_line(header_line@) {
            Ok((m, p)) => r matches Ok((rm, rp)) && rm == m && rp@ == p,
            Err(e) => r matches Err(re) && re@ == e,
        },
{
    let cs = chars_of(header_line);
    let space = chars_of(" ");
    proof {
        reveal_strlit(" ");
    }
    match find_chars(cs.as_slice(), space.as_slice(), 0) {
        None => Err(RequestErrors::HTTPHeader { request: String::from_str(header_line) }),
        Some(i) => {
            proof {
                lemma_find_from(cs@, space@, 0);
            }
            let n = cs.len();
            let token = text_between(header_line, 0, i);
            let rest = slice_chars(cs.as_slice(), i + 1, n);
            let end = match find_chars(rest.as_slice(), space.as_slice(), 0) {
                None => rest.len(),
                Some(j) => {
                    proof {
                        lemma_find_from(rest@, space@, 0);
                    }
                    j
                },
            };
            let path = text_between(header_line, i + 1, i + 1 + end);
            assert(path@ =~= rest@.subrange(0, end as int));
            match RequestMethod::from_str(token.as_str()) {
                None => Err(RequestErrors::HTTPRequest { method: token }),
                Some(m) => Ok((m, path)),
            }
        },
    }
}

/// Walks the lines of a header section: the first request line, and the header mapping.
pub fn read_header_section(head: &str) -> (r: (Option<String>, HeaderMap))
    ensures
        r.1.wf(),
        r.1@ == headers_of(lines(head@)),
        match request_line_index(lines(head@)) {
            None => r.0 is None,
            Some(k) => r.0 matches Some(l) && l@ == lines(head@)[k],
        },
{
    let cs = chars_of(head);
    let n = cs.len();
    let crlf = chars_of("\r\n");
    let marker = chars_of("HTTP/1.1");
    let delim = chars_of(": ");
    proof {
        reveal_strlit("\r\n");
        reveal_strlit("HTTP/1.1");
        reveal_strlit(": ");
    }
    let mut pos: usize = 0;
    let mut headers = HeaderMap::new();
    let mut request_line: Option<String> = None;
    let ghost mut done: Seq<Seq<char>> = seq![];
    loop
        invariant_except_break
            lines(head@) == done + lines_from(head@, pos as int),
        invariant
            n == cs@.len(),
            cs@ == head@,
            crlf@ == line_break(),
            crlf@.len() == 2,
            marker@ == version_marker(),
            marker@.len() > 0,
            delim@ == header_delimiter(),
            delim@.len() == 2,
            pos <= n,
            headers.wf(),
            headers@ == headers_except(done, request_line_index(done)),
            match request_line_index(done) {
                None => request_line is None,
                Some(k) => request_line matches Some(l) && 0 <= k < done.len() && l@ == done[k],
            },
        ensures
            lines(head@) == done,
        decreases n - pos,
    {
        let next = find_chars(cs.as_slice(), crlf.as_slice(), pos);
        proof {
            lemma_find_from(cs@, crlf@, pos as int);
        }
        let end = match next {
            None => n,
            Some(e) => e,
        };
        let line = slice_chars(cs.as_slice(), pos, end);
        let ghost l = line@;
        let request = match find_chars(line.as_slice(), marker.as_slice(), 0) {
            None => false,
            Some(_) => true,
        };
        let ghost skip = request_line_index(done);
        proof {
            if skip is Some {
                lemma_request_line_kept(done, l);
            }
            assert(done.push(l).drop_last() =~= done);
            assert(done.push(l)[done.len() as int] == l);
        }
        if request && request_line.is_none() {
            request_line = Some(text_between(head, pos, end));
            proof {
                lemma_skip_past_end(done, done.len() as int);
            }
        } else {
            match find_chars(line.as_slice(), delim.as_slice(), 0) {
                None => {},
                Some(c) => {
                    proof {
                        lemma_find_from(l, delim@, 0);
                    }
                    let name = text_between(head, pos, pos + c);
                    let value = text_between(head, pos + c + 2, end);
                    assert(name@ =~= header_name(l));
                    assert(value@ =~= header_value(l));
                    headers.insert(name, value);
                },
            }
        }
        proof {
            let nd = done.push(l);
            assert(nd.drop_last() =~= done);
            assert(lines_from(head@, pos as int) == seq![l] + match next {
                None => seq![],
                Some(e) => lines_from(head@, e + 2),
            }) by {
                if next is None {
                    assert(seq![l] + seq![] =~= seq![l]);
                }
            }
            assert(done + lines_from(head@, pos as int) =~= nd + match next {
                None => Seq::<Seq<char>>::empty(),
                Some(e) => lines_from(head@, e + 2),
            });
            done = nd;
        }
        match next {
            None => {
                assert(lines(head@) =~= done);
                break;
            },
            Some(e) => {
                pos = e + 2;
            },
        }
    }
    (request_line, headers)
}

/// The method, path and header mapping of a request, with its body text not yet read as JSON.
pub struct RequestHead {
    pub method: RequestMethod,
    pub path: String,
    pub headers: HeaderMap,
    pub body: String,
}

impl View for RequestHead {
    type V = RequestHeadView;

    open spec fn view(&self) -> RequestHeadView {
        RequestHeadView {
            method: self.method,
            path: self.path@,
            headers: self.headers@,
            body: self.body@,
        }
    }
}

/// Decodes everything of a request but its body, which is handed back as text.
pub fn split_request(request_txt: &str) -> (r: Result<RequestHead, RequestErrors>)
    ensures
        match decode_head(request_txt@) {
            Ok(h) => r matches Ok(rh) && rh@ == h && rh.headers.wf(),
            Err(e) => r matches Err(re) && re@ == e,
        },
{
    let (head, body) = match separate_body_from_header(request_txt) {
        Ok(parts) => parts,
        Err(e) => return Err(e),
    };
    let (line, headers) = read_header_section(head.as_str());
    match line {
        None => Err(RequestErrors::HTTPHeader { request: head }),
        Some(l) => match parse_request_header(l.as_str()) {
            Err(e) => Err(e),
            Ok((method, path)) => Ok(RequestHead { method, path, headers, body }),
        },
    }
}

/// What a decoded request holds.
pub struct RequestView {
    pub method: RequestMethod,
    pub path: Seq<char>,
    pub headers: Map<Seq<char>, Seq<char>>,
    pub body: Option<serde_json::Value>,
}

/// The request with head `h` and body `body`.
pub open spec fn request_of(h: RequestHeadView, body: Option<serde_json::Value>) -> RequestView {
    RequestView { method: h.method, path: h.path, headers: h.headers, body }
}

/// The request with head `h`, given what its body text parsed to: no body where the text is
/// empty, else the parsed value, or the body error where the text did not parse.
pub open spec fn complete_request(h: RequestHeadView, parsed: Option<serde_json::Value>) -> Result<
    RequestView,
    RequestErrorView,
> {
    if h.body.len() == 0 {
        Ok(request_of(h, None))
    } else {
        match parsed {
            Some(v) => Ok(request_of(h, Some(v))),
            None => Err(RequestErrorView::ParseJson(h.body)),
        }
    }
}

/// The request whose text is `s`, or why it cannot be decoded.
pub open spec fn decode_request(s: Seq<char>) -> Result<RequestView, RequestErrorView> {
    match decode_head(s) {
        Err(e) => Err(e),
        Ok(h) => complete_request(h, json_parse_of(h.body)),
    }
}

/// A decoded HTTP/1.1 request.
#[derive(Debug)]
pub struct Request {
    method: RequestMethod,
    path: String,
    headers: HeaderMap,
    body: Option<serde_json::Value>,
}

impl View for Request {
    type V = RequestView;

    closed spec fn view(&self) -> RequestView {
        RequestView {
            method: self.method,
            path: self.path@,
            headers: self.headers@,
            body: self.body,
        }
    }
}

impl Request {
    /// Headers are well formed.
    pub closed spec fn wf(&self) -> bool {
        self.headers.wf()
    }

    /// Decodes the text of a request.
    pub fn from_str(request_txt: &str) -> (r: Result<Request, RequestErrors>)
        ensures
            match r {
                Ok(req) => decode_request(request_txt@) matches Ok(v) && v == req@ && req.wf(),
                Err(e) => decode_request(request_txt@) matches Err(v) && v == e@,
            },
    {
        let head = match split_request(request_txt) {
            Ok(h) => h,
            Err(e) => return Err(e),
        };
        let parsed = if head.body.as_str().is_empty() {
            None
        } else {
            match parse_json(head.body.as_str()) {
                Ok(v) => Some(v),
                Err(_) => None,
            }
        };
        Request::with_body(head, parsed)
    }

    /// Decodes what was read from a connection: the bytes before the first zero byte, read
    /// as text with invalid UTF-8 replaced.
    pub fn from_bytes(buf: &[u8]) -> (r: Result<Request, RequestErrors>)
        ensures
            ({
                let text = lossy_text_of(buf@.subrange(0, first_nul_from(buf@, 0)));
                match r {
                    Ok(req) => decode_request(text) matches Ok(v) && v == req@ && req.wf(),
                    Err(e) => decode_request(text) matches Err(v) && v == e@,
                }
            }),
    {
        let n = meaningful_len(buf);
        proof {
            lemma_first_nul_bound(buf@, 0);
        }
        let content = vstd::slice::slice_subrange(buf, 0, n);
        let text = lossy_text(content);
        Request::from_str(text.as_str())
    }

    /// Completes a request head with what its body text parsed to (`None` where it did not).
    pub fn with_body(head: RequestHead, parsed: Option<serde_json::Value>) -> (r: Result<
        Request,
        RequestErrors,
    >)
        requires
            head.headers.wf(),
        ensures
            match r {
                Ok(req) => complete_request(head@, parsed) matches Ok(v) && v == req@ && req.wf(),
                Err(e) => complete_request(head@, parsed) matches Err(v) && v == e@,
            },
    {
        let RequestHead { method, path, headers, body } = head;
        if body.as_str().is_empty() {
            Ok(Request { method, path, headers, body: None })
        } else {
            match parsed {
                Some(v) => Ok(Request { method, path, headers, body: Some(v) }),
                None => Err(RequestErrors::ParseJson { json: body }),
            }
        }
    }

    /// The request's method.
    pub fn method(&self) -> (r: RequestMethod)
        ensures
            r == self@.method,
    {
        self.method
    }

    /// The request's path, as written on its request line.
    pub fn path(&self) -> (r: &String)
        ensures
            r@ == self@.path,
    {
        &self.path
    }

    /// The request's header mapping.
    pub fn headers(&self) -> (r: &HeaderMap)
        ensures
            r@ == self@.headers,
            self.wf() ==> r.wf(),
    {
        &self.headers
    }

    /// The request's JSON body, if it had one.
    pub fn body(&self) -> (r: &Option<serde_json::Value>)
        ensures
            *r == self@.body,
    {
        &self.body
    }
}

proof fn lemma_first_nul_bound(b: Seq<u8>, i: int)
    requires
        0 <= i,
    ensures
        first_nul_from(b, i) <= b.len(),
    decreases b.len() - i,
{
    if 0 <= i < b.len() && b[i] != 0 {
        lemma_first_nul_bound(b, i + 1);
    }
}

/// A request whose text ends at its blank line, and whose first request line names a known
/// method and a path, decodes with no body, with that method and path and with the header
/// mapping of its header section.
pub proof fn lemma_empty_body_decodes(s: Seq<char>)
    requires
        find(s, separator()) == Some(s.len() - 4),
        request_line_index(lines(s.subrange(0, s.len() - 4))) matches Some(k) && parse_request_line(
            lines(s.subrange(0, s.len() - 4))[k],
        ) is Ok,
    ensures
        decode_request(s) matches Ok(r) && r.body is None && ({
            let ls = lines(s.subrange(0, s.len() - 4));
            let k = request_line_index(ls)->0;
            &&& Some(r.method) == method_named(
                ls[k].subrange(0, find(ls[k], " "@)->0),
            )
            &&& r.headers == headers_of(ls)
        }),
{
    let i = s.len() - 4;
    assert(s.subrange(i + 4, s.len() as int).len() == 0);
}

/// A request whose body text is not empty decodes with the value that text parses to as
/// its body, and fails with the body error carrying that text where it is not valid JSON.
pub proof fn lemma_body_decoding(s: Seq<char>)
    requires
        decode_head(s) matches Ok(h) && h.body.len() > 0,
    ensures
        ({
            let h = decode_head(s)->Ok_0;
            match json_parse_of(h.body) {
                Some(v) => decode_request(s) matches Ok(r) && r.body == Some(v) && r.method == h.method
                    && r.path == h.path && r.headers == h.headers,
                None => decode_request(s) == Err::<RequestView, _>(
                    RequestErrorView::ParseJson(h.body),
                ),
            }
        }),
{
}

/// Where the first token of the request line is not a known method, decoding fails with the
/// unknown-method error carrying that token.
pub proof fn lemma_unknown_method_rejected(s: Seq<char>)
    requires
        find(s, separator()) matches Some(i) && request_line_index(lines(s.subrange(0, i))) matches Some(
            k,
        ) && find(lines(s.subrange(0, i))[k], " "@) matches Some(j) && method_named(
            lines(s.subrange(0, i))[k].subrange(0, j),
        ) is None,
    ensures
        ({
            let i = find(s, separator())->0;
            let line = lines(s.subrange(0, i))[request_line_index(lines(s.subrange(0, i)))->0];
            decode_request(s) == Err::<RequestView, _>(
                RequestErrorView::HTTPRequest(line.subrange(0, find(line, " "@)->0)),
            )
        }),
{
}

/// Among several header lines with the same name, the last one gives the mapped value, where
/// the line at `skip` is left out.
pub proof fn lemma_last_header_wins_except(ls: Seq<Seq<char>>, skip: Option<int>, j: int)
    requires
        0 <= j < ls.len(),
        counts_as_header(ls, skip, j),
        forall|k: int|
            j < k < ls.len() && #[trigger] counts_as_header(ls, skip, k) ==> header_name(ls[k])
                != header_name(ls[j]),
    ensures
        headers_except(ls, skip).contains_key(header_name(ls[j])),
        headers_except(ls, skip)[header_name(ls[j])] == header_value(ls[j]),
    decreases ls.len(),
{
    if j < ls.len() - 1 {
        let init = ls.drop_last();
        assert forall|k: int|
            j < k < init.len() && #[trigger] counts_as_header(init, skip, k) implies header_name(
                init[k],
            ) != header_name(init[j]) by {
            assert(init[k] == ls[k]);
            assert(counts_as_header(ls, skip, k));
        }
        assert(init[j] == ls[j]);
        lemma_last_header_wins_except(init, skip, j);
        if counts_as_header(ls, skip, ls.len() - 1) {
            assert(ls[ls.len() - 1] == ls.last());
        }
    }
}

/// Among several header lines with the same name, the last one gives the mapped value: a
/// line other than the request line that holds the delimiter maps its name to its value in
/// full unless a later such line has the same name.
pub proof fn lemma_last_header_wins(ls: Seq<Seq<char>>, j: int)
    requires
        0 <= j < ls.len(),
        request_line_index(ls) != Some(j),
        is_header_line(ls[j]),
        forall|k: int|
            j < k < ls.len() && request_line_index(ls) != Some(k) && is_header_line(#[trigger] ls[k])
                ==> header_name(ls[k]) != header_name(ls[j]),
    ensures
        headers_of(ls).contains_key(header_name(ls[j])),
        headers_of(ls)[header_name(ls[j])] == header_value(ls[j]),
{
    let skip = request_line_index(ls);
    assert forall|k: int|
        j < k < ls.len() && #[trigger] counts_as_header(ls, skip, k) implies header_name(ls[k])
            != header_name(ls[j]) by {
        assert(is_header_line(ls[k]));
    }
    lemma_last_header_wins_except(ls, skip, j);
}

/// A request written as a header section `h`, a blank line and a body `b` is split right
/// after `h`, provided `h` with its final line break holds no blank line: the head is `h` and
/// the body is all of `b`, whatever `b` holds.
pub proof fn lemma_split_after_head(h: Seq<char>, b: Seq<char>)
    requires
        !contains(h + line_break(), separator()),
    ensures
        find(h + separator() + b, separator()) == Some(h.len() as int),
        (h + separator() + b).subrange(0, h.len() as int) == h,
        (h + separator() + b).subrange(h.len() + 4int, (h + separator() + b).len() as int) == b,
{
    reveal_strlit("\r\n\r\n");
    reveal_strlit("\r\n");
    let s = h + separator() + b;
    let t = h + line_break();
    let n = h.len() as int;
    lemma_find_from(t, separator(), 0);
    assert(separator() =~= seq!['\r', '\n', '\r', '\n']);
    assert(line_break() =~= seq!['\r', '\n']);
    assert(s.subrange(n, n + 4) =~= separator());
    assert forall|j: int| 0 <= j < n implies !occurs_at(s, separator(), j) by {
        if j + 4 <= n + 2 {
            assert forall|m: int| j <= m < j + 4 implies s[m] == t[m] by {
                if m >= n {
                    assert(s[m] == separator()[m - n]);
                    assert(t[m] == line_break()[m - n]);
                }
            }
            assert(s.subrange(j, j + 4) =~= t.subrange(j, j + 4));
            if occurs_at(s, separator(), j) {
                assert(occurs_at(t, separator(), j));
            }
        } else if occurs_at(s, separator(), j) {
            assert(j == n - 1);
            assert(s[j + 1] == separator()[1]);
            assert(s[j + 1] == '\r');
        }
    }
    lemma_find_from_first(s, separator(), 0, n);
    assert(s.subrange(0, n) =~= h);
    assert(s.subrange(n + 4, s.len() as int) =~= b);
}

/// A request made of a header section `h` whose first request line names a known method, a
/// blank line and a non-empty body `b` decodes with the value `b` parses to as its body, or
/// fails with the body error carrying all of `b` where `b` is not valid JSON.
pub proof fn lemma_body_after_head(h: Seq<char>, b: Seq<char>)
    requires
        !contains(h + line_break(), separator()),
        b.len() > 0,
        request_line_index(lines(h)) matches Some(k) && parse_request_line(lines(h)[k]) is Ok,
    ensures
        ({
            let s = h + separator() + b;
            match json_parse_of(b) {
                Some(v) => decode_request(s) matches Ok(r) && r.body == Some(v) && r.headers
                    == headers_of(lines(h)),
                None => decode_request(s) == Err::<RequestView, _>(RequestErrorView::ParseJson(b)),
            }
        }),
{
    lemma_split_after_head(h, b);
}

/// A request made of a header section `h`, a blank line and any body, whose first request
/// line has a first token outside the known methods, fails with the unknown-method error
/// carrying that token.
pub proof fn lemma_unknown_method_after_head(h: Seq<char>, b: Seq<char>)
    requires
        !contains(h + line_break(), separator()),
        request_line_index(lines(h)) matches Some(k) && find(lines(h)[k], " "@) matches Some(j)
            && method_named(lines(h)[k].subrange(0, j)) is None,
    ensures
        ({
            let line = lines(h)[request_line_index(lines(h))->0];
            decode_request(h + separator() + b) == Err::<RequestView, _>(
                RequestErrorView::HTTPRequest(line.subrange(0, find(line, " "@)->0)),
            )
        }),
{
    lemma_split_after_head(h, b);
}

} // verus!
