use rusttp::headers::HeaderMap;
use rusttp::http_enums::RequestMethod;
use rusttp::request::{parse_request_header, separate_body_from_header, split_request, Request, RequestHead};
use rusttp::server_errors::RequestErrors;

#[test]
fn parse_request_ok() {
    let to_parse = "GET / HTTP/1.1\r\nHost: localhost:8378\r\nUser-Agent: insomnia/2021.3.0\r\nAccept: */*\r\n\r\n";
    let request = match Request::from_str(to_parse) {
        Ok(req) => req,
        Err(e) => {
            println!("An error occurred: {:?}", e);
            panic!("Panicing");
        }
    };
    assert_eq!(request.method(), RequestMethod::GET);
    assert_eq!(request.path(), "/");
    assert_eq!(request.headers().len(), 3);
}

#[test]
fn parse_request_nothing() {
    let to_parse = "\r\n";
    let error = match Request::from_str(to_parse) {
        Ok(req) => panic!("An error occurred: {:?}", req),
        Err(e) => e,
    };
    assert_eq!(error, RequestErrors::UnparsedRequest { request: String::from(to_parse) })
}

#[test]
fn invalid_method() {
    let to_parse = "INVALID / HTTP/1.1\r\nHost: localhost:8378\r\nUser-Agent: insomnia/2021.3.0\r\nAccept: */*\r\n\r\n";
    let error = match Request::from_str(to_parse) {
        Ok(req) => panic!("An error occurred: {:?}", req),
        Err(e) => e,
    };
    assert_eq!(error, RequestErrors::HTTPRequest { method: String::from("INVALID") })
}

#[test]
fn invalid_json() {
    let to_parse = "POST / HTTP/1.1\r\nHost: localhost:8378\r\nUser-Agent: insomnia/2021.3.0\r\nAccept: */*\r\n\r\nhey";
    let error = match Request::from_str(to_parse) {
        Ok(req) => panic!("An error occurred: {:?}", req),
        Err(e) => e,
    };
    assert_eq!(error, RequestErrors::ParseJson { json: String::from("hey") })
}

#[test]
fn scenario_host_header_without_body() {
    let request = Request::from_str("GET / HTTP/1.1\r\nHost: x\r\n\r\n").unwrap();
    assert_eq!(request.method(), RequestMethod::GET);
    assert_eq!(request.path(), "/");
    assert_eq!(request.headers().len(), 1);
    assert_eq!(request.headers().get("Host").map(|v| v.as_str()), Some("x"));
    assert!(request.body().is_none());
}

#[test]
fn scenario_unknown_method_without_headers() {
    assert_eq!(
        Request::from_str("INVALID / HTTP/1.1\r\n\r\n").unwrap_err(),
        RequestErrors::HTTPRequest { method: String::from("INVALID") }
    );
}

#[test]
fn scenario_unparsable_body_without_headers() {
    assert_eq!(
        Request::from_str("POST / HTTP/1.1\r\n\r\nhey").unwrap_err(),
        RequestErrors::ParseJson { json: String::from("hey") }
    );
}

#[test]
fn duplicate_header_last_value_wins() {
    let request = Request::from_str("GET /a HTTP/1.1\r\nA: 1\r\nA: 2\r\n\r\n").unwrap();
    assert_eq!(request.headers().len(), 1);
    assert_eq!(request.headers().get("A").map(|v| v.as_str()), Some("2"));
}

#[test]
fn header_names_are_case_sensitive() {
    let request = Request::from_str("GET / HTTP/1.1\r\nA: 1\r\na: 2\r\n\r\n").unwrap();
    assert_eq!(request.headers().len(), 2);
    assert_eq!(request.headers().get("A").map(|v| v.as_str()), Some("1"));
    assert_eq!(request.headers().get("a").map(|v| v.as_str()), Some("2"));
}

#[test]
fn header_value_keeps_later_delimiters() {
    let request = Request::from_str("GET / HTTP/1.1\r\nX: a: b\r\n\r\n").unwrap();
    assert_eq!(request.headers().get("X").map(|v| v.as_str()), Some("a: b"));
}

#[test]
fn lines_without_delimiter_are_ignored() {
    let request = Request::from_str("GET / HTTP/1.1\r\nnocolon\r\nodd:line\r\nK: v\r\n\r\n").unwrap();
    assert_eq!(request.headers().len(), 1);
    assert_eq!(request.headers().get("K").map(|v| v.as_str()), Some("v"));
}

#[test]
fn valid_json_body_is_kept() {
    let request = Request::from_str("POST /users HTTP/1.1\r\nContent-Type: application/json\r\n\r\n{\"id\":1}").unwrap();
    assert_eq!(request.method(), RequestMethod::POST);
    assert_eq!(request.path(), "/users");
    let expected: serde_json::Value = serde_json::from_str("{\"id\":1}").unwrap();
    assert_eq!(request.body(), &Some(expected));
}

#[test]
fn body_after_a_second_blank_line_is_kept_whole() {
    let err = Request::from_str("POST / HTTP/1.1\r\n\r\n1\r\n\r\n2").unwrap_err();
    assert_eq!(err, RequestErrors::ParseJson { json: String::from("1\r\n\r\n2") });
}

#[test]
fn missing_request_line_is_malformed() {
    let err = Request::from_str("Host: x\r\n\r\n").unwrap_err();
    assert_eq!(err, RequestErrors::HTTPHeader { request: String::from("Host: x") });
}

#[test]
fn request_line_without_path_is_malformed() {
    let err = Request::from_str("GETHTTP/1.1\r\n\r\n").unwrap_err();
    assert_eq!(err, RequestErrors::HTTPHeader { request: String::from("GETHTTP/1.1") });
}

#[test]
fn header_error_comes_before_body_error() {
    let err = Request::from_str("FETCH / HTTP/1.1\r\n\r\nhey").unwrap_err();
    assert_eq!(err, RequestErrors::HTTPRequest { method: String::from("FETCH") });
}

#[test]
fn empty_input_is_unseparated() {
    let err = Request::from_str("").unwrap_err();
    assert_eq!(err, RequestErrors::UnparsedRequest { request: String::new() });
}

#[test]
fn first_request_line_is_used() {
    let request = Request::from_str("PUT /one HTTP/1.1\r\nGET /two HTTP/1.1\r\n\r\n").unwrap();
    assert_eq!(request.method(), RequestMethod::PUT);
    assert_eq!(request.path(), "/one");
    assert_eq!(request.headers().len(), 0);
}

#[test]
fn separating_head_and_body() {
    let (head, body) = separate_body_from_header("GET / HTTP/1.1\r\nA: b\r\n\r\n{}").unwrap();
    assert_eq!(head, "GET / HTTP/1.1\r\nA: b");
    assert_eq!(body, "{}");
    assert_eq!(
        separate_body_from_header("GET / HTTP/1.1\r\n").unwrap_err(),
        RequestErrors::UnparsedRequest { request: String::from("GET / HTTP/1.1\r\n") }
    );
}

#[test]
fn parsing_a_request_line() {
    assert_eq!(
        parse_request_header("DELETE /items/3 HTTP/1.1").unwrap(),
        (RequestMethod::DELETE, String::from("/items/3"))
    );
    assert_eq!(
        parse_request_header("get / HTTP/1.1").unwrap_err(),
        RequestErrors::HTTPRequest { method: String::from("get") }
    );
    assert_eq!(
        parse_request_header("HTTP/1.1").unwrap_err(),
        RequestErrors::HTTPHeader { request: String::from("HTTP/1.1") }
    );
}

#[test]
fn completing_a_head() {
    let head = split_request("PATCH /p HTTP/1.1\r\n\r\n[1,2]").unwrap();
    assert_eq!(head.body, "[1,2]");
    let missing = Request::with_body(head, None).unwrap_err();
    assert_eq!(missing, RequestErrors::ParseJson { json: String::from("[1,2]") });

    let empty = RequestHead {
        method: RequestMethod::HEAD,
        path: String::from("/"),
        headers: HeaderMap::new(),
        body: String::new(),
    };
    let request = Request::with_body(empty, Some(serde_json::Value::Null)).unwrap();
    assert!(request.body().is_none());
}

#[test]
fn method_names() {
    let names = ["CONNECT", "DELETE", "GET", "HEAD", "OPTIONS", "PATCH", "POST", "PUT", "TRACE"];
    for name in names {
        let m = RequestMethod::from_str(name).unwrap();
        assert_eq!(m.as_str(), name);
    }
    assert_eq!(RequestMethod::from_str("Get"), None);
    assert_eq!(RequestMethod::from_str(""), None);
}

#[test]
fn bytes_after_a_zero_byte_are_ignored() {
    let mut buf = [0u8; 64];
    let raw = b"GET /z HTTP/1.1\r\nHost: x\r\n\r\n";
    buf[..raw.len()].copy_from_slice(raw);
    let request = Request::from_bytes(&buf).unwrap();
    assert_eq!(request.path(), "/z");
    assert!(request.body().is_none());

    let mut with_tail = buf;
    with_tail[raw.len() + 1] = b'{';
    assert!(Request::from_bytes(&with_tail).unwrap().body().is_none());
}

#[test]
fn invalid_utf8_is_replaced() {
    let raw = b"GET /\xff HTTP/1.1\r\n\r\n";
    let request = Request::from_bytes(raw).unwrap();
    assert_eq!(request.path(), "/\u{FFFD}");
}

#[test]
fn no_bytes_is_unseparated() {
    let err = Request::from_bytes(&[0u8; 8]).unwrap_err();
    assert_eq!(err, RequestErrors::UnparsedRequest { request: String::new() });
}

#[test]
fn header_values_may_name_the_protocol() {
    let request = Request::from_str("GET / HTTP/1.1\r\nV: HTTP/1.1\r\nVia: 1.1 proxy HTTP/1.1\r\n\r\n").unwrap();
    assert_eq!(request.headers().len(), 2);
    assert_eq!(request.headers().get("V").map(|v| v.as_str()), Some("HTTP/1.1"));
    assert_eq!(request.headers().get("Via").map(|v| v.as_str()), Some("1.1 proxy HTTP/1.1"));
}

#[test]
fn later_request_lines_with_a_delimiter_are_headers() {
    let request = Request::from_str("GET / HTTP/1.1\r\nPOST: /x HTTP/1.1\r\n\r\n").unwrap();
    assert_eq!(request.method(), RequestMethod::GET);
    assert_eq!(request.headers().get("POST").map(|v| v.as_str()), Some("/x HTTP/1.1"));
}
