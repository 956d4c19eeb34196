use rusttp::headers::HeaderMap;
use rusttp::http_enums::ResponseStatusCode;
use rusttp::response::{decimal_text, encode_response, get_parsed_data, parse_data, parse_headers, render_response};
use rusttp::server_errors::ResponseErrors;

#[test]
fn send_without_body_without_header() {
    let to_get = parse_data(ResponseStatusCode::OK, None, None);
    let result = get_parsed_data(to_get);
    assert_eq!("HTTP/1.1 200 OK\r\n\r\n", result)
}

#[test]
fn send_without_body_with_header() {
    let mut headers = HeaderMap::new();
    headers.insert(String::from("Accept"), String::from("*/*"));

    let to_get = parse_data(ResponseStatusCode::NOT_FOUND, Some(headers), None);
    let result = get_parsed_data(to_get);

    assert_eq!("HTTP/1.1 404 NOT FOUND\r\nAccept: */*\r\n\r\n", result)
}

#[test]
fn send_with_body_without_header() {
    let json = serde_json::from_str("{\"id\":1,\"name\":\"Vand\",\"password\":\"123\"}").unwrap();

    let to_get = parse_data(ResponseStatusCode::ACCEPTED, None, Some(json));
    let result = get_parsed_data(to_get);
    let one = "HTTP/1.1 202 ACCEPTED\r\nContent-Type: application/json\r\nContent-Length: 39\r\n\r\n{\"id\":1,\"name\":\"Vand\",\"password\":\"123\"}\r\n";
    let two = "HTTP/1.1 202 ACCEPTED\r\nContent-Length: 39\r\nContent-Type: application/json\r\n\r\n{\"id\":1,\"name\":\"Vand\",\"password\":\"123\"}\r\n";
    assert!(one.eq(result.as_str()) || two.eq(result.as_str()))
}

#[test]
fn body_length_counts_bytes() {
    let text = render_response(ResponseStatusCode::OK, &None, Some("\"é\""));
    assert_eq!(text, "HTTP/1.1 200 OK\r\nContent-Type: application/json\r\nContent-Length: 4\r\n\r\n\"é\"\r\n");
}

#[test]
fn headers_and_body_together() {
    let mut headers = HeaderMap::new();
    headers.insert(String::from("X-A"), String::from("1"));
    headers.insert(String::from("X-B"), String::from("2"));
    headers.insert(String::from("X-A"), String::from("3"));
    let json = serde_json::Value::Bool(true);
    let text = encode_response(ResponseStatusCode::CREATED, Some(headers), Some(json));
    assert_eq!(
        text,
        "HTTP/1.1 201 CREATED\r\nX-A: 3\r\nX-B: 2\r\nContent-Type: application/json\r\nContent-Length: 4\r\n\r\ntrue\r\n"
    );
}

#[test]
fn empty_header_map_adds_nothing() {
    let text = encode_response(ResponseStatusCode::NO_CONTENT, Some(HeaderMap::new()), None);
    assert_eq!(text, "HTTP/1.1 204 NO CONTENT\r\n\r\n");
}

#[test]
fn failed_encoding_falls_back() {
    assert_eq!(get_parsed_data(Err(ResponseErrors::ParseJson)), "HTTP/1.1 500 INTERNAL SERVER ERROR\r\n");
    assert_eq!(get_parsed_data(Ok(String::from("x"))), "x");
}

#[test]
fn rendering_headers() {
    let mut headers = HeaderMap::new();
    assert_eq!(parse_headers(&headers), "");
    headers.insert(String::from("Accept"), String::from("*/*"));
    headers.insert(String::from("Host"), String::from("h"));
    assert_eq!(parse_headers(&headers), "\r\nAccept: */*\r\nHost: h");
}

#[test]
fn decimal_numbers() {
    assert_eq!(decimal_text(0), "0");
    assert_eq!(decimal_text(7), "7");
    assert_eq!(decimal_text(39), "39");
    assert_eq!(decimal_text(1024), "1024");
    assert_eq!(decimal_text(usize::MAX), usize::MAX.to_string());
}

#[test]
fn status_texts() {
    assert_eq!(ResponseStatusCode::OK.as_str(), "200 OK");
    assert_eq!(ResponseStatusCode::NOT_FOUND.as_str(), "404 NOT FOUND");
    assert_eq!(ResponseStatusCode::INTERNAL_SERVER_ERROR.as_str(), "500 INTERNAL SERVER ERROR");
}

#[test]
fn header_map_lookup() {
    let mut headers = HeaderMap::new();
    assert_eq!(headers.len(), 0);
    assert!(headers.get("A").is_none());
    headers.insert(String::from("A"), String::from("1"));
    headers.insert(String::from("A"), String::from("2"));
    assert_eq!(headers.len(), 1);
    assert_eq!(headers.get("A").map(|v| v.as_str()), Some("2"));
    assert_eq!(headers.name_at(0), "A");
    assert_eq!(headers.value_at(0), "2");
}

#[test]
fn replacing_a_value_keeps_its_place() {
    let mut headers = HeaderMap::new();
    headers.insert(String::from("A"), String::from("1"));
    headers.insert(String::from("B"), String::from("2"));
    headers.insert(String::from("A"), String::from("3"));
    assert_eq!(parse_headers(&headers), "\r\nA: 3\r\nB: 2");
}
