use vstd::prelude::*;

use crate::text::same_text;

verus! {

/// The closed set of request methods a request line may name.
#[derive(Debug, Clone, Copy, PartialEq, Eq, Structural)]
pub enum RequestMethod {
    CONNECT,
    DELETE,
    GET,
    HEAD,
    OPTIONS,
    PATCH,
    POST,
    PUT,
    TRACE,
}

/// The method whose name is exactly `s` (case-sensitive), if any.
pub open spec fn method_named(s: Seq<char>) -> Option<RequestMethod> {
    if s == "CONNECT"@ {
        Some(RequestMethod::CONNECT)
    } else if s == "DELETE"@ {
        Some(RequestMethod::DELETE)
    } else if s == "GET"@ {
        Some(RequestMethod::GET)
    } else if s == "HEAD"@ {
        Some(RequestMethod::HEAD)
    } else if s == "OPTIONS"@ {
        Some(RequestMethod::OPTIONS)
    } else if s == "PATCH"@ {
        Some(RequestMethod::PATCH)
    } else if s == "POST"@ {
        Some(RequestMethod::POST)
    } else if s == "PUT"@ {
        Some(RequestMethod::PUT)
    } else if s == "TRACE"@ {
        Some(RequestMethod::TRACE)
    } else {
        None
    }
}

impl RequestMethod {
    /// The name of the method as it appears on a request line.
    pub open spec fn name(self) -> Seq<char> {
        match self {
            RequestMethod::CONNECT => "CONNECT"@,
            RequestMethod::DELETE => "DELETE"@,
            RequestMethod::GET => "GET"@,
            RequestMethod::HEAD => "HEAD"@,
            RequestMethod::OPTIONS => "OPTIONS"@,
            RequestMethod::PATCH => "PATCH"@,
            RequestMethod::POST => "POST"@,
            RequestMethod::PUT => "PUT"@,
            RequestMethod::TRACE => "TRACE"@,
        }
    }

    /// Looks a method up by its exact name.
    pub fn from_str(method: &str) -> (r: Option<RequestMethod>)
        ensures
            r == method_named(method@),
    {
        if same_text(method, "CONNECT") {
            Some(RequestMethod::CONNECT)
        } else if same_text(method, "DELETE") {
            Some(RequestMethod::DELETE)
        } else if same_text(method, "GET") {
            Some(RequestMethod::GET)
        } else if same_text(method, "HEAD") {
            Some(RequestMethod::HEAD)
        } else if same_text(method, "OPTIONS") {
            Some(RequestMethod::OPTIONS)
        } else if same_text(method, "PATCH") {
            Some(RequestMethod::PATCH)
        } else if same_text(method, "POST") {
            Some(RequestMethod::POST)
        } else if same_text(method, "PUT") {
            Some(RequestMethod::PUT)
        } else if same_text(method, "TRACE") {
            Some(RequestMethod::TRACE)
        } else {
            None
        }
    }

    /// The name of the method.
    pub fn as_str(&self) -> (r: &'static str)
        ensures
            r@ == self.name(),
    {
        match self {
            RequestMethod::CONNECT => "CONNECT",
            RequestMethod::DELETE => "DELETE",
            RequestMethod::GET => "GET",
            RequestMethod::HEAD => "HEAD",
            RequestMethod::OPTIONS => "OPTIONS",
            RequestMethod::PATCH => "PATCH",
            RequestMethod::POST => "POST",
            RequestMethod::PUT => "PUT",
            RequestMethod::TRACE => "TRACE",
        }
    }
}

/// The closed set of response statuses a handler may choose from.
#[allow(non_camel_case_types)]
#[derive(Debug, Clone, Copy, PartialEq, Eq, Structural)]
pub enum ResponseStatusCode {
    // 10x - Information responses
    CONTINUE,
    SWITCHING_PROTOCOLS,
    EARLY_HINTS,

    // 20X - Success responses
    OK,
    CREATED,
    ACCEPTED,
    NON_AUTHORITATIVE_INFORMATION,
    NO_CONTENT,
    RESET_CONTENT,
    PARTIAL_CONTENT,

    // 30X - Redirects
    MULTIPLE_CHOICES,
    MOVED_PERMANENTLY,
    FOUND,
    SEE_OTHER,
    NOT_MODIFIED,
    TEMPORARY_REDIRECT,
    PERMANENT_REDIRECT,

    // 40X - Client errors
    BAD_REQUEST,
    UNAUTHORIZED,
    PAYMENT_REQUIRED,
    FORBIDDEN,
    NOT_FOUND,
    METHOD_NOT_ALLOWED,
    NOT_ACCEPTABLE,
    PROXY_AUTHENTICATION_REQUIRED,
    REQUEST_TIMEOUT,
    CONFLICT,
    GONE,
    LENGTH_REQUIRED,
    PRECONDITION_FAILED,
    PAYLOAD_TOO_LARGE,
    URI_TOO_LONG,
    UNSUPPORTED_MEDIA_TYPE,
    RANGE_NOT_SATISFIABLE,
    EXPECTATION_FAILED,
    IM_A_TEAPOT,
    UNPROCESSABLE_ENTITY,
    TOO_EARLY,
    UPGRADE_REQUIRED,
    PRECONDITION_REQUIRED,
    TOO_MANY_REQUESTS,
    REQUEST_HEADER_FIELDS_TOO_LARGE,
    UNAVAILABLE_FOR_LEGAL_REASONS,

    // 50X - Server errors
    INTERNAL_SERVER_ERROR,
    NOT_IMPLEMENTED,
    BAD_GATEWAY,
    SERVICE_UNAVAILABLE,
    GATEWAY_TIMEOUT,
    HTTP_VERSION_NOT_SUPPORTED,
    VARIANT_ALSO_NEGOTIATES,
    INSUFFICIENT_STORAGE,
    LOOP_DETECTED,
    NOT_EXTENDED,
    NETWORK_AUTHENTICATION_REQUIRED,
}

impl ResponseStatusCode {
    /// The code and reason phrase written after `HTTP/1.1 ` on a status line.
    pub open spec fn text(self) -> Seq<char> {
        match self {
            ResponseStatusCode::CONTINUE => "100 CONTINUE"@,
            ResponseStatusCode::SWITCHING_PROTOCOLS => "101 SWITCHING PROTOCOLS"@,
            ResponseStatusCode::EARLY_HINTS => "102 EARLY HINTS"@,
            ResponseStatusCode::OK => "200 OK"@,
            ResponseStatusCode::CREATED => "201 CREATED"@,
            ResponseStatusCode::ACCEPTED => "202 ACCEPTED"@,
            ResponseStatusCode::NON_AUTHORITATIVE_INFORMATION => "203 NON AUTHORITATIVE INFORMATION"@,
            ResponseStatusCode::NO_CONTENT => "204 NO CONTENT"@,
            ResponseStatusCode::RESET_CONTENT => "205 RESET CONTENT"@,
            ResponseStatusCode::PARTIAL_CONTENT => "206 PARTIAL CONTENT"@,
            ResponseStatusCode::MULTIPLE_CHOICES => "300 MULTIPLE CHOICES"@,
            ResponseStatusCode::MOVED_PERMANENTLY => "301 MOVED PERMANENTLY"@,
            ResponseStatusCode::FOUND => "302 FOUND"@,
            ResponseStatusCode::SEE_OTHER => "303 SEE OTHER"@,
            ResponseStatusCode::NOT_MODIFIED => "304 NOT MODIFIED"@,
            ResponseStatusCode::TEMPORARY_REDIRECT => "305 TEMPORARY REDIRECT"@,
            ResponseStatusCode::PERMANENT_REDIRECT => "306 PERMANENT REDIRECT"@,
            ResponseStatusCode::BAD_REQUEST => "400 BAD REQUEST"@,
            ResponseStatusCode::UNAUTHORIZED => "401 UNAUTHORIZED"@,
            ResponseStatusCode::PAYMENT_REQUIRED => "402 PAYMENT REQUIRED"@,
            ResponseStatusCode::FORBIDDEN => "403 FORBIDDEN"@,
            ResponseStatusCode::NOT_FOUND => "404 NOT FOUND"@,
            ResponseStatusCode::METHOD_NOT_ALLOWED => "405 METHOD NOT ALLOWED"@,
            ResponseStatusCode::NOT_ACCEPTABLE => "406 NOT ACCEPTABLE"@,
            ResponseStatusCode::PROXY_AUTHENTICATION_REQUIRED => "407 PROXY AUTHENTICATION REQUIRED"@,
            ResponseStatusCode::REQUEST_TIMEOUT => "408 REQUEST TIMEOUT"@,
            ResponseStatusCode::CONFLICT => "409 CONFLICT"@,
            ResponseStatusCode::GONE => "410 GONE"@,
            ResponseStatusCode::LENGTH_REQUIRED => "411 LENGTH REQUIRED"@,
            ResponseStatusCode::PRECONDITION_FAILED => "412 PRECONDITION FAILED"@,
            ResponseStatusCode::PAYLOAD_TOO_LARGE => "413 PAYLOAD TOO LARGE"@,
            ResponseStatusCode::URI_TOO_LONG => "414 URI TOO LONG"@,
            ResponseStatusCode::UNSUPPORTED_MEDIA_TYPE => "415 UNSUPPORTED MEDIA TYPE"@,
            ResponseStatusCode::RANGE_NOT_SATISFIABLE => "416 RANGE NOT SATISFIABLE"@,
            ResponseStatusCode::EXPECTATION_FAILED => "417 EXPECTATION FAILED"@,
            ResponseStatusCode::IM_A_TEAPOT => "418 IM A_TEAPOT"@,
            ResponseStatusCode::UNPROCESSABLE_ENTITY => "422 UNPROCESSABLE ENTITY"@,
            ResponseStatusCode::TOO_EARLY => "425 TOO EARLY"@,
            ResponseStatusCode::UPGRADE_REQUIRED => "426 UPGRADE REQUIRED"@,
            ResponseStatusCode::PRECONDITION_REQUIRED => "428 PRECONDITION REQUIRED"@,
            ResponseStatusCode::TOO_MANY_REQUESTS => "429 TOO MANY_REQUESTS"@,
            ResponseStatusCode::REQUEST_HEADER_FIELDS_TOO_LARGE => "431 REQUEST HEADER FIELDS TOO LARGE"@,
            ResponseStatusCode::UNAVAILABLE_FOR_LEGAL_REASONS => "451 UNAVAILABLE FOR LEGAL REASONS"@,
            ResponseStatusCode::INTERNAL_SERVER_ERROR => "500 INTERNAL SERVER ERROR"@,
            ResponseStatusCode::NOT_IMPLEMENTED => "501 NOT IMPLEMENTED"@,
            ResponseStatusCode::BAD_GATEWAY => "502 BAD GATEWAY"@,
            ResponseStatusCode::SERVICE_UNAVAILABLE => "503 SERVICE UNAVAILABLE"@,
            ResponseStatusCode::GATEWAY_TIMEOUT => "504 GATEWAY TIMEOUT"@,
            ResponseStatusCode::HTTP_VERSION_NOT_SUPPORTED => "505 HTTP VERSION NOT SUPPORTED"@,
            ResponseStatusCode::VARIANT_ALSO_NEGOTIATES => "506 VARIANT ALSO NEGOTIATES"@,
            ResponseStatusCode::INSUFFICIENT_STORAGE => "507 INSUFFICIENT STORAGE"@,
            ResponseStatusCode::LOOP_DETECTED => "508 LOOP DETECTED"@,
            ResponseStatusCode::NOT_EXTENDED => "510 NOT EXTENDED"@,
            ResponseStatusCode::NETWORK_AUTHENTICATION_REQUIRED => "511 NETWORK AUTHENTICATION REQUIRED"@,
        }
    }

    /// The code and reason phrase of this status.
    pub fn as_str(&self) -> (r: &'static str)
        ensures
            r@ == self.text(),
    {
        match self {
            ResponseStatusCode::CONTINUE => "100 CONTINUE",
            ResponseStatusCode::SWITCHING_PROTOCOLS => "101 SWITCHING PROTOCOLS",
            ResponseStatusCode::EARLY_HINTS => "102 EARLY HINTS",
            ResponseStatusCode::OK => "200 OK",
            ResponseStatusCode::CREATED => "201 CREATED",
            ResponseStatusCode::ACCEPTED => "202 ACCEPTED",
            ResponseStatusCode::NON_AUTHORITATIVE_INFORMATION => "203 NON AUTHORITATIVE INFORMATION",
            ResponseStatusCode::NO_CONTENT => "204 NO CONTENT",
            ResponseStatusCode::RESET_CONTENT => "205 RESET CONTENT",
            ResponseStatusCode::PARTIAL_CONTENT => "206 PARTIAL CONTENT",
            ResponseStatusCode::MULTIPLE_CHOICES => "300 MULTIPLE CHOICES",
            ResponseStatusCode::MOVED_PERMANENTLY => "301 MOVED PERMANENTLY",
            ResponseStatusCode::FOUND => "302 FOUND",
            ResponseStatusCode::SEE_OTHER => "303 SEE OTHER",
            ResponseStatusCode::NOT_MODIFIED => "304 NOT MODIFIED",
            ResponseStatusCode::TEMPORARY_REDIRECT => "305 TEMPORARY REDIRECT",
            ResponseStatusCode::PERMANENT_REDIRECT => "306 PERMANENT REDIRECT",
            ResponseStatusCode::BAD_REQUEST => "400 BAD REQUEST",
            ResponseStatusCode::UNAUTHORIZED => "401 UNAUTHORIZED",
            ResponseStatusCode::PAYMENT_REQUIRED => "402 PAYMENT REQUIRED",
            ResponseStatusCode::FORBIDDEN => "403 FORBIDDEN",
            ResponseStatusCode::NOT_FOUND => "404 NOT FOUND",
            ResponseStatusCode::METHOD_NOT_ALLOWED => "405 METHOD NOT ALLOWED",
            ResponseStatusCode::NOT_ACCEPTABLE => "406 NOT ACCEPTABLE",
            ResponseStatusCode::PROXY_AUTHENTICATION_REQUIRED => "407 PROXY AUTHENTICATION REQUIRED",
            ResponseStatusCode::REQUEST_TIMEOUT => "408 REQUEST TIMEOUT",
            ResponseStatusCode::CONFLICT => "409 CONFLICT",
            ResponseStatusCode::GONE => "410 GONE",
            ResponseStatusCode::LENGTH_REQUIRED => "411 LENGTH REQUIRED",
            ResponseStatusCode::PRECONDITION_FAILED => "412 PRECONDITION FAILED",
            ResponseStatusCode::PAYLOAD_TOO_LARGE => "413 PAYLOAD TOO LARGE",
            ResponseStatusCode::URI_TOO_LONG => "414 URI TOO LONG",
            ResponseStatusCode::UNSUPPORTED_MEDIA_TYPE => "415 UNSUPPORTED MEDIA TYPE",
            ResponseStatusCode::RANGE_NOT_SATISFIABLE => "416 RANGE NOT SATISFIABLE",
            ResponseStatusCode::EXPECTATION_FAILED => "417 EXPECTATION FAILED",
            ResponseStatusCode::IM_A_TEAPOT => "418 IM A_TEAPOT",
            ResponseStatusCode::UNPROCESSABLE_ENTITY => "422 UNPROCESSABLE ENTITY",
            ResponseStatusCode::TOO_EARLY => "425 TOO EARLY",
            ResponseStatusCode::UPGRADE_REQUIRED => "426 UPGRADE REQUIRED",
            ResponseStatusCode::PRECONDITION_REQUIRED => "428 PRECONDITION REQUIRED",
            ResponseStatusCode::TOO_MANY_REQUESTS => "429 TOO MANY_REQUESTS",
            ResponseStatusCode::REQUEST_HEADER_FIELDS_TOO_LARGE => "431 REQUEST HEADER FIELDS TOO LARGE",
            ResponseStatusCode::UNAVAILABLE_FOR_LEGAL_REASONS => "451 UNAVAILABLE FOR LEGAL REASONS",
            ResponseStatusCode::INTERNAL_SERVER_ERROR => "500 INTERNAL SERVER ERROR",
            ResponseStatusCode::NOT_IMPLEMENTED => "501 NOT IMPLEMENTED",
            ResponseStatusCode::BAD_GATEWAY => "502 BAD GATEWAY",
            ResponseStatusCode::SERVICE_UNAVAILABLE => "503 SERVICE UNAVAILABLE",
            ResponseStatusCode::GATEWAY_TIMEOUT => "504 GATEWAY TIMEOUT",
            ResponseStatusCode::HTTP_VERSION_NOT_SUPPORTED => "505 HTTP VERSION NOT SUPPORTED",
            ResponseStatusCode::VARIANT_ALSO_NEGOTIATES => "506 VARIANT ALSO NEGOTIATES",
            ResponseStatusCode::INSUFFICIENT_STORAGE => "507 INSUFFICIENT STORAGE",
            ResponseStatusCode::LOOP_DETECTED => "508 LOOP DETECTED",
            ResponseStatusCode::NOT_EXTENDED => "510 NOT EXTENDED",
            ResponseStatusCode::NETWORK_AUTHENTICATION_REQUIRED => "511 NETWORK AUTHENTICATION REQUIRED",
        }
    }
}

} // verus!
