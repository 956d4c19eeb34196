pub mod http_enums;
pub mod text;
pub mod headers;
pub mod json;
pub mod server_errors;
pub mod request;
pub mod response;
pub mod job_queue;
