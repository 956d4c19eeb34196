use vstd::prelude::*;

verus! {

/// Why a request could not be decoded.
#[derive(Debug, Clone, PartialEq, Eq)]
pub enum RequestErrors {
    /// No usable request line: the text carried is the line, or the header section when no
    /// line names the protocol version.
    HTTPHeader { request: String },
    /// The request line names a method outside the known set.
    HTTPRequest { method: String },
    /// The message has no blank line between its header section and its body.
    UnparsedRequest { request: String },
    /// The body is not empty and is not valid JSON.
    ParseJson { json: String },
}

/// What a `RequestErrors` says, with its text as characters.
pub enum RequestErrorView {
    HTTPHeader(Seq<char>),
    HTTPRequest(Seq<char>),
    UnparsedRequest(Seq<char>),
    ParseJson(Seq<char>),
}

impl View for RequestErrors {
    type V = RequestErrorView;

    open spec fn view(&self) -> RequestErrorView {
        match self {
            RequestErrors::HTTPHeader { request } => RequestErrorView::HTTPHeader(request@),
            RequestErrors::HTTPRequest { method } => RequestErrorView::HTTPRequest(method@),
            RequestErrors::UnparsedRequest { request } => RequestErrorView::UnparsedRequest(request@),
            RequestErrors::ParseJson { json } => RequestErrorView::ParseJson(json@),
        }
    }
}

/// Why a response could not be encoded.
#[derive(Debug, Clone, Copy, PartialEq, Eq)]
pub enum ResponseErrors {
    /// The JSON body could not be written out.
    ParseJson,
}

} // verus!
