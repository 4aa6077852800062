//! Errors of the server-side stack, with where they arose.
use vstd::prelude::*;
use vstd::string::StringExecFns;

verus! {

/// What went wrong, and in which file and method.
#[derive(Debug, Clone)]
pub struct ErrorDetails {
    pub err_msg: String,
    pub file: String,
    pub method: String,
}

/// An error of one of the server-related layers.
#[derive(Debug, Clone)]
pub enum ServerRelatedError {
    ServerTalker(ErrorDetails),
    Protocol(ErrorDetails),
    ResponseRouter(ErrorDetails),
}

/// `file::method: err_msg`
pub open spec fn details_text(d: ErrorDetails) -> Seq<char> {
    d.file@ + "::"@ + d.method@ + ": "@ + d.err_msg@
}

/// The layer's name, `: `, then the details.
pub open spec fn server_error_text(e: ServerRelatedError) -> Seq<char> {
    match e {
        ServerRelatedError::ServerTalker(d) => "server_talker: "@ + details_text(d),
        ServerRelatedError::Protocol(d) => "protocol: "@ + details_text(d),
        ServerRelatedError::ResponseRouter(d) => "response_router: "@ + details_text(d),
    }
}

impl ErrorDetails {
    /// The text that the error displays.
    pub fn to_display_string(&self) -> (text: String)
        ensures
            text@ == details_text(*self),
    {
        let mut text = self.file.clone();
        text.append("::");
        text.append(self.method.as_str());
        text.append(": ");
        text.append(self.err_msg.as_str());
        assert(text@ =~= details_text(*self));
        text
    }
}

impl ServerRelatedError {
    /// The text that the error displays.
    pub fn to_display_string(&self) -> (text: String)
        ensures
            text@ == server_error_text(*self),
    {
        let (mut text, d) = match self {
            ServerRelatedError::ServerTalker(d) => (String::from_str("server_talker: "), d),
            ServerRelatedError::Protocol(d) => (String::from_str("protocol: "), d),
            ServerRelatedError::ResponseRouter(d) => (String::from_str("response_router: "), d),
        };
        let details = d.to_display_string();
        text.append(details.as_str());
        assert(text@ =~= server_error_text(*self));
        text
    }
}

} // verus!
