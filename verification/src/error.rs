//! The error value every request produces on failure: an optional HTTP
//! status code and a human-readable message.
//!
//! A missing status code means the request never reached the server (a
//! transport failure); a present one means the server answered, either with a
//! non-2xx status or with a 2xx body that failed to decode.

use vstd::prelude::*;

use crate::text::dec_chars;
use crate::text::dec_string;

verus! {

/// An error from one Elasticsearch round trip.
#[derive(Debug)]
pub struct ElasticsearchError {
    code: Option<u16>,
    message_text: String,
}

impl View for ElasticsearchError {
    type V = (Option<u16>, Seq<char>);

    closed spec fn view(&self) -> (Option<u16>, Seq<char>) {
        (self.code, self.message_text@)
    }
}

/// The one-line text of an error: the status code, when there is one,
/// then the message.
pub open spec fn error_text(code: Option<u16>, message: Seq<char>) -> Seq<char> {
    match code {
        Some(c) => "HTTP "@ + dec_chars(c as nat) + " "@ + message,
        None => message,
    }
}

impl ElasticsearchError {
    /// An error reported by the server: it answered with this status.
    pub fn remote(code: u16, message: String) -> (r: ElasticsearchError)
        ensures
            r@ == (Some(code), message@),
    {
        ElasticsearchError { code: Some(code), message_text: message }
    }

    /// A transport failure: no response was received, so there is no status.
    pub fn transport(cause: String) -> (r: ElasticsearchError)
        ensures
            r@ == (None::<u16>, cause@),
    {
        ElasticsearchError { code: None, message_text: cause }
    }

    /// The status code of the response, if one was received.
    pub fn status(&self) -> (r: Option<u16>)
        ensures
            r == self@.0,
    {
        self.code
    }

    /// Whether the server answered "not found", a normal, distinguishable
    /// outcome that callers may treat as non-fatal.
    pub fn is_404(&self) -> (r: bool)
        ensures
            r == (self@.0 == Some(404u16)),
    {
        match self.code {
            Some(c) => c == 404,
            None => false,
        }
    }

    /// The human-readable message.
    pub fn message(&self) -> (r: &str)
        ensures
            r@ == self@.1,
    {
        self.message_text.as_str()
    }

    /// The error as one line of text: the status code, when there is one,
    /// then the message.
    pub fn render(&self) -> (r: String)
        ensures
            r@ == error_text(self@.0, self@.1),
    {
        match self.code {
            Some(c) => {
                let mut s = String::from_str("HTTP ");
                s.append(dec_string(c as u32).as_str());
                s.append(" ");
                s.append(self.message_text.as_str());
                s
            },
            None => self.message_text.clone(),
        }
    }
}

} // verus!
