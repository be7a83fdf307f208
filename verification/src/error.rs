//! The client's error type.

use vstd::prelude::*;
use vstd::string::*;

verus! {

/// The kinds of failure that the client reports.
#[derive(Debug, Clone, Copy, PartialEq, Eq, Structural)]
pub enum ErrorKind {
    /// The gateway could not be reached, or the exchange did not complete.
    Transport,
    /// The response is not UTF-8 text.
    Encoding,
    /// The response is text, but not JSON.
    Decode,
    /// The response is JSON, but not an array of usable host names.
    InvalidResponse,
    /// The service is announced already.
    AlreadyAnnouncing,
    /// The service is not announced.
    NotAnnouncing,
}

/// A failure of the client: its kind and a message for the reader.
#[derive(Debug, Clone, PartialEq, Eq)]
pub struct Error {
    pub kind: ErrorKind,
    pub msg: String,
}

impl Error {
    /// An error of the given kind with the given message.
    pub fn new(kind: ErrorKind, msg: &str) -> (e: Error)
        ensures
            e.kind == kind,
            e.msg@ == msg@,
    {
        Error { kind, msg: String::from_str(msg) }
    }

    /// The message, as it is shown to a reader.
    pub fn to_string(&self) -> (s: String)
        ensures
            s@ == self.msg@,
    {
        self.msg.clone()
    }
}

} // verus!
