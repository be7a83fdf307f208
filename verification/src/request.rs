//! The requests that the client sends to the gateway.

use crate::client::GrenacheClient;
use crate::error::{Error, ErrorKind};
use crate::payload::{announce_payload, is_request_id, lookup_payload};
use vstd::prelude::*;
use vstd::string::*;

verus! {

/// A POST request with a JSON body, ready to be sent.
#[derive(Debug, Clone, PartialEq, Eq)]
pub struct JsonPostRequest {
    /// Where the request goes: a text that the parser of `hyper::Uri`
    /// accepts.
    pub url: String,
    /// The content type of the body.
    pub content_type: &'static str,
    /// The body.
    pub payload: String,
}

/// The content type of every request.
pub const CONTENT_TYPE: &'static str = "application/json; charset=UTF-8";

/// What the parser of `hyper::Uri` finds wrong with a text: `None` where it
/// accepts the text, else its description of the fault.
pub uninterp spec fn uri_fault(url: Seq<char>) -> Option<Seq<char>>;

/// A fault seen as characters.
pub open spec fn fault_view(fault: Option<String>) -> Option<Seq<char>> {
    match fault {
        None => None,
        Some(fault) => Some(fault@),
    }
}

/// Calls `parse` of `str` for a `hyper::Uri`, and drops the URI. The contract
/// names whether the text is accepted and, where it is not, the parser's
/// description of the fault, as its `to_string` gives it. The text alone
/// decides both.
#[verifier::external_body]
fn find_uri_fault(url: &str) -> (fault: Option<String>)
    ensures
        fault_view(fault) == uri_fault(url@),
{
    match url.parse::<hyper::Uri>() {
        Ok(_) => None,
        Err(fault) => Some(fault.to_string()),
    }
}

impl GrenacheClient {
    /// A POST request to `url` with the body `payload`.
    ///
    /// A text that is no URI gives a `Transport` error with the parser's
    /// description of the fault.
    pub fn create_json_post_request(url: &str, payload: &str) -> (r: Result<JsonPostRequest, Error>)
        ensures
            match uri_fault(url@) {
                None => (r matches Ok(request) && request.url@ == url@ && request.content_type@
                    == CONTENT_TYPE@ && request.payload@ == payload@),
                Some(fault) => (r matches Err(e) && e.kind == ErrorKind::Transport && e.msg@
                    == fault),
            },
            r matches Ok(request) ==> uri_fault(request.url@) is None,
    {
        match find_uri_fault(url) {
            None => Ok(
                JsonPostRequest {
                    url: String::from_str(url),
                    content_type: CONTENT_TYPE,
                    payload: String::from_str(payload),
                },
            ),
            Some(fault) => Err(Error { kind: ErrorKind::Transport, msg: fault }),
        }
    }

    /// The request that announces a service on a port to the gateway at
    /// `url`: a POST to `url` followed by `/announce`, with a fresh request id.
    pub fn announce_request(url: &str, service: &str, port: u16) -> (r: Result<
        JsonPostRequest,
        Error,
    >)
        ensures
            match uri_fault(url@ + "/announce"@) {
                None => (r matches Ok(request) && request.url@ == url@ + "/announce"@
                    && request.content_type@ == CONTENT_TYPE@ && exists|rid: Seq<char>|
                    is_request_id(rid) && request.payload@ == #[trigger] announce_payload(
                        service@,
                        port,
                        rid,
                    )),
                Some(fault) => (r matches Err(e) && e.kind == ErrorKind::Transport && e.msg@
                    == fault),
            },
    {
        let payload = Self::create_announce_payload(service, port);
        let mut target = String::from_str(url);
        target.append("/announce");
        Self::create_json_post_request(target.as_str(), payload.as_str())
    }

    /// The request that looks a service up at the gateway at `url`: a POST to
    /// `url` followed by `/lookup`, with a fresh request id.
    pub fn lookup_request(url: &str, service: &str) -> (r: Result<JsonPostRequest, Error>)
        ensures
            match uri_fault(url@ + "/lookup"@) {
                None => (r matches Ok(request) && request.url@ == url@ + "/lookup"@
                    && request.content_type@ == CONTENT_TYPE@ && exists|rid: Seq<char>|
                    is_request_id(rid) && request.payload@ == #[trigger] lookup_payload(
                        service@,
                        rid,
                    )),
                Some(fault) => (r matches Err(e) && e.kind == ErrorKind::Transport && e.msg@
                    == fault),
            },
    {
        let payload = Self::create_lookup_payload(service);
        let mut target = String::from_str(url);
        target.append("/lookup");
        Self::create_json_post_request(target.as_str(), payload.as_str())
    }
}

} // verus!
