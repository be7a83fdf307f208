//! The bodies of the two requests.

use crate::client::GrenacheClient;
use crate::escape::{
    escape_json, is_plain, json_escaped, lemma_plain_text_is_unchanged,
};
use vstd::prelude::*;
use vstd::string::*;

verus! {

/// Whether a character is a decimal digit or one of the letters `a` to `f`.
pub open spec fn is_lower_hex(c: char) -> bool {
    ('0' <= c && c <= '9') || ('a' <= c && c <= 'f')
}

/// The form of a request id: thirty-two lower-case hexadecimal digits in
/// groups of 8, 4, 4, 4 and 12, with a hyphen between the groups.
pub open spec fn is_request_id(rid: Seq<char>) -> bool {
    &&& rid.len() == 36
    &&& forall|i: int|
        0 <= i < 36 ==> if i == 8 || i == 13 || i == 18 || i == 23 {
            #[trigger] rid[i] == '-'
        } else {
            is_lower_hex(rid[i])
        }
}

/// The body of a lookup request for a service, with the given request id: a
/// JSON object whose `data` is the service and whose `rid` is the id.
pub open spec fn lookup_payload(service: Seq<char>, rid: Seq<char>) -> Seq<char> {
    "{\"data\": \""@ + json_escaped(service) + "\", \"rid\": \""@ + json_escaped(rid) + "\"}"@
}

/// The body of an announce request for a service on a port, with the given
/// request id: a JSON object whose `data` is the array of the service and the
/// port, and whose `rid` is the id.
pub open spec fn announce_payload(service: Seq<char>, port: u16, rid: Seq<char>) -> Seq<char> {
    "{\"data\": [\""@ + json_escaped(service) + "\", "@ + decimal(port as nat)
        + "], \"rid\": \""@ + json_escaped(rid) + "\"}"@
}

/// The character of a decimal digit.
pub open spec fn digit(d: int) -> char {
    if d == 0 {
        '0'
    } else if d == 1 {
        '1'
    } else if d == 2 {
        '2'
    } else if d == 3 {
        '3'
    } else if d == 4 {
        '4'
    } else if d == 5 {
        '5'
    } else if d == 6 {
        '6'
    } else if d == 7 {
        '7'
    } else if d == 8 {
        '8'
    } else {
        '9'
    }
}

/// A number in decimal, without leading zeros.
pub open spec fn decimal(n: nat) -> Seq<char>
    decreases n,
{
    if n < 10 {
        seq![digit(n as int)]
    } else {
        decimal(n / 10).push(digit((n % 10) as int))
    }
}

/// Calls `Uuid::new_v4` and `to_string` on what it returns. Each call gives
/// another id, chosen at random, so the contract states the form that every
/// one of them has: the hyphenated lower-case form. The call panics where the
/// system cannot supply random bytes.
#[verifier::external_body]
fn fresh_request_id() -> (rid: String)
    ensures
        is_request_id(rid@),
{
    uuid::Uuid::new_v4().to_string()
}

fn digit_text(d: u16) -> (text: &'static str)
    requires
        d < 10,
    ensures
        text@ == seq![digit(d as int)],
{
    proof {
        reveal_strlit("0");
        reveal_strlit("1");
        reveal_strlit("2");
        reveal_strlit("3");
        reveal_strlit("4");
        reveal_strlit("5");
        reveal_strlit("6");
        reveal_strlit("7");
        reveal_strlit("8");
        reveal_strlit("9");
    }
    let text = if d == 0 {
        "0"
    } else if d == 1 {
        "1"
    } else if d == 2 {
        "2"
    } else if d == 3 {
        "3"
    } else if d == 4 {
        "4"
    } else if d == 5 {
        "5"
    } else if d == 6 {
        "6"
    } else if d == 7 {
        "7"
    } else if d == 8 {
        "8"
    } else {
        "9"
    };
    assert(text@ =~= seq![digit(d as int)]);
    text
}

/// A port number in decimal.
pub fn port_text(port: u16) -> (text: String)
    ensures
        text@ == decimal(port as nat),
    decreases port,
{
    if port < 10 {
        String::from_str(digit_text(port))
    } else {
        let mut text = port_text(port / 10);
        text.append(digit_text(port % 10));
        text
    }
}

/// A request id is written inside a JSON string as it is.
pub proof fn lemma_request_id_is_unchanged(rid: Seq<char>)
    requires
        is_request_id(rid),
    ensures
        json_escaped(rid) == rid,
{
    assert forall|i: int| 0 <= i < rid.len() implies is_plain(#[trigger] rid[i]) by {
        if i == 8 || i == 13 || i == 18 || i == 23 {
            assert(rid[i] == '-');
        } else {
            assert(is_lower_hex(rid[i]));
        }
    }
    lemma_plain_text_is_unchanged(rid);
}

impl GrenacheClient {
    /// A fresh request id.
    pub fn uuid() -> (rid: String)
        ensures
            is_request_id(rid@),
    {
        fresh_request_id()
    }

    /// The body of a lookup request with the given request id. The service
    /// and the id are escaped, so the body is a JSON object for any service.
    pub fn lookup_payload_with_rid(service: &str, rid: &str) -> (payload: String)
        ensures
            payload@ == lookup_payload(service@, rid@),
    {
        let service = escape_json(service);
        let rid = escape_json(rid);
        let mut payload = String::from_str("{\"data\": \"");
        payload.append(service.as_str());
        payload.append("\", \"rid\": \"");
        payload.append(rid.as_str());
        payload.append("\"}");
        payload
    }

    /// The body of an announce request with the given request id. The
    /// service and the id are escaped, so the body is a JSON object for any
    /// service.
    pub fn announce_payload_with_rid(service: &str, port: u16, rid: &str) -> (payload: String)
        ensures
            payload@ == announce_payload(service@, port, rid@),
    {
        let service = escape_json(service);
        let port = port_text(port);
        let rid = escape_json(rid);
        let mut payload = String::from_str("{\"data\": [\"");
        payload.append(service.as_str());
        payload.append("\", ");
        payload.append(port.as_str());
        payload.append("], \"rid\": \"");
        payload.append(rid.as_str());
        payload.append("\"}");
        payload
    }

    /// The body of a lookup request for a service. Each call mints a request
    /// id of its own.
    pub fn create_lookup_payload(service: &str) -> (payload: String)
        ensures
            exists|rid: Seq<char>|
                is_request_id(rid) && payload@ == #[trigger] lookup_payload(service@, rid),
    {
        let rid = fresh_request_id();
        let payload = Self::lookup_payload_with_rid(service, rid.as_str());
        assert(payload@ == lookup_payload(service@, rid@));
        payload
    }

    /// The body of an announce request for a service on a port. Each call
    /// mints a request id of its own.
    pub fn create_announce_payload(service: &str, port: u16) -> (payload: String)
        ensures
            exists|rid: Seq<char>|
                is_request_id(rid) && payload@ == #[trigger] announce_payload(service@, port, rid),
    {
        let rid = fresh_request_id();
        let payload = Self::announce_payload_with_rid(service, port, rid.as_str());
        assert(payload@ == announce_payload(service@, port, rid@));
        payload
    }
}

} // verus!
