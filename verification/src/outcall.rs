//! What goes out to a remote service and what comes back, as plain values.
//!
//! The library performs no request itself. It says which request to make,
//! and reads the outcome that its caller hands back.

use vstd::prelude::*;
use vstd::string::*;
use vstd::utf8::*;

verus! {

/// The cycles attached to every request.
pub const OUTCALL_CYCLES: u128 = 2_000_000_000;

/// The only status that counts as success.
pub const STATUS_OK: u128 = 200;

/// One header of a request.
pub struct Header {
    pub name: String,
    pub value: String,
}

/// An HTTPS GET request: its address, its headers and its cycle budget.
pub struct OutcallRequest {
    pub url: String,
    pub headers: Vec<Header>,
    pub cycles: u128,
}

/// How a request ended.
pub enum HttpOutcome {
    /// The service answered.
    Response { status: u128, body: Vec<u8> },
    /// No answer arrived.
    Failed,
}

impl OutcallRequest {
    /// Whether this is the GET request for `url` that announces the canister
    /// as its user agent, accepts `accept`, and carries the fixed budget.
    pub open spec fn is_get(self, url: Seq<char>, accept: Seq<char>) -> bool {
        &&& self.url@ == url
        &&& self.headers@.len() == 2
        &&& self.headers@[0].name@ == "User-Agent"@
        &&& self.headers@[0].value@ == "DFX-Canister"@
        &&& self.headers@[1].name@ == "Accept"@
        &&& self.headers@[1].value@ == accept
        &&& self.cycles == OUTCALL_CYCLES
    }

    /// The GET request for `url` with the fixed user agent and budget.
    pub fn get(url: String, accept: &str) -> (r: OutcallRequest)
        ensures
            r.is_get(url@, accept@),
    {
        let mut headers: Vec<Header> = Vec::new();
        headers.push(
            Header {
                name: String::from_str("User-Agent"),
                value: String::from_str("DFX-Canister"),
            },
        );
        headers.push(Header { name: String::from_str("Accept"), value: String::from_str(accept) });
        OutcallRequest { url, headers, cycles: OUTCALL_CYCLES }
    }
}

/// The text that a successful outcome carries: the body of an answer with
/// status 200, where its bytes are UTF-8. Any other status, a body that is
/// not UTF-8, and no answer carry none.
pub open spec fn success_text(outcome: HttpOutcome) -> Option<Seq<char>> {
    match outcome {
        HttpOutcome::Response { status, body } => if status == STATUS_OK && valid_utf8(body@) {
            Some(decode_utf8(body@))
        } else {
            None
        },
        HttpOutcome::Failed => None,
    }
}

/// Trusted: calls `String::from_utf8` and drops the error. The contract
/// claims that it succeeds exactly on valid UTF-8, with the text that the
/// bytes encode.
#[verifier::external_body]
fn utf8_text(bytes: Vec<u8>) -> (r: Option<String>)
    ensures
        match r {
            Some(s) => valid_utf8(bytes@) && s@ == decode_utf8(bytes@),
            None => !valid_utf8(bytes@),
        },
{
    String::from_utf8(bytes).ok()
}

/// The text of a successful outcome.
pub fn response_text(outcome: HttpOutcome) -> (r: Option<String>)
    ensures
        match r {
            Some(s) => success_text(outcome) == Some(s@),
            None => success_text(outcome) is None,
        },
{
    match outcome {
        HttpOutcome::Response { status, body } => {
            if status != STATUS_OK {
                return None;
            }
            utf8_text(body)
        },
        HttpOutcome::Failed => None,
    }
}

} // verus!
