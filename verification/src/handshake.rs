//! Handshake policy for incoming WebSocket connections: optional
//! origin allow-listing and optional API-key authentication with a
//! constant-time comparison.

use vstd::prelude::*;

use vstd::string::StringSliceAdditionalSpecFns;

use crate::jobs::string_list_contains;

verus! {

/// Maximum number of concurrent WebSocket clients.
pub const MAX_CONCURRENT_CLIENTS: usize = 1000;

/// Buffer size for per-client outbound message channels.
pub const CLIENT_MESSAGE_BUFFER: usize = 256;

/// Default WebSocket port.
pub const DEFAULT_WEBSOCKET_PORT: u16 = 9000;

/// Default bind address for the WebSocket server.
pub const DEFAULT_BIND_ADDRESS: &'static str = "127.0.0.1";

/// Default pipeline id substituted when a request omits one.
pub const DEFAULT_PIPELINE_ID: &'static str = "0";

/// Relies on subtle's `ConstantTimeEq` for byte slices: the result says
/// whether the two slices hold the same bytes, and slices of different
/// lengths are never equal; the comparison runs in time independent of
/// the contents.
#[verifier::external_body]
fn ct_bytes_eq(a: &[u8], b: &[u8]) -> (r: bool)
    ensures
        r == (a@ == b@),
{
    bool::from(subtle::ConstantTimeEq::ct_eq(a, b))
}

/// Whether `origin` stands in the allow-list, by exact comparison.
pub fn origin_in_list(allowed: &Vec<String>, origin: &str) -> (r: bool)
    ensures
        r == exists|i: int| 0 <= i < allowed@.len() && (#[trigger] allowed@[i])@ == origin@,
{
    string_list_contains(allowed, origin)
}

/// The origin policy: with no configured allow-list every origin passes;
/// with one, a request without an `Origin` header passes (non-browser
/// clients), and a present origin must stand in the list exactly.
pub open spec fn origin_accepted(allowed: Option<Seq<String>>, origin: Option<Seq<char>>) -> bool {
    match allowed {
        None => true,
        Some(list) => match origin {
            None => true,
            Some(o) => exists|i: int| 0 <= i < list.len() && (#[trigger] list[i])@ == o,
        },
    }
}

/// Decides whether a connection's origin is acceptable.
pub fn check_origin(allowed_origins: &Option<Vec<String>>, origin: Option<&str>) -> (r: bool)
    ensures
        r == origin_accepted(
            match allowed_origins {
                Some(v) => Some(v@),
                None => None,
            },
            match origin {
                Some(o) => Some(o@),
                None => None,
            },
        ),
{
    match allowed_origins {
        None => true,
        Some(list) => match origin {
            None => true,
            Some(o) => origin_in_list(list, o),
        },
    }
}

/// What the authentication policy answers for a connection attempt.
#[derive(Debug, Clone, Copy, PartialEq, Eq, Structural)]
pub enum AuthDecision {
    /// Let the handshake proceed.
    Accept,
    /// No credentials were presented although a key is required.
    Unauthorized,
    /// Credentials were presented and do not match.
    Forbidden,
}

/// The authentication policy: with no configured key everything passes;
/// with one, a missing `Authorization` header is unauthorized, and a
/// present value must match the key byte for byte (compared in constant
/// time).
pub open spec fn auth_decision(expected: Option<Seq<char>>, header: Option<&str>) -> AuthDecision {
    match expected {
        None => AuthDecision::Accept,
        Some(k) => match header {
            None => AuthDecision::Unauthorized,
            Some(h) => if h.spec_bytes() == vstd::utf8::encode_utf8(k) {
                AuthDecision::Accept
            } else {
                AuthDecision::Forbidden
            },
        },
    }
}

/// Decides whether a connection's `Authorization` header satisfies the
/// configured API key.
pub fn check_authorization(api_key: &Option<String>, header: Option<&str>) -> (r: AuthDecision)
    ensures
        r == auth_decision(
            match api_key {
                Some(k) => Some(k@),
                None => None,
            },
            header,
        ),
{
    match api_key {
        None => AuthDecision::Accept,
        Some(k) => match header {
            None => AuthDecision::Unauthorized,
            Some(h) => {
                if ct_bytes_eq(h.as_bytes(), k.as_str().as_bytes()) {
                    AuthDecision::Accept
                } else {
                    AuthDecision::Forbidden
                }
            },
        },
    }
}

} // verus!
