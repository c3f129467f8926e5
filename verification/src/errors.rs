//! Classified per-request failures and their client-visible form.  A relay
//! failure never crashes the process: it becomes exactly one non-streamed
//! HTTP error response, `400` when the inbound body broke the configured
//! size cap, `502` for every upstream failure.

use vstd::prelude::*;
use crate::ascii::{bytes_of, str_bytes};

verus! {

/// Why the upstream exchange failed.
#[derive(Clone, Copy, Debug)]
pub enum UpstreamFailureKind {
    /// The connection could not be established (refused, unresolvable, ...).
    Unreachable,
    /// The connect or request timeout elapsed.
    Timeout,
    /// The TLS handshake or certificate validation failed.
    Tls,
    /// The upstream spoke, but not valid HTTP.
    Protocol,
}

/// A per-request relay failure.
#[derive(Debug)]
pub enum RelayError {
    /// The inbound body exceeded the configured cap; the upstream was never
    /// contacted.
    InboundBodyTooLarge,
    /// The upstream exchange failed, with a human-readable description.
    Upstream { kind: UpstreamFailureKind, message: Vec<u8> },
}

/// The HTTP status a relay failure is surfaced with.
pub open spec fn spec_status_of(e: RelayError) -> u16 {
    match e {
        RelayError::InboundBodyTooLarge => 400,
        RelayError::Upstream { .. } => 502,
    }
}

/// The plain-text diagnostic body a relay failure is surfaced with.
pub open spec fn spec_body_of(e: RelayError) -> Seq<u8> {
    match e {
        RelayError::InboundBodyTooLarge => bytes_of(
            "Proxy Error: request body exceeds the configured size cap"@,
        ),
        RelayError::Upstream { message, .. } => bytes_of("Proxy Error: "@) + message@,
    }
}

/// The HTTP status a relay failure is surfaced with: `400` for an oversized
/// inbound body, `502` for every upstream failure.
pub fn status_of(e: &RelayError) -> (r: u16)
    ensures
        r == spec_status_of(*e),
{
    match e {
        RelayError::InboundBodyTooLarge => 400,
        RelayError::Upstream { .. } => 502,
    }
}

/// The plain-text diagnostic body for a relay failure; an upstream failure
/// keeps its underlying error text.
pub fn body_of(e: &RelayError) -> (r: Vec<u8>)
    ensures
        r@ == spec_body_of(*e),
{
    proof {
        reveal_strlit("Proxy Error: request body exceeds the configured size cap");
        reveal_strlit("Proxy Error: ");
    }
    match e {
        RelayError::InboundBodyTooLarge => str_bytes(
            "Proxy Error: request body exceeds the configured size cap",
        ),
        RelayError::Upstream { message, .. } => {
            let mut r = str_bytes("Proxy Error: ");
            r.extend_from_slice(message.as_slice());
            proof {
                assert(r@ =~= bytes_of("Proxy Error: "@) + message@);
            }
            r
        },
    }
}

} // verus!
