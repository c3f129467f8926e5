//! Verified core of a transparent single-upstream HTTP reverse proxy.
//!
//! The crate holds the relay engine that turns one inbound request into one
//! outbound request and one client-visible response: header sanitization,
//! upstream URL construction, the body transfer strategy with its size cap,
//! the relay state machine, and the classification of upstream failures.
//! The surrounding process (socket listener, HTTP client, signal handling)
//! feeds it plain values and performs the I/O it decides on.

pub mod ascii;
pub mod body;
pub mod config;
pub mod errors;
pub mod headers;
pub mod relay;
pub mod target;
