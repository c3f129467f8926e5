//! The connection pool configuration: one immutable value, built at startup
//! and shared read-only by every relay.  The process edge turns it into a
//! pooled HTTP client; the defaults here are the deployment's contract.

use vstd::prelude::*;

verus! {

/// Default idle lifetime of a pooled upstream connection, in milliseconds.
pub const DEFAULT_POOL_IDLE_TIMEOUT_MS: u64 = 90000;

/// Default cap on idle pooled connections per upstream host.
pub const DEFAULT_POOL_MAX_IDLE_PER_HOST: usize = 50;

/// Default bound on establishing a new upstream connection, in milliseconds.
pub const DEFAULT_CONNECT_TIMEOUT_MS: u64 = 10000;

/// Default HTTP/2 keep-alive interval, in milliseconds.
pub const DEFAULT_KEEP_ALIVE_INTERVAL_MS: u64 = 20000;

/// How upstream connections are established and pooled.  Immutable for the
/// process lifetime.
pub struct ProxyConfig {
    /// Optional outbound proxy URL (SOCKS5 or HTTP) that every upstream
    /// connection is routed through.
    pub proxy_url: Option<Vec<u8>>,
    /// Accept upstream TLS certificates without validation.  A deliberate
    /// opt-in; the process edge logs a warning when it is set.
    pub insecure_tls: bool,
    /// Bound on establishing a new upstream connection, in milliseconds.
    pub connect_timeout_ms: u64,
    /// Optional total-request timeout, in milliseconds.  `None` by default:
    /// a hard wall-clock cap would abort legitimate long-lived streaming
    /// responses.
    pub total_timeout_ms: Option<u64>,
    /// Idle lifetime of a pooled connection, in milliseconds.
    pub pool_idle_timeout_ms: u64,
    /// Cap on idle pooled connections per upstream host.
    pub pool_max_idle_per_host: usize,
    /// Disable Nagle's algorithm to minimize latency of small frames.
    pub tcp_nodelay: bool,
    /// HTTP/2 keep-alive interval, in milliseconds.
    pub keep_alive_interval_ms: u64,
    /// Automatic response decompression.  Always off: compressed bytes pass
    /// through unmodified end to end.
    pub auto_decompression: bool,
}

impl ProxyConfig {
    /// The stock configuration: no outbound proxy, TLS verified, 10 s
    /// connect timeout, no total-request timeout, 90 s pool idle timeout,
    /// 50 idle connections per host, TCP no-delay on, 20 s keep-alive,
    /// decompression off.
    pub fn new() -> (c: ProxyConfig)
        ensures
            c.proxy_url is None,
            !c.insecure_tls,
            c.connect_timeout_ms == DEFAULT_CONNECT_TIMEOUT_MS,
            c.total_timeout_ms is None,
            c.pool_idle_timeout_ms == DEFAULT_POOL_IDLE_TIMEOUT_MS,
            c.pool_max_idle_per_host == DEFAULT_POOL_MAX_IDLE_PER_HOST,
            c.tcp_nodelay,
            c.keep_alive_interval_ms == DEFAULT_KEEP_ALIVE_INTERVAL_MS,
            !c.auto_decompression,
    {
        ProxyConfig {
            proxy_url: None,
            insecure_tls: false,
            connect_timeout_ms: DEFAULT_CONNECT_TIMEOUT_MS,
            total_timeout_ms: None,
            pool_idle_timeout_ms: DEFAULT_POOL_IDLE_TIMEOUT_MS,
            pool_max_idle_per_host: DEFAULT_POOL_MAX_IDLE_PER_HOST,
            tcp_nodelay: true,
            keep_alive_interval_ms: DEFAULT_KEEP_ALIVE_INTERVAL_MS,
            auto_decompression: false,
        }
    }
}

} // verus!
