use aizasy::config::ProxyConfig;
use aizasy::errors::{RelayError, UpstreamFailureKind};
use aizasy::errors::{body_of, status_of};

#[test]
fn stock_configuration_matches_the_documented_defaults() {
    let c = ProxyConfig::new();
    assert!(c.proxy_url.is_none());
    assert!(!c.insecure_tls);
    assert_eq!(c.connect_timeout_ms, 10_000);
    assert!(c.total_timeout_ms.is_none(), "a total timeout would abort long streams");
    assert_eq!(c.pool_idle_timeout_ms, 90_000);
    assert_eq!(c.pool_max_idle_per_host, 50);
    assert!(c.tcp_nodelay);
    assert_eq!(c.keep_alive_interval_ms, 20_000);
    assert!(!c.auto_decompression, "compressed bytes must pass through unmodified");
}

#[test]
fn oversized_body_maps_to_400() {
    assert_eq!(status_of(&RelayError::InboundBodyTooLarge), 400);
}

#[test]
fn upstream_failures_map_to_502_with_the_error_text() {
    let e = RelayError::Upstream {
        kind: UpstreamFailureKind::Unreachable,
        message: b"connection refused".to_vec(),
    };
    assert_eq!(status_of(&e), 502);
    assert_eq!(body_of(&e), b"Proxy Error: connection refused".to_vec());
}

#[test]
fn oversized_body_diagnostic_names_the_cap() {
    let text = String::from_utf8(body_of(&RelayError::InboundBodyTooLarge)).unwrap();
    assert_eq!(text, "Proxy Error: request body exceeds the configured size cap");
}
