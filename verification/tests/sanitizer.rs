use aizasy::headers::{is_denied_name, sanitize, Header};

fn header(name: &[u8], value: &[u8]) -> Header {
    Header { name: name.to_vec(), value: value.to_vec() }
}

fn names(headers: &[Header]) -> Vec<Vec<u8>> {
    headers.iter().map(|h| h.name.clone()).collect()
}

#[test]
fn denylist_names_are_denied() {
    assert!(is_denied_name(&b"host".to_vec()));
    assert!(is_denied_name(&b"cf-connecting-ip".to_vec()));
    assert!(is_denied_name(&b"cf-ipcountry".to_vec()));
    assert!(is_denied_name(&b"x-forwarded-for".to_vec()));
    assert!(is_denied_name(&b"x-real-ip".to_vec()));
    assert!(is_denied_name(&b"content-length".to_vec()));
}

#[test]
fn denial_is_case_insensitive() {
    assert!(is_denied_name(&b"Host".to_vec()));
    assert!(is_denied_name(&b"HOST".to_vec()));
    assert!(is_denied_name(&b"X-Forwarded-For".to_vec()));
    assert!(is_denied_name(&b"CF-Connecting-IP".to_vec()));
    assert!(is_denied_name(&b"Content-Length".to_vec()));
}

#[test]
fn ordinary_names_pass() {
    assert!(!is_denied_name(&b"authorization".to_vec()));
    assert!(!is_denied_name(&b"content-type".to_vec()));
    assert!(!is_denied_name(&b"accept".to_vec()));
    assert!(!is_denied_name(&b"x-api-key".to_vec()));
    assert!(!is_denied_name(&b"hostname".to_vec()));
    assert!(!is_denied_name(&b"".to_vec()));
}

#[test]
fn sanitize_removes_all_denied_headers() {
    let inbound = vec![
        header(b"Host", b"example.com"),
        header(b"cf-connecting-ip", b"10.0.0.1"),
        header(b"CF-IPCountry", b"DE"),
        header(b"x-forwarded-for", b"1.2.3.4"),
        header(b"X-Real-IP", b"5.6.7.8"),
        header(b"content-length", b"42"),
    ];
    let outbound = sanitize(inbound);
    assert!(outbound.is_empty());
}

#[test]
fn sanitize_keeps_other_headers_in_order() {
    let inbound = vec![
        header(b"accept", b"*/*"),
        header(b"Host", b"example.com"),
        header(b"content-type", b"application/json"),
        header(b"x-forwarded-for", b"1.2.3.4"),
        header(b"x-api-key", b"k"),
    ];
    let outbound = sanitize(inbound);
    assert_eq!(
        names(&outbound),
        vec![b"accept".to_vec(), b"content-type".to_vec(), b"x-api-key".to_vec()]
    );
    assert_eq!(outbound[0].value, b"*/*".to_vec());
    assert_eq!(outbound[1].value, b"application/json".to_vec());
    assert_eq!(outbound[2].value, b"k".to_vec());
}

#[test]
fn sanitize_keeps_authorization_and_drops_forwarded_for() {
    let inbound = vec![
        header(b"x-forwarded-for", b"1.2.3.4"),
        header(b"authorization", b"Bearer xyz"),
    ];
    let outbound = sanitize(inbound);
    assert_eq!(outbound.len(), 1);
    assert_eq!(outbound[0].name, b"authorization".to_vec());
    assert_eq!(outbound[0].value, b"Bearer xyz".to_vec());
}

#[test]
fn sanitizing_twice_equals_sanitizing_once() {
    let inbound = vec![
        header(b"Host", b"example.com"),
        header(b"accept", b"*/*"),
        header(b"X-Real-IP", b"5.6.7.8"),
        header(b"authorization", b"Bearer t"),
    ];
    let copy = vec![
        header(b"Host", b"example.com"),
        header(b"accept", b"*/*"),
        header(b"X-Real-IP", b"5.6.7.8"),
        header(b"authorization", b"Bearer t"),
    ];
    let once = sanitize(copy);
    let twice = sanitize(sanitize(inbound));
    assert_eq!(once.len(), twice.len());
    for (a, b) in once.iter().zip(twice.iter()) {
        assert_eq!(a.name, b.name);
        assert_eq!(a.value, b.value);
    }
}

#[test]
fn sanitize_of_empty_set_is_empty() {
    let outbound = sanitize(Vec::new());
    assert!(outbound.is_empty());
}
