use cert_check::outcome::Failure;
use cert_check::target::{ensure_https, host_and_port};

#[test]
fn bare_host_gets_scheme() {
    assert_eq!(ensure_https("example.com"), "https://example.com");
}

#[test]
fn https_target_is_unchanged() {
    assert_eq!(ensure_https("https://example.com"), "https://example.com");
}

#[test]
fn normalization_is_idempotent() {
    let once = ensure_https("example.com");
    assert_eq!(ensure_https(&once), once);
    let other = ensure_https("https://example.org:8443/path");
    assert_eq!(ensure_https(&other), other);
}

#[test]
fn non_https_scheme_is_prefixed_blindly() {
    assert_eq!(ensure_https("http://example.com"), "https://http://example.com");
    assert_eq!(ensure_https(""), "https://");
}

#[test]
fn host_and_default_port() {
    assert_eq!(
        host_and_port("https://example.com"),
        Ok(("example.com".to_string(), 443))
    );
}

#[test]
fn explicit_port_wins() {
    assert_eq!(
        host_and_port("https://example.com:8443"),
        Ok(("example.com".to_string(), 8443))
    );
}

#[test]
fn path_and_case_are_handled_by_url_parsing() {
    assert_eq!(
        host_and_port("https://EXAMPLE.com/some/path?q=1"),
        Ok(("example.com".to_string(), 443))
    );
}

#[test]
fn missing_host_is_invalid() {
    assert_eq!(host_and_port("https://"), Err(Failure::TargetInvalid));
}

#[test]
fn unparseable_url_is_invalid() {
    assert_eq!(host_and_port("not a url"), Err(Failure::TargetInvalid));
}
