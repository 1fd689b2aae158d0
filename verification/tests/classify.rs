use cert_check::outcome::{classify, Severity};

const NOW: i64 = 1700000000;

#[test]
fn expired_exactly_when_past() {
    assert_eq!(classify(NOW - 1, NOW), Severity::Expired);
    assert_eq!(classify(NOW - 86400 * 365, NOW), Severity::Expired);
    assert_eq!(classify(i64::MIN, NOW), Severity::Expired);
    // an expiration equal to now is not yet expired
    assert_ne!(classify(NOW, NOW), Severity::Expired);
    assert_ne!(classify(NOW + 1, NOW), Severity::Expired);
}

#[test]
fn critical_within_24_hours() {
    assert_eq!(classify(NOW + 12 * 3600, NOW), Severity::CriticalWithin24h);
    assert_eq!(classify(NOW, NOW), Severity::CriticalWithin24h);
    assert_eq!(classify(NOW + 1, NOW), Severity::CriticalWithin24h);
}

#[test]
fn critical_boundary_is_inclusive() {
    assert_eq!(classify(NOW + 24 * 3600, NOW), Severity::CriticalWithin24h);
    assert_eq!(classify(NOW + 24 * 3600 + 1, NOW), Severity::WarningWithinWeek);
}

#[test]
fn warning_boundary_is_inclusive() {
    assert_eq!(classify(NOW + 7 * 86400, NOW), Severity::WarningWithinWeek);
    assert_eq!(classify(NOW + 7 * 86400 + 1, NOW), Severity::Valid);
}

#[test]
fn far_future_is_valid() {
    assert_eq!(classify(NOW + 90 * 86400, NOW), Severity::Valid);
    assert_eq!(classify(i64::MAX, NOW), Severity::Valid);
}

#[test]
fn classification_with_extreme_now() {
    assert_eq!(classify(0, i64::MAX), Severity::Expired);
    assert_eq!(classify(i64::MAX, i64::MIN), Severity::Valid);
}
