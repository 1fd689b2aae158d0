use cert_check::outcome::{
    check_batch, outcome_of_event, render_line, CheckOutcome, Failure, FetchEvent, Severity,
    CERT_EXPIRED_CODE,
};

const NOW: i64 = 1700000000;

fn not_after(text: &str) -> FetchEvent {
    FetchEvent::NotAfter { text: text.to_string() }
}

#[test]
fn good_timestamp_is_classified() {
    let outcome = outcome_of_event(not_after("Jan  2 15:04:05 2030 GMT"), NOW);
    assert_eq!(
        outcome,
        CheckOutcome::Classified { severity: Severity::Valid, expiration: 1893596645 }
    );
}

#[test]
fn severity_follows_the_clock() {
    let outcome = outcome_of_event(not_after("Jan  2 15:04:05 2030 GMT"), 1893596645 + 1);
    assert_eq!(
        outcome,
        CheckOutcome::Classified { severity: Severity::Expired, expiration: 1893596645 }
    );
}

#[test]
fn bad_timestamp_reports_the_raw_text() {
    let outcome = outcome_of_event(not_after("not-a-date"), NOW);
    assert_eq!(
        outcome,
        CheckOutcome::Failed {
            failure: Failure::TimestampUnparseable { raw: "not-a-date".to_string() }
        }
    );
}

#[test]
fn transport_failures_map_to_their_kinds() {
    assert_eq!(
        outcome_of_event(FetchEvent::ConnectError, NOW),
        CheckOutcome::Failed { failure: Failure::ConnectFailed }
    );
    assert_eq!(
        outcome_of_event(FetchEvent::TimedOut, NOW),
        CheckOutcome::Failed { failure: Failure::Timeout }
    );
    assert_eq!(
        outcome_of_event(FetchEvent::CertificateAbsent, NOW),
        CheckOutcome::Failed { failure: Failure::NoCertificate }
    );
}

#[test]
fn expired_certificate_handshake_is_distinguished() {
    let expired = outcome_of_event(
        FetchEvent::HandshakeError { verify_code: CERT_EXPIRED_CODE },
        NOW,
    );
    assert_eq!(
        expired,
        CheckOutcome::Failed { failure: Failure::HandshakeFailed { expired: true } }
    );
    // an untrusted-CA rejection (or any other code) is the other variant
    let untrusted = outcome_of_event(FetchEvent::HandshakeError { verify_code: 19 }, NOW);
    assert_eq!(
        untrusted,
        CheckOutcome::Failed { failure: Failure::HandshakeFailed { expired: false } }
    );
    assert_ne!(expired, untrusted);
}

#[test]
fn batch_of_three_with_unreachable_second_target() {
    let events = vec![
        not_after("Jan  2 15:04:05 2030 GMT"),
        FetchEvent::ConnectError,
        not_after("Jun 30 08:00:00 2031 GMT"),
    ];
    let outcomes = check_batch(events, NOW);
    assert_eq!(outcomes.len(), 3);
    assert!(matches!(outcomes[0], CheckOutcome::Classified { .. }));
    assert_eq!(
        outcomes[1],
        CheckOutcome::Failed { failure: Failure::ConnectFailed }
    );
    assert!(matches!(outcomes[2], CheckOutcome::Classified { .. }));
}

#[test]
fn batch_outcomes_keep_input_order() {
    let events = vec![FetchEvent::TimedOut, FetchEvent::CertificateAbsent];
    let outcomes = check_batch(events, NOW);
    assert_eq!(
        outcomes,
        vec![
            CheckOutcome::Failed { failure: Failure::Timeout },
            CheckOutcome::Failed { failure: Failure::NoCertificate },
        ]
    );
}

#[test]
fn rendered_line_for_valid_certificate() {
    let outcome = CheckOutcome::Classified { severity: Severity::Valid, expiration: 1893596645 };
    assert_eq!(
        render_line("https://example.com", &outcome),
        "The certificate for https://example.com is valid until 2030-01-02 15:04:05 UTC"
    );
}

#[test]
fn rendered_line_for_expired_certificate() {
    let outcome = CheckOutcome::Classified { severity: Severity::Expired, expiration: 0 };
    assert_eq!(
        render_line("https://example.com", &outcome),
        "The certificate for https://example.com has expired on 1970-01-01 00:00:00 UTC"
    );
}

#[test]
fn rendered_lines_for_expiring_certificates() {
    let soon = CheckOutcome::Classified {
        severity: Severity::CriticalWithin24h,
        expiration: 1893596645,
    };
    assert_eq!(
        render_line("https://a.example", &soon),
        "The certificate for https://a.example will expire within 24 hours on 2030-01-02 15:04:05 UTC"
    );
    let week = CheckOutcome::Classified {
        severity: Severity::WarningWithinWeek,
        expiration: 1893596645,
    };
    assert_eq!(
        render_line("https://a.example", &week),
        "The certificate for https://a.example will expire within one week on 2030-01-02 15:04:05 UTC"
    );
}

#[test]
fn rendered_lines_distinguish_expired_handshake_from_other_failures() {
    let expired = CheckOutcome::Failed { failure: Failure::HandshakeFailed { expired: true } };
    assert_eq!(
        render_line("https://example.com", &expired),
        "The certificate for https://example.com: handshake failed: certificate has expired"
    );
    let other = CheckOutcome::Failed { failure: Failure::HandshakeFailed { expired: false } };
    assert_eq!(
        render_line("https://example.com", &other),
        "Failed to check the certificate for https://example.com: handshake failed"
    );
}

#[test]
fn rendered_lines_for_remaining_failures() {
    let invalid = CheckOutcome::Failed { failure: Failure::TargetInvalid };
    assert_eq!(
        render_line("https://", &invalid),
        "Failed to check the certificate for https://: invalid URL: missing host or port"
    );
    let unparseable = CheckOutcome::Failed {
        failure: Failure::TimestampUnparseable { raw: "bogus".to_string() },
    };
    assert_eq!(
        render_line("https://example.com", &unparseable),
        "Failed to check the certificate for https://example.com: failed to parse date: bogus"
    );
    let timeout = CheckOutcome::Failed { failure: Failure::Timeout };
    assert_eq!(
        render_line("https://example.com", &timeout),
        "Failed to check the certificate for https://example.com: timed out"
    );
}
