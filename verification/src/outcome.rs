//! Severity classification, the per-target outcome taxonomy, and the batch
//! reporter.

use vstd::prelude::*;
use crate::parse::{parse_not_after, spec_parse_not_after};
use crate::time::{format_instant, representable_epoch, utc_display_of};

verus! {

/// Urgency of a certificate's remaining validity window, most urgent first.
#[derive(Clone, Copy, Debug, PartialEq, Eq, Structural)]
pub enum Severity {
    Expired,
    CriticalWithin24h,
    WarningWithinWeek,
    Valid,
}

/// How checking one target failed.
#[derive(Clone, Debug, PartialEq, Eq)]
pub enum Failure {
    /// The target URL has no parseable host (or no usable port).
    TargetInvalid,
    /// DNS resolution or the TCP connection failed.
    ConnectFailed,
    /// The TLS handshake was rejected; `expired` tells whether the peer's
    /// certificate was already expired, which is a monitoring result of its
    /// own rather than an infrastructure error.
    HandshakeFailed { expired: bool },
    /// The handshake succeeded but no peer certificate was retrievable.
    NoCertificate,
    /// The certificate's expiration text did not match the expected format;
    /// carries the offending raw text.
    TimestampUnparseable { raw: String },
    /// Connecting or handshaking exceeded the configured bound.
    Timeout,
}

pub const SECONDS_PER_DAY: i64 = 86400;

pub const SECONDS_PER_WEEK: i64 = 604800;

/// Severity of a certificate expiring at `expiration`, seen from `now`
/// (both in seconds since the Unix epoch). Boundaries are inclusive on the
/// more urgent side.
pub open spec fn spec_classify(expiration: int, now: int) -> Severity {
    if expiration < now {
        Severity::Expired
    } else if expiration - now <= SECONDS_PER_DAY {
        Severity::CriticalWithin24h
    } else if expiration - now <= SECONDS_PER_WEEK {
        Severity::WarningWithinWeek
    } else {
        Severity::Valid
    }
}

/// Classify the remaining validity window of a certificate expiring at
/// `expiration`, as seen from `now`. Total: every pair of instants maps to
/// a severity.
pub fn classify(expiration: i64, now: i64) -> (r: Severity)
    ensures
        r == spec_classify(expiration as int, now as int),
{
    if expiration < now {
        Severity::Expired
    } else {
        let remaining: i128 = expiration as i128 - now as i128;
        if remaining <= SECONDS_PER_DAY as i128 {
            Severity::CriticalWithin24h
        } else if remaining <= SECONDS_PER_WEEK as i128 {
            Severity::WarningWithinWeek
        } else {
            Severity::Valid
        }
    }
}

/// A certificate classifies as `Expired` exactly when its expiration lies
/// strictly before `now`.
pub proof fn lemma_expired_iff_past(expiration: int, now: int)
    ensures
        spec_classify(expiration, now) == Severity::Expired <==> expiration < now,
{
}

/// What the transport layer saw for one target when it tried to fetch the
/// peer certificate. Only plain values appear here: the caller performs the
/// connection and handshake and reports the result as one of these.
#[derive(Debug, Clone, PartialEq, Eq)]
pub enum FetchEvent {
    /// DNS resolution or the TCP connection failed.
    ConnectError,
    /// Connecting or handshaking exceeded the caller's time bound.
    TimedOut,
    /// The TLS handshake was rejected; carries the TLS library's raw
    /// certificate-verification result code.
    HandshakeError { verify_code: i32 },
    /// The handshake succeeded but no peer certificate was retrievable.
    CertificateAbsent,
    /// The handshake succeeded; carries the peer certificate's
    /// "not valid after" text.
    NotAfter { text: String },
}

/// The reported result for one target: a severity together with the
/// certificate's expiration instant, or a classified failure. Exactly one
/// of the two holds.
#[derive(Debug, Clone, PartialEq, Eq)]
pub enum CheckOutcome {
    Classified { severity: Severity, expiration: i64 },
    Failed { failure: Failure },
}

/// OpenSSL's certificate-verification result code for a peer certificate
/// that is already expired (`X509_V_ERR_CERT_HAS_EXPIRED`).
pub const CERT_EXPIRED_CODE: i32 = 10;

/// An expiration instant of a `Classified` outcome always lies in the range
/// the timestamp wire format can express.
pub open spec fn outcome_wf(o: CheckOutcome) -> bool {
    match o {
        CheckOutcome::Classified { severity, expiration } => representable_epoch(
            expiration as int,
        ),
        CheckOutcome::Failed { failure } => true,
    }
}

/// The outcome that a fetch event determines, as seen from `now`: a
/// connection failure, a timeout and a missing certificate map to their
/// failure kinds; a rejected handshake maps to `HandshakeFailed`, tagged as
/// the expired-certificate variant exactly when the verification code says
/// the peer's certificate has expired; a retrieved "not valid after" text
/// is parsed and, on success, classified, else reported as
/// `TimestampUnparseable` with the offending text.
pub open spec fn spec_outcome_of_event(event: FetchEvent, now: int) -> CheckOutcome {
    match event {
        FetchEvent::ConnectError => (CheckOutcome::Failed { failure: Failure::ConnectFailed }),
        FetchEvent::TimedOut => (CheckOutcome::Failed { failure: Failure::Timeout }),
        FetchEvent::HandshakeError { verify_code } => (CheckOutcome::Failed {
            failure: Failure::HandshakeFailed { expired: verify_code == CERT_EXPIRED_CODE },
        }),
        FetchEvent::CertificateAbsent => (CheckOutcome::Failed {
            failure: Failure::NoCertificate,
        }),
        FetchEvent::NotAfter { text } => match spec_parse_not_after(text@) {
            Some(t) => (CheckOutcome::Classified {
                severity: spec_classify(t, now),
                expiration: t as i64,
            }),
            None => (CheckOutcome::Failed {
                failure: Failure::TimestampUnparseable { raw: text },
            }),
        },
    }
}

/// Turn what the transport saw for one target into the target's outcome.
pub fn outcome_of_event(event: FetchEvent, now: i64) -> (r: CheckOutcome)
    ensures
        r == spec_outcome_of_event(event, now as int),
        outcome_wf(r),
{
    match event {
        FetchEvent::ConnectError => CheckOutcome::Failed { failure: Failure::ConnectFailed },
        FetchEvent::TimedOut => CheckOutcome::Failed { failure: Failure::Timeout },
        FetchEvent::HandshakeError { verify_code } => CheckOutcome::Failed {
            failure: Failure::HandshakeFailed { expired: verify_code == CERT_EXPIRED_CODE },
        },
        FetchEvent::CertificateAbsent => CheckOutcome::Failed { failure: Failure::NoCertificate },
        FetchEvent::NotAfter { text } => match parse_not_after(text.as_str()) {
            Some(t) => CheckOutcome::Classified { severity: classify(t, now), expiration: t },
            None => CheckOutcome::Failed {
                failure: Failure::TimestampUnparseable { raw: text },
            },
        },
    }
}

/// The classification boundaries are inclusive on the more urgent side:
/// exactly 24 hours of remaining validity is still critical, one second more
/// is a warning; exactly 7 days is still a warning, one second more is valid.
pub proof fn lemma_classify_boundaries(now: int)
    ensures
        spec_classify(now + 43200, now) == Severity::CriticalWithin24h,
        spec_classify(now + 86400, now) == Severity::CriticalWithin24h,
        spec_classify(now + 86401, now) == Severity::WarningWithinWeek,
        spec_classify(now + 604800, now) == Severity::WarningWithinWeek,
        spec_classify(now + 604801, now) == Severity::Valid,
{
}

/// `f` is the handshake failure caused by an already-expired certificate.
pub open spec fn is_expired_handshake(f: Failure) -> bool {
    match f {
        Failure::HandshakeFailed { expired } => expired,
        _ => false,
    }
}

/// Diagnostic text of a failure kind.
pub open spec fn spec_failure_text(f: Failure) -> Seq<char> {
    match f {
        Failure::TargetInvalid => "invalid URL: missing host or port"@,
        Failure::ConnectFailed => "connection failed"@,
        Failure::HandshakeFailed { expired } => if expired {
            "handshake failed: certificate has expired"@
        } else {
            "handshake failed"@
        },
        Failure::NoCertificate => "no certificate"@,
        Failure::TimestampUnparseable { raw } => "failed to parse date: "@ + raw@,
        Failure::Timeout => "timed out"@,
    }
}

/// The reported line for one target: the severity cases name the target and
/// the expiration instant; a handshake rejected for an already-expired
/// certificate is worded as a certificate finding, every other failure as a
/// failure to check.
pub open spec fn spec_render_line(url: Seq<char>, o: CheckOutcome) -> Seq<char> {
    match o {
        CheckOutcome::Classified { severity, expiration } => {
            let when = utc_display_of(expiration as int);
            match severity {
                Severity::Expired => "The certificate for "@ + url + " has expired on "@ + when,
                Severity::CriticalWithin24h => "The certificate for "@ + url
                    + " will expire within 24 hours on "@ + when,
                Severity::WarningWithinWeek => "The certificate for "@ + url
                    + " will expire within one week on "@ + when,
                Severity::Valid => "The certificate for "@ + url + " is valid until "@ + when,
            }
        },
        CheckOutcome::Failed { failure } => if is_expired_handshake(failure) {
            "The certificate for "@ + url + ": "@ + spec_failure_text(failure)
        } else {
            "Failed to check the certificate for "@ + url + ": "@ + spec_failure_text(failure)
        },
    }
}

fn failure_text(f: &Failure) -> (r: String)
    ensures
        r@ == spec_failure_text(*f),
{
    match f {
        Failure::TargetInvalid => String::from_str("invalid URL: missing host or port"),
        Failure::ConnectFailed => String::from_str("connection failed"),
        Failure::HandshakeFailed { expired } => if *expired {
            String::from_str("handshake failed: certificate has expired")
        } else {
            String::from_str("handshake failed")
        },
        Failure::NoCertificate => String::from_str("no certificate"),
        Failure::TimestampUnparseable { raw } => {
            let mut m = String::from_str("failed to parse date: ");
            m.append(raw.as_str());
            m
        },
        Failure::Timeout => String::from_str("timed out"),
    }
}

/// Render the human-readable report line for one target's outcome. The
/// caller chooses styling and the output stream; a `Failed` outcome is
/// conventionally sent to the error stream.
pub fn render_line(url: &str, outcome: &CheckOutcome) -> (r: String)
    requires
        outcome_wf(*outcome),
    ensures
        r@ == spec_render_line(url@, *outcome),
{
    match outcome {
        CheckOutcome::Classified { severity, expiration } => {
            let when = format_instant(*expiration);
            let mut m = String::from_str("The certificate for ");
            m.append(url);
            match severity {
                Severity::Expired => m.append(" has expired on "),
                Severity::CriticalWithin24h => m.append(" will expire within 24 hours on "),
                Severity::WarningWithinWeek => m.append(" will expire within one week on "),
                Severity::Valid => m.append(" is valid until "),
            }
            m.append(when.as_str());
            m
        },
        CheckOutcome::Failed { failure } => {
            let expired_hs = match failure {
                Failure::HandshakeFailed { expired } => *expired,
                _ => false,
            };
            let text = failure_text(failure);
            let mut m = if expired_hs {
                String::from_str("The certificate for ")
            } else {
                String::from_str("Failed to check the certificate for ")
            };
            m.append(url);
            m.append(": ");
            m.append(text.as_str());
            m
        },
    }
}

/// Produce one outcome per fetch event, in order, all classified relative
/// to the same `now`. One event's failure never aborts the batch or skips
/// later events: the result always has exactly one entry per event.
pub fn check_batch(events: Vec<FetchEvent>, now: i64) -> (r: Vec<CheckOutcome>)
    ensures
        r@.len() == events@.len(),
        forall|i: int|
            0 <= i < events@.len() ==> r@[i] == spec_outcome_of_event(events@[i], now as int)
                && outcome_wf(r@[i]),
{
    let ghost all = events@;
    let mut rest = events;
    let mut out: Vec<CheckOutcome> = Vec::new();
    while rest.len() > 0
        invariant
            out@.len() + rest@.len() == all.len(),
            rest@ =~= all.subrange(out@.len() as int, all.len() as int),
            forall|i: int|
                0 <= i < out@.len() ==> out@[i] == spec_outcome_of_event(all[i], now as int)
                    && outcome_wf(out@[i]),
        decreases rest@.len(),
    {
        let event = rest.remove(0);
        let o = outcome_of_event(event, now);
        out.push(o);
    }
    out
}

} // verus!
