//! Target normalization and derivation of the address to connect to.

use vstd::prelude::*;
use crate::outcome::Failure;

verus! {

/// `s` begins with the eight characters `https://`.
pub open spec fn has_https_prefix(s: Seq<char>) -> bool {
    s.len() >= 8 && s[0] == 'h' && s[1] == 't' && s[2] == 't' && s[3] == 'p' && s[4] == 's'
        && s[5] == ':' && s[6] == '/' && s[7] == '/'
}

/// The normalized form of a raw target: unchanged if it already carries the
/// secure scheme, otherwise prefixed with it.
pub open spec fn normalized(s: Seq<char>) -> Seq<char> {
    if has_https_prefix(s) {
        s
    } else {
        "https://"@ + s
    }
}

/// A normalized target always carries the explicit secure-transport scheme.
pub proof fn lemma_normalized_has_scheme(s: Seq<char>)
    ensures
        has_https_prefix(normalized(s)),
{
    if !has_https_prefix(s) {
        reveal_strlit("https://");
        assert(has_https_prefix("https://"@ + s));
    }
}

/// Normalization is idempotent: a normalized target normalizes to itself.
pub proof fn lemma_normalize_idempotent(s: Seq<char>)
    ensures
        normalized(normalized(s)) == normalized(s),
{
    lemma_normalized_has_scheme(s);
}

/// Give a raw target an explicit secure-transport scheme: a string already
/// starting with `https://` is returned unchanged, any other string is
/// prefixed with `https://`. Performs no validation; malformed targets are
/// rejected later, when the host is derived.
pub fn ensure_https(url: &str) -> (r: String)
    ensures
        r@ == normalized(url@),
{
    let n = url.unicode_len();
    let has = n >= 8 && url.get_char(0) == 'h' && url.get_char(1) == 't' && url.get_char(2)
        == 't' && url.get_char(3) == 'p' && url.get_char(4) == 's' && url.get_char(5) == ':'
        && url.get_char(6) == '/' && url.get_char(7) == '/';
    if has {
        url.to_owned()
    } else {
        let mut r = String::from_str("https://");
        r.append(url);
        r
    }
}

/// The host and effective port that the `url` crate derives from a URL
/// string: the explicit port if one is given, else the scheme's known
/// default (443 for `https`); `None` when the string does not parse as a
/// URL, has no host, or has no known port.
pub uninterp spec fn host_port_of(url: Seq<char>) -> Option<(Seq<char>, u16)>;

/// Relies on `url::Url::parse`, `Url::host_str` and
/// `Url::port_or_known_default`: together they map a URL string to its host
/// and effective port, a function of the string alone.
#[verifier::external_body]
fn url_host_port(url: &str) -> (r: Option<(String, u16)>)
    ensures
        match r {
            Some(hp) => host_port_of(url@) == Some((hp.0@, hp.1)),
            None => host_port_of(url@) is None,
        },
{
    match url::Url::parse(url) {
        Ok(u) => match (u.host_str(), u.port_or_known_default()) {
            (Some(h), Some(p)) => Some((h.to_string(), p)),
            _ => None,
        },
        Err(_) => None,
    }
}

/// Derive the host and port to connect to from a normalized URL. Fails with
/// `TargetInvalid` exactly when no host and port can be derived from the
/// string.
pub fn host_and_port(url: &str) -> (r: Result<(String, u16), Failure>)
    ensures
        match r {
            Ok(hp) => host_port_of(url@) == Some((hp.0@, hp.1)),
            Err(f) => host_port_of(url@) is None && f == Failure::TargetInvalid,
        },
{
    match url_host_port(url) {
        Some(hp) => Ok(hp),
        None => Err(Failure::TargetInvalid),
    }
}

} // verus!
