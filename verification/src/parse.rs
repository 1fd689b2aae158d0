//! Parsing of a certificate's textual "not valid after" timestamp.
//!
//! The wire format is the one OpenSSL prints for an ASN.1 time: an
//! abbreviated month name, the day of month (one or two digits), a 24-hour
//! `HH:MM:SS` time, and a four-digit year, separated by runs of spaces, with
//! an optional trailing `" GMT"` marker. The instant is taken to be UTC
//! whether or not the marker is present; the format carries no numeric
//! offset. Example: `Jan  2 15:04:05 2030 GMT`.

use vstd::prelude::*;
use crate::time::{
    epoch_from_fields, epoch_of, month_length, representable_epoch, valid_date, valid_time,
};

verus! {

pub open spec fn is_space_char(c: char) -> bool {
    c == ' ' || c == '\t' || c == '\r' || c == '\n'
}

pub open spec fn is_digit(c: char) -> bool {
    48 <= c as int <= 57
}

pub open spec fn digit_val(c: char) -> int {
    c as int - 48
}

/// Index of the first non-whitespace character at or after `i`.
pub open spec fn trim_start_idx(s: Seq<char>, i: int) -> int
    decreases s.len() - i,
{
    if 0 <= i < s.len() && is_space_char(s[i]) {
        trim_start_idx(s, i + 1)
    } else {
        i
    }
}

/// Index just past the last non-whitespace character before `j`.
pub open spec fn trim_end_idx(s: Seq<char>, j: int) -> int
    decreases j,
{
    if 1 <= j <= s.len() && is_space_char(s[j - 1]) {
        trim_end_idx(s, j - 1)
    } else {
        j
    }
}

/// `s` without leading and trailing whitespace.
pub open spec fn spec_trim(s: Seq<char>) -> Seq<char> {
    let a = trim_start_idx(s, 0);
    let b = trim_end_idx(s, s.len() as int);
    if a <= b {
        s.subrange(a, b)
    } else {
        Seq::empty()
    }
}

/// `s` without a trailing `" GMT"` marker, if one is present.
pub open spec fn strip_gmt(s: Seq<char>) -> Seq<char> {
    let n = s.len() as int;
    if n >= 4 && s[n - 4] == ' ' && s[n - 3] == 'G' && s[n - 2] == 'M' && s[n - 1] == 'T' {
        s.subrange(0, n - 4)
    } else {
        s
    }
}

/// Month number (1-12) of the abbreviated month name starting `s`, or 0 if
/// `s` does not start with one.
pub open spec fn month_code3(s: Seq<char>) -> int {
    if s.len() < 3 {
        0
    } else if s[0] == 'J' && s[1] == 'a' && s[2] == 'n' {
        1
    } else if s[0] == 'F' && s[1] == 'e' && s[2] == 'b' {
        2
    } else if s[0] == 'M' && s[1] == 'a' && s[2] == 'r' {
        3
    } else if s[0] == 'A' && s[1] == 'p' && s[2] == 'r' {
        4
    } else if s[0] == 'M' && s[1] == 'a' && s[2] == 'y' {
        5
    } else if s[0] == 'J' && s[1] == 'u' && s[2] == 'n' {
        6
    } else if s[0] == 'J' && s[1] == 'u' && s[2] == 'l' {
        7
    } else if s[0] == 'A' && s[1] == 'u' && s[2] == 'g' {
        8
    } else if s[0] == 'S' && s[1] == 'e' && s[2] == 'p' {
        9
    } else if s[0] == 'O' && s[1] == 'c' && s[2] == 't' {
        10
    } else if s[0] == 'N' && s[1] == 'o' && s[2] == 'v' {
        11
    } else if s[0] == 'D' && s[1] == 'e' && s[2] == 'c' {
        12
    } else {
        0
    }
}

/// Index of the first character at or after `i` that is not a space.
pub open spec fn space_run_at(s: Seq<char>, i: int) -> int
    decreases s.len() - i,
{
    if 0 <= i < s.len() && s[i] == ' ' {
        space_run_at(s, i + 1)
    } else {
        i
    }
}

/// The day of month written at `i`: one or two digits, two preferred.
pub open spec fn day_at(s: Seq<char>, i: int) -> Option<(int, int)> {
    if 0 <= i && i + 2 <= s.len() && is_digit(s[i]) && is_digit(s[i + 1]) {
        Some((10 * digit_val(s[i]) + digit_val(s[i + 1]), i + 2))
    } else if 0 <= i < s.len() && is_digit(s[i]) {
        Some((digit_val(s[i]), i + 1))
    } else {
        None
    }
}

/// The `HH:MM:SS` triple written at `i` (exactly eight characters).
pub open spec fn time_at(s: Seq<char>, i: int) -> Option<(int, int, int)> {
    if 0 <= i && i + 8 <= s.len() && is_digit(s[i]) && is_digit(s[i + 1]) && s[i + 2] == ':'
        && is_digit(s[i + 3]) && is_digit(s[i + 4]) && s[i + 5] == ':' && is_digit(s[i + 6])
        && is_digit(s[i + 7]) {
        Some(
            (
                10 * digit_val(s[i]) + digit_val(s[i + 1]),
                10 * digit_val(s[i + 3]) + digit_val(s[i + 4]),
                10 * digit_val(s[i + 6]) + digit_val(s[i + 7]),
            ),
        )
    } else {
        None
    }
}

/// The four-digit year written at `i`.
pub open spec fn four_digits_at(s: Seq<char>, i: int) -> Option<int> {
    if 0 <= i && i + 4 <= s.len() && is_digit(s[i]) && is_digit(s[i + 1]) && is_digit(s[i + 2])
        && is_digit(s[i + 3]) {
        Some(
            1000 * digit_val(s[i]) + 100 * digit_val(s[i + 1]) + 10 * digit_val(s[i + 2])
                + digit_val(s[i + 3]),
        )
    } else {
        None
    }
}

/// The `(year, month, day, hour, minute, second)` fields written in `s`,
/// which must consist of exactly: month name, spaces, day, spaces, time,
/// spaces, four-digit year. Field ranges are not yet checked here, beyond
/// what the digit counts force.
pub open spec fn parse_fields(s: Seq<char>) -> Option<(int, int, int, int, int, int)> {
    let mo = month_code3(s);
    if mo == 0 {
        None
    } else {
        let i1 = space_run_at(s, 3);
        if i1 == 3 {
            None
        } else {
            match day_at(s, i1) {
                None => None,
                Some(di) => {
                    let i3 = space_run_at(s, di.1);
                    if i3 == di.1 {
                        None
                    } else {
                        match time_at(s, i3) {
                            None => None,
                            Some(t) => {
                                let i4 = space_run_at(s, i3 + 8);
                                if i4 == i3 + 8 {
                                    None
                                } else {
                                    match four_digits_at(s, i4) {
                                        None => None,
                                        Some(y) => if i4 + 4 == s.len() {
                                            Some((y, mo, di.0, t.0, t.1, t.2))
                                        } else {
                                            None
                                        },
                                    }
                                }
                            },
                        }
                    }
                },
            }
        }
    }
}

/// The UTC instant (seconds since the Unix epoch) that a "not valid after"
/// text denotes: the text is trimmed, an optional trailing `" GMT"` marker
/// is stripped, the fields are read, and they must name a real calendar
/// date and a 24-hour time. `None` on any deviation.
pub open spec fn spec_parse_not_after(s: Seq<char>) -> Option<int> {
    let t = strip_gmt(spec_trim(s));
    match parse_fields(t) {
        None => None,
        Some(f) => if valid_date(f.0, f.1, f.2) && valid_time(f.3, f.4, f.5) {
            Some(epoch_of(f.0, f.1, f.2, f.3, f.4, f.5))
        } else {
            None
        },
    }
}

fn char_is_space(c: char) -> (r: bool)
    ensures
        r == is_space_char(c),
{
    c == ' ' || c == '\t' || c == '\r' || c == '\n'
}

fn char_is_digit(c: char) -> (r: bool)
    ensures
        r == is_digit(c),
{
    let v = c as u32;
    48 <= v && v <= 57
}

fn digit_value(c: char) -> (r: u32)
    requires
        is_digit(c),
    ensures
        r == digit_val(c),
        r <= 9,
{
    c as u32 - 48
}

/// `s` without leading and trailing whitespace.
fn trim_str(s: &str) -> (r: &str)
    ensures
        r@ == spec_trim(s@),
{
    let n = s.unicode_len();
    let mut a: usize = 0;
    while a < n && char_is_space(s.get_char(a))
        invariant
            0 <= a <= n,
            n == s@.len(),
            trim_start_idx(s@, 0) == trim_start_idx(s@, a as int),
        decreases n - a,
    {
        proof {
            assert(trim_start_idx(s@, a as int) == trim_start_idx(s@, a as int + 1));
        }
        a = a + 1;
    }
    assert(trim_start_idx(s@, 0) == a as int);
    let mut b: usize = n;
    while b > 0 && char_is_space(s.get_char(b - 1))
        invariant
            0 <= b <= n,
            n == s@.len(),
            trim_end_idx(s@, n as int) == trim_end_idx(s@, b as int),
        decreases b,
    {
        proof {
            assert(trim_end_idx(s@, b as int) == trim_end_idx(s@, b as int - 1));
        }
        b = b - 1;
    }
    assert(trim_end_idx(s@, n as int) == b as int);
    if a <= b {
        s.substring_char(a, b)
    } else {
        let r = s.substring_char(0, 0);
        proof {
            assert(r@ =~= spec_trim(s@));
        }
        r
    }
}

fn month_code(s: &str) -> (m: u32)
    ensures
        m as int == month_code3(s@),
        m <= 12,
{
    let n = s.unicode_len();
    if n < 3 {
        return 0;
    }
    let c0 = s.get_char(0);
    let c1 = s.get_char(1);
    let c2 = s.get_char(2);
    if c0 == 'J' && c1 == 'a' && c2 == 'n' {
        1
    } else if c0 == 'F' && c1 == 'e' && c2 == 'b' {
        2
    } else if c0 == 'M' && c1 == 'a' && c2 == 'r' {
        3
    } else if c0 == 'A' && c1 == 'p' && c2 == 'r' {
        4
    } else if c0 == 'M' && c1 == 'a' && c2 == 'y' {
        5
    } else if c0 == 'J' && c1 == 'u' && c2 == 'n' {
        6
    } else if c0 == 'J' && c1 == 'u' && c2 == 'l' {
        7
    } else if c0 == 'A' && c1 == 'u' && c2 == 'g' {
        8
    } else if c0 == 'S' && c1 == 'e' && c2 == 'p' {
        9
    } else if c0 == 'O' && c1 == 'c' && c2 == 't' {
        10
    } else if c0 == 'N' && c1 == 'o' && c2 == 'v' {
        11
    } else if c0 == 'D' && c1 == 'e' && c2 == 'c' {
        12
    } else {
        0
    }
}

fn space_run(s: &str, i: usize) -> (j: usize)
    requires
        i <= s@.len(),
    ensures
        j as int == space_run_at(s@, i as int),
        i <= j <= s@.len(),
{
    let n = s.unicode_len();
    let mut j: usize = i;
    while j < n && s.get_char(j) == ' '
        invariant
            i <= j <= n,
            n == s@.len(),
            space_run_at(s@, i as int) == space_run_at(s@, j as int),
        decreases n - j,
    {
        proof {
            assert(space_run_at(s@, j as int) == space_run_at(s@, j as int + 1));
        }
        j = j + 1;
    }
    j
}

fn parse_fields_str(s: &str) -> (r: Option<(u32, u32, u32, u32, u32, u32)>)
    ensures
        match r {
            Some(f) => parse_fields(s@) == Some(
                ((f.0 as int, f.1 as int, f.2 as int, f.3 as int, f.4 as int, f.5 as int)),
            ) && f.0 <= 9999 && 1 <= f.1 <= 12 && f.2 <= 99 && f.3 <= 99 && f.4 <= 99 && f.5
                <= 99,
            None => parse_fields(s@) is None,
        },
{
    let n = s.unicode_len();
    let mo = month_code(s);
    if mo == 0 {
        return None;
    }
    let i1 = space_run(s, 3);
    if i1 == 3 {
        return None;
    }
    let di: (u32, usize) = if i1 < n && n - i1 >= 2 && char_is_digit(s.get_char(i1))
        && char_is_digit(s.get_char(i1 + 1)) {
        (10 * digit_value(s.get_char(i1)) + digit_value(s.get_char(i1 + 1)), i1 + 2)
    } else if i1 < n && char_is_digit(s.get_char(i1)) {
        (digit_value(s.get_char(i1)), i1 + 1)
    } else {
        return None;
    };
    let d = di.0;
    let i2 = di.1;
    let i3 = space_run(s, i2);
    if i3 == i2 {
        return None;
    }
    if n - i3 < 8 {
        return None;
    }
    if !(char_is_digit(s.get_char(i3)) && char_is_digit(s.get_char(i3 + 1)) && s.get_char(i3 + 2)
        == ':' && char_is_digit(s.get_char(i3 + 3)) && char_is_digit(s.get_char(i3 + 4))
        && s.get_char(i3 + 5) == ':' && char_is_digit(s.get_char(i3 + 6)) && char_is_digit(
        s.get_char(i3 + 7),
    )) {
        return None;
    }
    let h = 10 * digit_value(s.get_char(i3)) + digit_value(s.get_char(i3 + 1));
    let mi = 10 * digit_value(s.get_char(i3 + 3)) + digit_value(s.get_char(i3 + 4));
    let sec = 10 * digit_value(s.get_char(i3 + 6)) + digit_value(s.get_char(i3 + 7));
    let i4 = space_run(s, i3 + 8);
    if i4 == i3 + 8 {
        return None;
    }
    if n - i4 != 4 {
        return None;
    }
    if !(char_is_digit(s.get_char(i4)) && char_is_digit(s.get_char(i4 + 1)) && char_is_digit(
        s.get_char(i4 + 2),
    ) && char_is_digit(s.get_char(i4 + 3))) {
        return None;
    }
    let y = 1000 * digit_value(s.get_char(i4)) + 100 * digit_value(s.get_char(i4 + 1)) + 10
        * digit_value(s.get_char(i4 + 2)) + digit_value(s.get_char(i4 + 3));
    Some((y, mo, d, h, mi, sec))
}

/// Parse a certificate's "not valid after" text into the UTC instant it
/// denotes, as seconds since the Unix epoch. Returns `None` exactly when the
/// text (after trimming whitespace and stripping an optional trailing
/// `" GMT"`) deviates from the wire format or names an impossible date or
/// time.
pub fn parse_not_after(s: &str) -> (r: Option<i64>)
    ensures
        match r {
            Some(t) => spec_parse_not_after(s@) == Some(t as int) && representable_epoch(t as int),
            None => spec_parse_not_after(s@) is None,
        },
{
    let t = trim_str(s);
    let tl = t.unicode_len();
    let u: &str = if tl >= 4 && t.get_char(tl - 4) == ' ' && t.get_char(tl - 3) == 'G'
        && t.get_char(tl - 2) == 'M' && t.get_char(tl - 1) == 'T' {
        t.substring_char(0, tl - 4)
    } else {
        t
    };
    proof {
        assert(u@ == strip_gmt(t@));
    }
    match parse_fields_str(u) {
        None => None,
        Some(f) => {
            let (y, mo, d, h, mi, sec) = f;
            if 1 <= d && d <= month_length(y, mo) && h <= 23 && mi <= 59 && sec <= 59 {
                Some(epoch_from_fields(y, mo, d, h, mi, sec))
            } else {
                None
            }
        },
    }
}

} // verus!
