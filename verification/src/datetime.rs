//! Civil date-times and their text forms.
//!
//! The embedded local date-time is the 19-character `YYYY-MM-DD HH:MM:SS`
//! literal; the embedded UTC offset is a signed `±HH:MM`. Both parsers
//! validate every field against the real calendar and report malformed text
//! as a `Parse` error instead of panicking. The conversion from a civil
//! date-time to days since the Unix epoch is proleptic-Gregorian calendar
//! arithmetic, done here in full and proved against its specification.

use vstd::prelude::*;

use crate::error::{ParseReason, X3fError};
use vstd::string::StrSliceExecFns;

verus! {

/// A civil (timezone-less) date-time, one second resolution.
#[derive(Debug, Clone, Copy, PartialEq, Eq, Structural)]
pub struct LocalDateTime {
    pub year: u32,
    pub month: u32,
    pub day: u32,
    pub hour: u32,
    pub minute: u32,
    pub second: u32,
}

/// Gregorian leap-year rule.
pub open spec fn is_leap_year(y: int) -> bool {
    (y % 4 == 0 && y % 100 != 0) || y % 400 == 0
}

/// Days in a month of the proleptic Gregorian calendar.
pub open spec fn spec_days_in_month(y: int, m: int) -> int
    recommends
        1 <= m <= 12,
{
    if m == 2 {
        if is_leap_year(y) {
            29
        } else {
            28
        }
    } else if m == 4 || m == 6 || m == 9 || m == 11 {
        30
    } else {
        31
    }
}

impl LocalDateTime {
    /// The fields denote a real calendar date and time of day, with a
    /// four-digit year.
    pub open spec fn valid(self) -> bool {
        &&& self.year <= 9999
        &&& 1 <= self.month <= 12
        &&& 1 <= self.day <= spec_days_in_month(self.year as int, self.month as int)
        &&& self.hour <= 23
        &&& self.minute <= 59
        &&& self.second <= 59
    }
}

/// Days in a month, executable.
pub fn days_in_month(year: u32, month: u32) -> (r: u32)
    requires
        1 <= month <= 12,
    ensures
        r == spec_days_in_month(year as int, month as int),
{
    if month == 2 {
        if (year % 4 == 0 && year % 100 != 0) || year % 400 == 0 {
            29
        } else {
            28
        }
    } else if month == 4 || month == 6 || month == 9 || month == 11 {
        30
    } else {
        31
    }
}

/// A decimal digit.
pub open spec fn is_digit(c: char) -> bool {
    48 <= c as int <= 57
}

/// The value of a decimal digit.
pub open spec fn digit(c: char) -> int
    recommends
        is_digit(c),
{
    c as int - 48
}

/// What parsing the `YYYY-MM-DD HH:MM:SS` literal yields: the six fields,
/// if and only if the shape and every field range is right.
pub open spec fn spec_parse_datetime(s: Seq<char>) -> Option<LocalDateTime> {
    if s.len() == 19 && is_digit(s[0]) && is_digit(s[1]) && is_digit(s[2]) && is_digit(s[3])
        && s[4] == '-' && is_digit(s[5]) && is_digit(s[6]) && s[7] == '-' && is_digit(s[8])
        && is_digit(s[9]) && s[10] == ' ' && is_digit(s[11]) && is_digit(s[12]) && s[13] == ':'
        && is_digit(s[14]) && is_digit(s[15]) && s[16] == ':' && is_digit(s[17]) && is_digit(
        s[18],
    ) {
        let y = digit(s[0]) * 1000 + digit(s[1]) * 100 + digit(s[2]) * 10 + digit(s[3]);
        let mo = digit(s[5]) * 10 + digit(s[6]);
        let d = digit(s[8]) * 10 + digit(s[9]);
        let h = digit(s[11]) * 10 + digit(s[12]);
        let mi = digit(s[14]) * 10 + digit(s[15]);
        let sec = digit(s[17]) * 10 + digit(s[18]);
        if 1 <= mo <= 12 && 1 <= d <= spec_days_in_month(y, mo) && h <= 23 && mi <= 59 && sec
            <= 59 {
            Some(
                LocalDateTime {
                    year: y as u32,
                    month: mo as u32,
                    day: d as u32,
                    hour: h as u32,
                    minute: mi as u32,
                    second: sec as u32,
                },
            )
        } else {
            None
        }
    } else {
        None
    }
}

/// What parsing the `±HH:MM` offset literal yields: the offset in seconds
/// east of UTC, if and only if the shape and the field ranges are right.
pub open spec fn spec_parse_offset(s: Seq<char>) -> Option<int> {
    if s.len() == 6 && (s[0] == '+' || s[0] == '-') && is_digit(s[1]) && is_digit(s[2]) && s[3]
        == ':' && is_digit(s[4]) && is_digit(s[5]) {
        let h = digit(s[1]) * 10 + digit(s[2]);
        let m = digit(s[4]) * 10 + digit(s[5]);
        if h <= 23 && m <= 59 {
            if s[0] == '-' {
                Some(-(h * 3600 + m * 60))
            } else {
                Some(h * 3600 + m * 60)
            }
        } else {
            None
        }
    } else {
        None
    }
}

/// The decimal digit at character `i` of `s`, or nothing if another
/// character sits there.
fn digit_at(s: &str, i: usize) -> (r: Option<u32>)
    requires
        i < s@.len(),
    ensures
        match r {
            Some(v) => is_digit(s@[i as int]) && v == digit(s@[i as int]),
            None => !is_digit(s@[i as int]),
        },
{
    let c = s.get_char(i);
    let cv = c as u32;
    if 48 <= cv && cv <= 57 {
        Some(cv - 48)
    } else {
        None
    }
}

/// Whether character `i` of `s` is exactly `c`.
fn char_is(s: &str, i: usize, c: char) -> (r: bool)
    requires
        i < s@.len(),
    ensures
        r == (s@[i as int] == c),
{
    s.get_char(i) == c
}

/// The two-digit value at characters `i`, `i + 1`, or nothing.
fn two_digits_at(s: &str, i: usize) -> (r: Option<u32>)
    requires
        i + 1 < s@.len(),
        i + 1 <= usize::MAX,
    ensures
        match r {
            Some(v) => is_digit(s@[i as int]) && is_digit(s@[i + 1]) && v == digit(s@[i as int])
                * 10 + digit(s@[i + 1]),
            None => !(is_digit(s@[i as int]) && is_digit(s@[i + 1])),
        },
{
    let hi = match digit_at(s, i) {
        Some(v) => v,
        None => {
            return None;
        },
    };
    let lo = match digit_at(s, i + 1) {
        Some(v) => v,
        None => {
            return None;
        },
    };
    Some(hi * 10 + lo)
}

/// Parse the embedded local date-time literal `YYYY-MM-DD HH:MM:SS`,
/// validating every field against the real calendar.
pub fn parse_datetime(s: &str) -> (r: Result<LocalDateTime, X3fError>)
    ensures
        match spec_parse_datetime(s@) {
            Some(dt) => r is Ok && r->Ok_0 == dt && dt.valid(),
            None => r is Err && r->Err_0 == X3fError::Parse(ParseReason::DateTimeText),
        },
{
    let bad = X3fError::Parse(ParseReason::DateTimeText);
    if s.unicode_len() != 19 {
        return Err(bad);
    }
    if !(char_is(s, 4, '-') && char_is(s, 7, '-') && char_is(s, 10, ' ') && char_is(s, 13, ':')
        && char_is(s, 16, ':')) {
        return Err(bad);
    }
    let y_hi = match two_digits_at(s, 0) {
        Some(v) => v,
        None => {
            return Err(bad);
        },
    };
    let y_lo = match two_digits_at(s, 2) {
        Some(v) => v,
        None => {
            return Err(bad);
        },
    };
    let year = y_hi * 100 + y_lo;
    let month = match two_digits_at(s, 5) {
        Some(v) => v,
        None => {
            return Err(bad);
        },
    };
    let day = match two_digits_at(s, 8) {
        Some(v) => v,
        None => {
            return Err(bad);
        },
    };
    let hour = match two_digits_at(s, 11) {
        Some(v) => v,
        None => {
            return Err(bad);
        },
    };
    let minute = match two_digits_at(s, 14) {
        Some(v) => v,
        None => {
            return Err(bad);
        },
    };
    let second = match two_digits_at(s, 17) {
        Some(v) => v,
        None => {
            return Err(bad);
        },
    };
    if !(1 <= month && month <= 12) {
        return Err(bad);
    }
    if !(1 <= day && day <= days_in_month(year, month)) {
        return Err(bad);
    }
    if !(hour <= 23 && minute <= 59 && second <= 59) {
        return Err(bad);
    }
    Ok(LocalDateTime { year, month, day, hour, minute, second })
}

/// Parse the embedded UTC-offset literal `±HH:MM` into seconds east of UTC.
pub fn parse_utc_offset(s: &str) -> (r: Result<i32, X3fError>)
    ensures
        match spec_parse_offset(s@) {
            Some(v) => r is Ok && r->Ok_0 == v,
            None => r is Err && r->Err_0 == X3fError::Parse(ParseReason::OffsetText),
        },
{
    let bad = X3fError::Parse(ParseReason::OffsetText);
    if s.unicode_len() != 6 {
        return Err(bad);
    }
    let plus = char_is(s, 0, '+');
    let minus = char_is(s, 0, '-');
    if !(plus || minus) {
        return Err(bad);
    }
    if !char_is(s, 3, ':') {
        return Err(bad);
    }
    let h = match two_digits_at(s, 1) {
        Some(v) => v,
        None => {
            return Err(bad);
        },
    };
    let m = match two_digits_at(s, 4) {
        Some(v) => v,
        None => {
            return Err(bad);
        },
    };
    if !(h <= 23 && m <= 59) {
        return Err(bad);
    }
    let secs = (h * 3600 + m * 60) as i32;
    if minus {
        Ok(-secs)
    } else {
        Ok(secs)
    }
}

/// Every character of `s` is a decimal digit.
pub open spec fn all_digits(s: Seq<char>) -> bool {
    forall|i: int| 0 <= i < s.len() ==> is_digit(#[trigger] s[i])
}

/// The base-10 value of a digit string.
pub open spec fn digits_value(s: Seq<char>) -> int
    decreases s.len(),
{
    if s.len() == 0 {
        0
    } else {
        digits_value(s.drop_last()) * 10 + digit(s.last())
    }
}

/// What parsing a base-10 signed 64-bit integer yields: an optional sign,
/// then one or more digits, the value in `i64` range — and nothing else.
pub open spec fn spec_parse_i64(s: Seq<char>) -> Option<int> {
    let mag = if s.len() > 0 && (s[0] == '+' || s[0] == '-') {
        s.subrange(1, s.len() as int)
    } else {
        s
    };
    if mag.len() == 0 || !all_digits(mag) {
        None
    } else {
        let v = if s.len() > 0 && s[0] == '-' {
            -digits_value(mag)
        } else {
            digits_value(mag)
        };
        if i64::MIN <= v <= i64::MAX {
            Some(v)
        } else {
            None
        }
    }
}

/// A digit string's value is never negative.
proof fn lemma_digits_value_nonneg(s: Seq<char>)
    requires
        all_digits(s),
    ensures
        digits_value(s) >= 0,
    decreases s.len(),
{
    if s.len() > 0 {
        assert(all_digits(s.drop_last()));
        lemma_digits_value_nonneg(s.drop_last());
    }
}

/// A digit string is worth at least any of its prefixes.
proof fn lemma_digits_value_prefix_le(s: Seq<char>, k: int)
    requires
        all_digits(s),
        0 <= k <= s.len(),
    ensures
        digits_value(s.subrange(0, k)) <= digits_value(s),
    decreases s.len() - k,
{
    if k == s.len() {
        assert(s.subrange(0, k) =~= s);
    } else {
        assert(all_digits(s.drop_last()));
        assert(s.drop_last().subrange(0, k) =~= s.subrange(0, k));
        lemma_digits_value_prefix_le(s.drop_last(), k);
        lemma_digits_value_nonneg(s.drop_last());
        assert(digit(s.last()) >= 0);
    }
}

/// Parse a base-10 signed 64-bit integer, exactly as strict as the
/// specification: an optional sign, one or more digits, value in range.
pub fn parse_i64(s: &str) -> (r: Result<i64, X3fError>)
    ensures
        match spec_parse_i64(s@) {
            Some(v) => r is Ok && r->Ok_0 == v,
            None => r is Err && r->Err_0 == X3fError::Parse(ParseReason::TimeValue),
        },
{
    let bad = X3fError::Parse(ParseReason::TimeValue);
    let n = s.unicode_len();
    if n == 0 {
        return Err(bad);
    }
    let c0 = s.get_char(0);
    let negative = c0 == '-';
    let signed = negative || c0 == '+';
    let start: usize = if signed {
        1
    } else {
        0
    };
    if n == start {
        // a sign with no digits
        return Err(bad);
    }
    let ghost mseq = if signed {
        s@.subrange(1, s@.len() as int)
    } else {
        s@
    };
    let limit: u64 = if negative {
        9223372036854775808
    } else {
        9223372036854775807
    };
    let mut mag: u64 = 0;
    let mut i: usize = start;
    while i < n
        invariant
            start <= i <= n,
            n == s@.len(),
            n > 0,
            start == if signed { 1int } else { 0int },
            start < n,
            signed == (s@[0] == '+' || s@[0] == '-'),
            negative == (s@[0] == '-'),
            mseq == s@.subrange(start as int, n as int),
            mseq.len() == n - start,
            bad == X3fError::Parse(ParseReason::TimeValue),
            limit == if negative { 9223372036854775808u64 } else { 9223372036854775807u64 },
            all_digits(mseq.subrange(0, i - start)),
            mag == digits_value(mseq.subrange(0, i - start)),
            mag <= limit,
        decreases n - i,
    {
        let c = s.get_char(i);
        let cv = c as u32;
        if !(48 <= cv && cv <= 57) {
            proof {
                if !signed {
                    assert(mseq =~= s@);
                }
                assert(mseq[i - start] == s@[i as int]);
                assert(!is_digit(mseq[i - start]));
                assert(!all_digits(mseq));
            }
            return Err(bad);
        }
        let dv = (cv - 48) as u64;
        proof {
            assert(is_digit(s@[i as int]));
            assert(dv == digit(s@[i as int]));
            assert(limit - dv == 10 * ((limit - dv) / 10) + (limit - dv) % 10);
        }
        if mag > (limit - dv) / 10 {
            // the value cannot fit in an i64: every longer digit string is
            // worth at least this prefix
            proof {
                if !signed {
                    assert(mseq =~= s@);
                }
                let pre = mseq.subrange(0, i + 1 - start);
                assert(pre.drop_last() =~= mseq.subrange(0, i - start));
                assert(pre.last() == s@[i as int]);
                assert(all_digits(pre));
                assert(digits_value(pre) == mag * 10 + dv);
                assert(digits_value(pre) > limit);
                assert(pre =~= mseq.subrange(0, pre.len() as int));
                if all_digits(mseq) {
                    lemma_digits_value_prefix_le(mseq, pre.len() as int);
                    assert(digits_value(mseq) > limit);
                }
            }
            return Err(bad);
        }
        proof {
            let pre = mseq.subrange(0, i + 1 - start);
            assert(pre.drop_last() =~= mseq.subrange(0, i - start));
            assert(pre.last() == s@[i as int]);
        }
        mag = mag * 10 + dv;
        i = i + 1;
    }
    proof {
        if !signed {
            assert(mseq =~= s@);
        }
        assert(mseq.subrange(0, n - start) =~= mseq);
        assert(mag == digits_value(mseq));
        assert(all_digits(mseq));
    }
    if negative {
        if mag == 9223372036854775808 {
            Ok(i64::MIN)
        } else {
            Ok(-(mag as i64))
        }
    } else {
        Ok(mag as i64)
    }
}

/// Days from the Unix epoch to the civil date `(y, m, d)`, proleptic
/// Gregorian. Stated with the year shifted by a whole 400-year cycle so
/// every intermediate value stays non-negative for years `0..=9999`.
pub open spec fn spec_days_from_epoch(y: int, m: int, d: int) -> int
    recommends
        0 <= y <= 9999,
        1 <= m <= 12,
{
    let yy = if m <= 2 {
        y + 399
    } else {
        y + 400
    };
    let era = yy / 400;
    let yoe = yy - era * 400;
    let mp = if m <= 2 {
        m + 9
    } else {
        m - 3
    };
    let doy = (153 * mp + 2) / 5 + d - 1;
    let doe = yoe * 365 + yoe / 4 - yoe / 100 + doy;
    era * 146097 + doe - 865565
}

/// Seconds from the Unix epoch to the civil date-time `dt`, as if `dt` were
/// in UTC.
pub open spec fn spec_epoch_seconds(dt: LocalDateTime) -> int {
    spec_days_from_epoch(dt.year as int, dt.month as int, dt.day as int) * 86400 + dt.hour as int
        * 3600 + dt.minute as int * 60 + dt.second as int
}

/// Seconds from the Unix epoch to `dt`, as if `dt` were in UTC.
pub fn epoch_seconds(dt: &LocalDateTime) -> (r: i64)
    requires
        dt.valid(),
    ensures
        r == spec_epoch_seconds(*dt),
        -74784816000 <= r <= 328224473599,
{
    let y = dt.year as u64;
    let m = dt.month as u64;
    let d = dt.day as u64;
    let yy: u64 = if m <= 2 {
        y + 399
    } else {
        y + 400
    };
    proof {
        assert(yy == 400 * (yy / 400) + yy % 400);
    }
    let era: u64 = yy / 400;
    let yoe: u64 = yy - era * 400;
    proof {
        assert(yoe == yy % 400);
        assert(yoe < 400);
    }
    let mp: u64 = if m <= 2 {
        m + 9
    } else {
        m - 3
    };
    let doy: u64 = (153 * mp + 2) / 5 + d - 1;
    let doe: u64 = yoe * 365 + yoe / 4 - yoe / 100 + doy;
    let gdays: u64 = era * 146097 + doe;
    let days: i64 = gdays as i64 - 865565;
    let tod: i64 = (dt.hour as i64) * 3600 + (dt.minute as i64) * 60 + (dt.second as i64);
    days * 86400 + tod
}

} // verus!
