//! Timezone interpretation of a civil date-time.
//!
//! The library never parses zone rules itself: how a named IANA zone — or
//! the process's own zone — maps a civil date-time to UTC offsets is the
//! zone database's business, reached through the two trusted lookups here.
//! Everything done with a lookup's answer is verified for every possible
//! answer: a unique offset, a DST gap, a DST overlap with its two offsets,
//! or a name not in the database.

use vstd::prelude::*;

use crate::datetime::LocalDateTime;

verus! {

/// How a civil date-time fits a timezone: not at all (a DST gap), exactly
/// once with one offset, or twice (a DST overlap) with the two candidate
/// offsets, each in seconds east of UTC. `UnknownZone` reports a name the
/// zone database does not know.
#[derive(Debug, Clone, Copy, PartialEq, Eq, Structural)]
pub enum ZoneFit {
    UnknownZone,
    Gap,
    Unique(i32),
    Ambiguous(i32, i32),
}

/// How the zone named `name` fits the civil date-time `(y, mo, d, h, mi, s)`.
/// Left uninterpreted: for a fixed zone database it is a function of its
/// arguments alone, computed by the zone lookup below.
pub uninterp spec fn zone_fit_of(
    name: Seq<char>,
    y: int,
    mo: int,
    d: int,
    h: int,
    mi: int,
    s: int,
) -> ZoneFit;

/// [`zone_fit_of`] applied to a date-time value's fields.
pub open spec fn spec_zone_fit(name: Seq<char>, dt: LocalDateTime) -> ZoneFit {
    zone_fit_of(
        name,
        dt.year as int,
        dt.month as int,
        dt.day as int,
        dt.hour as int,
        dt.minute as int,
        dt.second as int,
    )
}

/// Relies on `chrono_tz::Tz` (its `FromStr` over the IANA name table) and
/// `chrono::TimeZone::from_local_datetime`: with the zone database fixed at
/// build time, the mapping from a zone name and a civil date-time to its
/// UTC offsets depends on the arguments alone. An unknown name reports
/// `UnknownZone`; a gap, a unique fit and an overlap map to the matching
/// [`ZoneFit`] with `Offset::fix(..).local_minus_utc()` seconds.
#[verifier::external_body]
pub(crate) fn zone_fit_lookup(name: &str, dt: &LocalDateTime) -> (r: ZoneFit)
    requires
        dt.valid(),
    ensures
        r == zone_fit_of(
            name@,
            dt.year as int,
            dt.month as int,
            dt.day as int,
            dt.hour as int,
            dt.minute as int,
            dt.second as int,
        ),
{
    let nd = chrono::NaiveDate::from_ymd_opt(dt.year as i32, dt.month, dt.day).unwrap();
    let naive = nd.and_hms_opt(dt.hour, dt.minute, dt.second).unwrap();
    let tz: chrono_tz::Tz = match name.parse() {
        Ok(t) => t,
        Err(_) => return ZoneFit::UnknownZone,
    };
    match chrono::TimeZone::from_local_datetime(&tz, &naive) {
        chrono::LocalResult::None => ZoneFit::Gap,
        chrono::LocalResult::Single(t) => ZoneFit::Unique(chrono::Offset::fix(t.offset()).local_minus_utc()),
        chrono::LocalResult::Ambiguous(a, b) => ZoneFit::Ambiguous(
            chrono::Offset::fix(a.offset()).local_minus_utc(),
            chrono::Offset::fix(b.offset()).local_minus_utc()),
    }
}

/// Relies on `chrono::Local` and `chrono::TimeZone::from_local_datetime`:
/// the answer depends on the process's configured timezone, so nothing is
/// claimed of it beyond its shape — there is always a zone, so never
/// `UnknownZone`.
#[verifier::external_body]
pub(crate) fn local_zone_fit(dt: &LocalDateTime) -> (r: ZoneFit)
    requires
        dt.valid(),
    ensures
        !(r is UnknownZone),
{
    let nd = chrono::NaiveDate::from_ymd_opt(dt.year as i32, dt.month, dt.day).unwrap();
    let naive = nd.and_hms_opt(dt.hour, dt.minute, dt.second).unwrap();
    match chrono::TimeZone::from_local_datetime(&chrono::Local, &naive) {
        chrono::LocalResult::None => ZoneFit::Gap,
        chrono::LocalResult::Single(t) => ZoneFit::Unique(t.offset().local_minus_utc()),
        chrono::LocalResult::Ambiguous(a, b) => ZoneFit::Ambiguous(
            a.offset().local_minus_utc(), b.offset().local_minus_utc()),
    }
}

} // verus!
