//! The timestamp resolver.
//!
//! After a full directory walk there may be: an embedded local date-time
//! text, an embedded UTC-offset text (both from a thumbnail's metadata), a
//! property table possibly holding a raw device-clock `TIME` value, and a
//! caller-supplied override timezone. The resolver merges them under a
//! fixed priority: an embedded date-time wins, interpreted in the override
//! zone if one was given, else with the embedded offset, else in the
//! process's local zone; only without embedded metadata does the `TIME`
//! property count, taken as whole seconds since the Unix epoch in UTC (the
//! camera's clock runs in UTC); with neither, the result is an explicit
//! "absent", not an error. A local date-time that falls in a DST gap or
//! overlap of the chosen zone is a distinct error, never resolved silently.

use vstd::prelude::*;

use crate::datetime::{
    parse_datetime, parse_i64, parse_utc_offset, spec_epoch_seconds, spec_parse_datetime,
    spec_parse_i64, spec_parse_offset, LocalDateTime,
};
use crate::datetime::epoch_seconds;
use crate::error::{ParseReason, X3fError};
use crate::props::{props_view, PropModel, X3fProperty};
use crate::zone::{local_zone_fit, spec_zone_fit, zone_fit_lookup, ZoneFit};
use vstd::string::StrSliceExecFns;

verus! {

/// Where a resolved instant came from.
#[derive(Debug, Clone, Copy, PartialEq, Eq, Structural)]
pub enum Provenance {
    /// The embedded metadata of a thumbnail.
    EmbeddedMetadata,
    /// The camera's raw device clock (`TIME` property).
    DeviceClock,
}

/// An absolute instant — seconds since the Unix epoch, UTC — and where it
/// came from.
#[derive(Debug, Clone, Copy, PartialEq, Eq, Structural)]
pub struct ResolvedTimestamp {
    pub epoch_seconds: i64,
    pub provenance: Provenance,
}

/// The property name that holds the raw device-clock value.
pub open spec fn time_key() -> Seq<char> {
    seq!['T', 'I', 'M', 'E']
}

/// The value of the first property named `name`, if any. Duplicate names
/// may occur in the raw format; the first occurrence wins.
pub open spec fn spec_get_property(props: Seq<PropModel>, name: Seq<char>) -> Option<Seq<char>>
    decreases props.len(),
{
    if props.len() == 0 {
        None
    } else if props[0].name == name {
        Some(props[0].value)
    } else {
        spec_get_property(props.drop_first(), name)
    }
}

/// What interpreting the valid civil date-time `dt` under the zone fit
/// `fit` yields: the unique instant when the fit is unique, a distinct
/// error for a DST gap or overlap, and a parse error for an unknown zone
/// name.
pub open spec fn spec_resolve_fit(dt: LocalDateTime, fit: ZoneFit) -> Result<
    Option<ResolvedTimestamp>,
    X3fError,
> {
    match fit {
        ZoneFit::UnknownZone => Err(X3fError::Parse(ParseReason::ZoneName)),
        ZoneFit::Gap => Err(X3fError::AmbiguousOrInvalidLocalTime),
        ZoneFit::Ambiguous(_, _) => Err(X3fError::AmbiguousOrInvalidLocalTime),
        ZoneFit::Unique(off) => Ok(
            Some(
                ResolvedTimestamp {
                    epoch_seconds: (spec_epoch_seconds(dt) - off) as i64,
                    provenance: Provenance::EmbeddedMetadata,
                },
            ),
        ),
    }
}

/// The whole resolution policy, as a function of the four time sources and
/// of `sys_fit`, the local system zone's answer — which is consulted only
/// when an embedded date-time comes with no override zone and no embedded
/// offset.
pub open spec fn spec_resolve(
    dto: Option<Seq<char>>,
    oto: Option<Seq<char>>,
    props: Seq<PropModel>,
    tz: Option<Seq<char>>,
    sys_fit: ZoneFit,
) -> Result<Option<ResolvedTimestamp>, X3fError> {
    match dto {
        Option::Some(ds) => match spec_parse_datetime(ds) {
            Option::None => Err(X3fError::Parse(ParseReason::DateTimeText)),
            Option::Some(dt) => match tz {
                Option::Some(zname) => spec_resolve_fit(dt, spec_zone_fit(zname, dt)),
                Option::None => match oto {
                    Option::Some(os) => match spec_parse_offset(os) {
                        Option::None => Err(X3fError::Parse(ParseReason::OffsetText)),
                        Option::Some(off) => Ok(
                            Some(
                                ResolvedTimestamp {
                                    epoch_seconds: (spec_epoch_seconds(dt) - off) as i64,
                                    provenance: Provenance::EmbeddedMetadata,
                                },
                            ),
                        ),
                    },
                    Option::None => spec_resolve_fit(dt, sys_fit),
                },
            },
        },
        Option::None => match spec_get_property(props, time_key()) {
            Option::Some(tv) => match spec_parse_i64(tv) {
                Option::None => Err(X3fError::Parse(ParseReason::TimeValue)),
                Option::Some(v) => Ok(
                    Some(
                        ResolvedTimestamp {
                            epoch_seconds: v as i64,
                            provenance: Provenance::DeviceClock,
                        },
                    ),
                ),
            },
            Option::None => Ok(None),
        },
    }
}

/// The resolution consults the process's local zone exactly when an
/// embedded date-time parses and neither an override zone nor an embedded
/// offset is present.
pub open spec fn needs_system_zone(
    dto: Option<Seq<char>>,
    oto: Option<Seq<char>>,
    tz: Option<Seq<char>>,
) -> bool {
    &&& dto is Some
    &&& spec_parse_datetime(dto->0) is Some
    &&& tz is None
    &&& oto is None
}

/// An optional borrowed string, viewed.
pub open spec fn opt_str_view(o: Option<&str>) -> Option<Seq<char>> {
    match o {
        Option::Some(s) => Option::Some(s@),
        Option::None => Option::None,
    }
}

/// Priority law: with an embedded local date-time present, the property
/// table — and any `TIME` value in it — plays no part in the result.
pub proof fn lemma_embedded_metadata_priority(
    dto: Seq<char>,
    oto: Option<Seq<char>>,
    props1: Seq<PropModel>,
    props2: Seq<PropModel>,
    tz: Option<Seq<char>>,
    sys_fit: ZoneFit,
)
    ensures
        spec_resolve(Some(dto), oto, props1, tz, sys_fit) == spec_resolve(
            Some(dto),
            oto,
            props2,
            tz,
            sys_fit,
        ),
{
}

/// Device-clock law: with no embedded date-time, a `TIME` property that
/// parses as the integer `n` resolves to exactly the instant `n` seconds
/// after the Unix epoch, UTC, with device-clock provenance — whatever the
/// override zone or the system zone say.
pub proof fn lemma_device_clock(
    props: Seq<PropModel>,
    tz: Option<Seq<char>>,
    sys_fit: ZoneFit,
    n: int,
)
    requires
        spec_get_property(props, time_key()) is Some,
        spec_parse_i64(spec_get_property(props, time_key())->0) == Some(n),
    ensures
        spec_resolve(None, None, props, tz, sys_fit) == Ok::<Option<ResolvedTimestamp>, X3fError>(
            Some(
                ResolvedTimestamp { epoch_seconds: n as i64, provenance: Provenance::DeviceClock },
            ),
        ),
{
}

/// Override law: an embedded local date-time with no embedded offset,
/// together with a caller override zone, resolves by interpreting the
/// date-time directly in that zone — independent of the process's system
/// zone and of the property table.
pub proof fn lemma_override_timezone(
    dto: Seq<char>,
    props: Seq<PropModel>,
    zone: Seq<char>,
    sys_fit: ZoneFit,
)
    requires
        spec_parse_datetime(dto) is Some,
    ensures
        spec_resolve(Some(dto), None, props, Some(zone), sys_fit) == spec_resolve_fit(
            spec_parse_datetime(dto)->0,
            spec_zone_fit(zone, spec_parse_datetime(dto)->0),
        ),
{
}

/// Compare two strings by their characters.
pub fn str_eq(a: &str, b: &str) -> (r: bool)
    ensures
        r == (a@ == b@),
{
    let n = a.unicode_len();
    if n != b.unicode_len() {
        return false;
    }
    let mut i: usize = 0;
    while i < n
        invariant
            i <= n,
            n == a@.len(),
            n == b@.len(),
            forall|k: int| 0 <= k < i ==> a@[k] == b@[k],
        decreases n - i,
    {
        if a.get_char(i) != b.get_char(i) {
            return false;
        }
        i = i + 1;
    }
    proof {
        assert(a@ =~= b@);
    }
    true
}

/// Look up the first property named `name`; duplicate names may occur and
/// the first occurrence wins.
pub fn lookup_property<'a>(props: &'a Vec<X3fProperty>, name: &str) -> (r: Option<&'a String>)
    ensures
        match spec_get_property(props_view(props@), name@) {
            Option::Some(v) => r is Some && r->0@ == v,
            Option::None => r is None,
        },
{
    let ghost pv = props_view(props@);
    proof {
        assert(pv.subrange(0, pv.len() as int) =~= pv);
    }
    let mut i: usize = 0;
    while i < props.len()
        invariant
            i <= props@.len(),
            pv == props_view(props@),
            pv.len() == props@.len(),
            forall|j: int| 0 <= j < pv.len() ==> #[trigger] pv[j] == props@[j]@,
            spec_get_property(pv.subrange(i as int, pv.len() as int), name@) == spec_get_property(
                pv,
                name@,
            ),
        decreases props@.len() - i,
    {
        let ghost rest = pv.subrange(i as int, pv.len() as int);
        if str_eq(props[i].name.as_str(), name) {
            proof {
                assert(rest[0] == pv[i as int]);
                assert(spec_get_property(rest, name@) == Some(pv[i as int].value));
            }
            return Some(&props[i].value);
        }
        proof {
            assert(rest[0] == pv[i as int]);
            assert(rest.drop_first() =~= pv.subrange(i + 1, pv.len() as int));
        }
        i = i + 1;
    }
    proof {
        assert(pv.subrange(pv.len() as int, pv.len() as int).len() == 0);
    }
    None
}

/// Interpret the valid civil date-time `dt` under the zone fit `fit`.
pub fn resolve_with_fit(dt: &LocalDateTime, fit: ZoneFit) -> (r: Result<
    Option<ResolvedTimestamp>,
    X3fError,
>)
    requires
        dt.valid(),
    ensures
        r == spec_resolve_fit(*dt, fit),
{
    match fit {
        ZoneFit::UnknownZone => Err(X3fError::Parse(ParseReason::ZoneName)),
        ZoneFit::Gap => Err(X3fError::AmbiguousOrInvalidLocalTime),
        ZoneFit::Ambiguous(_, _) => Err(X3fError::AmbiguousOrInvalidLocalTime),
        ZoneFit::Unique(off) => {
            let ep = epoch_seconds(dt);
            Ok(
                Some(
                    ResolvedTimestamp {
                        epoch_seconds: ep - off as i64,
                        provenance: Provenance::EmbeddedMetadata,
                    },
                ),
            )
        },
    }
}

/// Merge the available time sources under the fixed priority policy. The
/// result is pinned by [`spec_resolve`] for every input; where the policy
/// consults the process's local zone, it is pinned for whatever answer
/// that zone gave.
pub fn resolve_timestamp(
    dto: Option<&str>,
    oto: Option<&str>,
    props: &Vec<X3fProperty>,
    from_tz: Option<&str>,
) -> (r: Result<Option<ResolvedTimestamp>, X3fError>)
    ensures
        needs_system_zone(opt_str_view(dto), opt_str_view(oto), opt_str_view(from_tz))
            ==> exists|sys: ZoneFit|
                !(sys is UnknownZone) && r == spec_resolve(
                    opt_str_view(dto),
                    opt_str_view(oto),
                    props_view(props@),
                    opt_str_view(from_tz),
                    sys,
                ),
        !needs_system_zone(opt_str_view(dto), opt_str_view(oto), opt_str_view(from_tz))
            ==> forall|sys: ZoneFit| r == spec_resolve(
                opt_str_view(dto),
                opt_str_view(oto),
                props_view(props@),
                opt_str_view(from_tz),
                sys,
            ),
{
    let ghost dv = opt_str_view(dto);
    let ghost ov = opt_str_view(oto);
    let ghost zv = opt_str_view(from_tz);
    let ghost pv = props_view(props@);
    match dto {
        Some(ds) => {
            let dt = match parse_datetime(ds) {
                Ok(dt) => dt,
                Err(e) => {
                    return Err(e);
                },
            };
            match from_tz {
                Some(z) => {
                    let fit = zone_fit_lookup(z, &dt);
                    resolve_with_fit(&dt, fit)
                },
                None => match oto {
                    Some(os) => {
                        let off = match parse_utc_offset(os) {
                            Ok(o) => o,
                            Err(e) => {
                                return Err(e);
                            },
                        };
                        let ep = epoch_seconds(&dt);
                        Ok(
                            Some(
                                ResolvedTimestamp {
                                    epoch_seconds: ep - off as i64,
                                    provenance: Provenance::EmbeddedMetadata,
                                },
                            ),
                        )
                    },
                    None => {
                        let fit = local_zone_fit(&dt);
                        let r = resolve_with_fit(&dt, fit);
                        proof {
                            assert(!(fit is UnknownZone) && r == spec_resolve(dv, ov, pv, zv, fit));
                        }
                        r
                    },
                },
            }
        },
        None => {
            proof {
                reveal_strlit("TIME");
                assert("TIME"@ =~= time_key());
            }
            match lookup_property(props, "TIME") {
                Some(tv) => {
                    let v = match parse_i64(tv.as_str()) {
                        Ok(v) => v,
                        Err(e) => {
                            return Err(e);
                        },
                    };
                    Ok(
                        Some(
                            ResolvedTimestamp {
                                epoch_seconds: v,
                                provenance: Provenance::DeviceClock,
                            },
                        ),
                    )
                },
                None => Ok(None),
            }
        },
    }
}

} // verus!
