//! The embedded-metadata delegate.
//!
//! A JPEG thumbnail inside the container may carry standard embedded
//! metadata with the date-time the picture was taken and its UTC offset.
//! Recovering those two texts from a byte blob is the metadata reader's
//! business, reached through the two trusted calls here; a blob it cannot
//! parse simply yields nothing, never an error for the whole file.

use vstd::prelude::*;

use crate::error::X3fError;
use crate::props::{props_view, PropModel, X3fProperty};
use crate::resolve::{
    needs_system_zone, opt_str_view, resolve_timestamp, spec_resolve, ResolvedTimestamp,
};
use crate::zone::ZoneFit;

verus! {

/// The date-time text the standard-metadata reader recovers from `data`,
/// if any. Left uninterpreted: it is a function of the bytes alone.
pub uninterp spec fn exif_datetime_text(data: Seq<u8>) -> Option<Seq<char>>;

/// The UTC-offset text the standard-metadata reader recovers from `data`,
/// if any. Left uninterpreted: it is a function of the bytes alone.
pub uninterp spec fn exif_offset_text(data: Seq<u8>) -> Option<Seq<char>>;

/// An optional owned string, viewed.
pub open spec fn opt_string_view(o: Option<String>) -> Option<Seq<char>> {
    match o {
        Option::Some(s) => Option::Some(s@),
        Option::None => Option::None,
    }
}

/// Relies on `exif::Reader::read_from_container` and `exif::Exif::get_field`
/// with the date-time-taken tag: the recovered text — the field displayed in
/// its `YYYY-MM-DD HH:MM:SS` form — is a function of the bytes alone, and a
/// blob the reader cannot parse, or one without the field, yields nothing.
#[verifier::external_body]
pub(crate) fn exif_datetime_original(data: &Vec<u8>) -> (r: Option<String>)
    ensures
        opt_string_view(r) == exif_datetime_text(data@),
{
    let mut cur = std::io::BufReader::new(std::io::Cursor::new(data.as_slice()));
    let ex = match exif::Reader::new().read_from_container(&mut cur) {
        Ok(e) => e,
        Err(_) => return None,
    };
    let f = ex.get_field(exif::Tag::DateTimeOriginal, exif::In::PRIMARY)?;
    Some(f.display_value().to_string())
}

/// Relies on `exif::Reader::read_from_container`, `exif::Exif::get_field`
/// with the UTC-offset tag, and the public `exif::Value::Ascii`
/// representation: the recovered text — the raw `±HH:MM` value — is a
/// function of the bytes alone, and a blob the reader cannot parse, or one
/// without the field, yields nothing.
#[verifier::external_body]
pub(crate) fn exif_offset_time_original(data: &Vec<u8>) -> (r: Option<String>)
    ensures
        opt_string_view(r) == exif_offset_text(data@),
{
    let mut cur = std::io::BufReader::new(std::io::Cursor::new(data.as_slice()));
    let ex = match exif::Reader::new().read_from_container(&mut cur) {
        Ok(e) => e,
        Err(_) => return None,
    };
    let f = ex.get_field(exif::Tag::OffsetTimeOriginal, exif::In::PRIMARY)?;
    if let exif::Value::Ascii(v) = &f.value {
        if let Some(b) = v.first() {
            return Some(String::from_utf8_lossy(b).into_owned());
        }
    }
    None
}

/// Read the capture timestamp of a standard image file held in `data`:
/// hand the whole file to the metadata reader, then resolve its date-time
/// and offset texts under the fixed priority policy. No property table
/// exists on this path, so without embedded metadata the result is an
/// explicit absence.
pub fn read_date_time_original_as_utc(data: &Vec<u8>, from_tz: Option<&str>) -> (r: Result<
    Option<ResolvedTimestamp>,
    X3fError,
>)
    ensures
        needs_system_zone(exif_datetime_text(data@), exif_offset_text(data@), opt_str_view(from_tz))
            ==> exists|sys: ZoneFit|
                !(sys is UnknownZone) && r == spec_resolve(
                    exif_datetime_text(data@),
                    exif_offset_text(data@),
                    Seq::empty(),
                    opt_str_view(from_tz),
                    sys,
                ),
        !needs_system_zone(
            exif_datetime_text(data@),
            exif_offset_text(data@),
            opt_str_view(from_tz),
        ) ==> forall|sys: ZoneFit| r == spec_resolve(
            exif_datetime_text(data@),
            exif_offset_text(data@),
            Seq::empty(),
            opt_str_view(from_tz),
            sys,
        ),
{
    let dto = exif_datetime_original(data);
    let oto = exif_offset_time_original(data);
    let props: Vec<X3fProperty> = Vec::new();
    proof {
        assert(props_view(props@) =~= Seq::<PropModel>::empty());
    }
    let dto_ref = match &dto {
        Some(s) => Some(s.as_str()),
        None => None,
    };
    let oto_ref = match &oto {
        Some(s) => Some(s.as_str()),
        None => None,
    };
    resolve_timestamp(dto_ref, oto_ref, &props, from_tz)
}

} // verus!
