//! The whole-container decode: discover all directory entries, then
//! dispatch each by tag, and resolve the timestamp from what was found.
//!
//! The decode is two-phase. Phase one reads the full directory. Phase two
//! visits the entries in on-disk order: a property-list entry replaces the
//! property table, an image entry holding a JPEG thumbnail is handed to the
//! embedded-metadata delegate, and the last thumbnail that yielded a
//! date-time wins. Camera-calibration and full-resolution image entries are
//! skipped. Any section error aborts the one file's decode with that error.

use vstd::prelude::*;

use crate::cursor::X3fReader;
use crate::directory::{spec_check_identifier, spec_read_directory, DirEntryModel};
use crate::error::X3fError;
use crate::exif_meta::{
    exif_datetime_original, exif_datetime_text, exif_offset_text, exif_offset_time_original,
    opt_string_view,
};
use crate::image::{spec_is_jpeg_thumbnail, spec_read_image, X3fImage};
use crate::props::{props_view, spec_read_property_list, PropModel};
use crate::resolve::{
    needs_system_zone, resolve_timestamp, spec_get_property, spec_resolve, ResolvedTimestamp,
};
use crate::zone::ZoneFit;

verus! {

/// The image-section tag, `"IMA2"`.
pub open spec fn ima2_tag() -> Seq<u8> {
    seq![0x49u8, 0x4du8, 0x41u8, 0x32u8]
}

/// The property-list tag, `"PROP"`.
pub open spec fn prop_tag() -> Seq<u8> {
    seq![0x50u8, 0x52u8, 0x4fu8, 0x50u8]
}

/// The state a directory walk accumulates: the property table and the two
/// embedded-metadata texts from the thumbnail, if one yielded them.
#[verifier::ext_equal]
pub struct WalkModel {
    pub props: Seq<PropModel>,
    pub exif_datetime: Option<Seq<char>>,
    pub exif_offset: Option<Seq<char>>,
}

/// The walk state before any entry is visited.
pub open spec fn initial_walk() -> WalkModel {
    WalkModel { props: Seq::empty(), exif_datetime: None, exif_offset: None }
}

/// What dispatching the entries `es[i..]` of the bytes `d` does to the walk
/// state `w`: property lists replace the table, JPEG thumbnails hand their
/// payload to the metadata delegate (a thumbnail with a date-time replaces
/// both texts), all other tags are skipped, and the first section error
/// aborts.
pub open spec fn spec_walk(d: Seq<u8>, es: Seq<DirEntryModel>, i: int, w: WalkModel) -> Result<
    WalkModel,
    X3fError,
>
    decreases es.len() - i,
{
    if i < 0 || i >= es.len() {
        Ok(w)
    } else {
        let e = es[i];
        if e.name == ima2_tag() {
            match spec_read_image(d, e.offset, e.length) {
                Err(err) => Err(err),
                Ok(img) => {
                    let w2 = if spec_is_jpeg_thumbnail(img.image_type, img.data_format) {
                        match exif_datetime_text(img.data) {
                            Option::Some(t) => WalkModel {
                                props: w.props,
                                exif_datetime: Some(t),
                                exif_offset: exif_offset_text(img.data),
                            },
                            Option::None => w,
                        }
                    } else {
                        w
                    };
                    spec_walk(d, es, i + 1, w2)
                },
            }
        } else if e.name == prop_tag() {
            match spec_read_property_list(d, e.offset) {
                Err(err) => Err(err),
                Ok(ps) => spec_walk(
                    d,
                    es,
                    i + 1,
                    WalkModel {
                        props: ps,
                        exif_datetime: w.exif_datetime,
                        exif_offset: w.exif_offset,
                    },
                ),
            }
        } else {
            spec_walk(d, es, i + 1, w)
        }
    }
}

/// What a full decode starting from the walk state `w0` returns on the
/// bytes `d`.
pub open spec fn spec_read_outcome(d: Seq<u8>, w0: WalkModel) -> Result<WalkModel, X3fError> {
    match spec_check_identifier(d) {
        Err(e) => Err(e),
        Ok(()) => match spec_read_directory(d) {
            Err(e) => Err(e),
            Ok(es) => spec_walk(d, es, 0, w0),
        },
    }
}

/// What decoding the whole container `d` returns: identifier check,
/// directory, then the dispatch of every entry, from an empty state.
pub open spec fn spec_decode(d: Seq<u8>) -> Result<WalkModel, X3fError> {
    spec_read_outcome(d, initial_walk())
}

impl X3fReader {
    /// The walk state this reader holds.
    pub open spec fn walk_state(self) -> WalkModel {
        WalkModel {
            props: props_view(self.properties@),
            exif_datetime: opt_string_view(self.exif_datetime),
            exif_offset: opt_string_view(self.exif_offset),
        }
    }

    /// Hand a thumbnail's payload to the embedded-metadata delegate and
    /// recover the date-time and UTC-offset texts, if the payload parses.
    pub fn read_datetime_from_thumbnail(&self, image: &X3fImage) -> (r: (
        Option<String>,
        Option<String>,
    ))
        ensures
            opt_string_view(r.0) == exif_datetime_text(image.data@),
            opt_string_view(r.1) == exif_offset_text(image.data@),
    {
        let dto = exif_datetime_original(&image.data);
        let oto = exif_offset_time_original(&image.data);
        (dto, oto)
    }

    /// Decode the whole container: verify the identifier, read the full
    /// directory, then dispatch every entry in on-disk order.
    #[verifier::rlimit(100)]
    pub fn read(&mut self) -> (r: Result<(), X3fError>)
        requires
            old(self).wf(),
        ensures
            final(self).wf(),
            final(self).data == old(self).data,
            final(self).from_tz == old(self).from_tz,
            match spec_read_outcome(old(self).data@, old(self).walk_state()) {
                Ok(w) => r is Ok && final(self).walk_state() == w,
                Err(e) => r is Err && r->Err_0 == e,
            },
    {
        let ghost d = self.data@;
        let ghost w0 = old(self).walk_state();
        match self.check_identifier() {
            Ok(()) => (),
            Err(e) => {
                return Err(e);
            },
        }
        let dir_entries = match self.read_directory_entries() {
            Ok(es) => es,
            Err(e) => {
                return Err(e);
            },
        };
        let ghost es = spec_read_directory(d)->Ok_0;
        let num = dir_entries.len();
        let mut i: usize = 0;
        while i < num
            invariant
                self.wf(),
                self.data == old(self).data,
                self.data@ == d,
                d == old(self).data@,
                self.from_tz == old(self).from_tz,
                w0 == old(self).walk_state(),
                spec_check_identifier(d) == Ok::<(), X3fError>(()),
                spec_read_directory(d) == Ok::<Seq<DirEntryModel>, X3fError>(es),
                num == dir_entries@.len(),
                i <= num,
                es.len() == dir_entries@.len(),
                forall|j: int| 0 <= j < es.len() ==> #[trigger] dir_entries@[j]@ == es[j],
                spec_walk(d, es, i as int, self.walk_state()) == spec_walk(d, es, 0, w0),
            decreases num - i,
        {
            let ghost w_cur = self.walk_state();
            let ghost e_model = es[i as int];
            proof {
                assert(dir_entries@[i as int]@ == es[i as int]);
            }
            let entry_offset = dir_entries[i].offset;
            let entry_length = dir_entries[i].length;
            let name_len = dir_entries[i].name.len();
            let is_image = name_len == 4 && dir_entries[i].name[0] == 0x49
                && dir_entries[i].name[1] == 0x4d && dir_entries[i].name[2] == 0x41
                && dir_entries[i].name[3] == 0x32;
            let is_props = name_len == 4 && dir_entries[i].name[0] == 0x50
                && dir_entries[i].name[1] == 0x52 && dir_entries[i].name[2] == 0x4f
                && dir_entries[i].name[3] == 0x50;
            proof {
                assert(e_model.name == dir_entries@[i as int].name@);
                if is_image {
                    assert(e_model.name =~= ima2_tag());
                } else {
                    assert(e_model.name != ima2_tag());
                }
                if is_props {
                    assert(e_model.name =~= prop_tag());
                } else {
                    assert(e_model.name != prop_tag());
                }
                assert(entry_offset == e_model.offset);
                assert(entry_length == e_model.length);
            }
            if is_image {
                let image = match self.read_image(entry_offset, entry_length) {
                    Ok(img) => img,
                    Err(e) => {
                        proof {
                            assert(spec_read_image(d, e_model.offset, e_model.length)
                                == Err::<crate::image::ImageModel, X3fError>(e));
                            assert(spec_walk(d, es, i as int, w_cur) == Err::<
                                WalkModel,
                                X3fError,
                            >(e));
                        }
                        return Err(e);
                    },
                };
                let ghost img = spec_read_image(d, e_model.offset, e_model.length)->Ok_0;
                proof {
                    assert(image@ == img);
                }
                if image.is_jpeg_thumbnail() {
                    let texts = self.read_datetime_from_thumbnail(&image);
                    if let Some(dt_text) = texts.0 {
                        self.exif_datetime = Some(dt_text);
                        self.exif_offset = texts.1;
                        proof {
                            assert(exif_datetime_text(img.data) == Some(dt_text@));
                            assert(self.walk_state() =~= WalkModel {
                                props: w_cur.props,
                                exif_datetime: Some(exif_datetime_text(img.data)->0),
                                exif_offset: exif_offset_text(img.data),
                            });
                        }
                    } else {
                        proof {
                            assert(exif_datetime_text(img.data) is None);
                            assert(self.walk_state() == w_cur);
                        }
                    }
                } else {
                    proof {
                        assert(!spec_is_jpeg_thumbnail(img.image_type, img.data_format));
                    }
                }
                proof {
                    assert(spec_walk(d, es, i as int, w_cur) == spec_walk(
                        d,
                        es,
                        i + 1,
                        self.walk_state(),
                    ));
                }
            } else if is_props {
                let props = match self.read_property_list(entry_offset) {
                    Ok(ps) => ps,
                    Err(e) => {
                        proof {
                            assert(spec_read_property_list(d, e_model.offset) == Err::<
                                Seq<PropModel>,
                                X3fError,
                            >(e));
                            assert(spec_walk(d, es, i as int, w_cur) == Err::<
                                WalkModel,
                                X3fError,
                            >(e));
                        }
                        return Err(e);
                    },
                };
                self.properties = props;
                proof {
                    assert(self.walk_state() =~= WalkModel {
                        props: spec_read_property_list(d, e_model.offset)->Ok_0,
                        exif_datetime: w_cur.exif_datetime,
                        exif_offset: w_cur.exif_offset,
                    });
                    assert(spec_walk(d, es, i as int, w_cur) == spec_walk(
                        d,
                        es,
                        i + 1,
                        self.walk_state(),
                    ));
                }
            } else {
                proof {
                    assert(spec_walk(d, es, i as int, w_cur) == spec_walk(
                        d,
                        es,
                        i + 1,
                        self.walk_state(),
                    ));
                }
            }
            i = i + 1;
        }
        proof {
            assert(spec_walk(d, es, num as int, self.walk_state()) == Ok::<WalkModel, X3fError>(
                self.walk_state(),
            ));
        }
        Ok(())
    }

    /// Decode one container held in `data`, with an optional override
    /// timezone name for the resolver. Owns its bytes exclusively for the
    /// one decode; any error aborts this file only.
    pub fn new(data: Vec<u8>, from_tz: Option<String>) -> (r: Result<X3fReader, X3fError>)
        ensures
            match spec_decode(data@) {
                Ok(w) => r is Ok && r->Ok_0.walk_state() == w && r->Ok_0.data@ == data@
                    && r->Ok_0.from_tz == from_tz && r->Ok_0.wf(),
                Err(e) => r is Err && r->Err_0 == e,
            },
    {
        let mut reader = X3fReader {
            data,
            pos: 0,
            properties: Vec::new(),
            exif_datetime: None,
            exif_offset: None,
            from_tz,
        };
        proof {
            assert(props_view(reader.properties@) =~= Seq::<PropModel>::empty());
            assert(reader.walk_state() =~= initial_walk());
        }
        match reader.read() {
            Ok(()) => Ok(reader),
            Err(e) => Err(e),
        }
    }

    /// The value of the first property named `name`, if any (duplicate
    /// names may occur; the first occurrence wins).
    pub fn get_property(&self, name: &str) -> (r: Option<&String>)
        ensures
            match spec_get_property(props_view(self.properties@), name@) {
                Option::Some(v) => r is Some && r->0@ == v,
                Option::None => r is None,
            },
    {
        crate::resolve::lookup_property(&self.properties, name)
    }

    /// Resolve the decoded time sources into one instant under the fixed
    /// priority policy: embedded metadata first — interpreted in the
    /// override zone, else with the embedded offset, else in the process's
    /// local zone — then the raw device clock, else an explicit absence.
    pub fn get_taken_datetime(&self) -> (r: Result<Option<ResolvedTimestamp>, X3fError>)
        ensures
            needs_system_zone(
                opt_string_view(self.exif_datetime),
                opt_string_view(self.exif_offset),
                opt_string_view(self.from_tz),
            ) ==> exists|sys: ZoneFit|
                !(sys is UnknownZone) && r == spec_resolve(
                    opt_string_view(self.exif_datetime),
                    opt_string_view(self.exif_offset),
                    props_view(self.properties@),
                    opt_string_view(self.from_tz),
                    sys,
                ),
            !needs_system_zone(
                opt_string_view(self.exif_datetime),
                opt_string_view(self.exif_offset),
                opt_string_view(self.from_tz),
            ) ==> forall|sys: ZoneFit| r == spec_resolve(
                opt_string_view(self.exif_datetime),
                opt_string_view(self.exif_offset),
                props_view(self.properties@),
                opt_string_view(self.from_tz),
                sys,
            ),
    {
        let dto = match &self.exif_datetime {
            Some(s) => Some(s.as_str()),
            None => None,
        };
        let oto = match &self.exif_offset {
            Some(s) => Some(s.as_str()),
            None => None,
        };
        let tz = match &self.from_tz {
            Some(s) => Some(s.as_str()),
            None => None,
        };
        resolve_timestamp(dto, oto, &self.properties, tz)
    }
}

/// Decode one container and resolve its capture timestamp in one call: the
/// whole per-file pipeline from bytes to an instant, its provenance, or an
/// explicit absence.
pub fn read_x3f_time(data: Vec<u8>, from_tz: Option<String>) -> (r: Result<
    Option<ResolvedTimestamp>,
    X3fError,
>)
    ensures
        match spec_decode(data@) {
            Err(e) => r is Err && r->Err_0 == e,
            Ok(w) => {
                &&& needs_system_zone(w.exif_datetime, w.exif_offset, opt_string_view(from_tz))
                    ==> exists|sys: ZoneFit|
                        !(sys is UnknownZone) && r == spec_resolve(
                            w.exif_datetime,
                            w.exif_offset,
                            w.props,
                            opt_string_view(from_tz),
                            sys,
                        )
                &&& !needs_system_zone(w.exif_datetime, w.exif_offset, opt_string_view(from_tz))
                    ==> forall|sys: ZoneFit| r == spec_resolve(
                        w.exif_datetime,
                        w.exif_offset,
                        w.props,
                        opt_string_view(from_tz),
                        sys,
                    )
            },
        },
{
    let reader = match X3fReader::new(data, from_tz) {
        Ok(rd) => rd,
        Err(e) => {
            return Err(e);
        },
    };
    reader.get_taken_datetime()
}

} // verus!
