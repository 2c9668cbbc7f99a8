//! The section cursor: an owned byte stream with a read position.
//!
//! The reader owns the whole file as bytes and models the original seekable
//! stream with an index into them. Seeks past the end and short reads surface
//! as `Io` errors, never as panics. One reusable header check covers the
//! directory, property-list and image sections, which all begin with a 4-byte
//! magic and a 4-byte version that must equal the single supported value.

use vstd::prelude::*;

use crate::bytes::{u32_le_at, u32_from_le_quad};
use crate::error::{FormatReason, IoReason, X3fError};
use crate::props::X3fProperty;

verus! {

/// The one section version this reader supports, for every section kind.
pub const SUPPORTED_SECTION_VERSION: u32 = 0x0002_0000;

/// Reader for one container file. It owns the file's bytes and accumulates
/// the decoded property list and any embedded-metadata text found in a
/// thumbnail while the directory entries are dispatched.
pub struct X3fReader {
    /// The whole file.
    pub data: Vec<u8>,
    /// Current read position; never past `data.len()`.
    pub pos: usize,
    /// Properties of the last property-list section read.
    pub properties: Vec<X3fProperty>,
    /// Embedded local date-time text recovered from a thumbnail, if any.
    pub exif_datetime: Option<String>,
    /// Embedded UTC-offset text recovered from a thumbnail, if any.
    pub exif_offset: Option<String>,
    /// Caller-supplied override timezone name, if any.
    pub from_tz: Option<String>,
}

impl X3fReader {
    /// The cursor is inside the stream.
    pub open spec fn wf(self) -> bool {
        self.pos <= self.data.len()
    }
}

/// Everything but the read position is the same in `pre` and `post`.
pub open spec fn keeps_state(pre: X3fReader, post: X3fReader) -> bool {
    &&& post.data == pre.data
    &&& post.properties == pre.properties
    &&& post.exif_datetime == pre.exif_datetime
    &&& post.exif_offset == pre.exif_offset
    &&& post.from_tz == pre.from_tz
}

/// What the reusable section-header check returns on the bytes `d` at
/// position `p`: an `Io` error if the 8 header bytes are not all there, the
/// given format errors if the magic or the version is wrong.
pub open spec fn spec_verify_header(
    d: Seq<u8>,
    p: int,
    magic: Seq<u8>,
    magic_err: FormatReason,
    version_err: FormatReason,
) -> Result<(), X3fError> {
    if p + 4 > d.len() {
        Err(X3fError::Io(IoReason::UnexpectedEof))
    } else if d.subrange(p, p + 4) != magic {
        Err(X3fError::Format(magic_err))
    } else if p + 8 > d.len() {
        Err(X3fError::Io(IoReason::UnexpectedEof))
    } else if u32_le_at(d, p + 4) != SUPPORTED_SECTION_VERSION {
        Err(X3fError::Format(version_err))
    } else {
        Ok(())
    }
}

impl X3fReader {
    /// Move the cursor to an absolute position, failing on a seek past the
    /// end of the stream.
    pub(crate) fn seek_to(&mut self, target: usize) -> (r: Result<(), X3fError>)
        requires
            old(self).wf(),
        ensures
            final(self).wf(),
            keeps_state(*old(self), *final(self)),
            r is Ok <==> target <= old(self).data.len(),
            r is Ok ==> final(self).pos == target,
            r is Err ==> r == Err::<(), X3fError>(X3fError::Io(IoReason::SeekPastEnd))
                && final(self).pos == old(self).pos,
    {
        if target <= self.data.len() {
            self.pos = target;
            Ok(())
        } else {
            Err(X3fError::Io(IoReason::SeekPastEnd))
        }
    }

    /// Move the cursor forward, failing on a seek past the end of the stream.
    pub(crate) fn seek_by(&mut self, delta: u32) -> (r: Result<(), X3fError>)
        requires
            old(self).wf(),
        ensures
            final(self).wf(),
            keeps_state(*old(self), *final(self)),
            r is Ok <==> old(self).pos + delta <= old(self).data.len(),
            r is Ok ==> final(self).pos == old(self).pos + delta,
            r is Err ==> r == Err::<(), X3fError>(X3fError::Io(IoReason::SeekPastEnd))
                && final(self).pos == old(self).pos,
    {
        let rest = self.data.len() - self.pos;
        if delta as usize <= rest {
            self.pos = self.pos + delta as usize;
            Ok(())
        } else {
            Err(X3fError::Io(IoReason::SeekPastEnd))
        }
    }

    /// Read `length` bytes at the cursor, failing on a short read.
    pub(crate) fn read_bytes(&mut self, length: usize) -> (r: Result<Vec<u8>, X3fError>)
        requires
            old(self).wf(),
        ensures
            final(self).wf(),
            keeps_state(*old(self), *final(self)),
            old(self).pos + length <= old(self).data.len() ==> r is Ok
                && r->Ok_0@ == old(self).data@.subrange(
                    old(self).pos as int,
                    old(self).pos + length,
                )
                && final(self).pos == old(self).pos + length,
            old(self).pos + length > old(self).data.len() ==> r is Err
                && r->Err_0 == X3fError::Io(IoReason::UnexpectedEof)
                && final(self).pos == old(self).pos,
    {
        let rest = self.data.len() - self.pos;
        if length > rest {
            return Err(X3fError::Io(IoReason::UnexpectedEof));
        }
        let mut out: Vec<u8> = Vec::new();
        let mut i: usize = 0;
        while i < length
            invariant
                self.wf(),
                i <= length,
                self.pos + length <= self.data.len(),
                out@ == self.data@.subrange(self.pos as int, self.pos + i),
            decreases length - i,
        {
            out.push(self.data[self.pos + i]);
            i = i + 1;
            proof {
                assert(out@ =~= self.data@.subrange(self.pos as int, self.pos + i));
            }
        }
        self.pos = self.pos + length;
        Ok(out)
    }

    /// Read a little-endian `u32` at the cursor, failing on a short read.
    pub(crate) fn read_u32(&mut self) -> (r: Result<u32, X3fError>)
        requires
            old(self).wf(),
        ensures
            final(self).wf(),
            keeps_state(*old(self), *final(self)),
            old(self).pos + 4 <= old(self).data.len() ==> r is Ok
                && r->Ok_0 == u32_le_at(old(self).data@, old(self).pos as int)
                && final(self).pos == old(self).pos + 4,
            old(self).pos + 4 > old(self).data.len() ==> r is Err
                && r->Err_0 == X3fError::Io(IoReason::UnexpectedEof)
                && final(self).pos == old(self).pos,
    {
        let rest = self.data.len() - self.pos;
        if rest < 4 {
            return Err(X3fError::Io(IoReason::UnexpectedEof));
        }
        let b0 = self.data[self.pos];
        let b1 = self.data[self.pos + 1];
        let b2 = self.data[self.pos + 2];
        let b3 = self.data[self.pos + 3];
        self.pos = self.pos + 4;
        Ok(u32_from_le_quad(b0, b1, b2, b3))
    }

    /// Check one section header: a 4-byte magic followed by a 4-byte version
    /// that must equal [`SUPPORTED_SECTION_VERSION`]. Reports the given
    /// format reason for whichever of the two checks fails.
    pub(crate) fn verify_section_header(
        &mut self,
        m0: u8,
        m1: u8,
        m2: u8,
        m3: u8,
        magic_err: FormatReason,
        version_err: FormatReason,
    ) -> (r: Result<(), X3fError>)
        requires
            old(self).wf(),
        ensures
            final(self).wf(),
            keeps_state(*old(self), *final(self)),
            r == spec_verify_header(
                old(self).data@,
                old(self).pos as int,
                seq![m0, m1, m2, m3],
                magic_err,
                version_err,
            ),
            r is Ok ==> final(self).pos == old(self).pos + 8,
    {
        let ghost d = self.data@;
        let ghost p = self.pos as int;
        let tag = match self.read_bytes(4) {
            Ok(t) => t,
            Err(e) => {
                return Err(e);
            },
        };
        if !(tag[0] == m0 && tag[1] == m1 && tag[2] == m2 && tag[3] == m3) {
            proof {
                assert(d.subrange(p, p + 4) != seq![m0, m1, m2, m3]);
            }
            return Err(X3fError::Format(magic_err));
        }
        proof {
            assert(d.subrange(p, p + 4) =~= seq![m0, m1, m2, m3]);
        }
        let version = match self.read_u32() {
            Ok(v) => v,
            Err(e) => {
                return Err(e);
            },
        };
        if version != SUPPORTED_SECTION_VERSION {
            return Err(X3fError::Format(version_err));
        }
        Ok(())
    }
}

} // verus!
