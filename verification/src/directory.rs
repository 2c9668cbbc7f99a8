//! The directory reader: container identifier, trailer, and entry list.
//!
//! The decode is two-phase: the whole directory is read before any entry is
//! dispatched. The trailer — the last 4 bytes of the stream — holds the
//! directory's offset; the directory section starts with its own magic and
//! version, then an entry count, then fixed 12-byte records.

use vstd::prelude::*;

use crate::bytes::u32_le_at;
use crate::cursor::{keeps_state, spec_verify_header, X3fReader};
use crate::error::{FormatReason, IoReason, X3fError};

verus! {

/// One directory entry: a section's 4-byte tag, absolute offset and length.
/// The tag is kept as its raw bytes.
#[derive(Debug, Clone)]
pub struct X3fDirectoryEntry {
    pub name: Vec<u8>,
    pub offset: u32,
    pub length: u32,
}

/// Mathematical image of one directory entry.
pub struct DirEntryModel {
    pub name: Seq<u8>,
    pub offset: u32,
    pub length: u32,
}

impl View for X3fDirectoryEntry {
    type V = DirEntryModel;

    open spec fn view(&self) -> DirEntryModel {
        DirEntryModel { name: self.name@, offset: self.offset, length: self.length }
    }
}

/// The container magic, `"FOVb"`.
pub open spec fn container_magic() -> Seq<u8> {
    seq![0x46u8, 0x4fu8, 0x56u8, 0x62u8]
}

/// What checking the container identifier returns on the bytes `d`: the
/// 4-byte magic at offset 0 must be `"FOVb"`, and the 4-byte container
/// version after it must be present (it is read but not interpreted).
pub open spec fn spec_check_identifier(d: Seq<u8>) -> Result<(), X3fError> {
    if d.len() < 4 {
        Err(X3fError::Io(IoReason::UnexpectedEof))
    } else if d.subrange(0, 4) != container_magic() {
        Err(X3fError::Format(FormatReason::ContainerMagic))
    } else if d.len() < 8 {
        Err(X3fError::Io(IoReason::UnexpectedEof))
    } else {
        Ok(())
    }
}

/// The directory offset held by the trailer: the last 4 bytes of the stream
/// as a little-endian `u32`.
pub open spec fn spec_directory_offset(d: Seq<u8>) -> Result<u32, X3fError> {
    if d.len() < 4 {
        Err(X3fError::Io(IoReason::SeekPastEnd))
    } else {
        Ok(u32_le_at(d, d.len() - 4))
    }
}

/// What checking the directory section returns: the entry count, after the
/// trailer has been followed and the `"SECd"` magic and version verified.
pub open spec fn spec_check_directory(d: Seq<u8>) -> Result<u32, X3fError> {
    match spec_directory_offset(d) {
        Err(e) => Err(e),
        Ok(off) => if off > d.len() {
            Err(X3fError::Io(IoReason::SeekPastEnd))
        } else {
            match spec_verify_header(
                d,
                off as int,
                seq![0x53u8, 0x45u8, 0x43u8, 0x64u8],
                FormatReason::DirectoryMagic,
                FormatReason::DirectoryVersion,
            ) {
                Err(e) => Err(e),
                Ok(()) => if off + 12 > d.len() {
                    Err(X3fError::Io(IoReason::UnexpectedEof))
                } else {
                    Ok(u32_le_at(d, off + 8))
                },
            }
        },
    }
}

/// The entry record starting at byte offset `p`.
pub open spec fn spec_directory_entry(d: Seq<u8>, p: int) -> DirEntryModel {
    DirEntryModel {
        offset: u32_le_at(d, p),
        length: u32_le_at(d, p + 4),
        name: d.subrange(p + 8, p + 12),
    }
}

/// The position where the directory's entry records start.
pub open spec fn spec_entries_start(d: Seq<u8>) -> int {
    spec_directory_offset(d)->Ok_0 + 12
}

/// What reading the whole directory returns on the bytes `d`: all entries in
/// on-disk order, with their exact offset, length and tag bytes, or the first
/// error hit on the way.
pub open spec fn spec_read_directory(d: Seq<u8>) -> Result<Seq<DirEntryModel>, X3fError> {
    match spec_check_directory(d) {
        Err(e) => Err(e),
        Ok(n) => {
            let start = spec_entries_start(d);
            if start + 12 * n > d.len() {
                Err(X3fError::Io(IoReason::UnexpectedEof))
            } else {
                Ok(Seq::new(n as nat, |i: int| spec_directory_entry(d, start + 12 * i)))
            }
        },
    }
}

impl X3fReader {
    /// Verify the container identifier at offset 0 and skip the container
    /// version field.
    pub fn check_identifier(&mut self) -> (r: Result<(), X3fError>)
        requires
            old(self).wf(),
        ensures
            final(self).wf(),
            keeps_state(*old(self), *final(self)),
            r == spec_check_identifier(old(self).data@),
            r is Ok ==> final(self).pos == 8,
    {
        let ghost d = self.data@;
        match self.seek_to(0) {
            Ok(()) => (),
            Err(e) => {
                return Err(e);
            },
        }
        let magic = match self.read_bytes(4) {
            Ok(t) => t,
            Err(e) => {
                return Err(e);
            },
        };
        if !(magic[0] == 0x46 && magic[1] == 0x4f && magic[2] == 0x56 && magic[3] == 0x62) {
            proof {
                assert(d.subrange(0, 4) != container_magic());
            }
            return Err(X3fError::Format(FormatReason::ContainerMagic));
        }
        proof {
            assert(d.subrange(0, 4) =~= container_magic());
        }
        let _version = match self.read_u32() {
            Ok(v) => v,
            Err(e) => {
                return Err(e);
            },
        };
        Ok(())
    }

    /// Read the trailer: the last 4 bytes of the stream, as the directory's
    /// absolute offset.
    pub fn read_directory_offset(&mut self) -> (r: Result<u32, X3fError>)
        requires
            old(self).wf(),
        ensures
            final(self).wf(),
            keeps_state(*old(self), *final(self)),
            r == spec_directory_offset(old(self).data@),
    {
        if self.data.len() < 4 {
            return Err(X3fError::Io(IoReason::SeekPastEnd));
        }
        let target = self.data.len() - 4;
        match self.seek_to(target) {
            Ok(()) => (),
            Err(e) => {
                return Err(e);
            },
        }
        self.read_u32()
    }

    /// Follow the trailer, verify the directory header, and read the entry
    /// count.
    pub fn check_directory(&mut self) -> (r: Result<u32, X3fError>)
        requires
            old(self).wf(),
        ensures
            final(self).wf(),
            keeps_state(*old(self), *final(self)),
            r == spec_check_directory(old(self).data@),
            r is Ok ==> final(self).pos == spec_entries_start(old(self).data@),
    {
        let dir_offset = match self.read_directory_offset() {
            Ok(o) => o,
            Err(e) => {
                return Err(e);
            },
        };
        match self.seek_to(dir_offset as usize) {
            Ok(()) => (),
            Err(e) => {
                return Err(e);
            },
        }
        match self.verify_section_header(
            0x53,
            0x45,
            0x43,
            0x64,
            FormatReason::DirectoryMagic,
            FormatReason::DirectoryVersion,
        ) {
            Ok(()) => (),
            Err(e) => {
                return Err(e);
            },
        }
        self.read_u32()
    }

    /// Read the whole directory: all entries, in on-disk order, with their
    /// exact offset, length and tag bytes. No entry is dispatched before the
    /// list is complete.
    pub fn read_directory_entries(&mut self) -> (r: Result<Vec<X3fDirectoryEntry>, X3fError>)
        requires
            old(self).wf(),
        ensures
            final(self).wf(),
            keeps_state(*old(self), *final(self)),
            match spec_read_directory(old(self).data@) {
                Ok(es) => r is Ok && r->Ok_0@.len() == es.len() && (forall|i: int|
                    0 <= i < es.len() ==> #[trigger] r->Ok_0@[i]@ == es[i]),
                Err(e) => r is Err && r->Err_0 == e,
            },
    {
        let ghost d = self.data@;
        let num_entries = match self.check_directory() {
            Ok(n) => n,
            Err(e) => {
                return Err(e);
            },
        };
        let ghost start = spec_entries_start(d);
        let mut entries: Vec<X3fDirectoryEntry> = Vec::new();
        let mut i: u32 = 0;
        while i < num_entries
            invariant
                self.wf(),
                self.data@ == d,
                keeps_state(*old(self), *self),
                i <= num_entries,
                self.pos == start + 12 * i,
                self.pos <= self.data@.len(),
                spec_check_directory(d) == Ok::<u32, X3fError>(num_entries),
                start == spec_entries_start(d),
                entries@.len() == i,
                forall|j: int| 0 <= j < i ==> #[trigger] entries@[j]@
                    == spec_directory_entry(d, start + 12 * j),
            decreases num_entries - i,
        {
            let offset = match self.read_u32() {
                Ok(v) => v,
                Err(e) => {
                    proof {
                        assert(start + 12 * num_entries > d.len());
                    }
                    return Err(e);
                },
            };
            let length = match self.read_u32() {
                Ok(v) => v,
                Err(e) => {
                    proof {
                        assert(start + 12 * num_entries > d.len());
                    }
                    return Err(e);
                },
            };
            let name = match self.read_bytes(4) {
                Ok(t) => t,
                Err(e) => {
                    proof {
                        assert(start + 12 * num_entries > d.len());
                    }
                    return Err(e);
                },
            };
            let entry = X3fDirectoryEntry { name, offset, length };
            entries.push(entry);
            i = i + 1;
        }
        proof {
            assert(start + 12 * num_entries <= d.len());
            let es = spec_read_directory(d)->Ok_0;
            assert(forall|j: int| 0 <= j < num_entries ==> #[trigger] entries@[j]@
                == es[j]);
        }
        Ok(entries)
    }
}

} // verus!
