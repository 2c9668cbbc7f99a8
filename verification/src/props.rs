//! The property-list decoder: flat name/value text pairs.
//!
//! A property-list section holds an entry count, a character-encoding code
//! (UTF-16LE only), a shared UTF-16 code-unit buffer, and per-entry offsets
//! into that buffer, in 16-bit units. Names and values are found by scanning
//! forward from an offset to the first NUL code unit or the buffer end, so
//! entries may sit anywhere in the buffer, in any order. A text that fails
//! to decode — or an offset outside the buffer — yields an empty string for
//! that field rather than aborting the file.

use vstd::prelude::*;

use crate::bytes::{u16_from_le_pair, u16_le_at, u32_le_at};
use crate::cursor::{keeps_state, spec_verify_header, X3fReader};
use crate::error::{FormatReason, IoReason, X3fError};

verus! {

/// One decoded property: an owned name/value text pair.
#[derive(Debug, Clone)]
pub struct X3fProperty {
    pub name: String,
    pub value: String,
}

/// Mathematical image of one property.
pub struct PropModel {
    pub name: Seq<char>,
    pub value: Seq<char>,
}

impl View for X3fProperty {
    type V = PropModel;

    open spec fn view(&self) -> PropModel {
        PropModel { name: self.name@, value: self.value@ }
    }
}

/// The mathematical image of a whole property vector.
pub open spec fn props_view(props: Seq<X3fProperty>) -> Seq<PropModel> {
    props.map_values(|p: X3fProperty| p@)
}

/// One raw property entry: positions of the name and the value in the shared
/// code-unit buffer, in 16-bit units.
#[derive(Debug, Clone, Copy)]
pub struct X3fPropertyEntry {
    pub name_offset: usize,
    pub value_offset: usize,
}

/// The text that the code units `units` decode to, with invalid UTF-16
/// decoding to the empty string. Left uninterpreted: it stands for what
/// `String::from_utf16` returns, which depends on the units alone.
pub uninterp spec fn utf16_decoded(units: Seq<u16>) -> Seq<char>;

/// Relies on `String::from_utf16`: the decoded text is a function of the
/// code units alone, and invalid UTF-16 is replaced by the empty string
/// here rather than an error.
#[verifier::external_body]
fn utf16_to_string(units: &[u16]) -> (r: String)
    ensures
        r@ == utf16_decoded(units@),
{
    String::from_utf16(units).unwrap_or_default()
}

/// How many code units sit at `i` before the first NUL or the buffer end.
pub open spec fn null_run(buf: Seq<u16>, i: int) -> nat
    decreases buf.len() - i,
{
    if i < 0 || i >= buf.len() {
        0
    } else if buf[i] == 0 {
        0
    } else {
        1 + null_run(buf, i + 1)
    }
}

/// The NUL- or end-terminated run of code units starting at `off`; empty
/// when `off` lies outside the buffer.
pub open spec fn cstr_at(buf: Seq<u16>, off: int) -> Seq<u16> {
    if 0 <= off <= buf.len() {
        buf.subrange(off, off + null_run(buf, off))
    } else {
        Seq::empty()
    }
}

/// The text one property field decodes to: the terminated run at `off`,
/// decoded as UTF-16.
pub open spec fn prop_text(buf: Seq<u16>, off: int) -> Seq<char> {
    utf16_decoded(cstr_at(buf, off))
}

/// If the units in `[i, j)` are all non-NUL and `j` is the end or a NUL,
/// the run at `i` is exactly `j - i`.
pub proof fn lemma_null_run_stops(buf: Seq<u16>, i: int, j: int)
    requires
        0 <= i <= j <= buf.len(),
        forall|k: int| i <= k < j ==> buf[k] != 0,
        j == buf.len() || buf[j] == 0,
    ensures
        null_run(buf, i) == j - i,
    decreases j - i,
{
    if i < j {
        lemma_null_run_stops(buf, i + 1, j);
    }
}

/// `content` is encoded at `off` in `buf`: it holds no NUL, sits there
/// verbatim, and is closed off by a NUL or by the buffer end.
pub open spec fn placed_at(buf: Seq<u16>, off: int, content: Seq<u16>) -> bool {
    &&& 0 <= off
    &&& off + content.len() <= buf.len()
    &&& forall|k: int| 0 <= k < content.len() ==> buf[off + k] == content[k]
    &&& forall|k: int| 0 <= k < content.len() ==> content[k] != 0
    &&& off + content.len() == buf.len() || buf[off + content.len()] == 0
}

/// Round trip for one text: a text encoded at `off` is exactly what the
/// scan at `off` finds again.
pub proof fn lemma_text_round_trip(buf: Seq<u16>, off: int, content: Seq<u16>)
    requires
        placed_at(buf, off, content),
    ensures
        cstr_at(buf, off) == content,
        prop_text(buf, off) == utf16_decoded(content),
{
    assert forall|k: int| off <= k < off + content.len() implies buf[k] != 0 by {
        let k0 = k - off;
        assert(buf[off + k0] == content[k0]);
        assert(content[k0] != 0);
    }
    lemma_null_run_stops(buf, off, off + content.len());
    assert(buf.subrange(off, off + content.len()) =~= content);
}

/// Round trip for a whole property list: encoding any `n` name/value texts
/// at arbitrary, possibly non-contiguous offsets of a shared buffer and
/// decoding every entry yields exactly the original pairs, in entry order.
pub proof fn lemma_property_list_round_trip(
    buf: Seq<u16>,
    name_offs: Seq<int>,
    value_offs: Seq<int>,
    names: Seq<Seq<u16>>,
    values: Seq<Seq<u16>>,
)
    requires
        name_offs.len() == names.len(),
        value_offs.len() == names.len(),
        values.len() == names.len(),
        forall|i: int| 0 <= i < names.len() ==> placed_at(buf, #[trigger] name_offs[i], names[i]),
        forall|i: int| 0 <= i < names.len() ==> placed_at(buf, #[trigger] value_offs[i], values[i]),
    ensures
        Seq::new(names.len(), |i: int| PropModel {
            name: prop_text(buf, name_offs[i]),
            value: prop_text(buf, value_offs[i]),
        }) =~= Seq::new(names.len(), |i: int| PropModel {
            name: utf16_decoded(names[i]),
            value: utf16_decoded(values[i]),
        }),
{
    assert forall|i: int| 0 <= i < names.len() implies prop_text(buf, name_offs[i])
        == utf16_decoded(names[i]) && prop_text(buf, value_offs[i])
        == utf16_decoded(values[i]) by {
        lemma_text_round_trip(buf, name_offs[i], names[i]);
        lemma_text_round_trip(buf, value_offs[i], values[i]);
    }
}

/// Extract one NUL- or end-terminated text from a shared code-unit buffer,
/// starting at `offset` (in 16-bit units). An offset outside the buffer
/// yields the empty string.
pub fn extract_utf16_string(raw: &[u16], offset: usize) -> (r: String)
    ensures
        r@ == prop_text(raw@, offset as int),
{
    let n = raw.len();
    let mut units: Vec<u16> = Vec::new();
    if offset <= n {
        let mut j: usize = offset;
        while j < n && raw[j] != 0
            invariant
                offset <= j <= n,
                n == raw@.len(),
                units@ == raw@.subrange(offset as int, j as int),
                forall|k: int| offset <= k < j ==> raw@[k] != 0,
            decreases n - j,
        {
            units.push(raw[j]);
            j = j + 1;
            proof {
                assert(units@ =~= raw@.subrange(offset as int, j as int));
            }
        }
        proof {
            lemma_null_run_stops(raw@, offset as int, j as int);
            assert(units@ == cstr_at(raw@, offset as int));
        }
    } else {
        proof {
            assert(cstr_at(raw@, offset as int) =~= units@);
        }
    }
    let r = utf16_to_string(units.as_slice());
    r
}

/// What reading the property-list section at `off` returns on the bytes
/// `d`: the header is verified, the four count fields read, the encoding
/// checked (0 = UTF-16LE), then the entry pairs and the shared code-unit
/// buffer, and every entry is decoded by the terminated-run scan.
pub open spec fn spec_read_property_list(d: Seq<u8>, off: u32) -> Result<Seq<PropModel>, X3fError> {
    if off > d.len() {
        Err(X3fError::Io(IoReason::SeekPastEnd))
    } else {
        match spec_verify_header(
            d,
            off as int,
            seq![0x53u8, 0x45u8, 0x43u8, 0x70u8],
            FormatReason::PropertyMagic,
            FormatReason::PropertyVersion,
        ) {
            Err(e) => Err(e),
            Ok(()) => if off + 16 > d.len() {
                Err(X3fError::Io(IoReason::UnexpectedEof))
            } else if off + 20 > d.len() {
                Err(X3fError::Io(IoReason::SeekPastEnd))
            } else if off + 24 > d.len() {
                Err(X3fError::Io(IoReason::UnexpectedEof))
            } else if u32_le_at(d, off + 12) != 0 {
                Err(X3fError::Format(FormatReason::PropertyEncoding))
            } else {
                let n = u32_le_at(d, off + 8);
                let total = u32_le_at(d, off + 20);
                let base = off + 24 + 8 * n;
                if base > d.len() {
                    Err(X3fError::Io(IoReason::UnexpectedEof))
                } else if base + 2 * total > d.len() {
                    Err(X3fError::Io(IoReason::UnexpectedEof))
                } else {
                    let buf = Seq::new(total as nat, |i: int| u16_le_at(d, base + 2 * i));
                    Ok(
                        Seq::new(
                            n as nat,
                            |i: int| PropModel {
                                name: prop_text(buf, u32_le_at(d, off + 24 + 8 * i) as int),
                                value: prop_text(buf, u32_le_at(d, off + 24 + 8 * i + 4) as int),
                            },
                        ),
                    )
                }
            },
        }
    }
}

impl X3fReader {
    /// Verify the property-list section header at the cursor.
    pub fn check_property_list_header(&mut self) -> (r: Result<(), X3fError>)
        requires
            old(self).wf(),
        ensures
            final(self).wf(),
            keeps_state(*old(self), *final(self)),
            r == spec_verify_header(
                old(self).data@,
                old(self).pos as int,
                seq![0x53u8, 0x45u8, 0x43u8, 0x70u8],
                FormatReason::PropertyMagic,
                FormatReason::PropertyVersion,
            ),
            r is Ok ==> final(self).pos == old(self).pos + 8,
    {
        self.verify_section_header(
            0x53,
            0x45,
            0x43,
            0x70,
            FormatReason::PropertyMagic,
            FormatReason::PropertyVersion,
        )
    }

    /// Read `num_entries` raw offset pairs at the cursor.
    pub fn read_property_entries(&mut self, num_entries: u32) -> (r: Result<
        Vec<X3fPropertyEntry>,
        X3fError,
    >)
        requires
            old(self).wf(),
        ensures
            final(self).wf(),
            keeps_state(*old(self), *final(self)),
            old(self).pos + 8 * num_entries <= old(self).data.len() ==> r is Ok
                && final(self).pos == old(self).pos + 8 * num_entries
                && r->Ok_0@.len() == num_entries
                && (forall|i: int| 0 <= i < num_entries ==> {
                    &&& (#[trigger] r->Ok_0@[i]).name_offset
                        == u32_le_at(old(self).data@, old(self).pos + 8 * i)
                    &&& r->Ok_0@[i].value_offset
                        == u32_le_at(old(self).data@, old(self).pos + 8 * i + 4)
                }),
            old(self).pos + 8 * num_entries > old(self).data.len() ==> r is Err
                && r->Err_0 == X3fError::Io(IoReason::UnexpectedEof),
    {
        let ghost d = self.data@;
        let ghost start = self.pos as int;
        let mut entries: Vec<X3fPropertyEntry> = Vec::new();
        let mut i: u32 = 0;
        while i < num_entries
            invariant
                self.wf(),
                self.data@ == d,
                d == old(self).data@,
                start == old(self).pos as int,
                keeps_state(*old(self), *self),
                i <= num_entries,
                self.pos == start + 8 * i,
                entries@.len() == i,
                forall|j: int| 0 <= j < i ==> {
                    &&& (#[trigger] entries@[j]).name_offset == u32_le_at(d, start + 8 * j)
                    &&& entries@[j].value_offset == u32_le_at(d, start + 8 * j + 4)
                },
            decreases num_entries - i,
        {
            let name_offset = match self.read_u32() {
                Ok(v) => v as usize,
                Err(e) => {
                    proof {
                        assert(self.pos == start + 8 * i);
                        assert(self.pos + 4 > d.len());
                        assert(i < num_entries);
                        assert(start + 8 * num_entries > d.len());
                    }
                    return Err(e);
                },
            };
            let value_offset = match self.read_u32() {
                Ok(v) => v as usize,
                Err(e) => {
                    proof {
                        assert(self.pos == start + 8 * i + 4);
                        assert(self.pos + 4 > d.len());
                        assert(i < num_entries);
                        assert(start + 8 * num_entries > d.len());
                    }
                    return Err(e);
                },
            };
            entries.push(X3fPropertyEntry { name_offset, value_offset });
            i = i + 1;
        }
        Ok(entries)
    }

    /// Read the shared code-unit buffer — `num_characters` UTF-16LE units in
    /// one block, never more — and decode every entry's name and value from
    /// it.
    pub fn read_properties(
        &mut self,
        entries: &Vec<X3fPropertyEntry>,
        num_characters: u32,
    ) -> (r: Result<Vec<X3fProperty>, X3fError>)
        requires
            old(self).wf(),
        ensures
            final(self).wf(),
            keeps_state(*old(self), *final(self)),
            old(self).pos + 2 * num_characters <= old(self).data.len() ==> r is Ok
                && final(self).pos == old(self).pos + 2 * num_characters
                && ({
                    let buf = Seq::new(
                        num_characters as nat,
                        |i: int| u16_le_at(old(self).data@, old(self).pos + 2 * i),
                    );
                    &&& r->Ok_0@.len() == entries@.len()
                    &&& forall|i: int| 0 <= i < entries@.len() ==> {
                        &&& (#[trigger] r->Ok_0@[i])@.name
                            == prop_text(buf, entries@[i].name_offset as int)
                        &&& r->Ok_0@[i]@.value == prop_text(buf, entries@[i].value_offset as int)
                    }
                }),
            old(self).pos + 2 * num_characters > old(self).data.len() ==> r is Err
                && r->Err_0 == X3fError::Io(IoReason::UnexpectedEof)
                && final(self).pos == old(self).pos,
    {
        let ghost d = self.data@;
        let ghost start = self.pos as int;
        let rest = self.data.len() - self.pos;
        if num_characters as usize > rest / 2 {
            proof {
                assert(rest == 2 * (rest / 2) + rest % 2);
            }
            return Err(X3fError::Io(IoReason::UnexpectedEof));
        }
        proof {
            assert(rest == 2 * (rest / 2) + rest % 2);
        }
        let byte_len: usize = 2 * (num_characters as usize);
        let src = match self.read_bytes(byte_len) {
            Ok(b) => b,
            Err(e) => {
                return Err(e);
            },
        };
        let ghost buf = Seq::new(num_characters as nat, |i: int| u16_le_at(d, start + 2 * i));
        let mut codes: Vec<u16> = Vec::new();
        let num = num_characters as usize;
        let src_len = src.len();
        let mut i: usize = 0;
        while i < num
            invariant
                i <= num,
                src_len == src@.len(),
                src@.len() == 2 * num,
                0 <= start,
                start + 2 * num <= d.len(),
                src@ == d.subrange(start, start + 2 * num),
                buf == Seq::new(num as nat, |k: int| u16_le_at(d, start + 2 * k)),
                codes@.len() == i,
                forall|k: int| 0 <= k < i ==> codes@[k] == buf[k],
            decreases num - i,
        {
            let lo = src[2 * i];
            let hi = src[2 * i + 1];
            let c = u16_from_le_pair(lo, hi);
            proof {
                assert(src@[2 * i] == d[start + 2 * i]);
                assert(src@[2 * i + 1] == d[start + 2 * i + 1]);
                assert(c == u16_le_at(d, start + 2 * i));
            }
            codes.push(c);
            i = i + 1;
        }
        proof {
            assert(codes@ =~= buf);
        }
        let mut props: Vec<X3fProperty> = Vec::new();
        let mut e: usize = 0;
        while e < entries.len()
            invariant
                e <= entries@.len(),
                codes@ == buf,
                props@.len() == e,
                forall|j: int| 0 <= j < e ==> {
                    &&& (#[trigger] props@[j])@.name
                        == prop_text(buf, entries@[j].name_offset as int)
                    &&& props@[j]@.value == prop_text(buf, entries@[j].value_offset as int)
                },
            decreases entries@.len() - e,
        {
            let name = extract_utf16_string(codes.as_slice(), entries[e].name_offset);
            let value = extract_utf16_string(codes.as_slice(), entries[e].value_offset);
            props.push(X3fProperty { name, value });
            e = e + 1;
        }
        Ok(props)
    }

    /// Read the whole property-list section of the entry at `offset`: verify
    /// its header, read its counts, check its encoding, then decode every
    /// name/value pair from the shared code-unit buffer.
    pub fn read_property_list(&mut self, offset: u32) -> (r: Result<Vec<X3fProperty>, X3fError>)
        requires
            old(self).wf(),
        ensures
            final(self).wf(),
            keeps_state(*old(self), *final(self)),
            match spec_read_property_list(old(self).data@, offset) {
                Ok(ps) => r is Ok && props_view(r->Ok_0@) == ps,
                Err(e) => r is Err && r->Err_0 == e,
            },
    {
        let ghost d = self.data@;
        match self.seek_to(offset as usize) {
            Ok(()) => (),
            Err(e) => {
                return Err(e);
            },
        }
        match self.check_property_list_header() {
            Ok(()) => (),
            Err(e) => {
                return Err(e);
            },
        }
        let num_entries = match self.read_u32() {
            Ok(v) => v,
            Err(e) => {
                return Err(e);
            },
        };
        let character_encoding = match self.read_u32() {
            Ok(v) => v,
            Err(e) => {
                return Err(e);
            },
        };
        match self.seek_by(4) {
            Ok(()) => (),
            Err(e) => {
                return Err(e);
            },
        }
        let total_length = match self.read_u32() {
            Ok(v) => v,
            Err(e) => {
                return Err(e);
            },
        };
        if character_encoding != 0 {
            return Err(X3fError::Format(FormatReason::PropertyEncoding));
        }
        let entries = match self.read_property_entries(num_entries) {
            Ok(es) => es,
            Err(e) => {
                return Err(e);
            },
        };
        let props = match self.read_properties(&entries, total_length) {
            Ok(ps) => ps,
            Err(e) => {
                return Err(e);
            },
        };
        proof {
            let ps = spec_read_property_list(d, offset)->Ok_0;
            assert(props_view(props@) =~= ps);
        }
        Ok(props)
    }
}

} // verus!
