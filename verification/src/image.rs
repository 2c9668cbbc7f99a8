//! The thumbnail extractor: selective reading of an image section.
//!
//! Only a JPEG thumbnail's payload is read. For every other image kind the
//! reader stops right after the fixed 28-byte header, so full-resolution
//! sensor planes are never materialized just to find a timestamp.

use vstd::prelude::*;

use crate::bytes::u32_le_at;
use crate::cursor::{keeps_state, spec_verify_header, X3fReader};
use crate::error::{FormatReason, IoReason, X3fError};

verus! {

/// The fixed size of an image section's header: magic, version and five
/// `u32` fields.
pub const IMAGE_HEADER_SIZE: u32 = 28;

/// One image section: five header fields and, for a JPEG thumbnail only,
/// its payload bytes.
#[derive(Debug, Clone)]
pub struct X3fImage {
    pub image_type: u32,
    pub data_format: u32,
    pub columns: u32,
    pub rows: u32,
    pub row_stride: u32,
    pub data: Vec<u8>,
}

/// Mathematical image of one image section.
pub struct ImageModel {
    pub image_type: u32,
    pub data_format: u32,
    pub columns: u32,
    pub rows: u32,
    pub row_stride: u32,
    pub data: Seq<u8>,
}

impl View for X3fImage {
    type V = ImageModel;

    open spec fn view(&self) -> ImageModel {
        ImageModel {
            image_type: self.image_type,
            data_format: self.data_format,
            columns: self.columns,
            rows: self.rows,
            row_stride: self.row_stride,
            data: self.data@,
        }
    }
}

/// An image section holds a JPEG thumbnail when its type says thumbnail (2)
/// and its format says JPEG (18).
pub open spec fn spec_is_jpeg_thumbnail(image_type: u32, data_format: u32) -> bool {
    image_type == 2 && data_format == 18
}

impl X3fImage {
    /// Whether this section holds a JPEG thumbnail.
    pub fn is_jpeg_thumbnail(&self) -> (r: bool)
        ensures
            r == spec_is_jpeg_thumbnail(self.image_type, self.data_format),
    {
        self.image_type == 2  /* thumbnail */ && self.data_format == 18  /* JPEG */
    }
}

/// What reading the image section of the entry `(offset, length)` returns on
/// the bytes `d`. The header is always read; the payload — the entry's
/// remaining `length - 28` bytes — is read only for a JPEG thumbnail, and a
/// thumbnail entry shorter than its header is a format error, not an
/// underflow.
pub open spec fn spec_read_image(d: Seq<u8>, offset: u32, length: u32) -> Result<
    ImageModel,
    X3fError,
> {
    if offset > d.len() {
        Err(X3fError::Io(IoReason::SeekPastEnd))
    } else {
        match spec_verify_header(
            d,
            offset as int,
            seq![0x53u8, 0x45u8, 0x43u8, 0x69u8],
            FormatReason::ImageMagic,
            FormatReason::ImageVersion,
        ) {
            Err(e) => Err(e),
            Ok(()) => if offset + 28 > d.len() {
                Err(X3fError::Io(IoReason::UnexpectedEof))
            } else {
                let image_type = u32_le_at(d, offset + 8);
                let data_format = u32_le_at(d, offset + 12);
                if !spec_is_jpeg_thumbnail(image_type, data_format) {
                    Ok(
                        ImageModel {
                            image_type,
                            data_format,
                            columns: u32_le_at(d, offset + 16),
                            rows: u32_le_at(d, offset + 20),
                            row_stride: u32_le_at(d, offset + 24),
                            data: Seq::empty(),
                        },
                    )
                } else if length < 28 {
                    Err(X3fError::Format(FormatReason::ImageLengthUnderflow))
                } else if offset + length > d.len() {
                    Err(X3fError::Io(IoReason::UnexpectedEof))
                } else {
                    Ok(
                        ImageModel {
                            image_type,
                            data_format,
                            columns: u32_le_at(d, offset + 16),
                            rows: u32_le_at(d, offset + 20),
                            row_stride: u32_le_at(d, offset + 24),
                            data: d.subrange(offset + 28, offset + length),
                        },
                    )
                }
            },
        }
    }
}

impl X3fReader {
    /// Verify the image section header at the cursor.
    pub fn check_image_header(&mut self) -> (r: Result<(), X3fError>)
        requires
            old(self).wf(),
        ensures
            final(self).wf(),
            keeps_state(*old(self), *final(self)),
            r == spec_verify_header(
                old(self).data@,
                old(self).pos as int,
                seq![0x53u8, 0x45u8, 0x43u8, 0x69u8],
                FormatReason::ImageMagic,
                FormatReason::ImageVersion,
            ),
            r is Ok ==> final(self).pos == old(self).pos + 8,
    {
        self.verify_section_header(
            0x53,
            0x45,
            0x43,
            0x69,
            FormatReason::ImageMagic,
            FormatReason::ImageVersion,
        )
    }

    /// Read the image section of the entry `(offset, length)`. For anything
    /// but a JPEG thumbnail the payload stays empty and the cursor stops
    /// right after the 28-byte header: no payload byte is consumed.
    pub fn read_image(&mut self, offset: u32, length: u32) -> (r: Result<X3fImage, X3fError>)
        requires
            old(self).wf(),
        ensures
            final(self).wf(),
            keeps_state(*old(self), *final(self)),
            match spec_read_image(old(self).data@, offset, length) {
                Ok(img) => r is Ok && r->Ok_0@ == img,
                Err(e) => r is Err && r->Err_0 == e,
            },
            r is Ok && !spec_is_jpeg_thumbnail(r->Ok_0.image_type, r->Ok_0.data_format)
                ==> final(self).pos == offset + 28 && r->Ok_0.data@.len() == 0,
            r is Ok && spec_is_jpeg_thumbnail(r->Ok_0.image_type, r->Ok_0.data_format)
                ==> final(self).pos == offset + length,
    {
        match self.seek_to(offset as usize) {
            Ok(()) => (),
            Err(e) => {
                return Err(e);
            },
        }
        match self.check_image_header() {
            Ok(()) => (),
            Err(e) => {
                return Err(e);
            },
        }
        let image_type = match self.read_u32() {
            Ok(v) => v,
            Err(e) => {
                return Err(e);
            },
        };
        let data_format = match self.read_u32() {
            Ok(v) => v,
            Err(e) => {
                return Err(e);
            },
        };
        let columns = match self.read_u32() {
            Ok(v) => v,
            Err(e) => {
                return Err(e);
            },
        };
        let rows = match self.read_u32() {
            Ok(v) => v,
            Err(e) => {
                return Err(e);
            },
        };
        let row_stride = match self.read_u32() {
            Ok(v) => v,
            Err(e) => {
                return Err(e);
            },
        };
        let mut image = X3fImage {
            image_type,
            data_format,
            columns,
            rows,
            row_stride,
            data: Vec::new(),
        };
        if image.is_jpeg_thumbnail() {
            if length < IMAGE_HEADER_SIZE {
                return Err(X3fError::Format(FormatReason::ImageLengthUnderflow));
            }
            let payload_len = length - IMAGE_HEADER_SIZE;
            image.data = match self.read_bytes(payload_len as usize) {
                Ok(b) => b,
                Err(e) => {
                    return Err(e);
                },
            };
        }
        Ok(image)
    }
}

} // verus!
