//! Capture-timestamp extraction for the X3F camera-raw container.
//!
//! The library decodes the proprietary, directory-indexed container format
//! — identifier, trailer, directory, property lists and selective thumbnail
//! extraction — and resolves the decoded time sources into one absolute
//! instant under a fixed priority policy. Every decoder and the resolver
//! are verified against byte-level specifications; the zone database, the
//! standard-metadata reader and UTF-16 decoding are reached through small
//! trusted wrappers whose answers the verified code handles in full.
//!
//! The entry points are [`reader::read_x3f_time`] for a whole container,
//! [`cursor::X3fReader`] for step-by-step decoding, and
//! [`exif_meta::read_date_time_original_as_utc`] for a standard image file.

pub mod bytes;
pub mod cursor;
pub mod datetime;
pub mod directory;
pub mod error;
pub mod exif_meta;
pub mod image;
pub mod props;
pub mod reader;
pub mod resolve;
pub mod zone;
