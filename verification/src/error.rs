//! Error values for one file's decode.
//!
//! Every failure is reported as a value; nothing in this library panics or
//! aborts the process. The kinds follow the design split between stream
//! failures, malformed container structure, malformed text, and local times
//! that do not denote a unique instant.

use vstd::prelude::*;

verus! {

/// Why a stream-level operation failed.
#[derive(Debug, Clone, Copy, PartialEq, Eq, Structural)]
pub enum IoReason {
    /// A read asked for more bytes than the stream still holds.
    UnexpectedEof,
    /// A seek pointed past the end of the stream.
    SeekPastEnd,
}

/// Which structural check of the container failed.
#[derive(Debug, Clone, Copy, PartialEq, Eq, Structural)]
pub enum FormatReason {
    /// The stream does not start with the container magic.
    ContainerMagic,
    /// The directory section does not start with its magic.
    DirectoryMagic,
    /// The directory section version is not the supported one.
    DirectoryVersion,
    /// The property-list section does not start with its magic.
    PropertyMagic,
    /// The property-list section version is not the supported one.
    PropertyVersion,
    /// The property-list character encoding is not UTF-16LE (code 0).
    PropertyEncoding,
    /// The image section does not start with its magic.
    ImageMagic,
    /// The image section version is not the supported one.
    ImageVersion,
    /// A thumbnail entry shorter than the fixed image header.
    ImageLengthUnderflow,
}

/// Which piece of text could not be parsed.
#[derive(Debug, Clone, Copy, PartialEq, Eq, Structural)]
pub enum ParseReason {
    /// The embedded date-time is not `YYYY-MM-DD HH:MM:SS` with valid fields.
    DateTimeText,
    /// The embedded UTC offset is not a `±HH:MM` suffix with valid fields.
    OffsetText,
    /// The `TIME` property is not a base-10 signed 64-bit integer.
    TimeValue,
    /// The override timezone name is not in the zone database.
    ZoneName,
}

/// An error attached to one file's decode.
#[derive(Debug, Clone, Copy, PartialEq, Eq, Structural)]
pub enum X3fError {
    /// The stream was truncated or a seek left it.
    Io(IoReason),
    /// The container bytes break a structural rule.
    Format(FormatReason),
    /// A piece of metadata text is malformed.
    Parse(ParseReason),
    /// A local date-time that maps to zero or two instants in the chosen
    /// timezone. Surfaced explicitly rather than resolved silently.
    AmbiguousOrInvalidLocalTime,
}

} // verus!
