//! The error taxonomy of the codec.
//!
//! Every decoding failure aborts the current track and is reported under one
//! of these names; encoding of well-formed values cannot fail.

use vstd::prelude::*;

verus! {

/// Why a decode rejected its input.
#[derive(Debug, PartialEq, Eq, Structural, Clone, Copy)]
pub enum CodecError {
    /// A variable-length integer ran past four bytes or past the end of the
    /// input before its terminal byte.
    MalformedLength,
    /// A seven-bit data field carried a byte with the high bit set.
    InvalidDataByte,
    /// A channel-mode controller/value pair outside the recognized table.
    InvalidModeMessage,
    /// A system status byte outside the common and real-time tables.
    InvalidSystemMessage,
    /// A fixed-size meta event declared a length other than its implied one.
    InvalidMetaLength,
    /// A text meta event held a byte with no character in the single-byte
    /// text table.
    InvalidTextEncoding,
    /// A system-exclusive block declared more payload bytes than remain.
    TruncatedSysEx,
    /// A meta event declared or implied more payload bytes than remain.
    TruncatedMeta,
    /// A channel or system message needed more data bytes than remain.
    TruncatedChannelMessage,
    /// A data byte arrived with no usable running status to interpret it.
    MissingRunningStatus,
    /// A track payload ran out without a terminal end-of-track meta event.
    MissingEndOfTrack,
    /// A chunk opened with a tag other than the expected four characters.
    InvalidChunkType,
    /// A header declared a format other than 0, 1 or 2.
    InvalidFormat,
    /// A chunk declared more bytes than remain in the input.
    TruncatedChunk,
}

} // verus!
