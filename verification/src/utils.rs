//! The seven-bit data-byte primitive.
//!
//! Every value field inside channel and system messages is a single byte with
//! the high bit clear; this is the one place that constraint is enforced.

use crate::errors::CodecError;
use vstd::prelude::*;

verus! {

/// What reading one data byte at `pos` yields: the byte and the position just
/// past it, `InvalidDataByte` if its high bit is set, or
/// `TruncatedChannelMessage` if no byte remains.
pub open spec fn u7_parse(s: Seq<u8>, pos: int) -> Result<(u8, int), CodecError> {
    if pos < 0 || pos >= s.len() {
        Err(CodecError::TruncatedChannelMessage)
    } else if s[pos] >= 0x80 {
        Err(CodecError::InvalidDataByte)
    } else {
        Ok((s[pos], pos + 1))
    }
}

/// Reads one seven-bit data byte at `pos`.
pub fn be_u7(bytes: &[u8], pos: usize) -> (r: Result<(u8, usize), CodecError>)
    ensures
        match u7_parse(bytes@, pos as int) {
            Ok((b, end)) => r matches Ok(p) && p.0 == b && p.1 == end && end <= bytes@.len(),
            Err(e) => r matches Err(e2) && e2 == e,
        },
{
    if pos >= bytes.len() {
        return Err(CodecError::TruncatedChannelMessage);
    }
    let b: u8 = bytes[pos];
    if b >= 0x80 {
        return Err(CodecError::InvalidDataByte);
    }
    Ok((b, pos + 1))
}

} // verus!
