//! Meta events, tagged 0xFF.
//!
//! Fixed-size types declare a length byte that must match the constant their
//! type implies; variable-size types declare their length as a
//! variable-length integer.  Text-bearing types must decode under the
//! single-byte extended-Latin table; an undecodable field is a recoverable
//! parse error, not a crash.  Unknown types are kept verbatim so re-encoding
//! stays exact.

use crate::errors::CodecError;
use crate::variable_length_quantity::{vlq_encoding, vlq_parse, VariableLengthQuantity};
use vstd::prelude::*;
use vstd::slice::{slice_subrange, slice_to_vec};

verus! {

broadcast use vstd::slice::group_slice_axioms;

/// A meta event.  Text-bearing variants keep the payload bytes they were
/// decoded from, so encoding is byte-exact; `text` renders them.
#[derive(Debug, PartialEq, Eq, Clone)]
pub enum MetaEvent {
    SequenceNumber { number: u16 },
    TextEvent { length: VariableLengthQuantity, data: Vec<u8> },
    CopyrightNotice { length: VariableLengthQuantity, data: Vec<u8> },
    SequenceOrTrackName { length: VariableLengthQuantity, data: Vec<u8> },
    InstrumentName { length: VariableLengthQuantity, data: Vec<u8> },
    Lyric { length: VariableLengthQuantity, data: Vec<u8> },
    Marker { length: VariableLengthQuantity, data: Vec<u8> },
    CuePoint { length: VariableLengthQuantity, data: Vec<u8> },
    MidiChannelPrefix { channel: u8 },
    EndOfTrack,
    SetTempo { tempo: u32 },
    SmpteOffset { hour: u8, minute: u8, second: u8, frame: u8, subframe: u8 },
    TimeSignature {
        numerator: u8,
        denominator: u8,
        clocks_per_metronome_click: u8,
        thirty_seconds_per_quarter_note: u8,
    },
    KeySignature { key: u8, scale: u8 },
    SequencerSpecificEvent { length: VariableLengthQuantity, data: Vec<u8> },
    UnknownMetaEvent { meta_type: u8, length: VariableLengthQuantity, data: Vec<u8> },
}

/// The mathematical shape of a meta event.
#[verifier::ext_equal]
pub enum MetaEventView {
    SequenceNumber { number: u16 },
    TextEvent { length: VariableLengthQuantity, data: Seq<u8> },
    CopyrightNotice { length: VariableLengthQuantity, data: Seq<u8> },
    SequenceOrTrackName { length: VariableLengthQuantity, data: Seq<u8> },
    InstrumentName { length: VariableLengthQuantity, data: Seq<u8> },
    Lyric { length: VariableLengthQuantity, data: Seq<u8> },
    Marker { length: VariableLengthQuantity, data: Seq<u8> },
    CuePoint { length: VariableLengthQuantity, data: Seq<u8> },
    MidiChannelPrefix { channel: u8 },
    EndOfTrack,
    SetTempo { tempo: u32 },
    SmpteOffset { hour: u8, minute: u8, second: u8, frame: u8, subframe: u8 },
    TimeSignature {
        numerator: u8,
        denominator: u8,
        clocks_per_metronome_click: u8,
        thirty_seconds_per_quarter_note: u8,
    },
    KeySignature { key: u8, scale: u8 },
    SequencerSpecificEvent { length: VariableLengthQuantity, data: Seq<u8> },
    UnknownMetaEvent { meta_type: u8, length: VariableLengthQuantity, data: Seq<u8> },
}

impl View for MetaEvent {
    type V = MetaEventView;

    open spec fn view(&self) -> MetaEventView {
        match self {
            MetaEvent::SequenceNumber { number } => MetaEventView::SequenceNumber {
                number: *number,
            },
            MetaEvent::TextEvent { length, data } => MetaEventView::TextEvent {
                length: *length,
                data: data@,
            },
            MetaEvent::CopyrightNotice { length, data } => MetaEventView::CopyrightNotice {
                length: *length,
                data: data@,
            },
            MetaEvent::SequenceOrTrackName { length, data } => MetaEventView::SequenceOrTrackName {
                length: *length,
                data: data@,
            },
            MetaEvent::InstrumentName { length, data } => MetaEventView::InstrumentName {
                length: *length,
                data: data@,
            },
            MetaEvent::Lyric { length, data } => MetaEventView::Lyric {
                length: *length,
                data: data@,
            },
            MetaEvent::Marker { length, data } => MetaEventView::Marker {
                length: *length,
                data: data@,
            },
            MetaEvent::CuePoint { length, data } => MetaEventView::CuePoint {
                length: *length,
                data: data@,
            },
            MetaEvent::MidiChannelPrefix { channel } => MetaEventView::MidiChannelPrefix {
                channel: *channel,
            },
            MetaEvent::EndOfTrack => MetaEventView::EndOfTrack,
            MetaEvent::SetTempo { tempo } => MetaEventView::SetTempo { tempo: *tempo },
            MetaEvent::SmpteOffset { hour, minute, second, frame, subframe } => {
                MetaEventView::SmpteOffset {
                    hour: *hour,
                    minute: *minute,
                    second: *second,
                    frame: *frame,
                    subframe: *subframe,
                }
            },
            MetaEvent::TimeSignature {
                numerator,
                denominator,
                clocks_per_metronome_click,
                thirty_seconds_per_quarter_note,
            } => MetaEventView::TimeSignature {
                numerator: *numerator,
                denominator: *denominator,
                clocks_per_metronome_click: *clocks_per_metronome_click,
                thirty_seconds_per_quarter_note: *thirty_seconds_per_quarter_note,
            },
            MetaEvent::KeySignature { key, scale } => MetaEventView::KeySignature {
                key: *key,
                scale: *scale,
            },
            MetaEvent::SequencerSpecificEvent { length, data } => {
                MetaEventView::SequencerSpecificEvent { length: *length, data: data@ }
            },
            MetaEvent::UnknownMetaEvent { meta_type, length, data } => {
                MetaEventView::UnknownMetaEvent {
                    meta_type: *meta_type,
                    length: *length,
                    data: data@,
                }
            },
        }
    }
}

/// What the single-byte extended-Latin table makes of a payload: the decoded
/// characters, or nothing when some byte has no representable character.
pub uninterp spec fn decoded_text(bytes: Seq<u8>) -> Option<Seq<char>>;

/// Relies on encoding_rs's `Encoding::decode` on `WINDOWS_1252`: it decodes
/// the whole buffer under the windows-1252 table (with the byte-order-mark
/// sniffing the WHATWG decode step prescribes), substituting the replacement
/// character for what it cannot represent and reporting whether it did.  The
/// result depends on the bytes alone.
#[verifier::external_body]
fn decode_text_bytes(bytes: &[u8]) -> (r: Option<String>)
    ensures
        r is Some <==> decoded_text(bytes@) is Some,
        r matches Some(t) ==> decoded_text(bytes@) == Some(t@),
{
    let (text, _, replacement_used) = encoding_rs::WINDOWS_1252.decode(bytes);
    if replacement_used {
        None
    } else {
        Some(text.into_owned())
    }
}

/// Whether a meta-type byte is one this codec interprets; anything else is
/// retained verbatim as an unknown event.
pub open spec fn known_meta_type(t: u8) -> bool {
    t == 0x00 || (0x01 <= t <= 0x07) || t == 0x20 || t == 0x2f || t == 0x51 || t == 0x54 || t
        == 0x58 || t == 0x59 || t == 0x7f
}

/// The payload bytes of a text-bearing variant, if the variant bears text.
pub open spec fn text_payload(v: MetaEventView) -> Option<Seq<u8>> {
    match v {
        MetaEventView::TextEvent { data, .. } => Some(data),
        MetaEventView::CopyrightNotice { data, .. } => Some(data),
        MetaEventView::SequenceOrTrackName { data, .. } => Some(data),
        MetaEventView::InstrumentName { data, .. } => Some(data),
        MetaEventView::Lyric { data, .. } => Some(data),
        MetaEventView::Marker { data, .. } => Some(data),
        MetaEventView::CuePoint { data, .. } => Some(data),
        _ => None,
    }
}

/// The one-byte tag of each variant under the 0xFF prefix.
pub open spec fn meta_type_byte(v: MetaEventView) -> u8 {
    match v {
        MetaEventView::SequenceNumber { .. } => 0x00u8,
        MetaEventView::TextEvent { .. } => 0x01u8,
        MetaEventView::CopyrightNotice { .. } => 0x02u8,
        MetaEventView::SequenceOrTrackName { .. } => 0x03u8,
        MetaEventView::InstrumentName { .. } => 0x04u8,
        MetaEventView::Lyric { .. } => 0x05u8,
        MetaEventView::Marker { .. } => 0x06u8,
        MetaEventView::CuePoint { .. } => 0x07u8,
        MetaEventView::MidiChannelPrefix { .. } => 0x20u8,
        MetaEventView::EndOfTrack => 0x2fu8,
        MetaEventView::SetTempo { .. } => 0x51u8,
        MetaEventView::SmpteOffset { .. } => 0x54u8,
        MetaEventView::TimeSignature { .. } => 0x58u8,
        MetaEventView::KeySignature { .. } => 0x59u8,
        MetaEventView::SequencerSpecificEvent { .. } => 0x7fu8,
        MetaEventView::UnknownMetaEvent { meta_type, .. } => meta_type,
    }
}

impl MetaEventView {
    /// A stored variable length is in range and counts the payload exactly; a
    /// text payload decodes under the table; an unknown type is truly
    /// unknown; a tempo fits its three bytes.
    pub open spec fn wf(self) -> bool {
        match self {
            MetaEventView::SetTempo { tempo } => tempo <= 0xff_ffff,
            MetaEventView::TextEvent { length, data } => length.wf() && length.value == data.len()
                && decoded_text(data) is Some,
            MetaEventView::CopyrightNotice { length, data } => length.wf() && length.value
                == data.len() && decoded_text(data) is Some,
            MetaEventView::SequenceOrTrackName { length, data } => length.wf() && length.value
                == data.len() && decoded_text(data) is Some,
            MetaEventView::InstrumentName { length, data } => length.wf() && length.value
                == data.len() && decoded_text(data) is Some,
            MetaEventView::Lyric { length, data } => length.wf() && length.value == data.len()
                && decoded_text(data) is Some,
            MetaEventView::Marker { length, data } => length.wf() && length.value == data.len()
                && decoded_text(data) is Some,
            MetaEventView::CuePoint { length, data } => length.wf() && length.value == data.len()
                && decoded_text(data) is Some,
            MetaEventView::SequencerSpecificEvent { length, data } => length.wf() && length.value
                == data.len(),
            MetaEventView::UnknownMetaEvent { meta_type, length, data } => length.wf()
                && length.value == data.len() && !known_meta_type(meta_type),
            _ => true,
        }
    }
}

/// The encoding of a meta event: 0xFF, the type byte, then the length in its
/// type's shape and the payload.
pub open spec fn meta_bytes(v: MetaEventView) -> Seq<u8> {
    match v {
        MetaEventView::SequenceNumber { number } => seq![
            0xffu8,
            0x00u8,
            0x02u8,
            (number >> 8) as u8,
            (number & 0xff) as u8,
        ],
        MetaEventView::TextEvent { length, data } => seq![0xffu8, 0x01u8] + vlq_encoding(
            length.value as nat,
        ) + data,
        MetaEventView::CopyrightNotice { length, data } => seq![0xffu8, 0x02u8] + vlq_encoding(
            length.value as nat,
        ) + data,
        MetaEventView::SequenceOrTrackName { length, data } => seq![0xffu8, 0x03u8] + vlq_encoding(
            length.value as nat,
        ) + data,
        MetaEventView::InstrumentName { length, data } => seq![0xffu8, 0x04u8] + vlq_encoding(
            length.value as nat,
        ) + data,
        MetaEventView::Lyric { length, data } => seq![0xffu8, 0x05u8] + vlq_encoding(
            length.value as nat,
        ) + data,
        MetaEventView::Marker { length, data } => seq![0xffu8, 0x06u8] + vlq_encoding(
            length.value as nat,
        ) + data,
        MetaEventView::CuePoint { length, data } => seq![0xffu8, 0x07u8] + vlq_encoding(
            length.value as nat,
        ) + data,
        MetaEventView::MidiChannelPrefix { channel } => seq![0xffu8, 0x20u8, 0x01u8, channel],
        MetaEventView::EndOfTrack => seq![0xffu8, 0x2fu8, 0x00u8],
        MetaEventView::SetTempo { tempo } => seq![
            0xffu8,
            0x51u8,
            0x03u8,
            (tempo >> 16) as u8,
            ((tempo >> 8) & 0xff) as u8,
            (tempo & 0xff) as u8,
        ],
        MetaEventView::SmpteOffset { hour, minute, second, frame, subframe } => seq![
            0xffu8,
            0x54u8,
            0x05u8,
            hour,
            minute,
            second,
            frame,
            subframe,
        ],
        MetaEventView::TimeSignature {
            numerator,
            denominator,
            clocks_per_metronome_click,
            thirty_seconds_per_quarter_note,
        } => seq![
            0xffu8,
            0x58u8,
            0x04u8,
            numerator,
            denominator,
            clocks_per_metronome_click,
            thirty_seconds_per_quarter_note,
        ],
        MetaEventView::KeySignature { key, scale } => seq![0xffu8, 0x59u8, 0x02u8, key, scale],
        MetaEventView::SequencerSpecificEvent { length, data } => seq![0xffu8, 0x7fu8]
            + vlq_encoding(length.value as nat) + data,
        MetaEventView::UnknownMetaEvent { meta_type, length, data } => seq![0xffu8, meta_type]
            + vlq_encoding(length.value as nat) + data,
    }
}

/// Checks the declared length byte of a fixed-size type at `p` against the
/// implied constant `n` and that `n` payload bytes remain; yields the
/// position of the payload.
pub open spec fn meta_fixed_parse(s: Seq<u8>, p: int, n: u8) -> Result<int, CodecError> {
    if p < 0 || p >= s.len() {
        Err(CodecError::TruncatedMeta)
    } else if s[p] != n {
        Err(CodecError::InvalidMetaLength)
    } else if p + 1 + n > s.len() {
        Err(CodecError::TruncatedMeta)
    } else {
        Ok(p + 1)
    }
}

/// Reads the declared length of a variable-size type at `p` and checks that
/// many payload bytes remain; yields the length and the payload position.
pub open spec fn meta_var_parse(s: Seq<u8>, p: int) -> Result<(nat, int), CodecError> {
    match vlq_parse(s, p) {
        Err(e) => Err(e),
        Ok((len, q)) => if q + len > s.len() {
            Err(CodecError::TruncatedMeta)
        } else {
            Ok((len, q))
        },
    }
}

/// What decoding a meta event at `pos` yields: the 0xFF prefix, the type
/// byte, then the payload in the shape the type implies.
pub open spec fn meta_parse(s: Seq<u8>, pos: int) -> Result<(MetaEventView, int), CodecError>
    recommends
        0 <= pos < s.len(),
        s[pos] == 0xff,
{
    if pos + 1 >= s.len() {
        Err(CodecError::TruncatedMeta)
    } else {
        let t = s[pos + 1];
        let p = pos + 2;
        if t == 0x00 {
            match meta_fixed_parse(s, p, 0x02) {
                Err(e) => Err(e),
                Ok(q) => Ok(
                    (
                        MetaEventView::SequenceNumber {
                            number: ((s[q] as u16) << 8) | (s[q + 1] as u16),
                        },
                        q + 2,
                    ),
                ),
            }
        } else if 0x01 <= t && t <= 0x07 {
            match meta_var_parse(s, p) {
                Err(e) => Err(e),
                Ok((len, q)) => {
                    let data = s.subrange(q, q + len);
                    if decoded_text(data) is None {
                        Err(CodecError::InvalidTextEncoding)
                    } else {
                        let length = VariableLengthQuantity { value: len as u32 };
                        let end = q + len;
                        if t == 0x01 {
                            Ok((MetaEventView::TextEvent { length, data }, end))
                        } else if t == 0x02 {
                            Ok((MetaEventView::CopyrightNotice { length, data }, end))
                        } else if t == 0x03 {
                            Ok((MetaEventView::SequenceOrTrackName { length, data }, end))
                        } else if t == 0x04 {
                            Ok((MetaEventView::InstrumentName { length, data }, end))
                        } else if t == 0x05 {
                            Ok((MetaEventView::Lyric { length, data }, end))
                        } else if t == 0x06 {
                            Ok((MetaEventView::Marker { length, data }, end))
                        } else {
                            Ok((MetaEventView::CuePoint { length, data }, end))
                        }
                    }
                },
            }
        } else if t == 0x20 {
            match meta_fixed_parse(s, p, 0x01) {
                Err(e) => Err(e),
                Ok(q) => Ok((MetaEventView::MidiChannelPrefix { channel: s[q] }, q + 1)),
            }
        } else if t == 0x2f {
            match meta_fixed_parse(s, p, 0x00) {
                Err(e) => Err(e),
                Ok(q) => Ok((MetaEventView::EndOfTrack, q)),
            }
        } else if t == 0x51 {
            match meta_fixed_parse(s, p, 0x03) {
                Err(e) => Err(e),
                Ok(q) => Ok(
                    (
                        MetaEventView::SetTempo {
                            tempo: ((s[q] as u32) << 16) | ((s[q + 1] as u32) << 8) | (s[q
                                + 2] as u32),
                        },
                        q + 3,
                    ),
                ),
            }
        } else if t == 0x54 {
            match meta_fixed_parse(s, p, 0x05) {
                Err(e) => Err(e),
                Ok(q) => Ok(
                    (
                        MetaEventView::SmpteOffset {
                            hour: s[q],
                            minute: s[q + 1],
                            second: s[q + 2],
                            frame: s[q + 3],
                            subframe: s[q + 4],
                        },
                        q + 5,
                    ),
                ),
            }
        } else if t == 0x58 {
            match meta_fixed_parse(s, p, 0x04) {
                Err(e) => Err(e),
                Ok(q) => Ok(
                    (
                        MetaEventView::TimeSignature {
                            numerator: s[q],
                            denominator: s[q + 1],
                            clocks_per_metronome_click: s[q + 2],
                            thirty_seconds_per_quarter_note: s[q + 3],
                        },
                        q + 4,
                    ),
                ),
            }
        } else if t == 0x59 {
            match meta_fixed_parse(s, p, 0x02) {
                Err(e) => Err(e),
                Ok(q) => Ok(
                    (MetaEventView::KeySignature { key: s[q], scale: s[q + 1] }, q + 2),
                ),
            }
        } else if t == 0x7f {
            match meta_var_parse(s, p) {
                Err(e) => Err(e),
                Ok((len, q)) => Ok(
                    (
                        MetaEventView::SequencerSpecificEvent {
                            length: VariableLengthQuantity { value: len as u32 },
                            data: s.subrange(q, q + len),
                        },
                        q + len,
                    ),
                ),
            }
        } else {
            match meta_var_parse(s, p) {
                Err(e) => Err(e),
                Ok((len, q)) => Ok(
                    (
                        MetaEventView::UnknownMetaEvent {
                            meta_type: t,
                            length: VariableLengthQuantity { value: len as u32 },
                            data: s.subrange(q, q + len),
                        },
                        q + len,
                    ),
                ),
            }
        }
    }
}

/// Checks a fixed-size type's declared length byte at `p` against `n` and
/// that `n` payload bytes remain; returns the payload position.
fn parse_fixed(bytes: &[u8], p: usize, n: u8) -> (r: Result<usize, CodecError>)
    ensures
        match meta_fixed_parse(bytes@, p as int, n) {
            Ok(q) => r matches Ok(qq) && qq == q && q + n <= bytes@.len() && p < q,
            Err(e) => r matches Err(e2) && e2 == e,
        },
{
    if p >= bytes.len() {
        return Err(CodecError::TruncatedMeta);
    }
    if bytes[p] != n {
        return Err(CodecError::InvalidMetaLength);
    }
    if (n as usize) > bytes.len() - (p + 1) {
        return Err(CodecError::TruncatedMeta);
    }
    Ok(p + 1)
}

/// Reads a variable-size type's declared length at `p` and checks that many
/// payload bytes remain; returns the length and the payload position.
fn parse_var(bytes: &[u8], p: usize) -> (r: Result<(usize, usize), CodecError>)
    ensures
        match meta_var_parse(bytes@, p as int) {
            Ok((len, q)) => r matches Ok(pr) && pr.0 == len && pr.1 == q && q + len
                <= bytes@.len() && p < q && len <= 0x0fff_ffff,
            Err(e) => r matches Err(e2) && e2 == e,
        },
{
    let (len_vlq, q) = VariableLengthQuantity::parse(bytes, p)?;
    let len: usize = len_vlq.value as usize;
    if len > bytes.len() - q {
        return Err(CodecError::TruncatedMeta);
    }
    Ok((len, q))
}

impl MetaEvent {
    /// Decodes a meta event whose 0xFF prefix stands at `pos`.
    pub fn parse(bytes: &[u8], pos: usize) -> (r: Result<(Self, usize), CodecError>)
        requires
            pos < bytes@.len(),
            bytes@[pos as int] == 0xff,
        ensures
            match meta_parse(bytes@, pos as int) {
                Ok((v, end)) => r matches Ok(p) && p.0@ == v && p.1 == end && pos < end
                    <= bytes@.len(),
                Err(e) => r matches Err(e2) && e2 == e,
            },
    {
        let n: usize = bytes.len();
        if pos + 1 >= n {
            return Err(CodecError::TruncatedMeta);
        }
        let t: u8 = bytes[pos + 1];
        let p: usize = pos + 2;
        if t == 0x00 {
            let q = parse_fixed(bytes, p, 0x02)?;
            let number: u16 = ((bytes[q] as u16) << 8) | ((bytes[q + 1]) as u16);
            Ok((Self::SequenceNumber { number }, q + 2))
        } else if 0x01 <= t && t <= 0x07 {
            let (len, q) = parse_var(bytes, p)?;
            let data: Vec<u8> = slice_to_vec(slice_subrange(bytes, q, q + len));
            if decode_text_bytes(data.as_slice()).is_none() {
                return Err(CodecError::InvalidTextEncoding);
            }
            let length = VariableLengthQuantity { value: len as u32 };
            let end = q + len;
            let ev = if t == 0x01 {
                Self::TextEvent { length, data }
            } else if t == 0x02 {
                Self::CopyrightNotice { length, data }
            } else if t == 0x03 {
                Self::SequenceOrTrackName { length, data }
            } else if t == 0x04 {
                Self::InstrumentName { length, data }
            } else if t == 0x05 {
                Self::Lyric { length, data }
            } else if t == 0x06 {
                Self::Marker { length, data }
            } else {
                Self::CuePoint { length, data }
            };
            assert(ev@ =~= meta_parse(bytes@, pos as int)->Ok_0.0);
            Ok((ev, end))
        } else if t == 0x20 {
            let q = parse_fixed(bytes, p, 0x01)?;
            Ok((Self::MidiChannelPrefix { channel: bytes[q] }, q + 1))
        } else if t == 0x2f {
            let q = parse_fixed(bytes, p, 0x00)?;
            Ok((Self::EndOfTrack, q))
        } else if t == 0x51 {
            let q = parse_fixed(bytes, p, 0x03)?;
            let tempo: u32 = ((bytes[q] as u32) << 16) | ((bytes[q + 1] as u32) << 8) | (bytes[q
                + 2] as u32);
            Ok((Self::SetTempo { tempo }, q + 3))
        } else if t == 0x54 {
            let q = parse_fixed(bytes, p, 0x05)?;
            Ok(
                (
                    Self::SmpteOffset {
                        hour: bytes[q],
                        minute: bytes[q + 1],
                        second: bytes[q + 2],
                        frame: bytes[q + 3],
                        subframe: bytes[q + 4],
                    },
                    q + 5,
                ),
            )
        } else if t == 0x58 {
            let q = parse_fixed(bytes, p, 0x04)?;
            Ok(
                (
                    Self::TimeSignature {
                        numerator: bytes[q],
                        denominator: bytes[q + 1],
                        clocks_per_metronome_click: bytes[q + 2],
                        thirty_seconds_per_quarter_note: bytes[q + 3],
                    },
                    q + 4,
                ),
            )
        } else if t == 0x59 {
            let q = parse_fixed(bytes, p, 0x02)?;
            Ok((Self::KeySignature { key: bytes[q], scale: bytes[q + 1] }, q + 2))
        } else if t == 0x7f {
            let (len, q) = parse_var(bytes, p)?;
            let data: Vec<u8> = slice_to_vec(slice_subrange(bytes, q, q + len));
            let ev = Self::SequencerSpecificEvent {
                length: VariableLengthQuantity { value: len as u32 },
                data,
            };
            assert(ev@ =~= meta_parse(bytes@, pos as int)->Ok_0.0);
            Ok((ev, q + len))
        } else {
            let (len, q) = parse_var(bytes, p)?;
            let data: Vec<u8> = slice_to_vec(slice_subrange(bytes, q, q + len));
            let ev = Self::UnknownMetaEvent {
                meta_type: t,
                length: VariableLengthQuantity { value: len as u32 },
                data,
            };
            assert(ev@ =~= meta_parse(bytes@, pos as int)->Ok_0.0);
            Ok((ev, q + len))
        }
    }

    /// Decides well-formedness at run time; a text payload is handed to the
    /// decoder to see whether the table represents it.
    pub fn check_wf(&self) -> (r: bool)
        ensures
            r == self@.wf(),
    {
        match self {
            Self::SetTempo { tempo } => *tempo <= 0xff_ffff,
            Self::TextEvent { length, data } => check_text_payload(length, data),
            Self::CopyrightNotice { length, data } => check_text_payload(length, data),
            Self::SequenceOrTrackName { length, data } => check_text_payload(length, data),
            Self::InstrumentName { length, data } => check_text_payload(length, data),
            Self::Lyric { length, data } => check_text_payload(length, data),
            Self::Marker { length, data } => check_text_payload(length, data),
            Self::CuePoint { length, data } => check_text_payload(length, data),
            Self::SequencerSpecificEvent { length, data } => check_stored_length(length, data),
            Self::UnknownMetaEvent { meta_type, length, data } => {
                let t: u8 = *meta_type;
                let known: bool = t == 0x00 || (0x01 <= t && t <= 0x07) || t == 0x20 || t == 0x2f
                    || t == 0x51 || t == 0x54 || t == 0x58 || t == 0x59 || t == 0x7f;
                !known && check_stored_length(length, data)
            },
            _ => true,
        }
    }

    /// Encodes the event: 0xFF, its type byte, then the length in its type's
    /// shape and the payload.
    pub fn to_bytes(&self) -> (r: Vec<u8>)
        requires
            self@.wf(),
        ensures
            r@ == meta_bytes(self@),
    {
        let r: Vec<u8> = match self {
            Self::SequenceNumber { number } => vec![
                0xff,
                0x00,
                0x02,
                (*number >> 8) as u8,
                (*number & 0xff) as u8,
            ],
            Self::TextEvent { length, data } => meta_var_bytes(0x01, length, data),
            Self::CopyrightNotice { length, data } => meta_var_bytes(0x02, length, data),
            Self::SequenceOrTrackName { length, data } => meta_var_bytes(0x03, length, data),
            Self::InstrumentName { length, data } => meta_var_bytes(0x04, length, data),
            Self::Lyric { length, data } => meta_var_bytes(0x05, length, data),
            Self::Marker { length, data } => meta_var_bytes(0x06, length, data),
            Self::CuePoint { length, data } => meta_var_bytes(0x07, length, data),
            Self::MidiChannelPrefix { channel } => vec![0xff, 0x20, 0x01, *channel],
            Self::EndOfTrack => vec![0xff, 0x2f, 0x00],
            Self::SetTempo { tempo } => vec![
                0xff,
                0x51,
                0x03,
                (*tempo >> 16) as u8,
                ((*tempo >> 8) & 0xff) as u8,
                (*tempo & 0xff) as u8,
            ],
            Self::SmpteOffset { hour, minute, second, frame, subframe } => vec![
                0xff,
                0x54,
                0x05,
                *hour,
                *minute,
                *second,
                *frame,
                *subframe,
            ],
            Self::TimeSignature {
                numerator,
                denominator,
                clocks_per_metronome_click,
                thirty_seconds_per_quarter_note,
            } => vec![
                0xff,
                0x58,
                0x04,
                *numerator,
                *denominator,
                *clocks_per_metronome_click,
                *thirty_seconds_per_quarter_note,
            ],
            Self::KeySignature { key, scale } => vec![0xff, 0x59, 0x02, *key, *scale],
            Self::SequencerSpecificEvent { length, data } => meta_var_bytes(0x7f, length, data),
            Self::UnknownMetaEvent { meta_type, length, data } => meta_var_bytes(
                *meta_type,
                length,
                data,
            ),
        };
        assert(r@ =~= meta_bytes(self@));
        r
    }

    /// Renders the payload of a text-bearing variant under the single-byte
    /// text table; other variants carry no text.
    pub fn text(&self) -> (r: Option<String>)
        ensures
            match text_payload(self@) {
                Some(d) => (r is Some <==> decoded_text(d) is Some) && (r matches Some(t)
                    ==> decoded_text(d) == Some(t@)),
                None => r is None,
            },
    {
        match self {
            Self::TextEvent { data, .. } => decode_text_bytes(data.as_slice()),
            Self::CopyrightNotice { data, .. } => decode_text_bytes(data.as_slice()),
            Self::SequenceOrTrackName { data, .. } => decode_text_bytes(data.as_slice()),
            Self::InstrumentName { data, .. } => decode_text_bytes(data.as_slice()),
            Self::Lyric { data, .. } => decode_text_bytes(data.as_slice()),
            Self::Marker { data, .. } => decode_text_bytes(data.as_slice()),
            Self::CuePoint { data, .. } => decode_text_bytes(data.as_slice()),
            _ => None,
        }
    }
}

/// Emits 0xFF, a type byte, the stored length and the payload of a
/// variable-size meta event.
fn meta_var_bytes(t: u8, length: &VariableLengthQuantity, data: &Vec<u8>) -> (r: Vec<u8>)
    requires
        length.wf(),
    ensures
        r@ == seq![0xffu8, t] + vlq_encoding(length.value as nat) + data@,
{
    let mut r: Vec<u8> = vec![0xff, t];
    let mut len_bytes = length.to_bytes();
    r.append(&mut len_bytes);
    let mut d = slice_to_vec(data.as_slice());
    r.append(&mut d);
    assert(r@ =~= seq![0xffu8, t] + vlq_encoding(length.value as nat) + data@);
    r
}

/// Whether a stored length is in range and counts the payload exactly.
fn check_stored_length(length: &VariableLengthQuantity, data: &Vec<u8>) -> (r: bool)
    ensures
        r == (length.wf() && length.value == data@.len()),
{
    length.value <= 0x0fff_ffff && length.value as usize == data.len()
}

/// Whether a stored length fits and the payload decodes under the table.
fn check_text_payload(length: &VariableLengthQuantity, data: &Vec<u8>) -> (r: bool)
    ensures
        r == (length.wf() && length.value == data@.len() && decoded_text(data@) is Some),
{
    check_stored_length(length, data) && decode_text_bytes(data.as_slice()).is_some()
}

// ------------------------------------------------------------------
// Round-trip lemmas
// ------------------------------------------------------------------

/// How the declared length and payload of a variable-size meta event lie in
/// the stream: the length decodes back and the payload sits verbatim between
/// it and whatever follows.
#[verifier::rlimit(100)]
#[verifier::spinoff_prover]
proof fn lemma_meta_var_layout(
    pre: Seq<u8>,
    tag: u8,
    length: VariableLengthQuantity,
    data: Seq<u8>,
    tail: Seq<u8>,
)
    requires
        length.wf(),
        length.value == data.len(),
    ensures
        ({
            let enc = vlq_encoding(length.value as nat);
            let mb = seq![0xffu8, tag] + enc + data;
            let s = pre + mb + tail;
            let b = pre.len() as int;
            let q = b + 2 + enc.len() as int;
            &&& meta_var_parse(s, b + 2) == Ok::<_, CodecError>((length.value as nat, q))
            &&& s.subrange(q, q + data.len() as int) == data
            &&& q + data.len() == b + mb.len()
        }),
{
    let enc = vlq_encoding(length.value as nat);
    let mb = seq![0xffu8, tag] + enc + data;
    let s = pre + mb + tail;
    let b = pre.len() as int;
    let q = b + 2 + enc.len() as int;
    crate::variable_length_quantity::lemma_vlq_round_trip_at(
        pre + seq![0xffu8, tag],
        length.value as nat,
        data + tail,
    );
    assert((pre + seq![0xffu8, tag]) + enc + (data + tail) =~= s);
    assert(vlq_parse(s, b + 2) == Ok::<_, CodecError>((length.value as nat, q)));
    assert forall|i: int| 0 <= i < mb.len() implies s[b + i] == mb[i] by {
        assert((pre + mb)[b + i] == mb[i]);
    }
    assert forall|j: int| 0 <= j < data.len() implies mb[2 + enc.len() + j] == data[j] by {
        assert(mb[(seq![0xffu8, tag] + enc).len() + j] == data[j]);
    }
    assert(s.subrange(q, q + data.len() as int) =~= data);
}

/// Decoding the encoding of a meta event yields it back and consumes exactly
/// the encoding, whatever bytes follow it.
#[verifier::rlimit(100)]
#[verifier::spinoff_prover]
pub proof fn lemma_meta_round_trip(pre: Seq<u8>, m: MetaEventView, tail: Seq<u8>)
    requires
        m.wf(),
    ensures
        meta_parse(pre + meta_bytes(m) + tail, pre.len() as int) == Ok::<_, CodecError>(
            (m, pre.len() + meta_bytes(m).len() as int),
        ),
        meta_bytes(m)[0] == 0xff,
        meta_bytes(m).len() >= 3,
{
    let mb = meta_bytes(m);
    let s = pre + mb + tail;
    let b = pre.len() as int;
    assert forall|i: int| 0 <= i < mb.len() implies s[b + i] == mb[i] by {
        assert((pre + mb)[b + i] == mb[i]);
    }
    match m {
        MetaEventView::SequenceNumber { number } => {
            assert((((((number >> 8) as u8) as u16) << 8) | (((number & 0xff) as u8) as u16))
                == number) by (bit_vector);
        },
        MetaEventView::TextEvent { length, data } => {
            lemma_meta_var_layout(pre, 0x01, length, data, tail);
        },
        MetaEventView::CopyrightNotice { length, data } => {
            lemma_meta_var_layout(pre, 0x02, length, data, tail);
        },
        MetaEventView::SequenceOrTrackName { length, data } => {
            lemma_meta_var_layout(pre, 0x03, length, data, tail);
        },
        MetaEventView::InstrumentName { length, data } => {
            lemma_meta_var_layout(pre, 0x04, length, data, tail);
        },
        MetaEventView::Lyric { length, data } => {
            lemma_meta_var_layout(pre, 0x05, length, data, tail);
        },
        MetaEventView::Marker { length, data } => {
            lemma_meta_var_layout(pre, 0x06, length, data, tail);
        },
        MetaEventView::CuePoint { length, data } => {
            lemma_meta_var_layout(pre, 0x07, length, data, tail);
        },
        MetaEventView::MidiChannelPrefix { channel } => {},
        MetaEventView::EndOfTrack => {},
        MetaEventView::SetTempo { tempo } => {
            assert((((((tempo >> 16) as u8) as u32) << 16) | (((((tempo >> 8)
                & 0xff) as u8) as u32) << 8) | (((tempo & 0xff) as u8) as u32)) == tempo)
                by (bit_vector)
                requires
                    tempo <= 0xff_ffff,
            ;
        },
        MetaEventView::SmpteOffset { .. } => {},
        MetaEventView::TimeSignature { .. } => {},
        MetaEventView::KeySignature { .. } => {},
        MetaEventView::SequencerSpecificEvent { length, data } => {
            lemma_meta_var_layout(pre, 0x7f, length, data, tail);
        },
        MetaEventView::UnknownMetaEvent { meta_type, length, data } => {
            lemma_meta_var_layout(pre, meta_type, length, data, tail);
        },
    }
}

} // verus!
