//! The header chunk of a file: format, track count and time division.

use crate::errors::CodecError;
use vstd::prelude::*;

verus! {

broadcast use vstd::slice::group_slice_axioms;

/// How delta times are measured: ticks per quarter note (high bit clear on
/// the wire) or SMPTE frames per second with ticks per frame (high bit set).
#[derive(Debug, PartialEq, Eq, Structural, Clone, Copy)]
pub enum Division {
    TicksPerQuarterNote { ticks: u16 },
    FramesPerSecond { frames: u8, ticks: u8 },
}

impl Division {
    /// A tick count leaves the high bit clear; a frame byte carries it set.
    pub open spec fn wf(self) -> bool {
        match self {
            Division::TicksPerQuarterNote { ticks } => ticks < 0x8000,
            Division::FramesPerSecond { frames, .. } => frames >= 0x80,
        }
    }
}

/// The two big-endian bytes of a division.
pub open spec fn division_bytes(d: Division) -> Seq<u8> {
    match d {
        Division::TicksPerQuarterNote { ticks } => seq![(ticks >> 8) as u8, (ticks & 0xff) as u8],
        Division::FramesPerSecond { frames, ticks } => seq![frames, ticks],
    }
}

/// What decoding two division bytes at `pos` yields, keyed by the high bit
/// of the first.
pub open spec fn division_parse(s: Seq<u8>, pos: int) -> Result<(Division, int), CodecError> {
    if pos < 0 || pos + 2 > s.len() {
        Err(CodecError::TruncatedChunk)
    } else if s[pos] < 0x80 {
        Ok(
            (
                Division::TicksPerQuarterNote {
                    ticks: ((s[pos] as u16) << 8) | (s[pos + 1] as u16),
                },
                pos + 2,
            ),
        )
    } else {
        Ok((Division::FramesPerSecond { frames: s[pos], ticks: s[pos + 1] }, pos + 2))
    }
}

impl Division {
    /// Decides well-formedness at run time.
    pub fn check_wf(&self) -> (r: bool)
        ensures
            r == self.wf(),
    {
        match self {
            Self::TicksPerQuarterNote { ticks } => *ticks < 0x8000,
            Self::FramesPerSecond { frames, .. } => *frames >= 0x80,
        }
    }

    /// Decodes a division from its two bytes at `pos`.
    pub fn parse(bytes: &[u8], pos: usize) -> (r: Result<(Self, usize), CodecError>)
        ensures
            match division_parse(bytes@, pos as int) {
                Ok((d, end)) => r matches Ok(p) && p.0 == d && p.1 == end && pos < end
                    <= bytes@.len(),
                Err(e) => r matches Err(e2) && e2 == e,
            },
    {
        let n: usize = bytes.len();
        if pos >= n || n - pos < 2 {
            return Err(CodecError::TruncatedChunk);
        }
        let b0: u8 = bytes[pos];
        let b1: u8 = bytes[pos + 1];
        if b0 < 0x80 {
            Ok((Self::TicksPerQuarterNote { ticks: ((b0 as u16) << 8) | (b1 as u16) }, pos + 2))
        } else {
            Ok((Self::FramesPerSecond { frames: b0, ticks: b1 }, pos + 2))
        }
    }

    /// Encodes the division into its two big-endian bytes.
    pub fn to_bytes(&self) -> (r: Vec<u8>)
        ensures
            r@ == division_bytes(*self),
    {
        let r: Vec<u8> = match self {
            Self::TicksPerQuarterNote { ticks } => vec![(*ticks >> 8) as u8, (*ticks & 0xff) as u8],
            Self::FramesPerSecond { frames, ticks } => vec![*frames, *ticks],
        };
        assert(r@ =~= division_bytes(*self));
        r
    }
}

/// The header fields: format, declared track count and division.
#[derive(Debug, PartialEq, Eq, Structural, Clone, Copy)]
pub struct HeaderData {
    pub format: u16,
    pub ntrks: u16,
    pub division: Division,
}

impl HeaderData {
    /// The format is 0, 1 or 2 and the division is well-formed.
    pub open spec fn wf(self) -> bool {
        self.format <= 2 && self.division.wf()
    }
}

/// The six bytes of the header fields.
pub open spec fn header_data_bytes(d: HeaderData) -> Seq<u8> {
    seq![
        (d.format >> 8) as u8,
        (d.format & 0xff) as u8,
        (d.ntrks >> 8) as u8,
        (d.ntrks & 0xff) as u8,
    ] + division_bytes(d.division)
}

/// What decoding the header fields at `pos` yields; a format other than 0, 1
/// or 2 is rejected.
pub open spec fn header_data_parse(s: Seq<u8>, pos: int) -> Result<(HeaderData, int), CodecError> {
    if pos < 0 || pos + 4 > s.len() {
        Err(CodecError::TruncatedChunk)
    } else {
        let format = ((s[pos] as u16) << 8) | (s[pos + 1] as u16);
        if format > 2 {
            Err(CodecError::InvalidFormat)
        } else {
            let ntrks = ((s[pos + 2] as u16) << 8) | (s[pos + 3] as u16);
            match division_parse(s, pos + 4) {
                Err(e) => Err(e),
                Ok((division, end)) => Ok((HeaderData { format, ntrks, division }, end)),
            }
        }
    }
}

impl HeaderData {
    /// Decides well-formedness at run time.
    pub fn check_wf(&self) -> (r: bool)
        ensures
            r == self.wf(),
    {
        self.format <= 2 && self.division.check_wf()
    }

    /// Decodes the header fields at `pos`.
    pub fn parse(bytes: &[u8], pos: usize) -> (r: Result<(Self, usize), CodecError>)
        ensures
            match header_data_parse(bytes@, pos as int) {
                Ok((d, end)) => r matches Ok(p) && p.0 == d && p.1 == end && pos < end
                    <= bytes@.len(),
                Err(e) => r matches Err(e2) && e2 == e,
            },
    {
        let n: usize = bytes.len();
        if pos >= n || n - pos < 4 {
            return Err(CodecError::TruncatedChunk);
        }
        let format: u16 = ((bytes[pos] as u16) << 8) | (bytes[pos + 1] as u16);
        if format > 2 {
            return Err(CodecError::InvalidFormat);
        }
        let ntrks: u16 = ((bytes[pos + 2] as u16) << 8) | (bytes[pos + 3] as u16);
        let (division, end) = Division::parse(bytes, pos + 4)?;
        Ok((Self { format, ntrks, division }, end))
    }

    /// Encodes the six header bytes.
    pub fn to_bytes(&self) -> (r: Vec<u8>)
        ensures
            r@ == header_data_bytes(*self),
    {
        let mut r: Vec<u8> = vec![
            (self.format >> 8) as u8,
            (self.format & 0xff) as u8,
            (self.ntrks >> 8) as u8,
            (self.ntrks & 0xff) as u8,
        ];
        let mut d = self.division.to_bytes();
        r.append(&mut d);
        assert(r@ =~= header_data_bytes(*self));
        r
    }
}

/// The header chunk: the four-character tag, the declared length, and the
/// header fields.
#[derive(Debug, PartialEq, Eq, Clone)]
pub struct HeaderChunk {
    pub chunk_type: String,
    pub length: u32,
    pub data: HeaderData,
}

/// The mathematical shape of a header chunk.
#[verifier::ext_equal]
pub struct HeaderChunkView {
    pub chunk_type: Seq<char>,
    pub length: u32,
    pub data: HeaderData,
}

impl View for HeaderChunk {
    type V = HeaderChunkView;

    open spec fn view(&self) -> HeaderChunkView {
        HeaderChunkView { chunk_type: self.chunk_type@, length: self.length, data: self.data }
    }
}

impl HeaderChunkView {
    /// The tag reads MThd, the length is the six bytes the fields take, and
    /// the fields are well-formed.
    pub open spec fn wf(self) -> bool {
        self.chunk_type == "MThd"@ && self.length == 6 && self.data.wf()
    }
}

/// The encoding of a header chunk: the tag, the stored length, the fields.
pub open spec fn header_chunk_bytes(v: HeaderChunkView) -> Seq<u8> {
    seq![0x4du8, 0x54u8, 0x68u8, 0x64u8] + seq![
        (v.length >> 24) as u8,
        ((v.length >> 16) & 0xff) as u8,
        ((v.length >> 8) & 0xff) as u8,
        (v.length & 0xff) as u8,
    ] + header_data_bytes(v.data)
}

/// What decoding a header chunk at `pos` yields: the MThd tag, a 32-bit
/// length, and the fields read from that many bytes; declared bytes beyond
/// the fields are skipped.
pub open spec fn header_chunk_parse(s: Seq<u8>, pos: int) -> Result<
    (HeaderChunkView, int),
    CodecError,
> {
    if pos < 0 || pos + 8 > s.len() {
        Err(CodecError::TruncatedChunk)
    } else if !(s[pos] == 0x4d && s[pos + 1] == 0x54 && s[pos + 2] == 0x68 && s[pos + 3] == 0x64) {
        Err(CodecError::InvalidChunkType)
    } else {
        let len = (((s[pos + 4] as u32) << 24) | ((s[pos + 5] as u32) << 16) | ((s[pos
            + 6] as u32) << 8) | (s[pos + 7] as u32)) as int;
        if pos + 8 + len > s.len() {
            Err(CodecError::TruncatedChunk)
        } else {
            match header_data_parse(s.subrange(pos + 8, pos + 8 + len), 0) {
                Err(e) => Err(e),
                Ok((data, _)) => Ok(
                    (
                        HeaderChunkView { chunk_type: "MThd"@, length: len as u32, data },
                        pos + 8 + len,
                    ),
                ),
            }
        }
    }
}

impl HeaderChunk {
    /// Decodes a header chunk whose tag stands at `pos`.
    pub fn parse(bytes: &[u8], pos: usize) -> (r: Result<(Self, usize), CodecError>)
        ensures
            match header_chunk_parse(bytes@, pos as int) {
                Ok((v, end)) => r matches Ok(p) && p.0@ == v && p.1 == end && pos < end
                    <= bytes@.len(),
                Err(e) => r matches Err(e2) && e2 == e,
            },
    {
        let n: usize = bytes.len();
        if pos >= n || n - pos < 8 {
            return Err(CodecError::TruncatedChunk);
        }
        if !(bytes[pos] == 0x4d && bytes[pos + 1] == 0x54 && bytes[pos + 2] == 0x68 && bytes[pos
            + 3] == 0x64) {
            return Err(CodecError::InvalidChunkType);
        }
        let len_u32: u32 = ((bytes[pos + 4] as u32) << 24) | ((bytes[pos + 5] as u32) << 16) | ((
        bytes[pos + 6] as u32) << 8) | (bytes[pos + 7] as u32);
        let len: usize = len_u32 as usize;
        if len > n - (pos + 8) {
            return Err(CodecError::TruncatedChunk);
        }
        let sub = vstd::slice::slice_subrange(bytes, pos + 8, pos + 8 + len);
        let (data, _) = HeaderData::parse(sub, 0)?;
        let chunk = Self { chunk_type: "MThd".to_string(), length: len_u32, data };
        Ok((chunk, pos + 8 + len))
    }

    /// Decides well-formedness at run time.
    pub fn check_wf(&self) -> (r: bool)
        ensures
            r == self@.wf(),
    {
        self.chunk_type == "MThd".to_string() && self.length == 6 && self.data.check_wf()
    }

    /// Encodes the chunk: the tag, the stored length, then the fields.
    pub fn to_bytes(&self) -> (r: Vec<u8>)
        ensures
            r@ == header_chunk_bytes(self@),
    {
        let mut r: Vec<u8> = vec![
            0x4d,
            0x54,
            0x68,
            0x64,
            (self.length >> 24) as u8,
            ((self.length >> 16) & 0xff) as u8,
            ((self.length >> 8) & 0xff) as u8,
            (self.length & 0xff) as u8,
        ];
        let mut d = self.data.to_bytes();
        r.append(&mut d);
        assert(r@ =~= header_chunk_bytes(self@));
        r
    }
}

} // verus!
