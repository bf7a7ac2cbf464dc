//! System-exclusive blocks.
//!
//! A block opens with 0xF0 (normal form) or 0xF7 (escape/continuation form),
//! declares its payload length as a variable-length integer, and may close
//! with one 0xF7 byte that the length does not count.  The decoded value
//! keeps the counted payload verbatim and remembers whether an uncounted
//! terminator followed, so re-encoding reproduces the original shape.

use crate::errors::CodecError;
use crate::variable_length_quantity::{vlq_encoding, vlq_parse, VariableLengthQuantity};
use vstd::prelude::*;
use vstd::slice::{slice_subrange, slice_to_vec};

verus! {

/// A system-exclusive block: its tag byte, the payload bytes its length
/// counted, and whether an uncounted 0xF7 terminator followed them.
#[derive(Debug, PartialEq, Eq, Clone)]
pub struct SysExEvent {
    pub prefix: u8,
    pub data: Vec<u8>,
    pub uncounted_terminator: bool,
}

/// The mathematical shape of a system-exclusive block.
#[verifier::ext_equal]
pub struct SysExEventView {
    pub prefix: u8,
    pub data: Seq<u8>,
    pub uncounted_terminator: bool,
}

impl View for SysExEvent {
    type V = SysExEventView;

    open spec fn view(&self) -> SysExEventView {
        SysExEventView {
            prefix: self.prefix,
            data: self.data@,
            uncounted_terminator: self.uncounted_terminator,
        }
    }
}

impl SysExEventView {
    /// The tag is one of the two legal ones and the payload length fits a
    /// variable-length integer.
    pub open spec fn wf(self) -> bool {
        (self.prefix == 0xf0 || self.prefix == 0xf7) && self.data.len() <= 0x0fff_ffff
    }
}

/// The encoding of a block: tag, counted length, payload, and the uncounted
/// terminator when the recorded shape calls for one.
pub open spec fn sysex_bytes(v: SysExEventView) -> Seq<u8> {
    seq![v.prefix] + vlq_encoding(v.data.len()) + v.data + (if v.uncounted_terminator {
        seq![0xf7u8]
    } else {
        Seq::<u8>::empty()
    })
}

/// What decoding a block at `pos` yields: tag, declared length, that many
/// payload bytes, then one further 0xF7 consumed as an uncounted terminator
/// exactly when it is next; its absence is not an error.
pub open spec fn sysex_parse(s: Seq<u8>, pos: int) -> Result<(SysExEventView, int), CodecError>
    recommends
        0 <= pos < s.len(),
        s[pos] == 0xf0 || s[pos] == 0xf7,
{
    let prefix = s[pos];
    match vlq_parse(s, pos + 1) {
        Err(e) => Err(e),
        Ok((len, p)) => if p + len > s.len() {
            Err(CodecError::TruncatedSysEx)
        } else {
            let data = s.subrange(p, p + len);
            if p + len < s.len() && s[p + len] == 0xf7 {
                Ok(
                    (
                        SysExEventView { prefix, data, uncounted_terminator: true },
                        p + len + 1,
                    ),
                )
            } else {
                Ok((SysExEventView { prefix, data, uncounted_terminator: false }, p + len))
            }
        },
    }
}

impl SysExEvent {
    /// Decodes a system-exclusive block whose tag byte stands at `pos`.
    pub fn parse(bytes: &[u8], pos: usize) -> (r: Result<(Self, usize), CodecError>)
        requires
            pos < bytes@.len(),
            bytes@[pos as int] == 0xf0 || bytes@[pos as int] == 0xf7,
        ensures
            match sysex_parse(bytes@, pos as int) {
                Ok((v, end)) => r matches Ok(p) && p.0@ == v && p.1 == end && pos < end
                    <= bytes@.len(),
                Err(e) => r matches Err(e2) && e2 == e,
            },
    {
        let prefix: u8 = bytes[pos];
        let (len_vlq, p) = VariableLengthQuantity::parse(bytes, pos + 1)?;
        let len: usize = len_vlq.value as usize;
        if len > bytes.len() - p {
            return Err(CodecError::TruncatedSysEx);
        }
        let data: Vec<u8> = slice_to_vec(slice_subrange(bytes, p, p + len));
        let end: usize = p + len;
        if end < bytes.len() && bytes[end] == 0xf7 {
            let ev = Self { prefix, data, uncounted_terminator: true };
            assert(ev@ =~= sysex_parse(bytes@, pos as int)->Ok_0.0);
            Ok((ev, end + 1))
        } else {
            let ev = Self { prefix, data, uncounted_terminator: false };
            assert(ev@ =~= sysex_parse(bytes@, pos as int)->Ok_0.0);
            Ok((ev, end))
        }
    }

    /// Decides well-formedness at run time.
    pub fn check_wf(&self) -> (r: bool)
        ensures
            r == self@.wf(),
    {
        (self.prefix == 0xf0 || self.prefix == 0xf7) && self.data.len() <= 0x0fff_ffff
    }

    /// Encodes the block: tag, the recomputed payload length, the payload,
    /// and the uncounted terminator when recorded.
    pub fn to_bytes(&self) -> (r: Vec<u8>)
        requires
            self@.wf(),
        ensures
            r@ == sysex_bytes(self@),
    {
        let mut r: Vec<u8> = vec![self.prefix];
        let len = VariableLengthQuantity { value: self.data.len() as u32 };
        let mut len_bytes = len.to_bytes();
        r.append(&mut len_bytes);
        let mut data = slice_to_vec(self.data.as_slice());
        r.append(&mut data);
        if self.uncounted_terminator {
            r.push(0xf7);
        }
        assert(r@ =~= sysex_bytes(self@));
        r
    }

    /// The payload without a counted terminator: the stored bytes, less a
    /// final 0xF7 when one was counted inside the declared length.  The two
    /// legal terminator encodings thus yield the same payload here while
    /// re-encoding to their own original bytes.
    pub fn payload(&self) -> (r: &[u8])
        ensures
            r@ == if self@.data.len() > 0 && self@.data.last() == 0xf7 {
                self@.data.drop_last()
            } else {
                self@.data
            },
    {
        let n: usize = self.data.len();
        if n > 0 && self.data[n - 1] == 0xf7 {
            let r = slice_subrange(self.data.as_slice(), 0, n - 1);
            assert(r@ =~= self@.data.drop_last());
            r
        } else {
            self.data.as_slice()
        }
    }

    /// The tag byte, which also becomes the running status after this event.
    pub fn get_status(&self) -> (r: u8)
        ensures
            r == self@.prefix,
    {
        self.prefix
    }
}

/// Decoding the encoding of a system-exclusive block yields it back and
/// consumes exactly the encoding, whatever bytes follow it -- provided that,
/// when the block records no uncounted terminator, the following bytes do
/// not themselves begin with 0xF7, which the decoder would take for one.
#[verifier::rlimit(100)]
#[verifier::spinoff_prover]
pub proof fn lemma_sysex_round_trip(pre: Seq<u8>, v: SysExEventView, tail: Seq<u8>)
    requires
        v.wf(),
        !v.uncounted_terminator && tail.len() > 0 ==> tail[0] != 0xf7,
    ensures
        sysex_parse(pre + sysex_bytes(v) + tail, pre.len() as int) == Ok::<_, CodecError>(
            (v, pre.len() + sysex_bytes(v).len() as int),
        ),
        sysex_bytes(v)[0] == v.prefix,
        sysex_bytes(v).len() >= 2,
{
    let sb = sysex_bytes(v);
    let s = pre + sb + tail;
    let b = pre.len() as int;
    let enc = vlq_encoding(v.data.len());
    let term: Seq<u8> = if v.uncounted_terminator {
        seq![0xf7u8]
    } else {
        Seq::empty()
    };
    let q = b + 1 + enc.len() as int;
    crate::variable_length_quantity::lemma_vlq_round_trip_at(
        pre + seq![v.prefix],
        v.data.len(),
        v.data + term + tail,
    );
    assert((pre + seq![v.prefix]) + enc + (v.data + term + tail) =~= s);
    assert(vlq_parse(s, b + 1) == Ok::<_, CodecError>((v.data.len(), q)));
    assert forall|i: int| 0 <= i < sb.len() implies s[b + i] == sb[i] by {
        assert((pre + sb)[b + i] == sb[i]);
    }
    assert forall|j: int| 0 <= j < v.data.len() implies sb[1 + enc.len() + j] == v.data[j] by {
        assert(sb[(seq![v.prefix] + enc).len() + j] == v.data[j]);
    }
    assert(s.subrange(q, q + v.data.len() as int) =~= v.data);
    if v.uncounted_terminator {
        assert(sb[1 + enc.len() + v.data.len() as int] == 0xf7);
        assert(s[q + v.data.len()] == 0xf7);
    } else {
        if tail.len() > 0 {
            assert(s[q + v.data.len()] == tail[0]);
        }
    }
}

} // verus!
