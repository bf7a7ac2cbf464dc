//! The variable-length integer used throughout the format.
//!
//! A value is stored seven bits per byte, most significant group first; every
//! byte but the last carries the continuation bit 0x80.  Values fit in 28
//! bits, so an encoding is never longer than four bytes, and this codec
//! always emits the minimal form.

use crate::errors::CodecError;
use vstd::arithmetic::div_mod::{lemma_div_denominator, lemma_fundamental_div_mod};
use vstd::prelude::*;

verus! {

/// An unsigned integer no larger than 0x0FFFFFFF, value-equal regardless of
/// how many bytes encoded it on the wire.
#[derive(Debug, PartialEq, Eq, Structural, Clone, Copy)]
pub struct VariableLengthQuantity {
    pub value: u32,
}

/// The continuation-marked bytes that precede the terminal byte of an
/// encoding: the base-128 digits of `v`, each with the high bit set.
pub open spec fn vlq_prefix(v: nat) -> Seq<u8>
    decreases v,
{
    if v == 0 {
        Seq::empty()
    } else {
        vlq_prefix(v / 128).push((v % 128 + 128) as u8)
    }
}

/// The minimal encoding of `v`: its upper base-128 digits with the
/// continuation bit set, then the low seven bits as the terminal byte.
pub open spec fn vlq_encoding(v: nat) -> Seq<u8> {
    vlq_prefix(v / 128).push((v % 128) as u8)
}

/// One step of decoding: `acc` holds the groups read so far and `seen` counts
/// the continuation bytes consumed.  More than three continuation bytes, or
/// input exhausted before a terminal byte, is malformed.
pub open spec fn vlq_parse_rec(s: Seq<u8>, pos: int, acc: nat, seen: nat) -> Result<
    (nat, int),
    CodecError,
>
    decreases 4 - seen,
{
    if pos < 0 || pos >= s.len() {
        Err(CodecError::MalformedLength)
    } else if s[pos] < 0x80 {
        Ok((acc * 128 + (s[pos] as nat), pos + 1))
    } else if seen >= 3 {
        Err(CodecError::MalformedLength)
    } else {
        vlq_parse_rec(s, pos + 1, acc * 128 + ((s[pos] - 0x80) as nat), seen + 1)
    }
}

/// What decoding yields at `pos`: the value and the position just past its
/// terminal byte, or `MalformedLength`.
pub open spec fn vlq_parse(s: Seq<u8>, pos: int) -> Result<(nat, int), CodecError> {
    vlq_parse_rec(s, pos, 0, 0)
}

impl VariableLengthQuantity {
    /// The stored value stays within the 28 bits that four encoded bytes can
    /// carry.
    pub open spec fn wf(self) -> bool {
        self.value <= 0x0fff_ffff
    }

    /// Decodes one variable-length integer starting at `pos`, returning the
    /// value and the position just past it.
    pub fn parse(bytes: &[u8], pos: usize) -> (r: Result<(Self, usize), CodecError>)
        ensures
            match vlq_parse(bytes@, pos as int) {
                Ok((v, end)) => r matches Ok(p) && p.0.value == v && p.1 == end && p.0.wf()
                    && pos < end <= bytes@.len(),
                Err(e) => r matches Err(e2) && e2 == e,
            },
    {
        let mut p: usize = pos;
        let mut acc: u32 = 0;
        let mut seen: u8 = 0;
        loop
            invariant
                pos <= p,
                seen <= 3,
                seen == 0 ==> acc == 0 && p == pos,
                seen == 1 ==> acc < 0x80,
                seen == 2 ==> acc < 0x4000,
                seen == 3 ==> acc < 0x20_0000,
                seen > 0 ==> p > pos,
                vlq_parse(bytes@, pos as int) == vlq_parse_rec(
                    bytes@,
                    p as int,
                    acc as nat,
                    seen as nat,
                ),
            decreases 4 - seen,
        {
            if p >= bytes.len() {
                return Err(CodecError::MalformedLength);
            }
            let b: u8 = bytes[p];
            if b < 0x80 {
                return Ok((Self { value: acc * 128 + b as u32 }, p + 1));
            }
            if seen >= 3 {
                return Err(CodecError::MalformedLength);
            }
            acc = acc * 128 + (b - 0x80) as u32;
            seen = seen + 1;
            p = p + 1;
        }
    }

    /// Encodes the value in its minimal form, least seven bits in the final
    /// byte and the continuation bit on every earlier byte.
    pub fn to_bytes(&self) -> (r: Vec<u8>)
        requires
            self.wf(),
        ensures
            r@ == vlq_encoding(self.value as nat),
    {
        proof {
            lemma_vlq_encoding_explicit(self.value as nat);
        }
        let v: u32 = self.value;
        if v < 0x80 {
            let r: Vec<u8> = vec![v as u8];
            assert(r@ =~= vlq_encoding(self.value as nat));
            r
        } else if v < 0x4000 {
            let r: Vec<u8> = vec![(v / 0x80) as u8 + 0x80, (v % 0x80) as u8];
            assert(r@ =~= vlq_encoding(self.value as nat));
            r
        } else if v < 0x20_0000 {
            let r: Vec<u8> = vec![
                (v / 0x4000) as u8 + 0x80,
                ((v / 0x80) % 0x80) as u8 + 0x80,
                (v % 0x80) as u8,
            ];
            assert(r@ =~= vlq_encoding(self.value as nat));
            r
        } else {
            let r: Vec<u8> = vec![
                (v / 0x20_0000) as u8 + 0x80,
                ((v / 0x4000) % 0x80) as u8 + 0x80,
                ((v / 0x80) % 0x80) as u8 + 0x80,
                (v % 0x80) as u8,
            ];
            assert(r@ =~= vlq_encoding(self.value as nat));
            r
        }
    }
}

/// The encoding of a value in range, written out byte by byte for each of the
/// four possible lengths.
pub proof fn lemma_vlq_encoding_explicit(v: nat)
    requires
        v <= 0x0fff_ffff,
    ensures
        v < 0x80 ==> vlq_encoding(v) =~= seq![v as u8],
        0x80 <= v < 0x4000 ==> vlq_encoding(v) =~= seq![
            (v / 0x80 + 0x80) as u8,
            (v % 0x80) as u8,
        ],
        0x4000 <= v < 0x20_0000 ==> vlq_encoding(v) =~= seq![
            (v / 0x4000 + 0x80) as u8,
            ((v / 0x80) % 0x80 + 0x80) as u8,
            (v % 0x80) as u8,
        ],
        0x20_0000 <= v ==> vlq_encoding(v) =~= seq![
            (v / 0x20_0000 + 0x80) as u8,
            ((v / 0x4000) % 0x80 + 0x80) as u8,
            ((v / 0x80) % 0x80 + 0x80) as u8,
            (v % 0x80) as u8,
        ],
{
    reveal_with_fuel(vlq_prefix, 5);
    lemma_div_denominator(v as int, 0x80, 0x80);
    lemma_div_denominator(v as int, 0x80, 0x4000);
    lemma_div_denominator(v as int / 0x80, 0x80, 0x80);
    if v < 0x80 {
        assert(vlq_prefix(v / 128) =~= Seq::<u8>::empty());
    } else if v < 0x4000 {
        assert(vlq_prefix(v / 128) =~= seq![(v / 0x80 + 0x80) as u8]) by {
            assert(v / 128 / 128 == 0);
            assert(v / 128 % 128 == v / 128);
        }
    } else if v < 0x20_0000 {
        assert(v / 128 / 128 == v / 0x4000);
        assert(v / 0x4000 / 128 == 0);
        assert(v / 0x4000 % 128 == v / 0x4000);
        assert(vlq_prefix(v / 0x4000) =~= seq![(v / 0x4000 + 0x80) as u8]);
        assert(vlq_prefix(v / 128) =~= seq![
            (v / 0x4000 + 0x80) as u8,
            ((v / 0x80) % 0x80 + 0x80) as u8,
        ]);
    } else {
        assert(v / 128 / 128 == v / 0x4000);
        assert(v / 0x4000 / 128 == v / 0x20_0000) by {
            lemma_div_denominator(v as int, 0x4000, 0x80);
        }
        assert(v / 0x20_0000 / 128 == 0) by {
            lemma_div_denominator(v as int, 0x20_0000, 0x80);
        }
        assert(v / 0x20_0000 % 128 == v / 0x20_0000);
        assert(vlq_prefix(v / 0x20_0000) =~= seq![(v / 0x20_0000 + 0x80) as u8]);
        assert(vlq_prefix(v / 0x4000) =~= seq![
            (v / 0x20_0000 + 0x80) as u8,
            ((v / 0x4000) % 0x80 + 0x80) as u8,
        ]);
        assert(vlq_prefix(v / 128) =~= seq![
            (v / 0x20_0000 + 0x80) as u8,
            ((v / 0x4000) % 0x80 + 0x80) as u8,
            ((v / 0x80) % 0x80 + 0x80) as u8,
        ]);
    }
}

/// Decoding an encoding embedded after any prefix yields the value back and
/// consumes exactly the encoding, whatever bytes follow it.
pub proof fn lemma_vlq_round_trip_at(pre: Seq<u8>, v: nat, tail: Seq<u8>)
    requires
        v <= 0x0fff_ffff,
    ensures
        vlq_parse(pre + vlq_encoding(v) + tail, pre.len() as int) == Ok::<_, CodecError>(
            (v, pre.len() + vlq_encoding(v).len() as int),
        ),
{
    reveal_with_fuel(vlq_parse_rec, 5);
    lemma_vlq_encoding_explicit(v);
    let s = pre + vlq_encoding(v) + tail;
    let b = pre.len() as int;
    assert forall|i: int| 0 <= i < vlq_encoding(v).len() implies s[b + i] == vlq_encoding(v)[i] by {
        assert((pre + vlq_encoding(v))[b + i] == vlq_encoding(v)[i]);
    }
    lemma_fundamental_div_mod(v as int, 0x80);
    lemma_fundamental_div_mod(v as int / 0x80, 0x80);
    lemma_fundamental_div_mod(v as int / 0x4000, 0x80);
    lemma_div_denominator(v as int, 0x80, 0x80);
    lemma_div_denominator(v as int, 0x4000, 0x80);
    if v < 0x80 {
        assert(s[b] == v as u8);
    } else if v < 0x4000 {
        assert(s[b] == (v / 0x80 + 0x80) as u8 && s[b + 1] == (v % 0x80) as u8);
        assert((v / 0x80) * 128 + v % 0x80 == v);
    } else if v < 0x20_0000 {
        assert(s[b] == (v / 0x4000 + 0x80) as u8 && s[b + 1] == ((v / 0x80) % 0x80 + 0x80) as u8
            && s[b + 2] == (v % 0x80) as u8);
        assert((v / 0x4000) * 128 + (v / 0x80) % 0x80 == v / 0x80);
        assert((v / 0x80) * 128 + v % 0x80 == v);
    } else {
        assert(s[b] == (v / 0x20_0000 + 0x80) as u8 && s[b + 1] == ((v / 0x4000) % 0x80
            + 0x80) as u8 && s[b + 2] == ((v / 0x80) % 0x80 + 0x80) as u8 && s[b + 3] == (v
            % 0x80) as u8);
        assert((v / 0x20_0000) * 128 + (v / 0x4000) % 0x80 == v / 0x4000);
        assert((v / 0x4000) * 128 + (v / 0x80) % 0x80 == v / 0x80);
        assert((v / 0x80) * 128 + v % 0x80 == v);
    }
}

/// Decoding an encoding yields the value back and consumes exactly the
/// encoding, whatever bytes follow it.
pub proof fn lemma_vlq_round_trip(v: nat, tail: Seq<u8>)
    requires
        v <= 0x0fff_ffff,
    ensures
        vlq_parse(vlq_encoding(v) + tail, 0) == Ok::<_, CodecError>(
            (v, vlq_encoding(v).len() as int),
        ),
{
    reveal_with_fuel(vlq_parse_rec, 5);
    lemma_vlq_encoding_explicit(v);
    let s = vlq_encoding(v) + tail;
    lemma_fundamental_div_mod(v as int, 0x80);
    lemma_fundamental_div_mod(v as int / 0x80, 0x80);
    lemma_fundamental_div_mod(v as int / 0x4000, 0x80);
    lemma_div_denominator(v as int, 0x80, 0x80);
    lemma_div_denominator(v as int, 0x4000, 0x80);
    if v < 0x80 {
        assert(s[0] == v as u8);
    } else if v < 0x4000 {
        assert(s[0] == (v / 0x80 + 0x80) as u8 && s[1] == (v % 0x80) as u8);
        assert((v / 0x80) * 128 + v % 0x80 == v);
    } else if v < 0x20_0000 {
        assert((v / 0x4000) * 128 + (v / 0x80) % 0x80 == v / 0x80);
        assert((v / 0x80) * 128 + v % 0x80 == v);
    } else {
        assert((v / 0x20_0000) * 128 + (v / 0x4000) % 0x80 == v / 0x4000);
        assert((v / 0x4000) * 128 + (v / 0x80) % 0x80 == v / 0x80);
        assert((v / 0x80) * 128 + v % 0x80 == v);
    }
}

/// The minimal encoding takes one byte up to 0x7F, two up to 0x3FFF, three up
/// to 0x1FFFFF and four beyond, up to the 28-bit maximum.
pub proof fn lemma_vlq_canonical_length(v: nat)
    requires
        v <= 0x0fff_ffff,
    ensures
        v <= 0x7f ==> vlq_encoding(v).len() == 1,
        0x80 <= v <= 0x3fff ==> vlq_encoding(v).len() == 2,
        0x4000 <= v <= 0x1f_ffff ==> vlq_encoding(v).len() == 3,
        0x20_0000 <= v ==> vlq_encoding(v).len() == 4,
{
    lemma_vlq_encoding_explicit(v);
}

} // verus!
