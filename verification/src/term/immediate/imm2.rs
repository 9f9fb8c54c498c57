//! Immediate2 values: atoms, catch marks, special values, and the way on to
//! Immediate3.
use vstd::prelude::*;
use crate::bits::{lemma_prefixed, lemma_two_bit_tags};
use crate::defs::Word;

verus! {

/// Bit position of the imm2 tag.
pub const IMM2_TAG_FIRST: Word = 4;

pub const IMM2_TAG_LAST: Word = 6;

/// Bit position of the value after the imm2 tag.
pub const IMM2_VALUE_FIRST: Word = 6;

/// Number of values that fit above the imm2 tag.
pub const IMM2_VALUE_RANGE: Word = 0x0400_0000_0000_0000;

#[derive(Clone, Copy, Debug, PartialEq, Eq, Structural)]
pub enum Immediate2 {
    Atom,
    Catch,
    Immed3,
    /// Special includes unique values like the empty list and the non-value.
    Special,
}

/// Precomposed bits for immediate2 values: the primary tag `Immediate` and
/// the imm1 tag `Immed2`.
pub const IMM2_PREFIX: Word = 11;

pub const IMM2_ATOM_PREFIX: Word = 11;

pub const IMM2_CATCH_PREFIX: Word = 27;

pub const IMM2_IMM3_PREFIX: Word = 43;

pub const IMM2_SPECIAL_PREFIX: Word = 59;

impl Immediate2 {
    pub open spec fn code(self) -> Word {
        match self {
            Immediate2::Atom => 0,
            Immediate2::Catch => 1,
            Immediate2::Immed3 => 2,
            Immediate2::Special => 3,
        }
    }
}

/// The imm2 tag that the bits 4 and 5 of `v` hold.
pub open spec fn spec_imm2_tag(v: Word) -> Immediate2 {
    let c = (v / 16) % 4;
    if c == 0 {
        Immediate2::Atom
    } else if c == 1 {
        Immediate2::Catch
    } else if c == 2 {
        Immediate2::Immed3
    } else {
        Immediate2::Special
    }
}

/// The six low bits of `v`: the primary tag, the imm1 tag and the imm2 tag.
pub open spec fn spec_imm2_prefix(v: Word) -> Word {
    v % 64
}

/// The bits of `v` above the imm2 tag.
pub open spec fn spec_imm2_value(v: Word) -> Word {
    v / 64
}

/// The word with the low 58 bits of `val` above the six bits `prefix`.
pub open spec fn spec_combine_imm2(val: Word, prefix: Word) -> Word {
    ((val % IMM2_VALUE_RANGE) * 64 + prefix) as Word
}

/// Trim to have only immediate2 bits and return them as a convenient enum.
#[inline]
pub fn get_imm2_tag(v: Word) -> (t: Immediate2)
    ensures
        t == spec_imm2_tag(v),
{
    proof {
        lemma_two_bit_tags(v);
    }
    let c: Word = (v >> 4) & 3;
    if c == 0 {
        Immediate2::Atom
    } else if c == 1 {
        Immediate2::Catch
    } else if c == 2 {
        Immediate2::Immed3
    } else {
        Immediate2::Special
    }
}

/// Cut away the value to be able to compare with raw prefixes.
#[inline]
pub fn get_imm2_prefix(val: Word) -> (p: Word)
    ensures
        p == spec_imm2_prefix(val),
{
    proof {
        lemma_two_bit_tags(val);
    }
    val & 63
}

/// Remove the tag bits from an imm2 value by shifting it right.
#[inline]
pub fn get_imm2_value(val: Word) -> (v: Word)
    ensures
        v == spec_imm2_value(val),
{
    proof {
        lemma_two_bit_tags(val);
    }
    val >> 6
}

/// Put the value above a prefix of six bits.
#[inline]
pub fn combine_imm2_prefix_and_val(val: Word, prefix: Word) -> (r: Word)
    requires
        prefix < 64,
    ensures
        r == spec_combine_imm2(val, prefix),
        spec_imm2_prefix(r) == prefix,
        val < IMM2_VALUE_RANGE ==> spec_imm2_value(r) == val,
{
    proof {
        lemma_prefixed(val, prefix);
    }
    (val << 6) | prefix
}

} // verus!
