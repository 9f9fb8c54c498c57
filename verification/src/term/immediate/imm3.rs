//! Immediate3 values, used to represent registers and labels compactly.
use vstd::prelude::*;
use crate::bits::{lemma_prefixed, lemma_two_bit_tags};
use crate::defs::Word;

verus! {

/// Bit position of the imm3 tag.
pub const IMM3_TAG_FIRST: Word = 6;

pub const IMM3_TAG_LAST: Word = 8;

/// Bit position of the value after the imm3 tag.
pub const IMM3_VALUE_FIRST: Word = 8;

/// Number of values that fit above the imm3 tag.
pub const IMM3_VALUE_RANGE: Word = 0x0100_0000_0000_0000;

#[derive(Clone, Copy, Debug, PartialEq, Eq, Structural)]
pub enum Immediate3 {
    XReg,
    YReg,
    Label,
    FPReg,
}

/// Precomposed bits for immediate3 values: the primary tag `Immediate`, the
/// imm1 tag `Immed2` and the imm2 tag `Immed3`.
pub const IMM3_PREFIX: Word = 43;

pub const IMM3_XREG_PREFIX: Word = 43;

pub const IMM3_YREG_PREFIX: Word = 107;

pub const IMM3_LABEL_PREFIX: Word = 171;

pub const IMM3_FPREG_PREFIX: Word = 235;

impl Immediate3 {
    pub open spec fn code(self) -> Word {
        match self {
            Immediate3::XReg => 0,
            Immediate3::YReg => 1,
            Immediate3::Label => 2,
            Immediate3::FPReg => 3,
        }
    }
}

/// The imm3 tag that the bits 6 and 7 of `v` hold.
pub open spec fn spec_imm3_tag(v: Word) -> Immediate3 {
    let c = (v / 64) % 4;
    if c == 0 {
        Immediate3::XReg
    } else if c == 1 {
        Immediate3::YReg
    } else if c == 2 {
        Immediate3::Label
    } else {
        Immediate3::FPReg
    }
}

/// The six bits of `v` below the imm3 tag.
pub open spec fn spec_imm3_prefix(v: Word) -> Word {
    v % 64
}

/// The bits of `v` above the imm3 tag.
pub open spec fn spec_imm3_value(v: Word) -> Word {
    v / 256
}

/// The word with the low 56 bits of `val` above the eight bits `prefix`.
pub open spec fn spec_create_imm3(val: Word, prefix: Word) -> Word {
    ((val % IMM3_VALUE_RANGE) * 256 + prefix) as Word
}

/// Trim to have only immediate3 bits and return them as a convenient enum.
#[inline]
pub fn get_imm3_tag(v: Word) -> (t: Immediate3)
    ensures
        t == spec_imm3_tag(v),
{
    proof {
        lemma_two_bit_tags(v);
    }
    let c: Word = (v >> 6) & 3;
    if c == 0 {
        Immediate3::XReg
    } else if c == 1 {
        Immediate3::YReg
    } else if c == 2 {
        Immediate3::Label
    } else {
        Immediate3::FPReg
    }
}

/// Get the prefix bits before the imm3 tag.
#[inline]
pub fn get_imm3_prefix(val: Word) -> (p: Word)
    ensures
        p == spec_imm3_prefix(val),
{
    proof {
        lemma_two_bit_tags(val);
    }
    val & 63
}

/// Remove the tag bits from an imm3 value by shifting it right.
#[inline]
pub fn imm3_value(val: Word) -> (v: Word)
    ensures
        v == spec_imm3_value(val),
{
    proof {
        lemma_two_bit_tags(val);
    }
    val >> 8
}

/// Put the value above a prefix of eight bits, which ends with an imm3 tag.
#[inline]
pub fn create_imm3(val: Word, prefix: Word) -> (r: Word)
    requires
        prefix < 256,
    ensures
        r == spec_create_imm3(val, prefix),
        r % 256 == prefix,
        val < IMM3_VALUE_RANGE ==> spec_imm3_value(r) == val,
{
    proof {
        lemma_prefixed(val, prefix);
    }
    (val << 8) | prefix
}

} // verus!
