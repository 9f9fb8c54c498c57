//! Immediate1 values: pids, ports, small integers, and the way on to
//! Immediate2.
use vstd::prelude::*;
use crate::bits::{lemma_prefixed, lemma_two_bit_tags};
use crate::defs::Word;

verus! {

/// Bit position of the imm1 tag.
pub const IMM1_TAG_FIRST: Word = 2;

pub const IMM1_TAG_LAST: Word = 4;

/// Bit position of the value after the imm1 tag.
pub const IMM1_VALUE_FIRST: Word = 4;

/// Number of values that fit above the imm1 tag.
pub const IMM1_VALUE_RANGE: Word = 0x1000_0000_0000_0000;

#[derive(Clone, Copy, Debug, PartialEq, Eq, Structural)]
pub enum Immediate1 {
    Pid,
    Port,
    Immed2,
    Small,
}

/// Precomposed bits for immediate1 values: the primary tag `Immediate`.
pub const IMM1_PREFIX: Word = 3;

pub const IMM1_PID_PREFIX: Word = 3;

pub const IMM1_PORT_PREFIX: Word = 7;

pub const IMM1_IMM2_PREFIX: Word = 11;

pub const IMM1_SMALL_PREFIX: Word = 15;

impl Immediate1 {
    pub open spec fn code(self) -> Word {
        match self {
            Immediate1::Pid => 0,
            Immediate1::Port => 1,
            Immediate1::Immed2 => 2,
            Immediate1::Small => 3,
        }
    }
}

/// The imm1 tag that the bits 2 and 3 of `v` hold.
pub open spec fn spec_imm1_tag(v: Word) -> Immediate1 {
    let c = (v / 4) % 4;
    if c == 0 {
        Immediate1::Pid
    } else if c == 1 {
        Immediate1::Port
    } else if c == 2 {
        Immediate1::Immed2
    } else {
        Immediate1::Small
    }
}

/// The four low bits of `v`: the primary tag and the imm1 tag.
pub open spec fn spec_imm1_prefix(v: Word) -> Word {
    v % 16
}

/// The bits of `v` above the imm1 tag.
pub open spec fn spec_imm1_value(v: Word) -> Word {
    v / 16
}

/// The word with the low 60 bits of `val` above the four bits `prefix`.
pub open spec fn spec_combine_imm1(val: Word, prefix: Word) -> Word {
    ((val % IMM1_VALUE_RANGE) * 16 + prefix) as Word
}

/// Trim to have only immediate1 bits and return them as a convenient enum.
#[inline]
pub fn get_imm1_tag(v: Word) -> (t: Immediate1)
    ensures
        t == spec_imm1_tag(v),
{
    proof {
        lemma_two_bit_tags(v);
    }
    let c: Word = (v >> 2) & 3;
    if c == 0 {
        Immediate1::Pid
    } else if c == 1 {
        Immediate1::Port
    } else if c == 2 {
        Immediate1::Immed2
    } else {
        Immediate1::Small
    }
}

/// Cut away the value to be able to compare with raw prefixes.
#[inline]
pub fn get_imm1_prefix(val: Word) -> (p: Word)
    ensures
        p == spec_imm1_prefix(val),
{
    proof {
        lemma_two_bit_tags(val);
    }
    val & 15
}

/// Remove the tag bits from an imm1 value by shifting it right.
#[inline]
pub fn get_imm1_value(val: Word) -> (v: Word)
    ensures
        v == spec_imm1_value(val),
{
    proof {
        lemma_two_bit_tags(val);
    }
    val >> 4
}

/// Put the value above a prefix of four bits.
#[inline]
pub fn combine_imm1_prefix_and_val(val: Word, prefix: Word) -> (r: Word)
    requires
        prefix < 16,
    ensures
        r == spec_combine_imm1(val, prefix),
        spec_imm1_prefix(r) == prefix,
        val < IMM1_VALUE_RANGE ==> spec_imm1_value(r) == val,
{
    proof {
        lemma_prefixed(val, prefix);
    }
    (val << 4) | prefix
}

} // verus!
