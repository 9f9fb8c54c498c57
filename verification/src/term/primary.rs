//! The primary tag of the nested raw encoding: the two lowest bits of a word.
use vstd::prelude::*;
use crate::bits::lemma_two_bit_tags;
use crate::defs::Word;

verus! {

/// Bit position of the primary tag.
pub const PRIM_TAG_FIRST: Word = 0;

pub const PRIM_TAG_LAST: Word = 2;

#[derive(Clone, Copy, Debug, PartialEq, Eq, Structural)]
pub enum Tag {
    Header,
    Cons,
    Box,
    Immediate,
}

impl Tag {
    pub open spec fn code(self) -> Word {
        match self {
            Tag::Header => 0,
            Tag::Cons => 1,
            Tag::Box => 2,
            Tag::Immediate => 3,
        }
    }
}

/// The primary tag that the two low bits of `val` hold.
pub open spec fn spec_get(val: Word) -> Tag {
    let c = val % 4;
    if c == 0 {
        Tag::Header
    } else if c == 1 {
        Tag::Cons
    } else if c == 2 {
        Tag::Box
    } else {
        Tag::Immediate
    }
}

/// Get the primary tag bits from a raw term.
#[inline]
#[verifier::when_used_as_spec(spec_get)]
pub fn get(val: Word) -> (t: Tag)
    ensures
        t == spec_get(val),
        t.code() == val % 4,
{
    proof {
        lemma_two_bit_tags(val);
    }
    let c: Word = val & 3;
    if c == 0 {
        Tag::Header
    } else if c == 1 {
        Tag::Cons
    } else if c == 2 {
        Tag::Box
    } else {
        Tag::Immediate
    }
}

} // verus!
