//! Facts that tie the shifts and masks of the word encodings to plain
//! arithmetic, so that everything built on them can reason with sums and
//! quotients.
use vstd::prelude::*;

verus! {

/// The three low bits of a word are its remainder by eight, and shifting them
/// out is dividing by eight.
pub proof fn lemma_low_bits(v: u64)
    by (bit_vector)
    ensures
        v & 7 == v % 8,
        v >> 3 == v / 8,
        (v >> 3) & 7 == (v / 8) % 8,
        v >> 6 == v / 64,
        v & !7u64 == v - v % 8,
{
}

/// Putting a three-bit tag under a value keeps the low 61 bits of the value.
pub proof fn lemma_tagged(v: u64, t: u64)
    by (bit_vector)
    requires
        t < 8,
    ensures
        (v << 3) | t == (v % 0x2000_0000_0000_0000u64) * 8 + t,
{
}

/// The same for a signed value: the word is the value times eight plus the
/// tag, taken modulo the word size.
pub proof fn lemma_signed_tagged(v: i64, t: i64)
    by (bit_vector)
    requires
        0 <= t < 8,
    ensures
        v >= 0 ==> ((v << 3) | t) as u64 == (v as u64 % 0x2000_0000_0000_0000u64) * 8 + t,
        v < 0 ==> ((v << 3) | t) as u64 == ((v + 0x8000_0000_0000_0000) as u64
            % 0x2000_0000_0000_0000u64) * 8 + t,
{
}

/// An arithmetic shift of the signed reading divides it by eight, rounding
/// down.
pub proof fn lemma_signed_shift(r: u64)
    by (bit_vector)
    ensures
        r < 0x8000_0000_0000_0000u64 ==> (r as i64) >> 3 == r / 8,
        r >= 0x8000_0000_0000_0000u64 ==> (r as i64) >> 3 == (r / 8) - 0x2000_0000_0000_0000,
{
}

/// The highest bit of a word, set and tested and cleared.
pub proof fn lemma_highest_bit(v: u64)
    by (bit_vector)
    ensures
        v | 0x8000_0000_0000_0000u64 == (v % 0x8000_0000_0000_0000u64) + 0x8000_0000_0000_0000u64,
        (v & 0x8000_0000_0000_0000u64 == 0x8000_0000_0000_0000u64) == (v
            >= 0x8000_0000_0000_0000u64),
        v & 0x7fff_ffff_ffff_ffffu64 == v % 0x8000_0000_0000_0000u64,
{
}

/// Setting the cons tag on an aligned address adds two to it.
pub proof fn lemma_or_cons_tag(p: u64)
    by (bit_vector)
    requires
        p % 8 == 0,
    ensures
        p | 2 == p + 2,
{
}

/// A box header packs the arity over a four-bit type code over the header tag.
pub proof fn lemma_header_pack(arity: u64, t: u64)
    by (bit_vector)
    requires
        t < 16,
    ensures
        (((arity << 4) | t) << 3) | 1 == ((arity % 0x0200_0000_0000_0000u64) * 16 + t) * 8 + 1,
{
}

/// Taking a box header apart again.
pub proof fn lemma_header_unpack(w: u64)
    by (bit_vector)
    ensures
        (w >> 3) & 15 == (w / 8) % 16,
        w >> 7 == w / 128,
{
}

/// The byte `j` of a word, counted from the least significant.
pub open spec fn spec_word_byte(w: u64, j: u64) -> u8 {
    ((w >> (8 * j)) & 0xff) as u8
}

/// The word `w` with its byte `j` replaced by `b`.
pub open spec fn spec_word_with_byte(w: u64, j: u64, b: u8) -> u64 {
    (w & !(0xffu64 << (8 * j))) | ((b as u64) << (8 * j))
}

/// Replacing one byte of a word changes that byte and no other.
pub proof fn lemma_word_with_byte(w: u64, j: u64, b: u8, i: u64)
    by (bit_vector)
    requires
        j < 8,
        i < 8,
    ensures
        i == j ==> spec_word_byte(spec_word_with_byte(w, j, b), i) == b,
        i != j ==> spec_word_byte(spec_word_with_byte(w, j, b), i) == spec_word_byte(w, i),
{
}

/// A prefix of four, six or eight bits under a value keeps the low bits of
/// the value that fit above it.
pub proof fn lemma_prefixed(val: u64, prefix: u64)
    by (bit_vector)
    ensures
        prefix < 16 ==> (val << 4) | prefix == (val % 0x1000_0000_0000_0000u64) * 16 + prefix,
        prefix < 64 ==> (val << 6) | prefix == (val % 0x0400_0000_0000_0000u64) * 64 + prefix,
        prefix < 256 ==> (val << 8) | prefix == (val % 0x0100_0000_0000_0000u64) * 256 + prefix,
{
}

/// The two-bit tags of a word and the prefixes below them, by remainders and
/// quotients.
pub proof fn lemma_two_bit_tags(v: u64)
    by (bit_vector)
    ensures
        v & 3 == v % 4,
        (v >> 2) & 3 == (v / 4) % 4,
        (v >> 4) & 3 == (v / 16) % 4,
        (v >> 6) & 3 == (v / 64) % 4,
        v & 15 == v % 16,
        v & 63 == v % 64,
        v >> 4 == v / 16,
        v >> 6 == v / 64,
        v >> 8 == v / 256,
{
}

} // verus!
