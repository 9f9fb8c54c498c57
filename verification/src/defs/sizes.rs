//! Sizes that carry their unit, so that bytes are not taken for words.
use vstd::prelude::*;
use crate::defs::WORD_BYTES;

verus! {

/// A size counted in machine words.
#[derive(Clone, Copy, Debug, PartialEq, Eq, Structural)]
pub struct WordSize {
    pub n_words: usize,
}

impl WordSize {
    pub fn new(n_words: usize) -> (r: WordSize)
        ensures
            r.n_words == n_words,
    {
        WordSize { n_words }
    }

    pub fn one() -> (r: WordSize)
        ensures
            r.n_words == 1,
    {
        WordSize { n_words: 1 }
    }

    pub fn words(self) -> (n: usize)
        ensures
            n == self.n_words,
    {
        self.n_words
    }
}

/// A size counted in bytes.
#[derive(Clone, Copy, Debug, PartialEq, Eq, Structural)]
pub struct ByteSize {
    pub n_bytes: usize,
}

/// Words needed to hold `n_bytes` bytes: the quotient by the word size,
/// rounded up.
pub open spec fn spec_words_rounded_up(n_bytes: int) -> int {
    (n_bytes + 7) / 8
}

impl ByteSize {
    pub fn new(n_bytes: usize) -> (r: ByteSize)
        ensures
            r.n_bytes == n_bytes,
    {
        ByteSize { n_bytes }
    }

    pub fn bytes(self) -> (n: usize)
        ensures
            n == self.n_bytes,
    {
        self.n_bytes
    }

    /// The least number of words whose bytes together are at least this many.
    pub fn get_words_rounded_up(self) -> (r: WordSize)
        ensures
            r.n_words == spec_words_rounded_up(self.n_bytes as int),
            r.n_words * 8 >= self.n_bytes,
            r.n_words * 8 < self.n_bytes + 8,
    {
        let whole: usize = self.n_bytes / 8;
        let rest: usize = self.n_bytes % 8;
        if rest == 0 {
            WordSize { n_words: whole }
        } else {
            WordSize { n_words: whole + 1 }
        }
    }
}

} // verus!
