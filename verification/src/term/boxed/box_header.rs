//! The header word: the first word of every boxed object, which tells the
//! object's type and how many words follow.
//!
//! A header is `[ arity ] [ box type, 4 bits ] [ primary tag HEADER, 3 bits ]`.
use vstd::prelude::*;
use crate::bits::{lemma_header_pack, lemma_header_unpack, lemma_low_bits};
use crate::defs::Word;
use crate::emulator::heap::{spec_addr_index, spec_word_addr, Heap, HeapView};
use crate::fail::{Error, Hopefully};
use crate::term::lterm::LTerm;

verus! {

pub const BOXTYPE_TAG_BITS: Word = 4;

pub const BOXTYPE_TAG_MASK: Word = 15;

/// Number of arities that a header can hold.
pub const HEADER_ARITY_RANGE: Word = 0x0200_0000_0000_0000;

/// The kinds of boxed object.
#[derive(Clone, Copy, Debug, PartialEq, Eq, Structural)]
pub enum BoxTypeTag {
    Tuple,
    BigInteger,
    ExternalPid,
    ExternalRef,
    ExternalPort,
    Closure,
    Float,
    Import,
    Export,
    ErlMap,
    Binary,
}

pub const BOXTYPETAG_TUPLE: BoxTypeTag = BoxTypeTag::Tuple;

pub const BOXTYPETAG_BIGINTEGER: BoxTypeTag = BoxTypeTag::BigInteger;

pub const BOXTYPETAG_EXTERNALPID: BoxTypeTag = BoxTypeTag::ExternalPid;

pub const BOXTYPETAG_EXTERNALREF: BoxTypeTag = BoxTypeTag::ExternalRef;

pub const BOXTYPETAG_EXTERNALPORT: BoxTypeTag = BoxTypeTag::ExternalPort;

pub const BOXTYPETAG_CLOSURE: BoxTypeTag = BoxTypeTag::Closure;

pub const BOXTYPETAG_FLOAT: BoxTypeTag = BoxTypeTag::Float;

pub const BOXTYPETAG_IMPORT: BoxTypeTag = BoxTypeTag::Import;

pub const BOXTYPETAG_EXPORT: BoxTypeTag = BoxTypeTag::Export;

pub const BOXTYPETAG_MAP: BoxTypeTag = BoxTypeTag::ErlMap;

pub const BOXTYPETAG_BINARY: BoxTypeTag = BoxTypeTag::Binary;

impl BoxTypeTag {
    /// The type's four bits as a number.
    pub open spec fn code(self) -> Word {
        match self {
            BoxTypeTag::Tuple => 0,
            BoxTypeTag::BigInteger => 1,
            BoxTypeTag::ExternalPid => 2,
            BoxTypeTag::ExternalRef => 3,
            BoxTypeTag::ExternalPort => 4,
            BoxTypeTag::Closure => 5,
            BoxTypeTag::Float => 6,
            BoxTypeTag::Import => 7,
            BoxTypeTag::Export => 8,
            BoxTypeTag::ErlMap => 9,
            BoxTypeTag::Binary => 10,
        }
    }

    /// The type with the code `c`, if there is one.
    pub open spec fn of_code(c: Word) -> Option<BoxTypeTag> {
        if c == 0 {
            Some(BoxTypeTag::Tuple)
        } else if c == 1 {
            Some(BoxTypeTag::BigInteger)
        } else if c == 2 {
            Some(BoxTypeTag::ExternalPid)
        } else if c == 3 {
            Some(BoxTypeTag::ExternalRef)
        } else if c == 4 {
            Some(BoxTypeTag::ExternalPort)
        } else if c == 5 {
            Some(BoxTypeTag::Closure)
        } else if c == 6 {
            Some(BoxTypeTag::Float)
        } else if c == 7 {
            Some(BoxTypeTag::Import)
        } else if c == 8 {
            Some(BoxTypeTag::Export)
        } else if c == 9 {
            Some(BoxTypeTag::ErlMap)
        } else if c == 10 {
            Some(BoxTypeTag::Binary)
        } else {
            None
        }
    }

    pub fn get(self) -> (c: Word)
        ensures
            c == self.code(),
            c < 16,
            BoxTypeTag::of_code(c) == Some(self),
    {
        match self {
            BoxTypeTag::Tuple => 0,
            BoxTypeTag::BigInteger => 1,
            BoxTypeTag::ExternalPid => 2,
            BoxTypeTag::ExternalRef => 3,
            BoxTypeTag::ExternalPort => 4,
            BoxTypeTag::Closure => 5,
            BoxTypeTag::Float => 6,
            BoxTypeTag::Import => 7,
            BoxTypeTag::Export => 8,
            BoxTypeTag::ErlMap => 9,
            BoxTypeTag::Binary => 10,
        }
    }

    pub fn from_code(c: Word) -> (r: Option<BoxTypeTag>)
        ensures
            r == BoxTypeTag::of_code(c),
    {
        if c == 0 {
            Some(BoxTypeTag::Tuple)
        } else if c == 1 {
            Some(BoxTypeTag::BigInteger)
        } else if c == 2 {
            Some(BoxTypeTag::ExternalPid)
        } else if c == 3 {
            Some(BoxTypeTag::ExternalRef)
        } else if c == 4 {
            Some(BoxTypeTag::ExternalPort)
        } else if c == 5 {
            Some(BoxTypeTag::Closure)
        } else if c == 6 {
            Some(BoxTypeTag::Float)
        } else if c == 7 {
            Some(BoxTypeTag::Import)
        } else if c == 8 {
            Some(BoxTypeTag::Export)
        } else if c == 9 {
            Some(BoxTypeTag::ErlMap)
        } else if c == 10 {
            Some(BoxTypeTag::Binary)
        } else {
            None
        }
    }
}

/// The header word for an object of type `t` that is followed by `arity`
/// words.
pub open spec fn spec_header_word(t: BoxTypeTag, arity: Word) -> Word {
    (((arity % HEADER_ARITY_RANGE) * 16 + t.code()) * 8 + 1) as Word
}

/// The arity that a header word holds.
pub open spec fn spec_headerword_arity(w: Word) -> Word {
    w / 128
}

/// The box type that a header word holds, if its code is one.
pub open spec fn spec_headerword_boxtype(w: Word) -> Option<BoxTypeTag> {
    BoxTypeTag::of_code(((w / 8) % 16) as Word)
}

/// Whether the word carries the primary tag of a header.
pub open spec fn spec_is_headerword(w: Word) -> bool {
    w % 8 == 1
}

pub fn headerword_to_arity(w: Word) -> (a: Word)
    ensures
        a == spec_headerword_arity(w),
{
    proof {
        lemma_header_unpack(w);
    }
    w >> 7
}

pub fn headerword_to_boxtype(w: Word) -> (t: Option<BoxTypeTag>)
    ensures
        t == spec_headerword_boxtype(w),
{
    proof {
        lemma_header_unpack(w);
    }
    BoxTypeTag::from_code((w >> 3) & BOXTYPE_TAG_MASK)
}

/// The first word of a boxed object.
#[derive(Clone, Copy, Debug, PartialEq, Eq, Structural)]
pub struct BoxHeader {
    pub header_word: Word,
}

impl BoxHeader {
    pub fn new(t: BoxTypeTag, arity: Word) -> (h: BoxHeader)
        ensures
            h.header_word == spec_header_word(t, arity),
            spec_is_headerword(h.header_word),
            spec_headerword_boxtype(h.header_word) == Some(t),
            arity < HEADER_ARITY_RANGE ==> spec_headerword_arity(h.header_word) == arity,
    {
        let tc: Word = t.get();
        proof {
            lemma_header_pack(arity, tc);
        }
        let mut header_word: Word = arity;
        header_word = header_word << 4;
        header_word = header_word | tc;
        header_word = header_word << 3;
        header_word = header_word | 1;
        BoxHeader { header_word }
    }

    /// A header takes one word.
    pub fn storage_size() -> (n: usize)
        ensures
            n == 1,
    {
        1
    }

    pub fn get_tag(self) -> (t: Option<BoxTypeTag>)
        ensures
            t == spec_headerword_boxtype(self.header_word),
    {
        headerword_to_boxtype(self.header_word)
    }

    pub fn get_arity(self) -> (a: Word)
        ensures
            a == spec_headerword_arity(self.header_word),
    {
        headerword_to_arity(self.header_word)
    }
}

impl HeapView {
    /// Whether `t` points to a boxed object that lies wholly in the first
    /// `bound` words of the heap region: a header word followed by as many
    /// words as its arity says.
    pub open spec fn is_box_below(self, t: LTerm, bound: nat) -> bool {
        &&& bound <= self.heap_top <= self.data.len()
        &&& t.spec_is_boxed()
        &&& self.is_heap_addr(t.value)
        &&& spec_is_headerword(self.data[spec_addr_index(t.value) as int])
        &&& spec_addr_index(t.value) + 1 + spec_headerword_arity(
            self.data[spec_addr_index(t.value) as int],
        ) <= bound
    }

    /// Whether `t` points to a boxed object in the heap region.
    pub open spec fn is_box(self, t: LTerm) -> bool {
        self.is_box_below(t, self.heap_top)
    }

    /// The header word of the object that `t` points to.
    pub open spec fn box_header(self, t: LTerm) -> Word {
        self.data[spec_addr_index(t.value) as int]
    }

    /// Whether `t` points to a boxed object of type `tag`.
    pub open spec fn is_box_of_type(self, t: LTerm, tag: BoxTypeTag) -> bool {
        self.is_box(t) && spec_headerword_boxtype(self.box_header(t)) == Some(tag)
    }
}

impl Heap {
    /// The index and header of the boxed object that `t` points to, if it
    /// points to one that lies wholly in the first `bound` words.
    pub fn find_box(&self, t: LTerm, bound: usize) -> (r: Option<(usize, BoxHeader)>)
        requires
            self.wf(),
            bound <= self@.heap_top,
        ensures
            r.is_some() == self@.is_box_below(t, bound as nat),
            r.is_some() ==> r.unwrap().0 == spec_addr_index(t.value) && r.unwrap().1.header_word
                == self@.box_header(t) && r.unwrap().0 + 1 + spec_headerword_arity(
                r.unwrap().1.header_word,
            ) <= bound,
    {
        if !t.is_boxed() {
            return None;
        }
        match self.ptr_to_index(t.raw()) {
            None => None,
            Some(idx) => {
                let w: Word = self.get_word(idx);
                proof {
                    lemma_low_bits(w);
                }
                if w & 7 != 1 {
                    return None;
                }
                let arity: Word = headerword_to_arity(w);
                if idx >= bound || arity > (bound - idx - 1) as Word {
                    return None;
                }
                Some((idx, BoxHeader { header_word: w }))
            },
        }
    }
}

impl LTerm {
    /// Whether the term points to a boxed object of type `t` in `hp`.
    #[inline]
    pub fn is_boxed_of_type(self, hp: &Heap, t: BoxTypeTag) -> (b: bool)
        requires
            hp.wf(),
        ensures
            b == hp@.is_box_of_type(self, t),
    {
        match hp.find_box(self, hp.get_heap_top()) {
            None => false,
            Some(found) => found.1.get_tag() == Some(t),
        }
    }

    pub fn is_binary(self, hp: &Heap) -> (b: bool)
        requires
            hp.wf(),
        ensures
            b == hp@.is_box_of_type(self, BoxTypeTag::Binary),
    {
        self.is_boxed_of_type(hp, BOXTYPETAG_BINARY)
    }

    /// Check whether a term is boxed and points to a word of memory tagged as
    /// external pid.
    pub fn is_external_pid(self, hp: &Heap) -> (b: bool)
        requires
            hp.wf(),
        ensures
            b == hp@.is_box_of_type(self, BoxTypeTag::ExternalPid),
    {
        self.is_boxed_of_type(hp, BOXTYPETAG_EXTERNALPID)
    }

    pub fn is_tuple(self, hp: &Heap) -> (b: bool)
        requires
            hp.wf(),
        ensures
            b == hp@.is_box_of_type(self, BoxTypeTag::Tuple),
    {
        self.is_boxed_of_type(hp, BOXTYPETAG_TUPLE)
    }

    /// Check whether a term is boxed and points to a word of memory tagged as
    /// big integer.
    pub fn is_big_int(self, hp: &Heap) -> (b: bool)
        requires
            hp.wf(),
        ensures
            b == hp@.is_box_of_type(self, BoxTypeTag::BigInteger),
    {
        self.is_boxed_of_type(hp, BOXTYPETAG_BIGINTEGER)
    }

    /// Check whether a term is boxed and points to a word of memory tagged as
    /// float.
    pub fn is_float(self, hp: &Heap) -> (b: bool)
        requires
            hp.wf(),
        ensures
            b == hp@.is_box_of_type(self, BoxTypeTag::Float),
    {
        self.is_boxed_of_type(hp, BOXTYPETAG_FLOAT)
    }
}

/// The address of the boxed object of type `box_type` that `t` points to.
/// A term that is not boxed is an error of its own; for a boxed term that
/// points to anything else, the error is `err`.
pub fn helper_get_const_from_boxed_term(
    hp: &Heap,
    t: LTerm,
    box_type: BoxTypeTag,
    err: Error,
) -> (r: Hopefully<Word>)
    requires
        hp.wf(),
    ensures
        !t.spec_is_boxed() ==> r == Err::<Word, Error>(Error::TermIsNotABoxed),
        t.spec_is_boxed() && !hp@.is_box_of_type(t, box_type) ==> r == Err::<Word, Error>(err),
        hp@.is_box_of_type(t, box_type) ==> r == Ok::<Word, Error>(t.value),
{
    if !t.is_boxed() {
        return Err(Error::TermIsNotABoxed);
    }
    let cptr: Word = t.get_box_ptr();
    if !t.is_boxed_of_type(hp, box_type) {
        return Err(err);
    }
    Ok(cptr)
}

/// The address of the boxed object of type `box_type` that `t` is known to
/// point to.
pub fn helper_get_mut_from_boxed_term(
    hp: &Heap,
    t: LTerm,
    box_type: BoxTypeTag,
    err: Error,
) -> (r: Hopefully<Word>)
    requires
        hp.wf(),
        hp@.is_box_of_type(t, box_type),
    ensures
        r == Ok::<Word, Error>(t.value),
{
    let cptr: Word = t.get_box_ptr_mut();
    Ok(cptr)
}

/// A boxed object has as many words after its header as the header says:
/// when an object whose header carries the number of the words that follow it
/// is placed into a heap, it is found there under its type, the arity read
/// back from the heap is the number of words between the header and the new
/// heap top, where the next object will begin, and the heap still lies below
/// the stack.
pub proof fn lemma_placed_box_arity(hv: HeapView, words: Seq<Word>, tag: BoxTypeTag)
    requires
        hv.wf(),
        words.len() >= 1,
        hv.has_available(words.len()),
        words[0] == spec_header_word(tag, (words.len() - 1) as Word),
    ensures
        hv.place(words).wf(),
        hv.place(words).is_box_of_type(LTerm { value: spec_word_addr(hv.heap_top) }, tag),
        spec_headerword_arity(hv.place(words).data[hv.heap_top as int]) == hv.place(
            words,
        ).heap_top - hv.heap_top - 1,
{
    let a = (words.len() - 1) as Word;
    let w = spec_header_word(tag, a);
    assert(hv.place(words).data[hv.heap_top as int] == w);
    assert(a < HEADER_ARITY_RANGE);
    assert(w / 128 == a);
    assert((w / 8) % 16 == tag.code());
    assert(spec_addr_index(spec_word_addr(hv.heap_top)) == hv.heap_top);
}

} // verus!
