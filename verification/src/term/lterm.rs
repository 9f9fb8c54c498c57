//! Low level term: the layout of the bits of one word that hold a value as
//! compactly as possible.
//!
//! A term is `[ value or pointer ] [ primary tag, 3 bits ]`. A special term is
//! `[ value ] [ special tag, 3 bits ] [ primary tag SPECIAL, 3 bits ]`.
use vstd::prelude::*;
use crate::bits::{lemma_low_bits, lemma_tagged, lemma_signed_tagged, lemma_signed_shift, lemma_highest_bit, lemma_or_cons_tag};
use crate::defs::{Word, SWord, HIGHEST_BIT_CP, MAX_FPREGS, MAX_XREGS};
use crate::fail::{Error, Hopefully};

verus! {

pub const TERM_TAG_BITS: Word = 3;

pub const TERM_TAG_MASK: Word = 7;

/// Number of values that the bits above the primary tag can hold.
pub const TERM_VALUE_RANGE: Word = 0x2000_0000_0000_0000;

/// Least small integer that fits into a term beside its tag: the bits that
/// the tag and the sign leave, all set, and negated.
pub const SMALLEST_SMALL: SWord = -0x0fff_ffff_ffff_ffff;

/// Largest small integer that fits into a term beside its tag: the bits that
/// the tag and the sign leave, all set.
pub const LARGEST_SMALL: SWord = 0x0fff_ffff_ffff_ffff;

/// The primary tag: the three low bits of every term.
#[derive(Clone, Copy, Debug, PartialEq, Eq, Structural, PartialOrd, Ord)]
pub enum TermTag {
    Boxed,
    Header,
    Cons,
    Small,
    Atom,
    LocalPid,
    LocalPort,
    Special,
}

pub const TERMTAG_BOXED: TermTag = TermTag::Boxed;

pub const TERMTAG_HEADER: TermTag = TermTag::Header;

pub const TERMTAG_CONS: TermTag = TermTag::Cons;

// From here and below, values are immediate (fit into a single word)
pub const TERMTAG_SMALL: TermTag = TermTag::Small;

pub const TERMTAG_ATOM: TermTag = TermTag::Atom;

pub const TERMTAG_LOCALPID: TermTag = TermTag::LocalPid;

pub const TERMTAG_LOCALPORT: TermTag = TermTag::LocalPort;

pub const TERMTAG_SPECIAL: TermTag = TermTag::Special;

impl TermTag {
    /// The tag's bits as a number.
    pub open spec fn code(self) -> Word {
        match self {
            TermTag::Boxed => 0,
            TermTag::Header => 1,
            TermTag::Cons => 2,
            TermTag::Small => 3,
            TermTag::Atom => 4,
            TermTag::LocalPid => 5,
            TermTag::LocalPort => 6,
            TermTag::Special => 7,
        }
    }

    /// The tag whose bits are the remainder of `w` by eight.
    pub open spec fn of_word(w: Word) -> TermTag {
        let c = w % 8;
        if c == 0 {
            TermTag::Boxed
        } else if c == 1 {
            TermTag::Header
        } else if c == 2 {
            TermTag::Cons
        } else if c == 3 {
            TermTag::Small
        } else if c == 4 {
            TermTag::Atom
        } else if c == 5 {
            TermTag::LocalPid
        } else if c == 6 {
            TermTag::LocalPort
        } else {
            TermTag::Special
        }
    }

    #[inline]
    pub fn get(self) -> (c: Word)
        ensures
            c == self.code(),
            c < 8,
    {
        match self {
            TermTag::Boxed => 0,
            TermTag::Header => 1,
            TermTag::Cons => 2,
            TermTag::Small => 3,
            TermTag::Atom => 4,
            TermTag::LocalPid => 5,
            TermTag::LocalPort => 6,
            TermTag::Special => 7,
        }
    }

    /// The tag in the three low bits of `w`.
    pub fn from_word(w: Word) -> (t: TermTag)
        ensures
            t == TermTag::of_word(w),
            t.code() == w % 8,
    {
        proof {
            lemma_low_bits(w);
        }
        let c: Word = w & TERM_TAG_MASK;
        if c == 0 {
            TermTag::Boxed
        } else if c == 1 {
            TermTag::Header
        } else if c == 2 {
            TermTag::Cons
        } else if c == 3 {
            TermTag::Small
        } else if c == 4 {
            TermTag::Atom
        } else if c == 5 {
            TermTag::LocalPid
        } else if c == 6 {
            TermTag::LocalPort
        } else {
            TermTag::Special
        }
    }
}

pub const TERM_SPECIAL_TAG_BITS: Word = 3;

pub const TERM_SPECIAL_TAG_MASK: Word = 7;

/// The secondary tag of a special term: the three bits above the primary tag.
#[derive(Clone, Copy, Debug, PartialEq, Eq, Structural)]
pub enum SpecialTag {
    /// Special constants such as the empty list, the empty tuple, the empty
    /// binary.
    Const,
    RegX,
    RegY,
    RegFp,
    /// Decorates opcodes for easier code walking.
    Opcode,
    Unused5,
    Unused6,
    Unused7,
}

pub const SPECIALTAG_CONST: SpecialTag = SpecialTag::Const;

pub const SPECIALTAG_REGX: SpecialTag = SpecialTag::RegX;

pub const SPECIALTAG_REGY: SpecialTag = SpecialTag::RegY;

pub const SPECIALTAG_REGFP: SpecialTag = SpecialTag::RegFp;

pub const SPECIALTAG_OPCODE: SpecialTag = SpecialTag::Opcode;

impl SpecialTag {
    pub open spec fn code(self) -> Word {
        match self {
            SpecialTag::Const => 0,
            SpecialTag::RegX => 1,
            SpecialTag::RegY => 2,
            SpecialTag::RegFp => 3,
            SpecialTag::Opcode => 4,
            SpecialTag::Unused5 => 5,
            SpecialTag::Unused6 => 6,
            SpecialTag::Unused7 => 7,
        }
    }

    /// The special tag whose bits are the remainder of `w` by eight.
    pub open spec fn of_word(w: Word) -> SpecialTag {
        let c = w % 8;
        if c == 0 {
            SpecialTag::Const
        } else if c == 1 {
            SpecialTag::RegX
        } else if c == 2 {
            SpecialTag::RegY
        } else if c == 3 {
            SpecialTag::RegFp
        } else if c == 4 {
            SpecialTag::Opcode
        } else if c == 5 {
            SpecialTag::Unused5
        } else if c == 6 {
            SpecialTag::Unused6
        } else {
            SpecialTag::Unused7
        }
    }

    #[inline]
    pub fn get(self) -> (c: Word)
        ensures
            c == self.code(),
            c < 8,
    {
        match self {
            SpecialTag::Const => 0,
            SpecialTag::RegX => 1,
            SpecialTag::RegY => 2,
            SpecialTag::RegFp => 3,
            SpecialTag::Opcode => 4,
            SpecialTag::Unused5 => 5,
            SpecialTag::Unused6 => 6,
            SpecialTag::Unused7 => 7,
        }
    }

    /// The special tag in the three low bits of `w`.
    pub fn from_word(w: Word) -> (t: SpecialTag)
        ensures
            t == SpecialTag::of_word(w),
            t.code() == w % 8,
    {
        proof {
            lemma_low_bits(w);
        }
        let c: Word = w & TERM_SPECIAL_TAG_MASK;
        if c == 0 {
            SpecialTag::Const
        } else if c == 1 {
            SpecialTag::RegX
        } else if c == 2 {
            SpecialTag::RegY
        } else if c == 3 {
            SpecialTag::RegFp
        } else if c == 4 {
            SpecialTag::Opcode
        } else if c == 5 {
            SpecialTag::Unused5
        } else if c == 6 {
            SpecialTag::Unused6
        } else {
            SpecialTag::Unused7
        }
    }
}

/// The value of a special term tagged `SPECIALTAG_CONST`.
#[derive(Clone, Copy, Debug, PartialEq, Eq, Structural)]
pub struct SpecialConst(pub Word);

pub const SPECIALCONST_NIL: Word = 0;

pub const SPECIALCONST_EMPTYTUPLE: Word = 1;

pub const SPECIALCONST_EMPTYLIST: Word = 2;

pub const SPECIALCONST_EMPTYBINARY: Word = 3;

/// A low-level term is either a pointer to a term in memory or an immediate
/// whose low bits tell its type.
#[derive(Debug, Copy, Clone, Eq, PartialEq, Structural, Hash, PartialOrd, Ord)]
pub struct LTerm {
    /// Contains a pointer or an integer, tag bits and all.
    pub value: Word,
}

/// The word that holds `v` above the tag `t`: the low 61 bits of `v`, then the
/// tag.
pub open spec fn spec_tagged_word(t: TermTag, v: Word) -> Word {
    ((v % TERM_VALUE_RANGE) * 8 + t.code()) as Word
}

/// The word that holds the signed `v` above the tag `t`: `v * 8 + t`, reduced
/// modulo the size of a word.
pub open spec fn spec_signed_tagged_word(t: TermTag, v: SWord) -> Word {
    ((v * 8 + t.code()) % 0x1_0000_0000_0000_0000) as Word
}

/// The word of a special term: the low 58 bits of `val`, the special tag, the
/// primary tag SPECIAL.
pub open spec fn spec_special_word(st: SpecialTag, val: Word) -> Word {
    ((val % 0x0400_0000_0000_0000) * 64 + st.code() * 8 + 7) as Word
}

impl LTerm {
    // ----- what a word means -----
    /// The primary tag of the term.
    pub open spec fn spec_term_tag(self) -> TermTag {
        TermTag::of_word(self.value)
    }

    /// The bits above the primary tag.
    pub open spec fn spec_val_without_tag(self) -> Word {
        self.value / 8
    }

    pub open spec fn spec_is_non_value(self) -> bool {
        self.value == 0
    }

    pub open spec fn spec_is_boxed(self) -> bool {
        self.value % 8 == 0
    }

    pub open spec fn spec_is_cons(self) -> bool {
        self.value % 8 == 2
    }

    pub open spec fn spec_is_small(self) -> bool {
        self.value % 8 == 3
    }

    pub open spec fn spec_is_atom(self) -> bool {
        self.value % 8 == 4
    }

    pub open spec fn spec_is_local_pid(self) -> bool {
        self.value % 8 == 5
    }

    pub open spec fn spec_is_special(self) -> bool {
        self.value % 8 == 7
    }

    /// A boxed term with the highest bit set is a continuation pointer.
    pub open spec fn spec_is_cp(self) -> bool {
        self.value % 8 == 0 && self.value >= HIGHEST_BIT_CP
    }

    pub open spec fn spec_nil() -> LTerm {
        LTerm { value: 135 }
    }

    pub open spec fn spec_empty_tuple() -> LTerm {
        LTerm { value: 71 }
    }

    pub open spec fn spec_empty_binary() -> LTerm {
        LTerm { value: 199 }
    }

    pub open spec fn spec_is_list(self) -> bool {
        self.spec_is_cons() || self == LTerm::spec_nil()
    }

    /// The integer that a small term holds: the signed reading of the word,
    /// divided by eight and rounded down.
    pub open spec fn spec_small_signed(self) -> int {
        if self.value >= HIGHEST_BIT_CP {
            (self.value - 0x1_0000_0000_0000_0000) / 8
        } else {
            (self.value / 8) as int
        }
    }

    pub open spec fn spec_small_fits(val: int) -> bool {
        SMALLEST_SMALL <= val <= LARGEST_SMALL
    }

    /// The special tag of a special term.
    pub open spec fn spec_special_tag(self) -> SpecialTag {
        SpecialTag::of_word((self.value / 8) as Word)
    }

    /// The bits above the two tags of a special term.
    pub open spec fn spec_special_value(self) -> Word {
        self.value / 64
    }

    // ----- raw access -----
    /// Retrieve the raw value of a term as a word, including tag bits and
    /// everything.
    #[inline]
    pub fn raw(self) -> (w: Word)
        ensures
            w == self.value,
    {
        self.value
    }

    /// Any raw word becomes a term, possibly invalid.
    pub fn from_raw(w: Word) -> (t: LTerm)
        ensures
            t.value == w,
    {
        LTerm { value: w }
    }

    /// Raw compare two term values.
    pub fn is_same(a: LTerm, b: LTerm) -> (same: bool)
        ensures
            same == (a.value == b.value),
            same == (a == b),
    {
        a.raw() == b.raw()
    }

    // ----- construction -----
    pub fn make_from_tag_and_value(t: TermTag, v: Word) -> (r: LTerm)
        ensures
            r.value == spec_tagged_word(t, v),
            r.spec_term_tag() == t,
            v < TERM_VALUE_RANGE ==> r.spec_val_without_tag() == v,
    {
        proof {
            lemma_tagged(v, t.code());
        }
        LTerm::from_raw(v << TERM_TAG_BITS | t.get())
    }

    pub fn make_from_tag_and_signed_value(t: TermTag, v: SWord) -> (r: LTerm)
        ensures
            r.value == spec_signed_tagged_word(t, v),
            r.spec_term_tag() == t,
            LTerm::spec_small_fits(v as int) ==> r.spec_small_signed() == v,
    {
        let tc: Word = t.get();
        let raw: SWord = v << TERM_TAG_BITS | (tc as SWord);
        proof {
            lemma_signed_tagged(v, tc as SWord);
        }
        LTerm::from_raw(raw as Word)
    }

    #[inline]
    pub fn make_atom(id: Word) -> (r: LTerm)
        ensures
            r.value == spec_tagged_word(TermTag::Atom, id),
            r.spec_is_atom(),
            id < TERM_VALUE_RANGE ==> r.spec_val_without_tag() == id,
    {
        LTerm::make_from_tag_and_value(TERMTAG_ATOM, id)
    }

    pub fn make_local_pid(pindex: Word) -> (r: LTerm)
        ensures
            r.value == spec_tagged_word(TermTag::LocalPid, pindex),
            r.spec_is_local_pid(),
            pindex < TERM_VALUE_RANGE ==> r.spec_val_without_tag() == pindex,
    {
        LTerm::make_from_tag_and_value(TERMTAG_LOCALPID, pindex)
    }

    /// A continuation pointer: the aligned code address `p` with the highest
    /// bit set.
    #[inline]
    pub fn make_cp(p: Word) -> (r: LTerm)
        requires
            p % 8 == 0,
        ensures
            r.value == (p % HIGHEST_BIT_CP) + HIGHEST_BIT_CP,
            r.spec_is_cp(),
    {
        proof {
            lemma_highest_bit(p);
        }
        let tagged_p: Word = p | HIGHEST_BIT_CP;
        LTerm::from_raw(tagged_p)
    }

    /// A boxed term: the aligned address `p` as it is.
    pub fn make_boxed(p: Word) -> (r: LTerm)
        requires
            p % 8 == 0,
        ensures
            r.value == p,
            r.spec_is_boxed(),
    {
        LTerm { value: p }
    }

    /// Create a term from the address of a cons cell.
    pub fn make_cons(p: Word) -> (r: LTerm)
        requires
            p % 8 == 0,
        ensures
            r.value == p + 2,
            r.spec_is_cons(),
    {
        proof {
            lemma_or_cons_tag(p);
        }
        LTerm { value: p | TERMTAG_CONS.get() }
    }

    pub fn make_special(special_t: SpecialTag, val: Word) -> (r: LTerm)
        ensures
            r.value == spec_special_word(special_t, val),
            r.spec_is_special(),
            r.spec_special_tag() == special_t,
            val < 0x0400_0000_0000_0000 ==> r.spec_special_value() == val,
    {
        let special_v: Word = val << TERM_SPECIAL_TAG_BITS | special_t.get();
        proof {
            lemma_tagged(val, special_t.code());
            lemma_tagged(special_v, 7);
        }
        LTerm::make_from_tag_and_value(TERMTAG_SPECIAL, special_v)
    }

    #[inline]
    pub fn empty_tuple() -> (r: LTerm)
        ensures
            r == LTerm::spec_empty_tuple(),
    {
        LTerm::make_special(SPECIALTAG_CONST, SPECIALCONST_EMPTYTUPLE)
    }

    #[inline]
    pub fn empty_binary() -> (r: LTerm)
        ensures
            r == LTerm::spec_empty_binary(),
    {
        LTerm::make_special(SPECIALTAG_CONST, SPECIALCONST_EMPTYBINARY)
    }

    #[inline]
    pub fn nil() -> (r: LTerm)
        ensures
            r == LTerm::spec_nil(),
    {
        LTerm::make_special(SPECIALTAG_CONST, SPECIALCONST_EMPTYLIST)
    }

    /// Create a NON_VALUE.
    pub fn non_value() -> (r: LTerm)
        ensures
            r.value == 0,
    {
        LTerm { value: 0 }
    }

    /// The reference to the register X `n`.
    pub fn make_xreg(n: Word) -> (r: LTerm)
        requires
            n < MAX_XREGS,
        ensures
            r.value == spec_special_word(SpecialTag::RegX, n),
            r.spec_is_special(),
            r.spec_special_tag() == SpecialTag::RegX,
            r.spec_special_value() == n,
    {
        LTerm::make_special(SPECIALTAG_REGX, n)
    }

    /// The reference to the slot `n` of the frame on top of the stack.
    pub fn make_yreg(n: Word) -> (r: LTerm)
        ensures
            r.value == spec_special_word(SpecialTag::RegY, n),
            r.spec_is_special(),
            r.spec_special_tag() == SpecialTag::RegY,
            n < 0x0400_0000_0000_0000 ==> r.spec_special_value() == n,
    {
        LTerm::make_special(SPECIALTAG_REGY, n)
    }

    /// The reference to the floating point register `n`.
    pub fn make_fpreg(n: Word) -> (r: LTerm)
        requires
            n < MAX_FPREGS,
        ensures
            r.value == spec_special_word(SpecialTag::RegFp, n),
            r.spec_is_special(),
            r.spec_special_tag() == SpecialTag::RegFp,
            r.spec_special_value() == n,
    {
        LTerm::make_special(SPECIALTAG_REGFP, n)
    }

    pub fn make_small_unsigned(val: Word) -> (r: LTerm)
        ensures
            r.value == spec_tagged_word(TermTag::Small, val),
            r.spec_is_small(),
            val < TERM_VALUE_RANGE ==> r.spec_val_without_tag() == val,
    {
        LTerm::make_from_tag_and_value(TERMTAG_SMALL, val)
    }

    pub fn make_small_signed(val: SWord) -> (r: LTerm)
        ensures
            r.value == spec_signed_tagged_word(TermTag::Small, val),
            r.spec_is_small(),
            LTerm::spec_small_fits(val as int) ==> r.spec_small_signed() == val,
    {
        LTerm::make_from_tag_and_signed_value(TERMTAG_SMALL, val)
    }

    // ----- classification -----
    /// Check whether a value is a NON_VALUE.
    #[verifier::when_used_as_spec(spec_is_non_value)]
    pub fn is_non_value(self) -> (b: bool)
        ensures
            b == self.spec_is_non_value(),
    {
        self.value == 0
    }

    /// Check whether a value is NOT a NON_VALUE.
    pub fn is_value(self) -> (b: bool)
        ensures
            b == !self.spec_is_non_value(),
    {
        !self.is_non_value()
    }

    /// Get the tag bits of the term.
    #[inline]
    pub fn get_term_tag(self) -> (t: TermTag)
        ensures
            t == self.spec_term_tag(),
            t.code() == self.value % 8,
    {
        TermTag::from_word(self.raw())
    }

    /// Check whether the tag bits of a value equal the boxed tag.
    #[verifier::when_used_as_spec(spec_is_boxed)]
    pub fn is_boxed(self) -> (b: bool)
        ensures
            b == self.spec_is_boxed(),
    {
        self.get_term_tag() == TERMTAG_BOXED
    }

    pub fn is_immediate(self) -> (b: bool)
        ensures
            b == !self.spec_is_boxed(),
    {
        self.get_term_tag() != TERMTAG_BOXED
    }

    /// Check whether the value is tagged as atom.
    #[verifier::when_used_as_spec(spec_is_atom)]
    pub fn is_atom(self) -> (b: bool)
        ensures
            b == self.spec_is_atom(),
    {
        self.get_term_tag() == TERMTAG_ATOM
    }

    #[verifier::when_used_as_spec(spec_is_local_pid)]
    pub fn is_local_pid(self) -> (b: bool)
        ensures
            b == self.spec_is_local_pid(),
    {
        self.get_term_tag() == TERMTAG_LOCALPID
    }

    /// Return true if the term belongs to the special tag space.
    #[verifier::when_used_as_spec(spec_is_special)]
    pub fn is_internal_immediate(self) -> (b: bool)
        ensures
            b == self.spec_is_special(),
    {
        self.get_term_tag() == TERMTAG_SPECIAL
    }

    /// Check whether the value is a CONS pointer.
    #[verifier::when_used_as_spec(spec_is_cons)]
    pub fn is_cons(self) -> (b: bool)
        ensures
            b == self.spec_is_cons(),
    {
        self.get_term_tag() == TERMTAG_CONS
    }

    #[inline]
    #[verifier::when_used_as_spec(spec_is_list)]
    pub fn is_list(self) -> (b: bool)
        ensures
            b == self.spec_is_list(),
    {
        self.is_cons() || self == LTerm::nil()
    }

    /// Check whether the value is a small integer.
    #[verifier::when_used_as_spec(spec_is_small)]
    pub fn is_small(self) -> (b: bool)
        ensures
            b == self.spec_is_small(),
    {
        self.get_term_tag() == TERMTAG_SMALL
    }

    /// Whether a boxed term is a continuation pointer; no other term is one.
    #[verifier::when_used_as_spec(spec_is_cp)]
    pub fn is_cp(self) -> (b: bool)
        ensures
            b == self.spec_is_cp(),
    {
        proof {
            lemma_highest_bit(self.value);
        }
        self.is_boxed() && self.value & HIGHEST_BIT_CP == HIGHEST_BIT_CP
    }

    #[verifier::when_used_as_spec(spec_small_fits_word)]
    pub fn small_fits(val: SWord) -> (b: bool)
        ensures
            b == LTerm::spec_small_fits(val as int),
    {
        val >= SMALLEST_SMALL && val <= LARGEST_SMALL
    }

    pub open spec fn spec_small_fits_word(val: SWord) -> bool {
        LTerm::spec_small_fits(val as int)
    }

    // ----- projections -----
    /// The address that a boxed term points to.
    pub fn get_box_ptr(self) -> (p: Word)
        requires
            self.spec_is_boxed(),
        ensures
            p == self.value,
            p % 8 == 0,
    {
        self.value
    }

    pub fn get_box_ptr_mut(self) -> (p: Word)
        requires
            self.spec_is_boxed(),
        ensures
            p == self.value,
            p % 8 == 0,
    {
        self.value
    }

    /// The address that a boxed term points to, or an error for any other
    /// term.
    pub fn get_box_ptr_safe(self) -> (r: Hopefully<Word>)
        ensures
            self.spec_is_boxed() ==> r == Ok::<Word, Error>(self.value),
            !self.spec_is_boxed() ==> r == Err::<Word, Error>(Error::TermIsNotABoxed),
    {
        if !self.is_boxed() {
            return Err(Error::TermIsNotABoxed);
        }
        Ok(self.value)
    }

    pub fn get_box_ptr_safe_mut(self) -> (r: Hopefully<Word>)
        ensures
            self.spec_is_boxed() ==> r == Ok::<Word, Error>(self.value),
            !self.spec_is_boxed() ==> r == Err::<Word, Error>(Error::TermIsNotABoxed),
    {
        if !self.is_boxed() {
            return Err(Error::TermIsNotABoxed);
        }
        Ok(self.value)
    }

    /// For non-pointer term types get the encoded integer without tag bits.
    pub fn get_term_val_without_tag(self) -> (v: Word)
        requires
            !self.spec_is_boxed(),
            !self.spec_is_cons(),
        ensures
            v == self.spec_val_without_tag(),
    {
        proof {
            lemma_low_bits(self.value);
        }
        self.value >> TERM_TAG_BITS
    }

    /// For a special-tagged term extract its special tag.
    pub fn get_special_tag(self) -> (t: SpecialTag)
        requires
            self.spec_is_special(),
        ensures
            t == self.spec_special_tag(),
    {
        proof {
            lemma_low_bits(self.value);
        }
        // cut away term tag bits and extract special tag
        SpecialTag::from_word(self.value >> TERM_TAG_BITS)
    }

    /// From a special-tagged term extract its value.
    pub fn get_special_value(self) -> (v: Word)
        requires
            self.spec_is_special(),
        ensures
            v == self.spec_special_value(),
    {
        proof {
            lemma_low_bits(self.value);
        }
        // cut away term tag bits and special tag, extract the remaining value bits
        self.value >> (TERM_TAG_BITS + TERM_SPECIAL_TAG_BITS)
    }

    /// The code address that a continuation pointer holds.
    pub fn get_cp_ptr(self) -> (p: Word)
        requires
            self.spec_is_cp(),
        ensures
            p == self.value - HIGHEST_BIT_CP,
            p % 8 == 0,
    {
        proof {
            lemma_highest_bit(self.value);
        }
        self.value & (HIGHEST_BIT_CP - 1)
    }

    /// The address of the cons cell that the term points to.
    pub fn get_cons_ptr(self) -> (p: Word)
        requires
            self.spec_is_cons(),
        ensures
            p == self.value - 2,
            p % 8 == 0,
    {
        proof {
            lemma_low_bits(self.value);
        }
        self.value & !TERM_TAG_MASK
    }

    pub fn get_cons_ptr_mut(self) -> (p: Word)
        requires
            self.spec_is_cons(),
        ensures
            p == self.value - 2,
            p % 8 == 0,
    {
        proof {
            lemma_low_bits(self.value);
        }
        self.value & !TERM_TAG_MASK
    }

    pub fn get_small_signed(self) -> (v: SWord)
        ensures
            v == self.spec_small_signed(),
    {
        proof {
            lemma_signed_shift(self.value);
        }
        (self.value as SWord) >> TERM_TAG_BITS
    }

    pub fn get_small_unsigned(self) -> (v: Word)
        requires
            !self.spec_is_boxed(),
            !self.spec_is_cons(),
        ensures
            v == self.spec_val_without_tag(),
    {
        self.get_term_val_without_tag()
    }

    /// The index of an atom in the atom table.
    pub fn atom_index(self) -> (i: Word)
        requires
            self.spec_is_atom(),
        ensures
            i == self.spec_val_without_tag(),
    {
        self.get_term_val_without_tag()
    }
}

/// Every small integer between `SMALLEST_SMALL` and `LARGEST_SMALL` comes
/// back from its term as it went in.
pub proof fn lemma_small_round_trip(v: SWord)
    requires
        LTerm::spec_small_fits(v as int),
    ensures
        (LTerm { value: spec_signed_tagged_word(TermTag::Small, v) }).spec_is_small(),
        (LTerm { value: spec_signed_tagged_word(TermTag::Small, v) }).spec_small_signed() == v,
{
}

/// Every value below `TERM_VALUE_RANGE` comes back from a term with any tag
/// as it went in, and the term has that tag.
pub proof fn lemma_tagged_round_trip(t: TermTag, v: Word)
    requires
        v < TERM_VALUE_RANGE,
    ensures
        (LTerm { value: spec_tagged_word(t, v) }).spec_term_tag() == t,
        (LTerm { value: spec_tagged_word(t, v) }).spec_val_without_tag() == v,
{
}

/// A boxed term made of an aligned address gives that address back, is
/// boxed, and is nothing else; it is the non-value only for the address
/// zero.
pub proof fn lemma_boxed_round_trip(p: Word)
    requires
        p % 8 == 0,
    ensures
        ({
            let t = LTerm { value: p };
            &&& t.spec_is_boxed()
            &&& t.value == p
            &&& t.spec_term_tag() == TermTag::Boxed
            &&& !t.spec_is_cons()
            &&& !t.spec_is_list()
            &&& !t.spec_is_small()
            &&& !t.spec_is_atom()
            &&& !t.spec_is_local_pid()
            &&& !t.spec_is_special()
            &&& (t.spec_is_non_value() <==> p == 0)
            &&& (t.spec_is_cp() <==> p >= HIGHEST_BIT_CP)
        }),
{
}

/// A cons term made of an aligned address gives that address back, is a
/// cons and a list, and is nothing else.
pub proof fn lemma_cons_round_trip(p: Word)
    requires
        p % 8 == 0,
    ensures
        ({
            let t = LTerm { value: (p + 2) as Word };
            &&& t.spec_is_cons()
            &&& t.spec_is_list()
            &&& t.value - 2 == p
            &&& !t.spec_is_boxed()
            &&& !t.spec_is_small()
            &&& !t.spec_is_atom()
            &&& !t.spec_is_local_pid()
            &&& !t.spec_is_special()
            &&& !t.spec_is_non_value()
        }),
{
}

/// The empty list, the empty tuple and the empty binary are three different
/// terms. Each is a special constant, is told from the other two by its
/// value, and is neither the non-value nor a pointer; of the three only the
/// empty list is a list.
pub proof fn lemma_special_constants()
    ensures
        LTerm::spec_nil() != LTerm::spec_empty_tuple(),
        LTerm::spec_nil() != LTerm::spec_empty_binary(),
        LTerm::spec_empty_tuple() != LTerm::spec_empty_binary(),
        LTerm::spec_nil().value == spec_special_word(SpecialTag::Const, SPECIALCONST_EMPTYLIST),
        LTerm::spec_empty_tuple().value == spec_special_word(
            SpecialTag::Const,
            SPECIALCONST_EMPTYTUPLE,
        ),
        LTerm::spec_empty_binary().value == spec_special_word(
            SpecialTag::Const,
            SPECIALCONST_EMPTYBINARY,
        ),
        forall|t: LTerm|
            t == LTerm::spec_nil() || t == LTerm::spec_empty_tuple() || t
                == LTerm::spec_empty_binary() ==> {
                &&& #[trigger] t.spec_is_special()
                &&& t.spec_special_tag() == SpecialTag::Const
                &&& !t.spec_is_non_value()
                &&& !t.spec_is_boxed()
                &&& !t.spec_is_cons()
            },
        LTerm::spec_nil().spec_special_value() == SPECIALCONST_EMPTYLIST,
        LTerm::spec_empty_tuple().spec_special_value() == SPECIALCONST_EMPTYTUPLE,
        LTerm::spec_empty_binary().spec_special_value() == SPECIALCONST_EMPTYBINARY,
        LTerm::spec_nil().spec_is_list(),
        !LTerm::spec_empty_tuple().spec_is_list(),
        !LTerm::spec_empty_binary().spec_is_list(),
{
}

} // verus!
