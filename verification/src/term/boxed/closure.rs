//! The closure: a function with the values that it captured when it was made.
//!
//! In the heap a closure is its header, the module, function and arity, the
//! two words of its code location, the number of frozen values, and then the
//! frozen values.
use vstd::prelude::*;
use crate::defs::Word;
use crate::emulator::function::{CallableLocation, FunEntry};
use crate::emulator::heap::{spec_addr_index, spec_word_addr, Heap, HeapView, MAX_HEAP_WORDS};
use crate::emulator::mfa::MFArity;
use crate::fail::{Error, RtResult};
use crate::term::boxed::box_header::{
    helper_get_const_from_boxed_term, helper_get_mut_from_boxed_term, lemma_placed_box_arity,
    spec_header_word, BoxHeader, BoxTypeTag, BOXTYPETAG_CLOSURE,
};
use crate::term::lterm::LTerm;

verus! {

/// Number of words of a closure before its frozen values.
pub const CLOSURE_FIXED_WORDS: usize = 7;

/// The first word of the two that hold a code location: zero when the
/// location has to be looked up, one when it is known.
pub open spec fn spec_location_kind(dst: CallableLocation) -> Word {
    match dst {
        CallableLocation::NeedUpdate => 0,
        CallableLocation::Code(_) => 1,
    }
}

/// The second word of the two that hold a code location: the address, if it
/// is known.
pub open spec fn spec_location_ptr(dst: CallableLocation) -> Word {
    match dst {
        CallableLocation::NeedUpdate => 0,
        CallableLocation::Code(p) => p.ptr,
    }
}

/// The words of a new closure of `mfa` with the frozen values `frozen`.
pub open spec fn spec_closure_words(mfa: MFArity, frozen: Seq<LTerm>) -> Seq<Word> {
    seq![
        spec_header_word(BoxTypeTag::Closure, (CLOSURE_FIXED_WORDS - 1 + frozen.len()) as Word),
        mfa.m.value,
        mfa.f.value,
        mfa.arity as Word,
        0,
        0,
        frozen.len() as Word,
    ] + Seq::new(frozen.len(), |i: int| frozen[i].value)
}

/// The fixed fields of a closure.
#[derive(Clone, Copy, Debug, PartialEq, Eq, Structural)]
pub struct Closure {
    pub header: BoxHeader,
    pub mfa: MFArity,
    pub dst: CallableLocation,
    /// Number of the frozen values, which follow the fixed fields in memory.
    pub nfree: usize,
}

impl Closure {
    /// Number of words that a closure with `nfree` frozen values takes.
    #[inline]
    pub fn storage_size(nfree: usize) -> (n: usize)
        requires
            nfree <= MAX_HEAP_WORDS,
        ensures
            n == CLOSURE_FIXED_WORDS + nfree,
    {
        CLOSURE_FIXED_WORDS + nfree
    }

    /// The fixed fields of a new closure, whose code location is not known
    /// yet.
    pub fn new(mfa: MFArity, nfree: usize) -> (c: Closure)
        requires
            nfree <= MAX_HEAP_WORDS,
        ensures
            c.header.header_word == spec_header_word(
                BoxTypeTag::Closure,
                (CLOSURE_FIXED_WORDS - 1 + nfree) as Word,
            ),
            c.mfa == mfa,
            c.dst == CallableLocation::NeedUpdate,
            c.nfree == nfree,
    {
        let arity: usize = Closure::storage_size(nfree) - 1;
        Closure {
            header: BoxHeader::new(BOXTYPETAG_CLOSURE, arity as Word),
            mfa,
            dst: CallableLocation::NeedUpdate,
            nfree,
        }
    }

    /// Places a new closure of the function `fe` with the frozen values
    /// `frozen` into the heap and returns the boxed term that points to it.
    /// Fails with a full heap, changing nothing, if the closure does not fit.
    pub fn create_into(hp: &mut Heap, fe: &FunEntry, frozen: &[LTerm]) -> (r: RtResult<LTerm>)
        requires
            old(hp).wf(),
            frozen@.len() == fe.nfree,
        ensures
            final(hp).wf(),
            old(hp)@.has_available((CLOSURE_FIXED_WORDS + frozen@.len()) as nat) ==> {
                &&& r == Ok::<LTerm, Error>(LTerm { value: spec_word_addr(old(hp)@.heap_top) })
                &&& final(hp)@ == old(hp)@.place(spec_closure_words(fe.mfa, frozen@))
                &&& final(hp)@.is_box_of_type(r.unwrap(), BoxTypeTag::Closure)
                &&& forall|i: nat|
                    i < frozen@.len() ==> #[trigger] final(hp)@.closure_frozen(r.unwrap(), i)
                        == frozen@[i as int]
            },
            !old(hp)@.has_available((CLOSURE_FIXED_WORDS + frozen@.len()) as nat) ==> r == Err::<
                LTerm,
                Error,
            >(Error::HeapIsFull) && final(hp)@ == old(hp)@,
    {
        if fe.nfree > MAX_HEAP_WORDS {
            return Err(Error::HeapIsFull);
        }
        let this = Closure::new(fe.mfa, fe.nfree);
        let mut words: Vec<Word> = Vec::new();
        words.push(this.header.header_word);
        words.push(this.mfa.m.raw());
        words.push(this.mfa.f.raw());
        words.push(this.mfa.arity as Word);
        words.push(0);
        words.push(0);
        words.push(this.nfree as Word);
        let ghost fixed = words@;
        let mut i: usize = 0;
        while i < frozen.len()
            invariant
                i <= frozen@.len(),
                words@ == fixed + Seq::new(i as nat, |k: int| frozen@[k].value),
            decreases frozen@.len() - i,
        {
            words.push(frozen[i].raw());
            assert(words@ =~= fixed + Seq::new((i + 1) as nat, |k: int| frozen@[k].value));
            i = i + 1;
        }
        assert(words@ =~= spec_closure_words(fe.mfa, frozen@));
        proof {
            if old(hp)@.has_available(words@.len()) {
                lemma_placed_box_arity(old(hp)@, words@, BoxTypeTag::Closure);
            }
        }
        match hp.place_words(&words) {
            Ok(p) => {
                let t = LTerm::make_boxed(p);
                assert forall|i: nat| i < frozen@.len() implies #[trigger] hp@.closure_frozen(t, i)
                    == frozen@[i as int] by {
                    assert(spec_addr_index(p) == old(hp)@.heap_top);
                    assert(words@[CLOSURE_FIXED_WORDS as int + i] == frozen@[i as int].value);
                }
                Ok(t)
            },
            Err(e) => Err(e),
        }
    }

    /// The address of the closure that `t` points to; an error if `t` is not
    /// boxed or does not point to a closure.
    pub fn const_from_term(hp: &Heap, t: LTerm) -> (r: RtResult<Word>)
        requires
            hp.wf(),
        ensures
            !t.spec_is_boxed() ==> r == Err::<Word, Error>(Error::TermIsNotABoxed),
            t.spec_is_boxed() && !hp@.is_box_of_type(t, BoxTypeTag::Closure) ==> r == Err::<
                Word,
                Error,
            >(Error::BoxedIsNotAClosure),
            hp@.is_box_of_type(t, BoxTypeTag::Closure) ==> r == Ok::<Word, Error>(t.value),
    {
        helper_get_const_from_boxed_term(hp, t, BOXTYPETAG_CLOSURE, Error::BoxedIsNotAClosure)
    }

    /// The address of the closure that `t` is known to point to.
    pub fn mut_from_term(hp: &Heap, t: LTerm) -> (r: RtResult<Word>)
        requires
            hp.wf(),
            hp@.is_box_of_type(t, BoxTypeTag::Closure),
        ensures
            r == Ok::<Word, Error>(t.value),
    {
        helper_get_mut_from_boxed_term(hp, t, BOXTYPETAG_CLOSURE, Error::BoxedIsNotAClosure)
    }
}

impl HeapView {
    /// The frozen value `i` of the closure that `t` points to.
    pub open spec fn closure_frozen(self, t: LTerm, i: nat) -> LTerm {
        self.term_at(spec_addr_index(t.value) + CLOSURE_FIXED_WORDS as nat + i)
    }
}

} // verus!
