//! The export: a reference to a function by module, function and arity, used
//! as a function value that captures nothing.
//!
//! In the heap an export is its header, the module, function and arity, and
//! the two words of its code location.
use vstd::prelude::*;
use crate::defs::sizes::WordSize;
use crate::defs::Word;
use crate::emulator::export;
use crate::emulator::heap::{spec_word_addr, Heap};
use crate::emulator::mfa::MFArity;
use crate::fail::{Error, RtResult};
use crate::term::boxed::box_header::{
    helper_get_const_from_boxed_term, helper_get_mut_from_boxed_term, lemma_placed_box_arity,
    spec_header_word, BoxHeader, BoxTypeTag, BOXTYPETAG_EXPORT,
};
use crate::term::boxed::closure::{spec_location_kind, spec_location_ptr};
use crate::term::classify::{TermClass, CLASS_FUN};
use crate::term::lterm::LTerm;

verus! {

/// Number of words that an export takes in the heap.
pub const EXPORT_WORDS: usize = 6;

/// The words of the export `exp`.
pub open spec fn spec_export_words(exp: export::Export) -> Seq<Word> {
    seq![
        spec_header_word(BoxTypeTag::Export, (EXPORT_WORDS - 1) as Word),
        exp.mfa.m.value,
        exp.mfa.f.value,
        exp.mfa.arity as Word,
        spec_location_kind(exp.dst),
        spec_location_ptr(exp.dst),
    ]
}

#[derive(Clone, Copy, Debug, PartialEq, Eq, Structural)]
pub struct Export {
    pub header: BoxHeader,
    pub exp: export::Export,
}

impl Export {
    /// An export is of the class of functions.
    pub fn get_class(&self) -> (c: TermClass)
        ensures
            c == TermClass::Fun,
    {
        CLASS_FUN
    }

    pub fn get_type(&self) -> (t: BoxTypeTag)
        ensures
            t == BoxTypeTag::Export,
    {
        BOXTYPETAG_EXPORT
    }

    #[inline]
    pub fn storage_size() -> (n: WordSize)
        ensures
            n.n_words == EXPORT_WORDS,
    {
        WordSize::new(EXPORT_WORDS)
    }

    /// A new export of `mfa`, whose code location is not known yet.
    pub fn new(mfa: &MFArity) -> (e: Export)
        ensures
            e.header.header_word == spec_header_word(
                BoxTypeTag::Export,
                (EXPORT_WORDS - 1) as Word,
            ),
            e.exp == export::Export::new(*mfa),
    {
        let n_words = Export::storage_size();
        Export {
            header: BoxHeader::new(BOXTYPETAG_EXPORT, (n_words.words() - 1) as Word),
            exp: export::Export::new(*mfa),
        }
    }

    /// Places a new export of `mfa` into the heap and returns the boxed term
    /// that points to it. Fails with a full heap, changing nothing, if it
    /// does not fit.
    pub fn create_into(hp: &mut Heap, mfa: &MFArity) -> (r: RtResult<LTerm>)
        requires
            old(hp).wf(),
        ensures
            final(hp).wf(),
            old(hp)@.has_available(EXPORT_WORDS as nat) ==> {
                &&& r == Ok::<LTerm, Error>(LTerm { value: spec_word_addr(old(hp)@.heap_top) })
                &&& final(hp)@ == old(hp)@.place(spec_export_words(export::Export::new(*mfa)))
                &&& final(hp)@.is_box_of_type(r.unwrap(), BoxTypeTag::Export)
            },
            !old(hp)@.has_available(EXPORT_WORDS as nat) ==> r == Err::<LTerm, Error>(
                Error::HeapIsFull,
            ) && final(hp)@ == old(hp)@,
    {
        let this = Export::new(mfa);
        let mut words: Vec<Word> = Vec::new();
        words.push(this.header.header_word);
        words.push(this.exp.mfa.m.raw());
        words.push(this.exp.mfa.f.raw());
        words.push(this.exp.mfa.arity as Word);
        words.push(0);
        words.push(0);
        assert(words@ =~= spec_export_words(export::Export::new(*mfa)));
        proof {
            if old(hp)@.has_available(words@.len()) {
                lemma_placed_box_arity(old(hp)@, words@, BoxTypeTag::Export);
            }
        }
        match hp.place_words(&words) {
            Ok(p) => Ok(LTerm::make_boxed(p)),
            Err(e) => Err(e),
        }
    }

    /// The address of the export that `t` points to; an error if `t` is not
    /// boxed or does not point to an export.
    pub fn const_from_term(hp: &Heap, t: LTerm) -> (r: RtResult<Word>)
        requires
            hp.wf(),
        ensures
            !t.spec_is_boxed() ==> r == Err::<Word, Error>(Error::TermIsNotABoxed),
            t.spec_is_boxed() && !hp@.is_box_of_type(t, BoxTypeTag::Export) ==> r == Err::<
                Word,
                Error,
            >(Error::BoxedIsNotAnExport),
            hp@.is_box_of_type(t, BoxTypeTag::Export) ==> r == Ok::<Word, Error>(t.value),
    {
        helper_get_const_from_boxed_term(hp, t, BOXTYPETAG_EXPORT, Error::BoxedIsNotAnExport)
    }

    /// The address of the export that `t` is known to point to.
    pub fn mut_from_term(hp: &Heap, t: LTerm) -> (r: RtResult<Word>)
        requires
            hp.wf(),
            hp@.is_box_of_type(t, BoxTypeTag::Export),
        ensures
            r == Ok::<Word, Error>(t.value),
    {
        helper_get_mut_from_boxed_term(hp, t, BOXTYPETAG_EXPORT, Error::BoxedIsNotAnExport)
    }
}

} // verus!
