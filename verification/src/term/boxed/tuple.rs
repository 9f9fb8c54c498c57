//! The tuple: a header whose arity is the number of elements, and then the
//! elements.
use vstd::prelude::*;
use crate::defs::Word;
use crate::emulator::heap::{spec_addr_index, spec_word_addr, Heap, HeapView, MAX_HEAP_WORDS};
use crate::fail::{Error, RtResult};
use crate::term::boxed::box_header::{
    lemma_placed_box_arity, spec_header_word, spec_headerword_arity, BoxHeader, BoxTypeTag,
    BOXTYPETAG_TUPLE,
};
use crate::term::lterm::LTerm;

verus! {

/// A tuple in a heap: where it begins and how many elements it has.
#[derive(Clone, Copy, Debug, PartialEq, Eq, Structural)]
pub struct Tuple {
    /// Index of the header word.
    pub index: usize,
    /// Number of elements.
    pub arity: usize,
}

impl HeapView {
    /// The number of elements of the tuple that `t` points to.
    pub open spec fn tuple_arity(self, t: LTerm) -> nat {
        spec_headerword_arity(self.box_header(t)) as nat
    }

    /// The element `i`, counted from zero, of the tuple that `t` points to.
    pub open spec fn tuple_element(self, t: LTerm, i: nat) -> LTerm {
        LTerm { value: self.data[spec_addr_index(t.value) as int + 1 + i] }
    }
}

/// The words of a tuple with the elements `elements`.
pub open spec fn spec_tuple_words(elements: Seq<LTerm>) -> Seq<Word> {
    seq![spec_header_word(BoxTypeTag::Tuple, elements.len() as Word)] + Seq::new(
        elements.len(),
        |i: int| elements[i].value,
    )
}

impl Tuple {
    /// Places a new tuple with the given elements into the heap and returns
    /// the boxed term that points to it. Fails with a full heap, changing
    /// nothing, if the tuple does not fit.
    pub fn create_into(hp: &mut Heap, elements: &[LTerm]) -> (r: RtResult<LTerm>)
        requires
            old(hp).wf(),
        ensures
            final(hp).wf(),
            old(hp)@.has_available(1 + elements@.len()) ==> {
                &&& r == Ok::<LTerm, Error>(LTerm { value: spec_word_addr(old(hp)@.heap_top) })
                &&& final(hp)@ == old(hp)@.place(spec_tuple_words(elements@))
                &&& final(hp)@.is_box_of_type(r.unwrap(), BoxTypeTag::Tuple)
                &&& final(hp)@.tuple_arity(r.unwrap()) == elements@.len()
                &&& forall|i: nat|
                    i < elements@.len() ==> #[trigger] final(hp)@.tuple_element(r.unwrap(), i)
                        == elements@[i as int]
            },
            !old(hp)@.has_available(1 + elements@.len()) ==> r == Err::<LTerm, Error>(
                Error::HeapIsFull,
            ) && final(hp)@ == old(hp)@,
    {
        if elements.len() > MAX_HEAP_WORDS {
            return Err(Error::HeapIsFull);
        }
        let header = BoxHeader::new(BOXTYPETAG_TUPLE, elements.len() as Word);
        let mut words: Vec<Word> = Vec::new();
        words.push(header.header_word);
        let ghost fixed = words@;
        let mut i: usize = 0;
        while i < elements.len()
            invariant
                i <= elements@.len(),
                words@ == fixed + Seq::new(i as nat, |k: int| elements@[k].value),
            decreases elements@.len() - i,
        {
            words.push(elements[i].raw());
            assert(words@ =~= fixed + Seq::new((i + 1) as nat, |k: int| elements@[k].value));
            i = i + 1;
        }
        assert(words@ =~= spec_tuple_words(elements@));
        proof {
            if old(hp)@.has_available(words@.len()) {
                lemma_placed_box_arity(old(hp)@, words@, BoxTypeTag::Tuple);
            }
        }
        match hp.place_words(&words) {
            Ok(p) => {
                let t = LTerm::make_boxed(p);
                assert(spec_addr_index(p) == old(hp)@.heap_top);
                assert(hp@.box_header(t) == words@[0]);
                assert forall|i: nat| i < elements@.len() implies #[trigger] hp@.tuple_element(t, i)
                    == elements@[i as int] by {
                    assert(words@[1 + i as int] == elements@[i as int].value);
                }
                Ok(t)
            },
            Err(e) => Err(e),
        }
    }

    /// The tuple that `t` points to; an error if `t` is not boxed or what it
    /// points to is not a tuple.
    pub fn from_term(hp: &Heap, t: LTerm) -> (r: RtResult<Tuple>)
        requires
            hp.wf(),
        ensures
            !t.spec_is_boxed() ==> r == Err::<Tuple, Error>(Error::TermIsNotABoxed),
            t.spec_is_boxed() && !hp@.is_box_of_type(t, BoxTypeTag::Tuple) ==> r == Err::<
                Tuple,
                Error,
            >(Error::BoxedIsNotATuple),
            hp@.is_box_of_type(t, BoxTypeTag::Tuple) ==> r == Ok::<Tuple, Error>(
                Tuple {
                    index: spec_addr_index(t.value) as usize,
                    arity: hp@.tuple_arity(t) as usize,
                },
            ),
    {
        if !t.is_boxed() {
            return Err(Error::TermIsNotABoxed);
        }
        match hp.find_box(t, hp.get_heap_top()) {
            None => Err(Error::BoxedIsNotATuple),
            Some(found) => {
                if found.1.get_tag() == Some(BOXTYPETAG_TUPLE) {
                    Ok(Tuple { index: found.0, arity: found.1.get_arity() as usize })
                } else {
                    Err(Error::BoxedIsNotATuple)
                }
            },
        }
    }

    pub fn get_arity(&self) -> (n: usize)
        ensures
            n == self.arity,
    {
        self.arity
    }

    /// The element `i`, counted from zero.
    pub fn get_element_base0(&self, hp: &Heap, i: usize) -> (e: LTerm)
        requires
            hp.wf(),
            i < self.arity,
            self.index + 1 + self.arity <= hp@.heap_top,
        ensures
            e.value == hp@.data[self.index + 1 + i],
    {
        hp.get_term(self.index + 1 + i)
    }
}

} // verus!
