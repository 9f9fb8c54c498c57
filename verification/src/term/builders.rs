//! Building the terms that the runtime itself makes.
use vstd::prelude::*;
use vstd::string::StrSliceExecFns;
use crate::defs::Word;
use crate::emulator::gen_atoms::{atom_badfun, spec_badfun};
use crate::emulator::heap::{spec_word_addr, Heap, HeapView, MAX_HEAP_WORDS};
use crate::fail::{Error, RtResult};
use crate::term::boxed::box_header::BoxTypeTag;
use crate::term::boxed::tuple::{spec_tuple_words, Tuple};
use crate::term::lterm::{spec_tagged_word, LTerm, TermTag};

verus! {

/// A heap after the list of `elements` was built in it, and the term of that
/// list. The cells are placed from the last element to the first, so that
/// each tail lies below the cell that points to it; the empty list takes no
/// cell.
pub open spec fn spec_place_list(hv: HeapView, elements: Seq<LTerm>) -> (HeapView, LTerm)
    decreases elements.len(),
{
    if elements.len() == 0 {
        (hv, LTerm::spec_nil())
    } else {
        let rest = spec_place_list(hv, elements.drop_first());
        (
            rest.0.place(seq![elements[0].value, rest.1.value]),
            LTerm { value: (spec_word_addr(rest.0.heap_top) + 2) as Word },
        )
    }
}

/// The small integers that stand for the characters `chars`.
pub open spec fn spec_char_terms(chars: Seq<char>) -> Seq<LTerm> {
    Seq::new(
        chars.len(),
        |i: int| LTerm { value: spec_tagged_word(TermTag::Small, chars[i] as Word) },
    )
}

/// Building a list takes two words for each element and leaves the stack
/// alone.
pub proof fn lemma_place_list_tops(hv: HeapView, elements: Seq<LTerm>)
    ensures
        spec_place_list(hv, elements).0.heap_top == hv.heap_top + 2 * elements.len(),
        spec_place_list(hv, elements).0.stack_top == hv.stack_top,
        spec_place_list(hv, elements).0.data.len() == hv.data.len(),
    decreases elements.len(),
{
    if elements.len() > 0 {
        lemma_place_list_tops(hv, elements.drop_first());
    }
}

/// Builds the list of `elements` in the heap and returns its term. Fails
/// with a full heap, changing nothing, if two words for each element are not
/// free.
pub fn make_list(hp: &mut Heap, elements: &Vec<LTerm>) -> (r: RtResult<LTerm>)
    requires
        old(hp).wf(),
    ensures
        final(hp).wf(),
        old(hp)@.has_available(2 * elements@.len()) ==> r == Ok::<LTerm, Error>(
            spec_place_list(old(hp)@, elements@).1,
        ) && final(hp)@ == spec_place_list(old(hp)@, elements@).0,
        !old(hp)@.has_available(2 * elements@.len()) ==> r == Err::<LTerm, Error>(
            Error::HeapIsFull,
        ) && final(hp)@ == old(hp)@,
{
    let n: usize = elements.len();
    if n > MAX_HEAP_WORDS || !hp.heap_has_available(2 * n) {
        return Err(Error::HeapIsFull);
    }
    let mut tail: LTerm = LTerm::nil();
    let mut i: usize = n;
    assert(elements@.subrange(n as int, n as int) =~= Seq::<LTerm>::empty());
    while i > 0
        invariant
            i <= n,
            n == elements@.len(),
            hp.wf(),
            old(hp)@.has_available(2 * n as nat),
            (hp@, tail) == spec_place_list(old(hp)@, elements@.subrange(i as int, n as int)),
        decreases i,
    {
        proof {
            lemma_place_list_tops(old(hp)@, elements@.subrange(i as int, n as int));
            assert(elements@.subrange(i - 1, n as int).drop_first() =~= elements@.subrange(
                i as int,
                n as int,
            ));
        }
        i = i - 1;
        let mut cell: Vec<Word> = Vec::new();
        cell.push(elements[i].raw());
        cell.push(tail.raw());
        assert(cell@ =~= seq![elements@[i as int].value, tail.value]);
        match hp.place_words(&cell) {
            Ok(p) => {
                tail = LTerm::make_cons(p);
            },
            Err(_) => {
                assert(false);
            },
        }
    }
    assert(elements@.subrange(0, n as int) =~= elements@);
    Ok(tail)
}

/// Builds in the heap the list of the characters of `s`, each a small
/// integer, and returns its term. Fails with a full heap, changing nothing,
/// if two words for each character are not free.
pub fn rust_str_to_list(s: &String, hp: &mut Heap) -> (r: RtResult<LTerm>)
    requires
        old(hp).wf(),
    ensures
        final(hp).wf(),
        old(hp)@.has_available(2 * s@.len()) ==> r == Ok::<LTerm, Error>(
            spec_place_list(old(hp)@, spec_char_terms(s@)).1,
        ) && final(hp)@ == spec_place_list(old(hp)@, spec_char_terms(s@)).0,
        !old(hp)@.has_available(2 * s@.len()) ==> r == Err::<LTerm, Error>(Error::HeapIsFull)
            && final(hp)@ == old(hp)@,
{
    let text: &str = s.as_str();
    let n: usize = text.unicode_len();
    let mut elements: Vec<LTerm> = Vec::new();
    let mut i: usize = 0;
    while i < n
        invariant
            i <= n,
            n == s@.len(),
            text@ == s@,
            elements@ == spec_char_terms(s@.subrange(0, i as int)),
        decreases n - i,
    {
        let c: char = text.get_char(i);
        elements.push(LTerm::make_small_unsigned(c as u32 as Word));
        assert(elements@ =~= spec_char_terms(s@.subrange(0, i + 1)));
        i = i + 1;
    }
    assert(s@.subrange(0, n as int) =~= s@);
    make_list(hp, &elements)
}

/// The words of the tuple `{badfun, Args...}`.
pub open spec fn spec_badfun_elements(args: Seq<LTerm>) -> Seq<LTerm> {
    seq![spec_badfun()] + args
}

/// Create a `{badfun, Args...}` tuple in the heap. Fails with a full heap,
/// changing nothing, if the tuple does not fit.
pub fn make_badfun_n(args: &[LTerm], hp: &mut Heap) -> (r: RtResult<LTerm>)
    requires
        old(hp).wf(),
    ensures
        final(hp).wf(),
        old(hp)@.has_available(2 + args@.len()) ==> {
            &&& r == Ok::<LTerm, Error>(LTerm { value: spec_word_addr(old(hp)@.heap_top) })
            &&& final(hp)@ == old(hp)@.place(spec_tuple_words(spec_badfun_elements(args@)))
            &&& final(hp)@.is_box_of_type(r.unwrap(), BoxTypeTag::Tuple)
        },
        !old(hp)@.has_available(2 + args@.len()) ==> r == Err::<LTerm, Error>(Error::HeapIsFull)
            && final(hp)@ == old(hp)@,
{
    if args.len() > MAX_HEAP_WORDS {
        return Err(Error::HeapIsFull);
    }
    let mut elements: Vec<LTerm> = Vec::new();
    elements.push(atom_badfun());
    let ghost first = elements@;
    let mut i: usize = 0;
    while i < args.len()
        invariant
            i <= args@.len(),
            elements@ == first + args@.subrange(0, i as int),
        decreases args@.len() - i,
    {
        elements.push(args[i]);
        assert(elements@ =~= first + args@.subrange(0, i + 1));
        i = i + 1;
    }
    assert(elements@ =~= spec_badfun_elements(args@));
    Tuple::create_into(hp, elements.as_slice())
}

} // verus!
