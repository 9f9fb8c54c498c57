//! The pid of a process on another node: a header, the node, and the index
//! of the process there.
use vstd::prelude::*;
use crate::defs::Word;
use crate::emulator::heap::{spec_word_addr, Heap};
use crate::fail::{Error, RtResult};
use crate::term::boxed::box_header::{
    lemma_placed_box_arity, spec_header_word, BoxHeader, BoxTypeTag, BOXTYPETAG_EXTERNALPID,
};
use crate::term::lterm::LTerm;

verus! {

/// Number of words that an external pid takes in the heap.
pub const EXTERNAL_PID_WORDS: usize = 3;

/// The words of the pid of the process `id` on the node `node`.
pub open spec fn spec_external_pid_words(node: LTerm, id: Word) -> Seq<Word> {
    seq![
        spec_header_word(BoxTypeTag::ExternalPid, (EXTERNAL_PID_WORDS - 1) as Word),
        node.value,
        id,
    ]
}

#[derive(Clone, Copy, Debug, PartialEq, Eq, Structural)]
pub struct ExternalPid {
    pub header: BoxHeader,
    /// The node, an atom.
    pub node: LTerm,
    pub id: Word,
}

impl ExternalPid {
    pub fn new(node: LTerm, id: Word) -> (p: ExternalPid)
        ensures
            p.header.header_word == spec_header_word(
                BoxTypeTag::ExternalPid,
                (EXTERNAL_PID_WORDS - 1) as Word,
            ),
            p.node == node,
            p.id == id,
    {
        ExternalPid {
            header: BoxHeader::new(BOXTYPETAG_EXTERNALPID, (EXTERNAL_PID_WORDS - 1) as Word),
            node,
            id,
        }
    }

    /// Places a new external pid into the heap and returns its address. Fails
    /// with a full heap, changing nothing, if it does not fit.
    pub fn create_into(hp: &mut Heap, node: LTerm, id: Word) -> (r: RtResult<Word>)
        requires
            old(hp).wf(),
        ensures
            final(hp).wf(),
            old(hp)@.has_available(EXTERNAL_PID_WORDS as nat) ==> {
                &&& r == Ok::<Word, Error>(spec_word_addr(old(hp)@.heap_top))
                &&& final(hp)@ == old(hp)@.place(spec_external_pid_words(node, id))
                &&& final(hp)@.is_box_of_type(
                    LTerm { value: r.unwrap() },
                    BoxTypeTag::ExternalPid,
                )
            },
            !old(hp)@.has_available(EXTERNAL_PID_WORDS as nat) ==> r == Err::<Word, Error>(
                Error::HeapIsFull,
            ) && final(hp)@ == old(hp)@,
    {
        let this = ExternalPid::new(node, id);
        let mut words: Vec<Word> = Vec::new();
        words.push(this.header.header_word);
        words.push(this.node.raw());
        words.push(this.id);
        assert(words@ =~= spec_external_pid_words(node, id));
        proof {
            if old(hp)@.has_available(words@.len()) {
                lemma_placed_box_arity(old(hp)@, words@, BoxTypeTag::ExternalPid);
            }
        }
        hp.place_words(&words)
    }
}

impl LTerm {
    /// The pid of the process `pindex` on the node `node`, as a boxed term
    /// that points to a new external pid in the heap. Fails with a full
    /// heap, changing nothing, if that does not fit.
    pub fn make_remote_pid(hp: &mut Heap, node: LTerm, pindex: Word) -> (r: RtResult<LTerm>)
        requires
            old(hp).wf(),
        ensures
            final(hp).wf(),
            old(hp)@.has_available(EXTERNAL_PID_WORDS as nat) ==> {
                &&& r == Ok::<LTerm, Error>(LTerm { value: spec_word_addr(old(hp)@.heap_top) })
                &&& final(hp)@ == old(hp)@.place(spec_external_pid_words(node, pindex))
                &&& final(hp)@.is_box_of_type(r.unwrap(), BoxTypeTag::ExternalPid)
            },
            !old(hp)@.has_available(EXTERNAL_PID_WORDS as nat) ==> r == Err::<LTerm, Error>(
                Error::HeapIsFull,
            ) && final(hp)@ == old(hp)@,
    {
        match ExternalPid::create_into(hp, node, pindex) {
            Ok(rpid_ptr) => Ok(LTerm::make_boxed(rpid_ptr)),
            Err(e) => Err(e),
        }
    }
}

} // verus!
