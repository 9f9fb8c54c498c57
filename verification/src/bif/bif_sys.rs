//! The built-in functions that raise errors, and the conversion of an atom
//! to the list of its characters.
use vstd::prelude::*;
use crate::defs::exc_type::ExceptionType;
use crate::emulator::atom::{spec_atom_known, AtomTable};
use crate::emulator::gen_atoms::spec_badarg;
use crate::emulator::heap::spec_word_addr;
use crate::emulator::process::Process;
use crate::fail::{badarg, Error, RtResult};
use crate::term::boxed::box_header::BoxTypeTag;
use crate::term::boxed::tuple::{spec_tuple_words, Tuple};
use crate::term::builders::{
    make_badfun_n, rust_str_to_list, spec_badfun_elements, spec_char_terms, spec_place_list,
};
use crate::term::lterm::LTerm;

verus! {

/// Whether everything of a process but its heap is the same in `a` and in
/// `b`.
pub open spec fn spec_same_but_heap(a: &Process, b: &Process) -> bool {
    &&& a.pid == b.pid
    &&& a.prio == b.prio
    &&& a.current_queue == b.current_queue
    &&& a.context == b.context
    &&& a.mailbox == b.mailbox
    &&& a.timeslice_result == b.timeslice_result
    &&& a.error == b.error
}

/// Create an error for a NIF not loaded/not implemented: the exception of
/// the kind `error` whose reason is the tuple `{badfun, Arg}`, built in the
/// heap of the process. Fails with a full heap, changing nothing, if the
/// tuple does not fit.
pub fn bif_erlang_nif_error_1(cur_proc: &mut Process, args: &[LTerm]) -> (r: RtResult<LTerm>)
    requires
        old(cur_proc).wf(),
        args@.len() == 1,
    ensures
        final(cur_proc).wf(),
        spec_same_but_heap(old(cur_proc), final(cur_proc)),
        old(cur_proc).heap@.has_available(3) ==> {
            &&& r == Err::<LTerm, Error>(
                Error::Exception(
                    ExceptionType::Error,
                    LTerm { value: spec_word_addr(old(cur_proc).heap@.heap_top) },
                ),
            )
            &&& final(cur_proc).heap@ == old(cur_proc).heap@.place(
                spec_tuple_words(spec_badfun_elements(args@)),
            )
        },
        !old(cur_proc).heap@.has_available(3) ==> r == Err::<LTerm, Error>(Error::HeapIsFull)
            && final(cur_proc).heap@ == old(cur_proc).heap@,
{
    match make_badfun_n(args, &mut cur_proc.heap) {
        Ok(reason) => Err(Error::Exception(ExceptionType::Error, reason)),
        Err(e) => Err(e),
    }
}

/// Create an error for a NIF not loaded/not implemented: the exception of
/// the kind `error` whose reason is the tuple `{badfun, Arg1, Arg2}`, built in
/// the heap of the process. Fails with a full heap, changing nothing, if the
/// tuple does not fit.
pub fn bif_erlang_nif_error_2(cur_proc: &mut Process, args: &[LTerm]) -> (r: RtResult<LTerm>)
    requires
        old(cur_proc).wf(),
        args@.len() == 2,
    ensures
        final(cur_proc).wf(),
        spec_same_but_heap(old(cur_proc), final(cur_proc)),
        old(cur_proc).heap@.has_available(4) ==> {
            &&& r == Err::<LTerm, Error>(
                Error::Exception(
                    ExceptionType::Error,
                    LTerm { value: spec_word_addr(old(cur_proc).heap@.heap_top) },
                ),
            )
            &&& final(cur_proc).heap@ == old(cur_proc).heap@.place(
                spec_tuple_words(spec_badfun_elements(args@)),
            )
        },
        !old(cur_proc).heap@.has_available(4) ==> r == Err::<LTerm, Error>(Error::HeapIsFull)
            && final(cur_proc).heap@ == old(cur_proc).heap@,
{
    match make_badfun_n(args, &mut cur_proc.heap) {
        Ok(reason) => Err(Error::Exception(ExceptionType::Error, reason)),
        Err(e) => Err(e),
    }
}

/// Create an exception of type `error` with an argument: its reason is the
/// tuple of the two arguments, built in the heap of the process. Fails with a
/// full heap, changing nothing, if the tuple does not fit.
pub fn bif_erlang_error_2(cur_proc: &mut Process, args: &[LTerm]) -> (r: RtResult<LTerm>)
    requires
        old(cur_proc).wf(),
        args@.len() == 2,
    ensures
        final(cur_proc).wf(),
        spec_same_but_heap(old(cur_proc), final(cur_proc)),
        old(cur_proc).heap@.has_available(3) ==> {
            &&& r == Err::<LTerm, Error>(
                Error::Exception(
                    ExceptionType::Error,
                    LTerm { value: spec_word_addr(old(cur_proc).heap@.heap_top) },
                ),
            )
            &&& final(cur_proc).heap@ == old(cur_proc).heap@.place(spec_tuple_words(args@))
            &&& final(cur_proc).heap@.is_box_of_type(
                LTerm { value: spec_word_addr(old(cur_proc).heap@.heap_top) },
                BoxTypeTag::Tuple,
            )
        },
        !old(cur_proc).heap@.has_available(3) ==> r == Err::<LTerm, Error>(Error::HeapIsFull)
            && final(cur_proc).heap@ == old(cur_proc).heap@,
{
    match Tuple::create_into(&mut cur_proc.heap, args) {
        Ok(reason) => Err(Error::Exception(ExceptionType::Error, reason)),
        Err(e) => Err(e),
    }
}

/// Create an exception of type `error`, whose reason is the argument.
pub fn bif_erlang_error_1(_curr_p: &mut Process, args: &[LTerm]) -> (r: RtResult<LTerm>)
    requires
        args@.len() == 1,
    ensures
        *final(_curr_p) == *old(_curr_p),
        r == Err::<LTerm, Error>(Error::Exception(ExceptionType::Error, args@[0])),
{
    Err(Error::Exception(ExceptionType::Error, args[0]))
}

/// The list of the characters of the name of an atom, built in the heap of
/// the process. The argument that is no atom of the table is a `badarg`
/// error. Fails with a full heap, changing nothing, if the list does not fit.
pub fn bif_erlang_atom_to_list_1(curr_p: &mut Process, atoms: &AtomTable, args: &[LTerm]) -> (r:
    RtResult<LTerm>)
    requires
        old(curr_p).wf(),
        args@.len() == 1,
    ensures
        final(curr_p).wf(),
        spec_same_but_heap(old(curr_p), final(curr_p)),
        !spec_atom_known(atoms@, args@[0]) ==> r == Err::<LTerm, Error>(
            Error::Exception(ExceptionType::Error, spec_badarg()),
        ) && final(curr_p).heap@ == old(curr_p).heap@,
        spec_atom_known(atoms@, args@[0]) ==> ({
            let name = atoms@[args@[0].spec_val_without_tag() as int];
            let placed = spec_place_list(old(curr_p).heap@, spec_char_terms(name));
            if old(curr_p).heap@.has_available(2 * name.len()) {
                r == Ok::<LTerm, Error>(placed.1) && final(curr_p).heap@ == placed.0
            } else {
                r == Err::<LTerm, Error>(Error::HeapIsFull) && final(curr_p).heap@ == old(curr_p).heap@
            }
        }),
{
    match atoms.lookup(args[0]) {
        None => badarg(),
        Some(name) => rust_str_to_list(name, &mut curr_p.heap),
    }
}

} // verus!
