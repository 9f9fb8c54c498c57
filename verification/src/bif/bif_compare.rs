//! The built-in comparisons for equality.
use vstd::prelude::*;
use std::cmp::Ordering;
use crate::emulator::gen_atoms::{atom_false, atom_true, spec_false, spec_true};
use crate::emulator::heap::{Heap, HeapView};
use crate::emulator::process::Process;
use crate::fail::{Error, Hopefully};
use crate::term::compare::{cmp_terms, spec_term_order};
use crate::term::lterm::LTerm;

verus! {

/// The atom that tells whether `a` and `b` are equal.
pub open spec fn spec_shared_eq(hv: HeapView, a: LTerm, b: LTerm, exact: bool) -> LTerm {
    if spec_term_order(hv, a, hv.heap_top, b, hv.heap_top, exact) == 0 {
        spec_true()
    } else {
        spec_false()
    }
}

/// Compare 2 terms with '=='
pub fn ubif_seqeq_2_2(_cur_proc: &mut Process, args: &[LTerm]) -> (r: Hopefully<LTerm>)
    requires
        old(_cur_proc).wf(),
        args@.len() == 2,
    ensures
        *final(_cur_proc) == *old(_cur_proc),
        r == Ok::<LTerm, Error>(spec_shared_eq(old(_cur_proc).heap@, args@[0], args@[1], false)),
{
    shared_eq(&_cur_proc.heap, args, false)
}

/// Compare 2 terms with '=:='
pub fn ubif_seq_2_2(_cur_proc: &mut Process, args: &[LTerm]) -> (r: Hopefully<LTerm>)
    requires
        old(_cur_proc).wf(),
        args@.len() == 2,
    ensures
        *final(_cur_proc) == *old(_cur_proc),
        r == Ok::<LTerm, Error>(spec_shared_eq(old(_cur_proc).heap@, args@[0], args@[1], true)),
{
    shared_eq(&_cur_proc.heap, args, true)
}

/// The atom `true` if the two terms in `args` compare as equal, else the atom
/// `false`.
#[inline]
pub fn shared_eq(hp: &Heap, args: &[LTerm], exact: bool) -> (r: Hopefully<LTerm>)
    requires
        hp.wf(),
        args@.len() == 2,
    ensures
        r == Ok::<LTerm, Error>(spec_shared_eq(hp@, args@[0], args@[1], exact)),
{
    let a: LTerm = args[0];
    let b: LTerm = args[1];
    match cmp_terms(hp, a, b, exact) {
        Ordering::Equal => Ok(atom_true()),
        _ => Ok(atom_false()),
    }
}

} // verus!
