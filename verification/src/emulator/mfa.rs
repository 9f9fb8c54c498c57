//! The name of a function: module, function and arity.
use vstd::prelude::*;
use crate::defs::Arity;
use crate::term::lterm::LTerm;

verus! {

/// Module, function and arity: the full name of one function.
#[derive(Clone, Copy, Debug, PartialEq, Eq, Structural)]
pub struct MFArity {
    /// The module, an atom.
    pub m: LTerm,
    /// The function, an atom.
    pub f: LTerm,
    pub arity: Arity,
}

impl MFArity {
    pub fn new(m: LTerm, f: LTerm, arity: Arity) -> (r: MFArity)
        ensures
            r == (MFArity { m, f, arity }),
    {
        MFArity { m, f, arity }
    }
}

} // verus!
