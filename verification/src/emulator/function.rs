//! What a function value needs to be called.
use vstd::prelude::*;
use crate::emulator::code_srv::CodePtr;
use crate::emulator::mfa::MFArity;

verus! {

/// Where the code of a callable is.
#[derive(Clone, Copy, Debug, PartialEq, Eq, Structural)]
pub enum CallableLocation {
    /// The code location is not known yet and has to be looked up before the
    /// call.
    NeedUpdate,
    Code(CodePtr),
}

/// A function of a module that closures are made of.
#[derive(Clone, Copy, Debug, PartialEq, Eq, Structural)]
pub struct FunEntry {
    pub mfa: MFArity,
    /// Number of the frozen values that a closure of this function captures.
    pub nfree: usize,
}

impl FunEntry {
    pub fn new(mfa: MFArity, nfree: usize) -> (r: FunEntry)
        ensures
            r == (FunEntry { mfa, nfree }),
    {
        FunEntry { mfa, nfree }
    }
}

} // verus!
