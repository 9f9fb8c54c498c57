//! An exported function: its name, and its code once that is known.
use vstd::prelude::*;
use crate::emulator::function::CallableLocation;
use crate::emulator::mfa::MFArity;

verus! {

#[derive(Clone, Copy, Debug, PartialEq, Eq, Structural)]
pub struct Export {
    pub mfa: MFArity,
    pub dst: CallableLocation,
}

impl Export {
    pub open spec fn spec_new(mfa: MFArity) -> Export {
        Export { mfa, dst: CallableLocation::NeedUpdate }
    }

    /// An export of `mfa` whose code has not been looked up yet.
    #[verifier::when_used_as_spec(spec_new)]
    pub fn new(mfa: MFArity) -> (r: Export)
        ensures
            r == Export::spec_new(mfa),
    {
        Export { mfa, dst: CallableLocation::NeedUpdate }
    }
}

} // verus!
