//! Code locations, and the table of the functions whose code is loaded.
use vstd::prelude::*;
use crate::defs::{Word, HIGHEST_BIT_CP};
use crate::emulator::mfa::MFArity;
use crate::fail::{Error, RtResult};
use crate::term::lterm::LTerm;

verus! {

/// The address of an instruction in loaded code.
#[derive(Clone, Copy, Debug, PartialEq, Eq, Structural)]
pub struct CodePtr {
    pub ptr: Word,
}

impl CodePtr {
    /// An address can be a code location if it is aligned to a word and
    /// leaves the highest bit free for the mark of a continuation pointer.
    pub open spec fn wf(self) -> bool {
        self.ptr % 8 == 0 && self.ptr < HIGHEST_BIT_CP
    }

    pub fn null() -> (p: CodePtr)
        ensures
            p.ptr == 0,
            p.wf(),
    {
        CodePtr { ptr: 0 }
    }

    pub fn is_null(self) -> (b: bool)
        ensures
            b == (self.ptr == 0),
    {
        self.ptr == 0
    }

    /// The code location as a term that can be stored on the stack.
    pub fn to_cp_term(self) -> (t: LTerm)
        requires
            self.wf(),
        ensures
            t.spec_is_cp(),
            t.value == self.ptr + HIGHEST_BIT_CP,
    {
        LTerm::make_cp(self.ptr)
    }

    /// The code location that a continuation pointer term holds.
    pub fn from_cp(t: LTerm) -> (p: CodePtr)
        requires
            t.spec_is_cp(),
        ensures
            p.wf(),
            p.ptr == t.value - HIGHEST_BIT_CP,
    {
        CodePtr { ptr: t.get_cp_ptr() }
    }
}

/// The functions whose code is loaded, each with the location where its code
/// begins.
pub struct CodeServer {
    entries: Vec<(MFArity, CodePtr)>,
}

/// The location of the first entry for `mfa` among `entries`, from the entry
/// `from` on.
pub open spec fn spec_lookup(entries: Seq<(MFArity, CodePtr)>, mfa: MFArity, from: nat) -> Option<
    CodePtr,
>
    decreases entries.len() - from,
{
    if from >= entries.len() {
        None
    } else if entries[from as int].0 == mfa {
        Some(entries[from as int].1)
    } else {
        spec_lookup(entries, mfa, from + 1)
    }
}

impl View for CodeServer {
    type V = Seq<(MFArity, CodePtr)>;

    closed spec fn view(&self) -> Seq<(MFArity, CodePtr)> {
        self.entries@
    }
}

impl CodeServer {
    /// Every location in the table can be a code location.
    pub open spec fn wf(&self) -> bool {
        forall|i: int| 0 <= i < self@.len() ==> (#[trigger] self@[i]).1.wf()
    }

    pub fn new() -> (s: CodeServer)
        ensures
            s@ == Seq::<(MFArity, CodePtr)>::empty(),
            s.wf(),
    {
        CodeServer { entries: Vec::new() }
    }

    /// Records that the code of `mfa` begins at `ip`.
    pub fn register(&mut self, mfa: MFArity, ip: CodePtr)
        requires
            old(self).wf(),
            ip.wf(),
        ensures
            final(self).wf(),
            final(self)@ == old(self)@.push((mfa, ip)),
    {
        self.entries.push((mfa, ip));
    }

    /// Find the code location of a function, or tell that there is none.
    pub fn lookup_and_load(&self, mfa: &MFArity) -> (r: RtResult<CodePtr>)
        requires
            self.wf(),
        ensures
            r == match spec_lookup(self@, *mfa, 0) {
                Some(ip) => Ok::<CodePtr, Error>(ip),
                None => Err::<CodePtr, Error>(Error::NotFound),
            },
            r.is_ok() ==> r.unwrap().wf(),
    {
        let n: usize = self.entries.len();
        let mut i: usize = 0;
        while i < n
            invariant
                i <= n,
                n == self@.len(),
                self.wf(),
                spec_lookup(self@, *mfa, i as nat) == spec_lookup(self@, *mfa, 0),
            decreases n - i,
        {
            let entry = self.entries[i];
            if entry.0 == *mfa {
                return Ok(entry.1);
            }
            i = i + 1;
        }
        Err(Error::NotFound)
    }
}

} // verus!
