//! The errors that the runtime core hands to its callers.
use vstd::prelude::*;
use crate::defs::Word;
use crate::defs::exc_type::ExceptionType;
use crate::term::lterm::LTerm;

verus! {

#[derive(Clone, Copy, Debug, PartialEq, Eq, Structural)]
pub enum Error {
    /// The heap region has fewer free words than were asked for.
    HeapIsFull,
    /// The stack region has fewer free words than were asked for.
    StackIsFull,
    /// A frame-relative stack index points outside of the stack.
    StackIndexRange(Word),
    /// A projection that needs a boxed term was given another term.
    TermIsNotABoxed,
    BoxedIsNotAnExport,
    BoxedIsNotAClosure,
    BoxedIsNotABinary,
    BoxedIsNotATuple,
    /// The term is not an atom that the atom table knows.
    AtomNotExist,
    /// No code is loaded for the module, function and arity asked for.
    NotFound,
    /// A language-level exception with its reason.
    Exception(ExceptionType, LTerm),
}

pub type RtResult<T> = Result<T, Error>;

pub type Hopefully<T> = Result<T, Error>;

/// The exception of the kind `error` with the reason `badarg`, as a result
/// that has failed.
pub fn badarg() -> (r: RtResult<LTerm>)
    ensures
        r == Err::<LTerm, Error>(
            Error::Exception(ExceptionType::Error, crate::emulator::gen_atoms::spec_badarg()),
        ),
{
    Err(Error::Exception(ExceptionType::Error, crate::emulator::gen_atoms::atom_badarg()))
}

} // verus!
