//! Kinds of language-level exception.
use vstd::prelude::*;

verus! {

#[derive(Clone, Copy, Debug, PartialEq, Eq, Structural)]
pub enum ExceptionType {
    Throw,
    Error,
    Exit,
}

} // verus!
