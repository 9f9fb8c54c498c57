//! Types and limits used everywhere in the runtime.
use vstd::prelude::*;

pub mod exc_type;
pub mod sizes;

verus! {

/// An unsigned machine word: the unit in which terms and heap cells are stored.
pub type Word = u64;

/// The signed reading of a machine word.
pub type SWord = i64;

pub type Arity = usize;

pub const WORD_BITS: Word = 64;

pub const WORD_ALIGN_SHIFT: Word = 3;

/// This bit is set on boxed values which are continuation pointers.
pub const HIGHEST_BIT_CP: Word = 0x8000_0000_0000_0000;

pub const WORD_BYTES: Word = 8;

pub const MAX_XREGS: Word = 256;

pub const MAX_FPREGS: Word = 8;

pub struct Reductions {}

impl Reductions {
    /// How many function calls or heavier opcodes a process runs before it is
    /// scheduled out to give way to the other processes in the queue.
    pub const DEFAULT: isize = 200;

    /// The base tax for fetching an opcode and dispatching to its handler.
    pub const FETCH_OPCODE_COST: isize = 1;
}

/// The distance from `b` up to `a`, counted in elements of `elem_size` bytes.
pub open spec fn spec_pointer_diff(a: Word, b: Word, elem_size: Word) -> int {
    (a - b) / (elem_size as int)
}

/// Number of whole elements of `elem_size` bytes that lie between the address
/// `b` and the address `a` above it.
pub fn pointer_diff(a: Word, b: Word, elem_size: Word) -> (n: Word)
    requires
        a >= b,
        elem_size > 0,
    ensures
        n == spec_pointer_diff(a, b, elem_size),
        n * elem_size <= a - b < (n + 1) * elem_size,
{
    let d: Word = a - b;
    proof {
        vstd::arithmetic::div_mod::lemma_fundamental_div_mod(d as int, elem_size as int);
        vstd::arithmetic::div_mod::lemma_mod_bound(d as int, elem_size as int);
        assert(elem_size * (d as int / elem_size as int) == (d as int / elem_size as int)
            * elem_size) by (nonlinear_arith);
        assert((d as int / elem_size as int + 1) * elem_size == (d as int / elem_size as int)
            * elem_size + elem_size) by (nonlinear_arith);
    }
    d / elem_size
}

} // verus!
