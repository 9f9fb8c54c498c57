//! The cons cell: two words in the heap, the head of a list and its tail.
use vstd::prelude::*;
use crate::emulator::heap::{spec_addr_index, spec_addr_valid, Heap, HeapView};
use crate::term::lterm::LTerm;

verus! {

/// A list cell as it is read from the heap.
#[derive(Clone, Copy, Debug, PartialEq, Eq, Structural)]
pub struct Cons {
    pub head: LTerm,
    pub tail: LTerm,
}

impl Cons {
    pub fn hd(&self) -> (t: LTerm)
        ensures
            t == self.head,
    {
        self.head
    }

    pub fn tl(&self) -> (t: LTerm)
        ensures
            t == self.tail,
    {
        self.tail
    }
}

impl HeapView {
    /// Whether `t` points to a cons cell whose two words lie in the first
    /// `bound` words of the heap region.
    pub open spec fn is_cons_below(self, t: LTerm, bound: nat) -> bool {
        &&& bound <= self.heap_top <= self.data.len()
        &&& t.spec_is_cons()
        &&& spec_addr_valid((t.value - 2) as u64, bound)
        &&& spec_addr_index((t.value - 2) as u64) + 2 <= bound
    }

    /// Index of the first word of the cell that the cons term `t` points to.
    pub open spec fn cons_index(self, t: LTerm) -> nat {
        spec_addr_index((t.value - 2) as u64)
    }

    pub open spec fn cons_hd(self, t: LTerm) -> LTerm {
        LTerm { value: self.data[self.cons_index(t) as int] }
    }

    pub open spec fn cons_tl(self, t: LTerm) -> LTerm {
        LTerm { value: self.data[self.cons_index(t) as int + 1] }
    }
}

impl Heap {
    /// The index of the cell that `t` points to, if it points to a cons cell
    /// that lies wholly in the first `bound` words.
    pub fn find_cons(&self, t: LTerm, bound: usize) -> (r: Option<usize>)
        requires
            self.wf(),
            bound <= self@.heap_top,
        ensures
            r.is_some() == self@.is_cons_below(t, bound as nat),
            r.is_some() ==> r.unwrap() == self@.cons_index(t) && r.unwrap() + 2 <= bound,
    {
        if !t.is_cons() {
            return None;
        }
        match self.ptr_to_index(t.get_cons_ptr()) {
            None => None,
            Some(idx) => {
                if bound < 2 || idx > bound - 2 {
                    None
                } else {
                    Some(idx)
                }
            },
        }
    }

    /// The cell whose first word has the index `idx`.
    pub fn read_cons(&self, idx: usize) -> (c: Cons)
        requires
            self.wf(),
            idx + 2 <= self@.heap_top,
        ensures
            c.head.value == self@.data[idx as int],
            c.tail.value == self@.data[idx + 1],
    {
        Cons { head: self.get_term(idx), tail: self.get_term(idx + 1) }
    }
}

} // verus!
