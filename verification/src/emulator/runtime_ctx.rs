//! The execution context of a process: where it runs, where it returns to,
//! its registers and what is left of its timeslice.
use vstd::prelude::*;
use crate::beam::disp_result::DispatchResult;
use crate::defs::{Reductions, Word, MAX_XREGS};
use crate::emulator::code_srv::CodePtr;
use crate::term::lterm::LTerm;

verus! {

pub struct Context {
    /// Instruction pointer: the operation that runs next.
    pub ip: CodePtr,
    /// Continuation pointer: where the current function returns to.
    pub cp: CodePtr,
    /// How many of the first registers are in use, for the collector.
    pub live: usize,
    /// The X registers.
    pub regs: Vec<LTerm>,
    /// Reductions left in the current timeslice.
    pub reductions: isize,
}

/// What is left of `budget` after `n` attempts to fetch an operation at the
/// cost of one reduction each: an attempt that finds nothing left takes
/// nothing.
pub open spec fn spec_reductions_after(budget: int, n: nat) -> int
    decreases n,
{
    if n == 0 {
        budget
    } else {
        let before = spec_reductions_after(budget, (n - 1) as nat);
        if before <= 0 {
            before
        } else {
            before - 1
        }
    }
}

/// Whether the `n`-th attempt, counted from one, to fetch an operation at the
/// cost of one reduction finds the budget spent and yields.
pub open spec fn spec_attempt_yields(budget: int, n: nat) -> bool
    recommends
        n >= 1,
{
    spec_reductions_after(budget, (n - 1) as nat) <= 0
}

/// With a budget of `b` reductions, attempts at one reduction each go
/// through `b` times and leave `b` less the number of attempts; every attempt
/// after that yields and leaves nothing.
pub proof fn lemma_reductions_budget(b: nat, n: nat)
    ensures
        n <= b ==> spec_reductions_after(b as int, n) == b - n,
        n > b ==> spec_reductions_after(b as int, n) == 0,
        n >= 1 ==> (spec_attempt_yields(b as int, n) <==> n > b),
    decreases n,
{
    if n > 0 {
        lemma_reductions_budget(b, (n - 1) as nat);
    }
}

impl Context {
    pub open spec fn wf(&self) -> bool {
        &&& self.ip.wf()
        &&& self.cp.wf()
        &&& self.regs@.len() == MAX_XREGS
    }

    /// A context that starts at `ip` with nothing to return to, all registers
    /// empty and a whole timeslice ahead.
    pub fn new(ip: CodePtr) -> (c: Context)
        requires
            ip.wf(),
        ensures
            c.wf(),
            c.ip == ip,
            c.cp == (CodePtr { ptr: 0 }),
            c.live == 0,
            c.reductions == Reductions::DEFAULT,
            forall|i: int| 0 <= i < MAX_XREGS ==> (#[trigger] c.regs@[i]).value == 0,
    {
        let mut regs: Vec<LTerm> = Vec::new();
        let mut i: Word = 0;
        while i < MAX_XREGS
            invariant
                i <= MAX_XREGS,
                regs@.len() == i,
                forall|j: int| 0 <= j < i ==> (#[trigger] regs@[j]).value == 0,
            decreases MAX_XREGS - i,
        {
            regs.push(LTerm::non_value());
            i = i + 1;
        }
        Context { ip, cp: CodePtr::null(), live: 0, regs, reductions: Reductions::DEFAULT }
    }

    /// Sets the continuation pointer from the term that was saved on the
    /// stack.
    pub fn set_cp(&mut self, cp: LTerm)
        requires
            old(self).wf(),
            cp.spec_is_cp(),
        ensures
            final(self).wf(),
            final(self).cp.ptr == cp.value - crate::defs::HIGHEST_BIT_CP,
            final(self).ip == old(self).ip,
            final(self).live == old(self).live,
            final(self).regs == old(self).regs,
            final(self).reductions == old(self).reductions,
    {
        self.cp = CodePtr::from_cp(cp);
    }

    /// The register X `index`.
    pub fn x(&self, index: Word) -> (t: LTerm)
        requires
            self.wf(),
            index < MAX_XREGS,
        ensures
            t == self.regs@[index as int],
    {
        self.regs[index as usize]
    }

    /// Sets the register X `index`.
    pub fn set_x(&mut self, index: Word, val: LTerm)
        requires
            old(self).wf(),
            index < MAX_XREGS,
        ensures
            final(self).wf(),
            final(self).regs@ == old(self).regs@.update(index as int, val),
            final(self).ip == old(self).ip,
            final(self).cp == old(self).cp,
            final(self).live == old(self).live,
            final(self).reductions == old(self).reductions,
    {
        self.regs[index as usize] = val;
    }

    /// Gives the context a whole timeslice again, when the process is
    /// scheduled in.
    pub fn swap_in(&mut self)
        ensures
            final(self).reductions == Reductions::DEFAULT,
            final(self).ip == old(self).ip,
            final(self).cp == old(self).cp,
            final(self).live == old(self).live,
            final(self).regs == old(self).regs,
    {
        self.reductions = Reductions::DEFAULT;
    }

    /// Pays for the next operation before it is dispatched. With nothing
    /// left of the timeslice the process has to yield, and nothing is taken;
    /// else `cost` reductions are taken and the operation may run.
    pub fn take_reductions(&mut self, cost: isize) -> (r: DispatchResult)
        requires
            cost >= 0,
        ensures
            old(self).reductions <= 0 ==> r == DispatchResult::Yield && final(self).reductions
                == old(self).reductions,
            old(self).reductions > 0 ==> r == DispatchResult::Normal && final(self).reductions
                == old(self).reductions - cost,
            final(self).ip == old(self).ip,
            final(self).cp == old(self).cp,
            final(self).live == old(self).live,
            final(self).regs == old(self).regs,
    {
        if self.reductions <= 0 {
            return DispatchResult::Yield;
        }
        self.reductions = self.reductions - cost;
        DispatchResult::Normal
    }

    /// Pays the base tax for fetching one operation.
    pub fn fetch_opcode_cost(&mut self) -> (r: DispatchResult)
        ensures
            final(self).reductions == spec_reductions_after(old(self).reductions as int, 1),
            r == if spec_attempt_yields(old(self).reductions as int, 1) {
                DispatchResult::Yield
            } else {
                DispatchResult::Normal
            },
            final(self).ip == old(self).ip,
            final(self).cp == old(self).cp,
            final(self).live == old(self).live,
            final(self).regs == old(self).regs,
    {
        assert(spec_reductions_after(self.reductions as int, 0) == self.reductions);
        self.take_reductions(Reductions::FETCH_OPCODE_COST)
    }
}

} // verus!
