//! The operations that make, drop and shrink stack frames and that make sure
//! of free heap.
//!
//! A frame is the words that a function keeps on the stack: on top the
//! continuation pointer of its caller, below it the slots of its own
//! variables.
use vstd::prelude::*;
use crate::beam::disp_result::DispatchResult;
use crate::defs::sizes::WordSize;
use crate::defs::{Word, HIGHEST_BIT_CP};
use crate::emulator::code_srv::CodePtr;
use crate::emulator::heap::{spec_zeroed, Heap, HeapView};
use crate::emulator::process::Process;
use crate::emulator::runtime_ctx::Context;
use crate::fail::{Error, RtResult};
use crate::term::lterm::{LTerm, SpecialTag};

verus! {

/// The word of the continuation pointer term for the code location `cp`.
pub open spec fn spec_cp_word(cp: CodePtr) -> Word {
    (cp.ptr + HIGHEST_BIT_CP) as Word
}

/// What making a frame of `stack_need` slots does to a heap, for a caller
/// that returns to `cp`: with `heap_need` words free for the heap, and
/// `stack_need` and one more free for the stack, the slots are taken and the
/// continuation pointer is pushed on top of them.
pub open spec fn spec_gen_alloc(
    hv: HeapView,
    cp: CodePtr,
    stack_need: nat,
    heap_need: nat,
    zero: bool,
) -> Result<HeapView, Error> {
    if !hv.has_available(heap_need) {
        Err(Error::HeapIsFull)
    } else if !hv.has_available(stack_need + 1) {
        Err(Error::StackIsFull)
    } else {
        Ok(hv.stack_alloc(stack_need, zero).stack_push(spec_cp_word(cp)))
    }
}

/// What shrinking the frame on top of the stack by `n_trim` slots does to a
/// heap: the continuation pointer moves down onto what is left.
pub open spec fn spec_trim(hv: HeapView, n_trim: nat) -> HeapView {
    hv.stack_dealloc(n_trim).stack_push(hv.stack_top_word())
}

/// Whether everything of a process but its heap, its continuation pointer and
/// its count of live registers is the same in `a` and in `b`.
pub open spec fn spec_same_but_frame(a: &Process, b: &Process) -> bool {
    &&& a.pid == b.pid
    &&& a.prio == b.prio
    &&& a.current_queue == b.current_queue
    &&& a.mailbox == b.mailbox
    &&& a.timeslice_result == b.timeslice_result
    &&& a.error == b.error
    &&& a.context.ip == b.context.ip
    &&& a.context.regs == b.context.regs
    &&& a.context.reductions == b.context.reductions
}

/// Shared code for stack checks and allocations with an optional heap check.
#[inline]
pub fn gen_alloc(
    ctx: &mut Context,
    hp: &mut Heap,
    stack_need: WordSize,
    heap_need: WordSize,
    live: usize,
    zero: bool,
) -> (r: RtResult<()>)
    requires
        old(ctx).wf(),
        old(hp).wf(),
    ensures
        final(ctx).wf(),
        final(hp).wf(),
        final(ctx).live == live,
        final(ctx).ip == old(ctx).ip,
        final(ctx).cp == old(ctx).cp,
        final(ctx).regs == old(ctx).regs,
        final(ctx).reductions == old(ctx).reductions,
        match spec_gen_alloc(
            old(hp)@,
            old(ctx).cp,
            stack_need.n_words as nat,
            heap_need.n_words as nat,
            zero,
        ) {
            Ok(hv) => r == Ok::<(), Error>(()) && final(hp)@ == hv,
            Err(e) => r == Err::<(), Error>(e) && final(hp)@ == old(hp)@,
        },
{
    ctx.live = live;
    if !hp.heap_has_available(heap_need.words()) {
        return Err(Error::HeapIsFull);
    }
    if stack_need.words() < usize::MAX && hp.stack_have(stack_need.words() + 1) {
        // Stack has enough words, we can allocate unchecked
        if stack_need.words() > 0 {
            hp.stack_alloc_unchecked(stack_need.words(), zero);
        } else {
            assert(spec_zeroed(hp@.data, hp@.stack_top, 0) =~= hp@.data);
        }
        hp.stack_push_lterm_unchecked(ctx.cp.to_cp_term());
    } else {
        // Stack has not enough
        return Err(Error::StackIsFull);
    }
    Ok(())
}

/// Allocate `stack_need` words on stack and set them to zero; `live` is the
/// number of registers in use, for the collector.
pub struct OpcodeAllocateZero {}

impl OpcodeAllocateZero {
    pub const ARITY: usize = 2;

    pub fn run(curr_p: &mut Process, stack_need: usize, live: usize) -> (r: RtResult<
        DispatchResult,
    >)
        requires
            old(curr_p).wf(),
        ensures
            final(curr_p).wf(),
            spec_same_but_frame(old(curr_p), final(curr_p)),
            final(curr_p).context.live == live,
            final(curr_p).context.cp == old(curr_p).context.cp,
            match spec_gen_alloc(old(curr_p).heap@, old(curr_p).context.cp, stack_need as nat, 0, true) {
                Ok(hv) => r == Ok::<DispatchResult, Error>(DispatchResult::Normal) && final(curr_p).heap@ == hv,
                Err(e) => r == Err::<DispatchResult, Error>(e) && final(curr_p).heap@ == old(curr_p).heap@,
            },
    {
        match gen_alloc(
            &mut curr_p.context,
            &mut curr_p.heap,
            WordSize::new(stack_need),
            WordSize::new(0),
            live,
            true,
        ) {
            Ok(_) => Ok(DispatchResult::Normal),
            Err(e) => Err(e),
        }
    }
}

/// Allocate `stack_need` words on stack, which keep what they held; `live` is
/// the number of registers in use, for the collector.
pub struct OpcodeAllocate {}

impl OpcodeAllocate {
    pub const ARITY: usize = 2;

    pub fn run(curr_p: &mut Process, stack_need: usize, live: usize) -> (r: RtResult<
        DispatchResult,
    >)
        requires
            old(curr_p).wf(),
        ensures
            final(curr_p).wf(),
            spec_same_but_frame(old(curr_p), final(curr_p)),
            final(curr_p).context.live == live,
            final(curr_p).context.cp == old(curr_p).context.cp,
            match spec_gen_alloc(old(curr_p).heap@, old(curr_p).context.cp, stack_need as nat, 0, false) {
                Ok(hv) => r == Ok::<DispatchResult, Error>(DispatchResult::Normal) && final(curr_p).heap@ == hv,
                Err(e) => r == Err::<DispatchResult, Error>(e) && final(curr_p).heap@ == old(curr_p).heap@,
            },
    {
        match gen_alloc(
            &mut curr_p.context,
            &mut curr_p.heap,
            WordSize::new(stack_need),
            WordSize::new(0),
            live,
            false,
        ) {
            Ok(_) => Ok(DispatchResult::Normal),
            Err(e) => Err(e),
        }
    }
}

/// Allocate `stack_need` words on stack and set them to zero, after checking
/// that `heap_need` words are free on the heap; `live` is the number of
/// registers in use, for the collector.
pub struct OpcodeAllocateHeapZero {}

impl OpcodeAllocateHeapZero {
    pub const ARITY: usize = 3;

    pub fn run(curr_p: &mut Process, stack_need: usize, heap_need: usize, live: usize) -> (r:
        RtResult<DispatchResult>)
        requires
            old(curr_p).wf(),
        ensures
            final(curr_p).wf(),
            spec_same_but_frame(old(curr_p), final(curr_p)),
            final(curr_p).context.live == live,
            final(curr_p).context.cp == old(curr_p).context.cp,
            match spec_gen_alloc(
                old(curr_p).heap@,
                old(curr_p).context.cp,
                stack_need as nat,
                heap_need as nat,
                true,
            ) {
                Ok(hv) => r == Ok::<DispatchResult, Error>(DispatchResult::Normal) && final(curr_p).heap@ == hv,
                Err(e) => r == Err::<DispatchResult, Error>(e) && final(curr_p).heap@ == old(curr_p).heap@,
            },
    {
        match gen_alloc(
            &mut curr_p.context,
            &mut curr_p.heap,
            WordSize::new(stack_need),
            WordSize::new(heap_need),
            live,
            true,
        ) {
            Ok(_) => Ok(DispatchResult::Normal),
            Err(e) => Err(e),
        }
    }
}

/// Allocate `stack_need` words on stack, after checking that `heap_need`
/// words are free on the heap; `live` is the number of registers in use, for
/// the collector.
pub struct OpcodeAllocateHeap {}

impl OpcodeAllocateHeap {
    pub const ARITY: usize = 3;

    pub fn run(curr_p: &mut Process, stack_need: usize, heap_need: usize, live: usize) -> (r:
        RtResult<DispatchResult>)
        requires
            old(curr_p).wf(),
        ensures
            final(curr_p).wf(),
            spec_same_but_frame(old(curr_p), final(curr_p)),
            final(curr_p).context.live == live,
            final(curr_p).context.cp == old(curr_p).context.cp,
            match spec_gen_alloc(
                old(curr_p).heap@,
                old(curr_p).context.cp,
                stack_need as nat,
                heap_need as nat,
                false,
            ) {
                Ok(hv) => r == Ok::<DispatchResult, Error>(DispatchResult::Normal) && final(curr_p).heap@ == hv,
                Err(e) => r == Err::<DispatchResult, Error>(e) && final(curr_p).heap@ == old(curr_p).heap@,
            },
    {
        match gen_alloc(
            &mut curr_p.context,
            &mut curr_p.heap,
            WordSize::new(stack_need),
            WordSize::new(heap_need),
            live,
            false,
        ) {
            Ok(_) => Ok(DispatchResult::Normal),
            Err(e) => Err(e),
        }
    }
}

/// Pop the continuation pointer from the top of the stack and then drop
/// `n_free` more words from the stack.
pub struct OpcodeDeallocate {}

impl OpcodeDeallocate {
    pub const ARITY: usize = 1;

    pub fn run(curr_p: &mut Process, n_free: usize) -> (r: RtResult<DispatchResult>)
        requires
            old(curr_p).wf(),
            old(curr_p).heap@.has_frame(n_free as nat),
        ensures
            final(curr_p).wf(),
            spec_same_but_frame(old(curr_p), final(curr_p)),
            final(curr_p).context.live == old(curr_p).context.live,
            r == Ok::<DispatchResult, Error>(DispatchResult::Normal),
            spec_cp_word(final(curr_p).context.cp) == old(curr_p).heap@.stack_top_word(),
            final(curr_p).heap@ == old(curr_p).heap@.stack_dealloc(n_free as nat),
    {
        let cp = curr_p.heap.stack_deallocate(n_free);
        curr_p.context.set_cp(cp);
        Ok(DispatchResult::Normal)
    }
}

/// Check that `heap_need` words are free on the heap; `live` is the number of
/// registers in use, for the collector.
pub struct OpcodeTestHeap {}

impl OpcodeTestHeap {
    pub const ARITY: usize = 2;

    pub fn run(curr_p: &mut Process, heap_need: usize, live: usize) -> (r: RtResult<
        DispatchResult,
    >)
        requires
            old(curr_p).wf(),
        ensures
            final(curr_p).wf(),
            spec_same_but_frame(old(curr_p), final(curr_p)),
            final(curr_p).context.live == old(curr_p).context.live,
            final(curr_p).context.cp == old(curr_p).context.cp,
            final(curr_p).heap@ == old(curr_p).heap@,
            old(curr_p).heap@.has_available(heap_need as nat) ==> r == Ok::<
                DispatchResult,
                Error,
            >(DispatchResult::Normal),
            !old(curr_p).heap@.has_available(heap_need as nat) ==> r == Err::<
                DispatchResult,
                Error,
            >(Error::HeapIsFull),
    {
        match curr_p.heap.ensure_size(WordSize::new(heap_need).words()) {
            Ok(_) => Ok(DispatchResult::Normal),
            Err(e) => Err(e),
        }
    }
}

/// Reduce the stack usage by `n_trim` words, keeping the continuation pointer
/// on top of the stack.
pub struct OpcodeTrim {}

impl OpcodeTrim {
    pub const ARITY: usize = 2;

    pub fn run(curr_p: &mut Process, n_trim: usize, remaining: usize) -> (r: RtResult<
        DispatchResult,
    >)
        requires
            old(curr_p).wf(),
            old(curr_p).heap@.has_frame(n_trim as nat),
        ensures
            final(curr_p).wf(),
            spec_same_but_frame(old(curr_p), final(curr_p)),
            final(curr_p).context.live == old(curr_p).context.live,
            final(curr_p).context.cp == old(curr_p).context.cp,
            r == Ok::<DispatchResult, Error>(DispatchResult::Normal),
            final(curr_p).heap@ == spec_trim(old(curr_p).heap@, n_trim as nat),
    {
        OpcodeTrim::trim(curr_p, n_trim)
    }

    #[inline]
    pub fn trim(curr_p: &mut Process, n_trim: usize) -> (r: RtResult<DispatchResult>)
        requires
            old(curr_p).wf(),
            old(curr_p).heap@.has_frame(n_trim as nat),
        ensures
            final(curr_p).wf(),
            spec_same_but_frame(old(curr_p), final(curr_p)),
            final(curr_p).context.live == old(curr_p).context.live,
            final(curr_p).context.cp == old(curr_p).context.cp,
            r == Ok::<DispatchResult, Error>(DispatchResult::Normal),
            final(curr_p).heap@ == spec_trim(old(curr_p).heap@, n_trim as nat),
    {
        let tmp_cp = curr_p.heap.stack_deallocate(n_trim);
        // after trimming the cp fits back on stack
        curr_p.heap.stack_push_lterm_unchecked(tmp_cp);
        Ok(DispatchResult::Normal)
    }
}

/// Set a slot of the frame on top of the stack to the empty list; the slot is
/// told by a Y register term.
pub struct OpcodeInit {}

impl OpcodeInit {
    pub const ARITY: usize = 1;

    pub fn run(curr_p: &mut Process, y: LTerm) -> (r: RtResult<DispatchResult>)
        requires
            old(curr_p).wf(),
            y.spec_is_special(),
            y.spec_special_tag() == SpecialTag::RegY,
        ensures
            final(curr_p).wf(),
            spec_same_but_frame(old(curr_p), final(curr_p)),
            final(curr_p).context.live == old(curr_p).context.live,
            final(curr_p).context.cp == old(curr_p).context.cp,
            old(curr_p).heap@.has_y(y.spec_special_value() as nat) ==> r == Ok::<
                DispatchResult,
                Error,
            >(DispatchResult::Normal) && final(curr_p).heap@ == old(curr_p).heap@.set_y(
                y.spec_special_value() as nat,
                LTerm::spec_nil().value,
            ),
            !old(curr_p).heap@.has_y(y.spec_special_value() as nat) ==> r == Err::<
                DispatchResult,
                Error,
            >(Error::StackIndexRange(y.spec_special_value())) && final(curr_p).heap@ == old(curr_p).heap@,
    {
        match curr_p.heap.set_y(y.get_special_value(), LTerm::nil()) {
            Ok(_) => Ok(DispatchResult::Normal),
            Err(e) => Err(e),
        }
    }
}

/// One operation on the frames of a stack.
pub enum FrameOp {
    /// Make a frame of `stack_need` slots, with `heap_need` words free.
    Allocate { stack_need: nat, heap_need: nat, zero: bool },
    /// Drop the frame of `n_free` slots that is on top.
    Deallocate { n_free: nat },
    /// Shrink the frame on top by `n_trim` slots.
    Trim { n_trim: nat },
}

/// What the frame operations work on: the memory and the continuation
/// pointer.
pub struct FrameState {
    pub heap: HeapView,
    pub cp: CodePtr,
}

/// The state after one frame operation, if the operation succeeds.
pub open spec fn spec_frame_step(s: FrameState, op: FrameOp) -> Option<FrameState> {
    match op {
        FrameOp::Allocate { stack_need, heap_need, zero } => match spec_gen_alloc(
            s.heap,
            s.cp,
            stack_need,
            heap_need,
            zero,
        ) {
            Ok(hv) => Some(FrameState { heap: hv, cp: s.cp }),
            Err(_) => None,
        },
        FrameOp::Deallocate { n_free } => if s.heap.has_frame(n_free) {
            Some(
                FrameState {
                    heap: s.heap.stack_dealloc(n_free),
                    cp: CodePtr { ptr: (s.heap.stack_top_word() - HIGHEST_BIT_CP) as Word },
                },
            )
        } else {
            None
        },
        FrameOp::Trim { n_trim } => if s.heap.has_frame(n_trim) {
            Some(FrameState { heap: spec_trim(s.heap, n_trim), cp: s.cp })
        } else {
            None
        },
    }
}

/// The state after the operations `ops`, one after the other, if each of
/// them succeeds.
pub open spec fn spec_frame_run(s: FrameState, ops: Seq<FrameOp>) -> Option<FrameState>
    decreases ops.len(),
{
    if ops.len() == 0 {
        Some(s)
    } else {
        match spec_frame_run(s, ops.drop_last()) {
            Some(before) => spec_frame_step(before, ops.last()),
            None => None,
        }
    }
}

/// One frame operation that succeeds leaves the stack top at or above the
/// heap top, and the continuation pointer a code location.
pub proof fn lemma_frame_step_keeps_stack_above_heap(s: FrameState, op: FrameOp)
    requires
        s.heap.wf(),
        s.cp.wf(),
        spec_frame_step(s, op).is_some(),
    ensures
        spec_frame_step(s, op).unwrap().heap.wf(),
        spec_frame_step(s, op).unwrap().heap.stack_top >= spec_frame_step(
            s,
            op,
        ).unwrap().heap.heap_top,
        spec_frame_step(s, op).unwrap().cp.wf(),
{
}

/// After any sequence of allocate, deallocate and trim operations that each
/// succeed, the stack top is at or above the heap top.
pub proof fn lemma_frame_ops_keep_stack_above_heap(s: FrameState, ops: Seq<FrameOp>)
    requires
        s.heap.wf(),
        s.cp.wf(),
        spec_frame_run(s, ops).is_some(),
    ensures
        spec_frame_run(s, ops).unwrap().heap.wf(),
        spec_frame_run(s, ops).unwrap().heap.stack_top >= spec_frame_run(
            s,
            ops,
        ).unwrap().heap.heap_top,
        spec_frame_run(s, ops).unwrap().cp.wf(),
    decreases ops.len(),
{
    if ops.len() > 0 {
        lemma_frame_ops_keep_stack_above_heap(s, ops.drop_last());
        lemma_frame_step_keeps_stack_above_heap(
            spec_frame_run(s, ops.drop_last()).unwrap(),
            ops.last(),
        );
    }
}

/// Deallocating a frame gives back the continuation pointer that the
/// allocation of that frame pushed, whatever the size of the frame, and puts
/// the stack top back where it was. This holds also after slots of the frame
/// were written and words were allocated on the heap in between: `later` is
/// any heap with the same stack top whose word on top of the stack is still
/// the one that was pushed.
pub proof fn lemma_deallocate_restores_cp(
    s: FrameState,
    stack_need: nat,
    heap_need: nat,
    zero: bool,
    later: HeapView,
)
    requires
        s.heap.wf(),
        s.cp.wf(),
        spec_gen_alloc(s.heap, s.cp, stack_need, heap_need, zero).is_ok(),
        later.data.len() == s.heap.data.len(),
        later.stack_top == spec_gen_alloc(s.heap, s.cp, stack_need, heap_need, zero).unwrap().stack_top,
        later.stack_top_word() == spec_gen_alloc(
            s.heap,
            s.cp,
            stack_need,
            heap_need,
            zero,
        ).unwrap().stack_top_word(),
    ensures
        ({
            let made = spec_frame_step(s, FrameOp::Allocate { stack_need, heap_need, zero });
            &&& made.is_some()
            &&& made.unwrap().heap.has_frame(stack_need)
            &&& spec_frame_step(made.unwrap(), FrameOp::Deallocate { n_free: stack_need }).unwrap().cp
                == s.cp
        }),
        later.has_frame(stack_need),
        spec_frame_step(
            FrameState { heap: later, cp: s.cp },
            FrameOp::Deallocate { n_free: stack_need },
        ).unwrap().cp == s.cp,
        spec_frame_step(
            FrameState { heap: later, cp: s.cp },
            FrameOp::Deallocate { n_free: stack_need },
        ).unwrap().heap.stack_top == s.heap.stack_top,
{
}

/// Trimming a frame by `n_trim` slots leaves the continuation pointer on the
/// new top of the stack, takes exactly `n_trim` words off the stack, and
/// leaves the heap region alone.
pub proof fn lemma_trim_keeps_cp_on_top(hv: HeapView, n_trim: nat)
    requires
        hv.wf(),
        hv.has_frame(n_trim),
    ensures
        spec_trim(hv, n_trim).wf(),
        spec_trim(hv, n_trim).stack_top_word() == hv.stack_top_word(),
        spec_trim(hv, n_trim).has_frame(0),
        spec_trim(hv, n_trim).stack_depth() == hv.stack_depth() - n_trim,
        spec_trim(hv, n_trim).available() == hv.available() + n_trim,
        spec_trim(hv, n_trim).heap_top == hv.heap_top,
{
}

} // verus!
