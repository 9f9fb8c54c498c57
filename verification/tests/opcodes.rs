use erlangrt::beam::disp_result::DispatchResult;
use erlangrt::beam::opcodes::op_memory::{
    gen_alloc, OpcodeAllocate, OpcodeAllocateHeap, OpcodeAllocateHeapZero, OpcodeAllocateZero,
    OpcodeDeallocate, OpcodeInit, OpcodeTestHeap, OpcodeTrim,
};
use erlangrt::defs::sizes::WordSize;
use erlangrt::emulator::code_srv::{CodePtr, CodeServer};
use erlangrt::emulator::heap::{Heap, DEFAULT_PROC_HEAP};
use erlangrt::emulator::mfa::MFArity;
use erlangrt::emulator::process::Process;
use erlangrt::emulator::runtime_ctx::Context;
use erlangrt::emulator::scheduler::Prio;
use erlangrt::fail::Error;
use erlangrt::term::lterm::LTerm;

fn spawn() -> Process {
    let mfa = MFArity::new(LTerm::make_atom(10), LTerm::make_atom(11), 0);
    let mut code = CodeServer::new();
    code.register(mfa, CodePtr { ptr: 0x4000 });
    let mut p =
        Process::new(LTerm::make_local_pid(1), LTerm::nil(), &mfa, Prio::Normal, &code).unwrap();
    p.context.cp = CodePtr { ptr: 0x5000 };
    p
}

#[test]
fn allocate_pushes_the_continuation_pointer_on_top() {
    let mut p = spawn();
    assert_eq!(OpcodeAllocate::run(&mut p, 3, 2), Ok(DispatchResult::Normal));
    assert_eq!(p.context.live, 2);
    assert_eq!(p.heap.get_stack_top(), DEFAULT_PROC_HEAP - 4);
    assert_eq!(p.heap.get_term(DEFAULT_PROC_HEAP - 4), LTerm::make_cp(0x5000));
    assert!(p.heap.get_stack_top() >= p.heap.get_heap_top());
}

#[test]
fn allocate_zero_clears_the_new_slots() {
    let mut p = spawn();
    // leave stale words where the frame will be
    assert_eq!(OpcodeAllocate::run(&mut p, 2, 0), Ok(DispatchResult::Normal));
    assert_eq!(p.heap.set_y(0, LTerm::make_boxed(8)), Ok(()));
    assert_eq!(p.heap.set_y(1, LTerm::make_boxed(16)), Ok(()));
    assert_eq!(OpcodeDeallocate::run(&mut p, 2), Ok(DispatchResult::Normal));
    assert_eq!(OpcodeAllocateZero::run(&mut p, 1, 0), Ok(DispatchResult::Normal));
    assert_eq!(p.heap.get_y(0), Ok(LTerm::non_value()));
    assert_eq!(p.heap.get_term(p.heap.get_stack_top()), LTerm::make_cp(0x5000));
}

#[test]
fn allocate_keeps_stale_words_without_zero() {
    let mut p = spawn();
    assert_eq!(OpcodeAllocate::run(&mut p, 1, 0), Ok(DispatchResult::Normal));
    assert_eq!(p.heap.set_y(0, LTerm::make_atom(5)), Ok(()));
    assert_eq!(OpcodeDeallocate::run(&mut p, 1), Ok(DispatchResult::Normal));
    assert_eq!(OpcodeAllocate::run(&mut p, 1, 0), Ok(DispatchResult::Normal));
    assert_eq!(p.heap.get_y(0), Ok(LTerm::make_atom(5)));
}

#[test]
fn deallocate_restores_the_continuation_pointer() {
    for n in [0usize, 1, 5, 100] {
        let mut p = spawn();
        p.context.cp = CodePtr { ptr: 0x7008 };
        let top = p.heap.get_stack_top();
        assert_eq!(OpcodeAllocateZero::run(&mut p, n, 0), Ok(DispatchResult::Normal));
        // the callee returns somewhere else in between, and fills its slots
        p.context.cp = CodePtr { ptr: 0x100 };
        if n > 0 {
            assert_eq!(p.heap.set_y(0, LTerm::nil()), Ok(()));
        }
        assert_eq!(OpcodeDeallocate::run(&mut p, n), Ok(DispatchResult::Normal));
        assert_eq!(p.context.cp, CodePtr { ptr: 0x7008 });
        assert_eq!(p.heap.get_stack_top(), top);
    }
}

#[test]
fn trim_keeps_the_continuation_pointer_on_top() {
    let mut p = spawn();
    assert_eq!(OpcodeAllocateZero::run(&mut p, 5, 0), Ok(DispatchResult::Normal));
    for y in 0..5 {
        assert_eq!(p.heap.set_y(y, LTerm::make_small_signed(y as i64)), Ok(()));
    }
    let depth = p.heap.stack_depth();
    let available = p.heap.get_heap_available();
    assert_eq!(OpcodeTrim::run(&mut p, 2, 3), Ok(DispatchResult::Normal));
    assert_eq!(p.heap.stack_depth(), depth - 2);
    assert_eq!(p.heap.get_heap_available(), available + 2);
    assert_eq!(p.heap.get_term(p.heap.get_stack_top()), LTerm::make_cp(0x5000));
    // the slots that remain are the last three
    assert_eq!(p.heap.get_y(0), Ok(LTerm::make_small_signed(2)));
    assert_eq!(p.heap.get_y(2), Ok(LTerm::make_small_signed(4)));
    assert_eq!(OpcodeTrim::trim(&mut p, 0), Ok(DispatchResult::Normal));
    assert_eq!(p.heap.stack_depth(), depth - 2);
    assert_eq!(OpcodeDeallocate::run(&mut p, 3), Ok(DispatchResult::Normal));
    assert_eq!(p.heap.stack_depth(), 0);
    assert_eq!(p.context.cp, CodePtr { ptr: 0x5000 });
}

#[test]
fn allocate_heap_zero_with_no_free_margin_fails_and_leaves_the_stack() {
    let mut p = spawn();
    assert_eq!(OpcodeAllocate::run(&mut p, 1, 0), Ok(DispatchResult::Normal));
    let free = p.heap.get_heap_available();
    assert!(p.heap.allocate(free, false).is_ok());
    assert_eq!(p.heap.get_heap_available(), 0);
    let stack_top = p.heap.get_stack_top();
    let top_word = p.heap.get_word(stack_top);
    let slot = p.heap.get_word(stack_top + 1);
    assert_eq!(OpcodeAllocateHeapZero::run(&mut p, 2, 1, 0), Err(Error::HeapIsFull));
    assert_eq!(p.heap.get_stack_top(), stack_top);
    assert_eq!(p.heap.get_word(stack_top), top_word);
    assert_eq!(p.heap.get_word(stack_top + 1), slot);
    assert_eq!(p.heap.get_heap_available(), 0);
}

#[test]
fn allocate_fails_when_the_stack_has_no_room() {
    let mut p = spawn();
    assert!(p.heap.allocate(DEFAULT_PROC_HEAP - 3, false).is_ok());
    // three words are free: a frame of three needs four
    assert_eq!(OpcodeAllocate::run(&mut p, 3, 1), Err(Error::StackIsFull));
    assert_eq!(p.context.live, 1);
    assert_eq!(p.heap.stack_depth(), 0);
    assert_eq!(OpcodeAllocateHeap::run(&mut p, 3, 3, 0), Err(Error::StackIsFull));
    assert_eq!(OpcodeAllocateHeap::run(&mut p, 0, 4, 0), Err(Error::HeapIsFull));
    assert_eq!(OpcodeAllocateZero::run(&mut p, usize::MAX, 0), Err(Error::StackIsFull));
    assert_eq!(OpcodeAllocateHeap::run(&mut p, 2, 3, 7), Ok(DispatchResult::Normal));
    assert_eq!(p.context.live, 7);
    assert_eq!(p.heap.stack_depth(), 3);
    assert_eq!(p.heap.get_heap_available(), 0);
}

#[test]
fn test_heap_only_checks() {
    let mut p = spawn();
    assert_eq!(OpcodeTestHeap::run(&mut p, DEFAULT_PROC_HEAP, 3), Ok(DispatchResult::Normal));
    assert_eq!(OpcodeTestHeap::run(&mut p, DEFAULT_PROC_HEAP + 1, 3), Err(Error::HeapIsFull));
    assert_eq!(p.heap.get_heap_top(), 0);
    assert_eq!(p.heap.get_stack_top(), DEFAULT_PROC_HEAP);
    assert_eq!(p.context.live, 0);
}

#[test]
fn init_sets_a_slot_to_the_empty_list() {
    let mut p = spawn();
    assert_eq!(OpcodeAllocateZero::run(&mut p, 2, 0), Ok(DispatchResult::Normal));
    assert_eq!(OpcodeInit::run(&mut p, LTerm::make_yreg(1)), Ok(DispatchResult::Normal));
    assert_eq!(p.heap.get_y(1), Ok(LTerm::nil()));
    assert_eq!(p.heap.get_y(0), Ok(LTerm::non_value()));
    assert_eq!(OpcodeInit::run(&mut p, LTerm::make_yreg(2)), Err(Error::StackIndexRange(2)));
}

#[test]
fn frames_never_push_the_stack_below_the_heap() {
    let mut p = spawn();
    assert!(p.heap.allocate(DEFAULT_PROC_HEAP - 10, false).is_ok());
    let mut frames: Vec<usize> = Vec::new();
    for step in 0..40usize {
        let n = step % 4;
        match OpcodeAllocate::run(&mut p, n, 0) {
            Ok(_) => frames.push(n),
            Err(e) => {
                assert_eq!(e, Error::StackIsFull);
                let last = frames.pop().unwrap();
                if last > 0 {
                    assert!(OpcodeTrim::run(&mut p, 1, 0).is_ok());
                    assert!(p.heap.get_stack_top() >= p.heap.get_heap_top());
                    assert!(OpcodeDeallocate::run(&mut p, last - 1).is_ok());
                } else {
                    assert!(OpcodeDeallocate::run(&mut p, 0).is_ok());
                }
            }
        }
        assert!(p.heap.get_stack_top() >= p.heap.get_heap_top());
    }
}

#[test]
fn gen_alloc_works_on_context_and_heap_alone() {
    let mut ctx = Context::new(CodePtr { ptr: 8 });
    ctx.cp = CodePtr { ptr: 24 };
    let mut hp = Heap::new(4);
    assert_eq!(
        gen_alloc(&mut ctx, &mut hp, WordSize::new(3), WordSize::new(0), 9, true),
        Ok(())
    );
    assert_eq!(ctx.live, 9);
    assert_eq!(hp.get_stack_top(), 0);
    assert_eq!(hp.get_term(0), LTerm::make_cp(24));
    assert_eq!(
        gen_alloc(&mut ctx, &mut hp, WordSize::new(0), WordSize::new(0), 1, true),
        Err(Error::StackIsFull)
    );
    assert_eq!(
        gen_alloc(&mut ctx, &mut hp, WordSize::new(0), WordSize::new(1), 2, true),
        Err(Error::HeapIsFull)
    );
    assert_eq!(ctx.live, 2);
}
