use erlangrt::beam::disp_result::DispatchResult;
use erlangrt::defs::exc_type::ExceptionType;
use erlangrt::defs::{Reductions, MAX_XREGS};
use erlangrt::emulator::code_srv::{CodePtr, CodeServer};
use erlangrt::emulator::gen_atoms::new_atom_table;
use erlangrt::emulator::heap::{Heap, DEFAULT_PROC_HEAP};
use erlangrt::emulator::mailbox::ProcessMailbox;
use erlangrt::emulator::mfa::MFArity;
use erlangrt::emulator::process::{Process, ProcessError};
use erlangrt::emulator::runtime_ctx::Context;
use erlangrt::emulator::scheduler::{Prio, Queue, SliceResult};
use erlangrt::fail::Error;
use erlangrt::term::boxed::Tuple;
use erlangrt::term::lterm::LTerm;

fn entry() -> MFArity {
    MFArity::new(LTerm::make_atom(10), LTerm::make_atom(11), 2)
}

fn code() -> CodeServer {
    let mut code = CodeServer::new();
    code.register(MFArity::new(LTerm::make_atom(10), LTerm::make_atom(11), 1), CodePtr { ptr: 8 });
    code.register(entry(), CodePtr { ptr: 0x4000 });
    code.register(entry(), CodePtr { ptr: 0x8000 });
    code
}

#[test]
fn spawn_with_unknown_entry_fails_with_not_found() {
    let unknown = MFArity::new(LTerm::make_atom(10), LTerm::make_atom(11), 3);
    let r = Process::new(LTerm::make_local_pid(1), LTerm::nil(), &unknown, Prio::Normal, &code());
    assert!(matches!(r, Err(Error::NotFound)));
    let empty = CodeServer::new();
    let r = Process::new(LTerm::make_local_pid(1), LTerm::nil(), &entry(), Prio::Normal, &empty);
    assert!(matches!(r, Err(Error::NotFound)));
}

#[test]
fn spawn_starts_at_the_entry_with_an_empty_heap() {
    let parent = LTerm::make_local_pid(1);
    let p = Process::new(LTerm::make_local_pid(2), parent, &entry(), Prio::High, &code()).unwrap();
    assert_eq!(p.pid, LTerm::make_local_pid(2));
    assert_eq!(p.prio, Prio::High);
    assert_eq!(p.current_queue, Queue::NoQueue);
    assert_eq!(p.timeslice_result, SliceResult::NoResult);
    assert_eq!(p.context.ip, CodePtr { ptr: 0x4000 });
    assert_eq!(p.context.cp, CodePtr::null());
    assert_eq!(p.context.reductions, Reductions::DEFAULT);
    assert_eq!(p.context.regs.len() as u64, MAX_XREGS);
    assert_eq!(p.heap.get_heap_top(), 0);
    assert_eq!(p.heap.get_stack_top(), DEFAULT_PROC_HEAP);
    assert_eq!(p.heap.get_heap_max_capacity(), DEFAULT_PROC_HEAP);
    assert_eq!(p.mailbox.len(), 0);
    assert_eq!(p.error, ProcessError::NoError);
    assert!(!p.is_failed());
}

#[test]
fn jump_moves_the_instruction_pointer() {
    let code = code();
    let mut p =
        Process::new(LTerm::make_local_pid(2), LTerm::nil(), &entry(), Prio::Low, &code).unwrap();
    let other = MFArity::new(LTerm::make_atom(10), LTerm::make_atom(11), 1);
    assert_eq!(p.jump(&other, &code), Ok(()));
    assert_eq!(p.context.ip, CodePtr { ptr: 8 });
    let unknown = MFArity::new(LTerm::make_atom(1), LTerm::make_atom(1), 1);
    assert_eq!(p.jump(&unknown, &code), Err(Error::NotFound));
    assert_eq!(p.context.ip, CodePtr { ptr: 8 });
}

#[test]
fn a_budget_of_200_yields_at_the_201st_fetch() {
    let mut ctx = Context::new(CodePtr { ptr: 8 });
    assert_eq!(ctx.reductions, 200);
    let mut yields = 0;
    for attempt in 1..=201 {
        match ctx.fetch_opcode_cost() {
            DispatchResult::Normal => assert!(attempt <= 200),
            DispatchResult::Yield => {
                assert_eq!(attempt, 201);
                yields += 1;
            }
            DispatchResult::Finished => unreachable!(),
        }
    }
    assert_eq!(yields, 1);
    assert_eq!(ctx.reductions, 0);
    ctx.swap_in();
    assert_eq!(ctx.reductions, 200);
    assert_eq!(ctx.fetch_opcode_cost(), DispatchResult::Normal);
    assert_eq!(ctx.reductions, 199);
}

#[test]
fn weighted_costs_spend_the_budget_faster() {
    let mut ctx = Context::new(CodePtr { ptr: 8 });
    assert_eq!(ctx.take_reductions(150), DispatchResult::Normal);
    assert_eq!(ctx.reductions, 50);
    assert_eq!(ctx.take_reductions(150), DispatchResult::Normal);
    assert_eq!(ctx.reductions, -100);
    assert_eq!(ctx.take_reductions(1), DispatchResult::Yield);
    assert_eq!(ctx.reductions, -100);
}

#[test]
fn registers_hold_terms() {
    let mut ctx = Context::new(CodePtr { ptr: 8 });
    assert_eq!(ctx.x(0), LTerm::non_value());
    ctx.set_x(255, LTerm::make_atom(3));
    assert_eq!(ctx.x(255), LTerm::make_atom(3));
    ctx.set_cp(LTerm::make_cp(0x40));
    assert_eq!(ctx.cp, CodePtr { ptr: 0x40 });
    assert_eq!(CodePtr { ptr: 0x40 }.to_cp_term(), LTerm::make_cp(0x40));
    assert_eq!(CodePtr::from_cp(LTerm::make_cp(0x48)), CodePtr { ptr: 0x48 });
    assert!(CodePtr::null().is_null());
}

#[test]
fn exception_is_recorded_in_the_process() {
    let mut p =
        Process::new(LTerm::make_local_pid(2), LTerm::nil(), &entry(), Prio::Normal, &code())
            .unwrap();
    let r = p.exception(ExceptionType::Throw, LTerm::make_small_signed(5));
    assert!(r.is_non_value());
    assert!(p.is_failed());
    assert_eq!(p.error, ProcessError::Exception(ExceptionType::Throw, LTerm::make_small_signed(5)));
    let atoms = new_atom_table();
    assert_eq!(p.error.fmt(&p.heap, &atoms), "throw(5)");
    assert_eq!(ProcessError::NoError.fmt(&p.heap, &atoms), "NoError");
    let exit = ProcessError::Exception(ExceptionType::Exit, LTerm::nil());
    assert_eq!(exit.fmt(&p.heap, &atoms), "exit([])");
    let error = ProcessError::Exception(ExceptionType::Error, LTerm::make_atom(2));
    assert_eq!(error.fmt(&p.heap, &atoms), "error('badarg')");
}

#[test]
fn delivered_message_is_a_copy() {
    let atoms = new_atom_table();
    let mut sender = Heap::new(64);
    let inner = Tuple::create_into(
        &mut sender,
        &[LTerm::make_small_signed(1), LTerm::make_small_signed(2)],
    )
    .unwrap();
    let message = Tuple::create_into(&mut sender, &[inner, LTerm::make_atom(1)]).unwrap();
    assert_eq!(message.fmt(&sender, &atoms), "{{1, 2}, 'true'}");

    let mut receiver =
        Process::new(LTerm::make_local_pid(2), LTerm::nil(), &entry(), Prio::Normal, &code())
            .unwrap();
    // the receiver has something of its own, so that addresses differ
    assert!(receiver.heap.allocate(5, true).is_ok());
    assert_eq!(receiver.deliver_message(&sender, message), Ok(()));
    assert_eq!(receiver.mailbox.len(), 1);
    let delivered = receiver.mailbox.get(0).unwrap();
    assert_ne!(delivered, message);
    assert_eq!(delivered.fmt(&receiver.heap, &atoms), "{{1, 2}, 'true'}");
    assert_eq!(receiver.heap.get_heap_top(), 5 + 3 + 3);

    // the sender changes what it sent
    sender.set_word(1, LTerm::make_small_signed(99).raw());
    sender.set_word(5, LTerm::make_atom(0).raw());
    assert_eq!(message.fmt(&sender, &atoms), "{{99, 2}, 'false'}");
    assert_eq!(delivered.fmt(&receiver.heap, &atoms), "{{1, 2}, 'true'}");

    // and a later delivery leaves the first alone
    assert_eq!(receiver.deliver_message(&sender, message), Ok(()));
    assert_eq!(receiver.mailbox.len(), 2);
    assert_eq!(receiver.mailbox.get(0), Some(delivered));
    assert_eq!(delivered.fmt(&receiver.heap, &atoms), "{{1, 2}, 'true'}");
    let second = receiver.mailbox.get(1).unwrap();
    assert_eq!(second.fmt(&receiver.heap, &atoms), "{{99, 2}, 'false'}");
    assert_eq!(receiver.mailbox.get(2), None);
}

#[test]
fn delivery_fails_without_change() {
    let mut sender = Heap::new(64);
    let message = Tuple::create_into(&mut sender, &[LTerm::nil(); 9]).unwrap();
    let mut receiver =
        Process::new(LTerm::make_local_pid(2), LTerm::nil(), &entry(), Prio::Normal, &code())
            .unwrap();
    assert!(receiver.heap.allocate(DEFAULT_PROC_HEAP - 9, false).is_ok());
    assert_eq!(receiver.deliver_message(&sender, message), Err(Error::HeapIsFull));
    assert_eq!(receiver.mailbox.len(), 0);
    assert_eq!(receiver.heap.get_heap_available(), 9);
    // a pointer to nothing cannot be copied
    let dangling = LTerm::make_boxed(0x10000);
    assert_eq!(receiver.deliver_message(&sender, dangling), Err(Error::TermIsNotABoxed));
    let dangling_list = LTerm::make_cons(0x10000);
    assert_eq!(receiver.deliver_message(&sender, dangling_list), Err(Error::TermIsNotABoxed));
    // what points nowhere is delivered as it is
    assert_eq!(receiver.deliver_message(&sender, LTerm::make_small_signed(3)), Ok(()));
    assert_eq!(receiver.mailbox.get(0), Some(LTerm::make_small_signed(3)));
    assert_eq!(receiver.heap.get_heap_available(), 9);
}

#[test]
fn mailbox_keeps_the_order() {
    let mut m = ProcessMailbox::new();
    m.put(LTerm::make_atom(1));
    m.put(LTerm::make_atom(2));
    assert_eq!(m.len(), 2);
    assert_eq!(m.get(0), Some(LTerm::make_atom(1)));
    assert_eq!(m.get(1), Some(LTerm::make_atom(2)));
}
