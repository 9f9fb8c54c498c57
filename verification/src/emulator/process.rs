//! The process: an independent unit of computation with its own heap, stack,
//! registers and message queue.
use vstd::prelude::*;
use vstd::string::StringExecFns;
use crate::defs::exc_type::ExceptionType;
use crate::emulator::atom::AtomTable;
use crate::emulator::code_srv::CodeServer;
use crate::emulator::heap::copy_term::{
    copy_to, lemma_value_in_grown_heap, spec_closed, spec_copy_size, spec_same_below, spec_value,
};
use crate::emulator::heap::{Heap, HeapView, DEFAULT_PROC_HEAP};
use crate::emulator::mailbox::ProcessMailbox;
use crate::emulator::mfa::MFArity;
use crate::emulator::runtime_ctx::Context;
use crate::emulator::scheduler::{Prio, Queue, SliceResult};
use crate::emulator::code_srv::spec_lookup;
use crate::fail::{Error, RtResult};
use crate::term::fmt::spec_fmt;
use crate::term::lterm::LTerm;

verus! {

/// The error that a process carries, if it carries one.
#[derive(Debug, Eq, PartialEq, Structural, Copy, Clone)]
pub enum ProcessError {
    NoError,
    Exception(ExceptionType, LTerm),
}

/// How a process error is printed.
pub open spec fn spec_process_error_str(
    e: ProcessError,
    hv: crate::emulator::heap::HeapView,
    atoms: Seq<Seq<char>>,
) -> Seq<char> {
    match e {
        ProcessError::NoError => "NoError"@,
        ProcessError::Exception(exc_type, exc_reason) => match exc_type {
            ExceptionType::Exit => "exit("@ + spec_fmt(hv, atoms, exc_reason, hv.heap_top) + ")"@,
            ExceptionType::Throw => "throw("@ + spec_fmt(hv, atoms, exc_reason, hv.heap_top)
                + ")"@,
            ExceptionType::Error => "error("@ + spec_fmt(hv, atoms, exc_reason, hv.heap_top)
                + ")"@,
        },
    }
}

impl ProcessError {
    /// The error as it is printed; its reason is a term of the heap `hp`.
    pub fn fmt(&self, hp: &Heap, atoms: &AtomTable) -> (s: String)
        requires
            hp.wf(),
        ensures
            s@ == spec_process_error_str(*self, hp@, atoms@),
    {
        let mut out = String::new();
        match *self {
            ProcessError::NoError => out.append("NoError"),
            ProcessError::Exception(exc_type, exc_reason) => {
                match exc_type {
                    ExceptionType::Exit => out.append("exit("),
                    ExceptionType::Throw => out.append("throw("),
                    ExceptionType::Error => out.append("error("),
                }
                exc_reason.fmt_into(hp, atoms, hp.get_heap_top(), &mut out);
                out.append(")");
            },
        }
        assert(out@ =~= spec_process_error_str(*self, hp@, atoms@));
        out
    }
}

pub struct Process {
    pub pid: LTerm,
    // Scheduling and fail state
    /// Scheduling priority (selects the runqueue when this process is scheduled)
    pub prio: Prio,
    /// Current scheduler queue where this process is registered
    pub current_queue: Queue,
    // Execution Context, etc.
    /// Runtime context with registers, instruction pointer etc
    pub context: Context,
    // Memory
    pub heap: Heap,
    pub mailbox: ProcessMailbox,
    // Error handling
    /// Record result of last scheduled timeslice for this process
    /// (updated by the vm loop)
    pub timeslice_result: SliceResult,
    pub error: ProcessError,
}

impl Process {
    pub open spec fn wf(&self) -> bool {
        &&& self.pid.spec_is_local_pid()
        &&& self.context.wf()
        &&& self.heap.wf()
    }

    pub open spec fn spec_is_failed(&self) -> bool {
        self.error != ProcessError::NoError
    }

    /// A new process that will begin with the function `mfarity`. Fails, and
    /// makes no heap, if no code is loaded for that function.
    // Call this only from VM, the new process must be immediately registered
    // in proc registry for this VM
    pub fn new(
        pid: LTerm,
        _parent_pid: LTerm,
        mfarity: &MFArity,
        prio: Prio,
        code_server: &CodeServer,
    ) -> (r: RtResult<Process>)
        requires
            pid.spec_is_local_pid(),
            _parent_pid.spec_is_local_pid() || _parent_pid == LTerm::spec_nil(),
            code_server.wf(),
        ensures
            spec_lookup(code_server@, *mfarity, 0).is_none() ==> (r matches Err(e) && e
                == Error::NotFound),
            spec_lookup(code_server@, *mfarity, 0).is_some() ==> {
                &&& r.is_ok()
                &&& r.unwrap().wf()
                &&& r.unwrap().pid == pid
                &&& r.unwrap().prio == prio
                &&& r.unwrap().current_queue == Queue::NoQueue
                &&& r.unwrap().timeslice_result == SliceResult::NoResult
                &&& r.unwrap().heap@.heap_top == 0
                &&& r.unwrap().heap@.stack_top == DEFAULT_PROC_HEAP
                &&& r.unwrap().heap@.data == Seq::new(DEFAULT_PROC_HEAP as nat, |i: int| 0u64)
                &&& r.unwrap().mailbox@ == Seq::<LTerm>::empty()
                &&& r.unwrap().context.ip == spec_lookup(code_server@, *mfarity, 0).unwrap()
                &&& r.unwrap().context.cp.ptr == 0
                &&& forall|i: int|
                    0 <= i < crate::defs::MAX_XREGS ==> (#[trigger] r.unwrap().context.regs@[i]).value
                        == 0
                &&& r.unwrap().context.live == 0
                &&& r.unwrap().context.reductions == crate::defs::Reductions::DEFAULT
                &&& r.unwrap().error == ProcessError::NoError
            },
    {
        // Process must start with some code location
        match code_server.lookup_and_load(mfarity) {
            Ok(ip) => {
                let p = Process {
                    pid,
                    // Scheduling
                    prio,
                    current_queue: Queue::NoQueue,
                    timeslice_result: SliceResult::NoResult,
                    // Memory
                    heap: Heap::new(DEFAULT_PROC_HEAP),
                    mailbox: ProcessMailbox::new(),
                    // Execution
                    context: Context::new(ip),
                    error: ProcessError::NoError,
                };
                Ok(p)
            },
            Err(e) => Err(e),
        }
    }

    /// Returns true if there was an error or exception during the last timeslice.
    #[inline]
    #[verifier::when_used_as_spec(spec_is_failed)]
    pub fn is_failed(&self) -> (b: bool)
        ensures
            b == self.spec_is_failed(),
    {
        self.error != ProcessError::NoError
    }

    /// Makes the process go on at the function `mfarity`. Fails, changing
    /// nothing, if no code is loaded for that function.
    pub fn jump(&mut self, mfarity: &MFArity, code_server: &CodeServer) -> (r: RtResult<()>)
        requires
            old(self).wf(),
            code_server.wf(),
        ensures
            final(self).wf(),
            match spec_lookup(code_server@, *mfarity, 0) {
                Some(ip) => r == Ok::<(), Error>(()) && final(self).context.ip == ip,
                None => r == Err::<(), Error>(Error::NotFound) && final(self).context.ip == old(self).context.ip,
            },
            final(self).context.cp == old(self).context.cp,
            final(self).context.live == old(self).context.live,
            final(self).context.regs == old(self).context.regs,
            final(self).context.reductions == old(self).context.reductions,
            final(self).pid == old(self).pid,
            final(self).prio == old(self).prio,
            final(self).current_queue == old(self).current_queue,
            final(self).heap == old(self).heap,
            final(self).mailbox == old(self).mailbox,
            final(self).timeslice_result == old(self).timeslice_result,
            final(self).error == old(self).error,
    {
        match code_server.lookup_and_load(mfarity) {
            Ok(ip) => {
                self.context.ip = ip;
                Ok(())
            },
            Err(e) => Err(e),
        }
    }

    /// Records an exception of the kind `exc` with the reason `rsn` as the
    /// error of the process, and returns the non-value for the caller to
    /// return in its turn. A process carries one error at most.
    pub fn exception(&mut self, exc: ExceptionType, rsn: LTerm) -> (r: LTerm)
        requires
            !old(self).spec_is_failed(),
        ensures
            r.spec_is_non_value(),
            final(self).error == ProcessError::Exception(exc, rsn),
            final(self).pid == old(self).pid,
            final(self).prio == old(self).prio,
            final(self).current_queue == old(self).current_queue,
            final(self).context == old(self).context,
            final(self).heap == old(self).heap,
            final(self).mailbox == old(self).mailbox,
            final(self).timeslice_result == old(self).timeslice_result,
    {
        self.set_error(ProcessError::Exception(exc, rsn))
    }

    /// Sets error state from an opcode or a BIF. VM will hopefully check this
    /// immediately and finish the process or catch the error.
    fn set_error(&mut self, e: ProcessError) -> (r: LTerm)
        requires
            !old(self).spec_is_failed(),
        ensures
            r.spec_is_non_value(),
            final(self).error == e,
            final(self).pid == old(self).pid,
            final(self).prio == old(self).prio,
            final(self).current_queue == old(self).current_queue,
            final(self).context == old(self).context,
            final(self).heap == old(self).heap,
            final(self).mailbox == old(self).mailbox,
            final(self).timeslice_result == old(self).timeslice_result,
    {
        self.error = e;
        LTerm::non_value()
    }

    /// Copy a message and put into process mailbox. The message is a term of
    /// the heap `sender_heap`; what is put into the mailbox is a copy of it in
    /// the heap of this process, which is worth the same. Fails, changing
    /// nothing, if a pointer in the message points to nothing or if the heap
    /// of this process has not the words for the copy.
    pub fn deliver_message(&mut self, sender_heap: &Heap, message: LTerm) -> (r: RtResult<()>)
        requires
            old(self).wf(),
            sender_heap.wf(),
        ensures
            final(self).wf(),
            final(self).pid == old(self).pid,
            final(self).prio == old(self).prio,
            final(self).current_queue == old(self).current_queue,
            final(self).context == old(self).context,
            final(self).timeslice_result == old(self).timeslice_result,
            final(self).error == old(self).error,
            !spec_closed(sender_heap@, message, sender_heap@.heap_top) ==> r == Err::<(), Error>(
                Error::TermIsNotABoxed,
            ) && final(self).heap@ == old(self).heap@ && final(self).mailbox@ == old(self).mailbox@,
            spec_closed(sender_heap@, message, sender_heap@.heap_top) && !old(self).heap@.has_available(spec_copy_size(sender_heap@, message, sender_heap@.heap_top))
                ==> r == Err::<(), Error>(Error::HeapIsFull) && final(self).heap@ == old(self).heap@ && final(self).mailbox@ == old(self).mailbox@,
            spec_closed(sender_heap@, message, sender_heap@.heap_top) && old(self).heap@.has_available(spec_copy_size(sender_heap@, message, sender_heap@.heap_top))
                ==> {
                &&& r == Ok::<(), Error>(())
                &&& final(self).mailbox@.len() == old(self).mailbox@.len() + 1
                &&& final(self).mailbox@.drop_last() == old(self).mailbox@
                &&& spec_closed(
                    final(self).heap@,
                    final(self).mailbox@.last(),
                    final(self).heap@.heap_top,
                )
                &&& spec_value(
                    final(self).heap@,
                    final(self).mailbox@.last(),
                    final(self).heap@.heap_top,
                ) == spec_value(sender_heap@, message, sender_heap@.heap_top)
                &&& spec_same_below(old(self).heap@, final(self).heap@, old(self).heap@.heap_top)
                &&& final(self).heap@.heap_top == old(self).heap@.heap_top + spec_copy_size(
                    sender_heap@,
                    message,
                    sender_heap@.heap_top,
                )
                &&& final(self).heap@.stack_top == old(self).heap@.stack_top
            },
    {
        match copy_to(message, sender_heap, &mut self.heap) {
            Ok(m1) => {
                self.mailbox.put(m1);
                assert(self.mailbox@.drop_last() =~= old(self).mailbox@);
                Ok(())
            },
            Err(e) => Err(e),
        }
    }
}

/// A message in a mailbox is a copy that nothing done to the term that it
/// was copied from can change. `delivered` is worth in the heap `receiver` what `message` was
/// worth in the heap of its sender when it was delivered. Whatever the
/// heap of the sender holds later, and whatever is allocated later in the
/// heap of the receiver above what was there, `delivered` is still worth what
/// `message` was worth then.
pub proof fn lemma_delivered_message_is_isolated(
    sender_then: HeapView,
    message: LTerm,
    receiver: HeapView,
    delivered: LTerm,
    sender_later: HeapView,
    receiver_later: HeapView,
)
    requires
        spec_closed(receiver, delivered, receiver.heap_top),
        spec_value(receiver, delivered, receiver.heap_top) == spec_value(
            sender_then,
            message,
            sender_then.heap_top,
        ),
        spec_same_below(receiver, receiver_later, receiver.heap_top),
    ensures
        spec_closed(receiver_later, delivered, receiver_later.heap_top),
        spec_value(receiver_later, delivered, receiver_later.heap_top) == spec_value(
            sender_then,
            message,
            sender_then.heap_top,
        ),
{
    lemma_value_in_grown_heap(receiver, receiver_later, delivered);
}

} // verus!
