//! The mailbox of a process: the messages that wait to be received.
use vstd::prelude::*;
use crate::term::lterm::LTerm;

verus! {

pub struct ProcessMailbox {
    inbox: Vec<LTerm>,
}

impl View for ProcessMailbox {
    type V = Seq<LTerm>;

    closed spec fn view(&self) -> Seq<LTerm> {
        self.inbox@
    }
}

impl ProcessMailbox {
    pub fn new() -> (m: ProcessMailbox)
        ensures
            m@ == Seq::<LTerm>::empty(),
    {
        ProcessMailbox { inbox: Vec::new() }
    }

    /// Puts a message at the end of the mailbox.
    pub fn put(&mut self, message: LTerm)
        ensures
            final(self)@ == old(self)@.push(message),
    {
        self.inbox.push(message);
    }

    pub fn len(&self) -> (n: usize)
        ensures
            n == self@.len(),
    {
        self.inbox.len()
    }

    /// The message `i`, counted from the oldest.
    pub fn get(&self, i: usize) -> (r: Option<LTerm>)
        ensures
            r == if i < self@.len() {
                Some(self@[i as int])
            } else {
                None
            },
    {
        if i < self.inbox.len() {
            Some(self.inbox[i])
        } else {
            None
        }
    }
}

} // verus!
