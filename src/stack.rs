use vstd::prelude::*;
use crate::fault::Fault;

verus! {

/// Depth of the call stack: the sixteen levels of the classic machine.
pub const STACK_SIZE: usize = 16;

/// A bounded last-in first-out stack of return addresses.
pub struct Stack {
    data: Vec<u16>,
}

impl View for Stack {
    type V = Seq<u16>;

    /// The addresses held, oldest first.
    closed spec fn view(&self) -> Seq<u16> {
        self.data@
    }
}

impl Stack {
    /// The stack never holds more than `STACK_SIZE` addresses.
    pub open spec fn wf(&self) -> bool {
        self@.len() <= STACK_SIZE
    }

    /// An empty stack.
    pub fn new() -> (s: Stack)
        ensures
            s@ == Seq::<u16>::empty(),
            s.wf(),
    {
        Stack { data: Vec::new() }
    }

    /// Pushes `value`; a full stack is an overflow and stays as it was.
    pub fn push(&mut self, value: u16) -> (r: Result<(), Fault>)
        ensures
            old(self)@.len() < STACK_SIZE ==> r == Ok::<(), Fault>(())
                && final(self)@ == old(self)@.push(value),
            old(self)@.len() >= STACK_SIZE ==> r == Err::<(), Fault>(Fault::StackOverflow)
                && final(self)@ == old(self)@,
            old(self).wf() ==> final(self).wf(),
    {
        if self.data.len() >= STACK_SIZE {
            return Err(Fault::StackOverflow);
        }
        self.data.push(value);
        Ok(())
    }

    /// Pops the most recent address; an empty stack is an underflow and
    /// stays empty.
    pub fn pop(&mut self) -> (r: Result<u16, Fault>)
        ensures
            old(self)@.len() > 0 ==> r == Ok::<u16, Fault>(old(self)@.last())
                && final(self)@ == old(self)@.drop_last(),
            old(self)@.len() == 0 ==> r == Err::<u16, Fault>(Fault::StackUnderflow)
                && final(self)@ == old(self)@,
            old(self).wf() ==> final(self).wf(),
    {
        match self.data.pop() {
            Some(a) => Ok(a),
            None => Err(Fault::StackUnderflow),
        }
    }

    /// Number of addresses held.
    pub fn len(&self) -> (n: usize)
        ensures
            n == self@.len(),
    {
        self.data.len()
    }

    /// Whether no address is held.
    pub fn is_empty(&self) -> (b: bool)
        ensures
            b == (self@.len() == 0),
    {
        self.data.len() == 0
    }
}

} // verus!
