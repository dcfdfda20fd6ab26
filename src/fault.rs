use vstd::prelude::*;

verus! {

/// A condition that stops the interpreter. A tick that reports one has
/// changed nothing.
#[derive(Debug, Clone, Copy, PartialEq, Eq, Structural)]
pub enum Fault {
    /// The opcode fetched at `pc` matches no instruction.
    UnknownOpcode { opcode: u16, pc: u16 },
    /// An access would touch `address`, which lies outside memory (the
    /// address given is the highest one the access would reach), or a
    /// store would write at `address`, below the program area that starts
    /// at 0x200 (the address given is the first one it would write).
    MemoryOutOfBounds { address: usize },
    /// A call found the call stack full.
    StackOverflow,
    /// A return found the call stack empty.
    StackUnderflow,
    /// A program of `len` bytes does not fit in the program area.
    RomTooLarge { len: usize },
}

} // verus!
