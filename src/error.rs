//! The conditions that stop the machine.

use vstd::prelude::*;

verus! {

/// A fatal condition of the machine or of an image.
#[derive(Debug, Clone, Copy, PartialEq, Eq, Structural)]
pub enum VMError {
    /// A register index outside the register file.
    RegisterIndexOutOfBounds(usize),
    /// A program counter that does not fit in sixteen bits.
    PcOutOfBounds(usize),
    /// Console output could not be flushed.
    FlushFailed,
    /// An address outside memory.
    MemoryOutOfBounds,
    /// A reserved opcode, or a trap vector with no routine.
    InvalidOpcode,
    /// An image too short to hold an origin, or with a truncated final word.
    MalformedImage,
}

} // verus!
