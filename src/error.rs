use vstd::prelude::*;

verus! {

/// The conditions under which the machine refuses to go on.
#[derive(Debug, Clone, Copy, PartialEq, Eq, Structural)]
pub enum Chip8Error {
    /// A ROM image does not fit between the program start and the end of memory.
    RomTooLarge { size: usize },
    /// The word fetched at `pc` is no known instruction.
    InvalidOpcode { opcode: u16, pc: u16 },
    /// A call found every stack slot taken.
    StackOverflow { pc: u16 },
    /// A return found the stack empty.
    StackUnderflow { pc: u16 },
}

} // verus!
