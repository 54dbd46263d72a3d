use vstd::prelude::*;

verus! {

/// The ways in which a machine operation can fail.  None of them ends the
/// process: each is handed back to the caller.
#[derive(Debug, Clone, Copy, PartialEq, Eq, Structural)]
pub enum Chip8Error {
    /// A fetch or data access beyond the 4096-byte address space.
    MemoryFault,
    /// A subroutine call with sixteen frames already active.
    StackOverflow,
    /// A return with no active frame.
    StackUnderflow,
    /// The instruction word matches no instruction.
    UnsupportedOpcode(u16),
    /// A program image larger than the space above the interpreter area.
    ImageTooLarge,
}

} // verus!
