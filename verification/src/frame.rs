//! The registers that the entry stub saved and will restore.

use vstd::prelude::*;

verus! {

/// Width of one instruction in bytes.
pub const INSTRUCTION_WIDTH: u64 = 4;

/// Snapshot of the interrupted program, lent to the dispatcher for one trap.
#[derive(Debug, PartialEq, Eq, Copy, Clone)]
pub struct TrapFrame {
    /// Address at which the interrupted program resumes.
    pub program_counter: u64,
    /// Saved processor state.
    pub processor_state: u64,
    /// Stack pointer of the interrupted program.
    pub stack_pointer: u64,
    /// General-purpose registers x0 to x30.
    pub registers: [u64; 31],
}

impl TrapFrame {
    /// Whether the address of the next instruction still fits the program counter.
    pub open spec fn advanceable(self) -> bool {
        self.program_counter + INSTRUCTION_WIDTH <= u64::MAX
    }

    /// The frame with the program counter one instruction further and every other
    /// register as it is.
    pub open spec fn advanced(self) -> TrapFrame {
        TrapFrame { program_counter: (self.program_counter + INSTRUCTION_WIDTH) as u64, ..self }
    }

    /// Tells whether [`TrapFrame::advance`] may be called.
    pub fn can_advance(&self) -> (yes: bool)
        ensures
            yes == self.advanceable(),
    {
        self.program_counter <= u64::MAX - INSTRUCTION_WIDTH
    }

    /// Moves the program counter to the next instruction.
    pub fn advance(&mut self)
        requires
            old(self).advanceable(),
        ensures
            *final(self) == old(self).advanced(),
            final(self).program_counter == old(self).program_counter + INSTRUCTION_WIDTH,
    {
        self.program_counter = self.program_counter + INSTRUCTION_WIDTH;
    }
}

} // verus!
