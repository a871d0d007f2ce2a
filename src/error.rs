//! What can go wrong when a machine is built or a program is loaded.

use vstd::prelude::*;

verus! {

/// The errors of building a machine or loading a program into it.
#[derive(Debug, Clone, Copy, PartialEq, Eq, Structural)]
pub enum MachineError {
    /// The number of cells `L` is outside `[1, 2^32)`.
    ArchLength,
    /// The word width `W` is outside `[6, 32]`.
    ArchWidth,
    /// The program holds no byte.
    ProgramEmpty,
    /// The program holds more bytes than the machine has cells.
    ProgramTooLarge,
}

impl MachineError {
    pub open spec fn spec_description(self) -> Seq<char> {
        match self {
            MachineError::ArchLength => "Arch length needs to be in the range [1..2^32)"@,
            MachineError::ArchWidth => "Arch width needs to be in the range [6..32]"@,
            MachineError::ProgramEmpty => "The program is empty"@,
            MachineError::ProgramTooLarge => "The program does not fit in the memory of the machine"@,
        }
    }

    /// A message that describes the error.
    pub fn description(&self) -> (r: &'static str)
        ensures
            r@ == self.spec_description(),
    {
        match self {
            MachineError::ArchLength => "Arch length needs to be in the range [1..2^32)",
            MachineError::ArchWidth => "Arch width needs to be in the range [6..32]",
            MachineError::ProgramEmpty => "The program is empty",
            MachineError::ProgramTooLarge => "The program does not fit in the memory of the machine",
        }
    }
}

} // verus!
