//! Why a run stops.

use crate::inst::Instruction;
use vstd::prelude::*;

verus! {

/// A fatal condition. None is recovered from: each travels up to the loop that
/// drives the console and ends it there.
#[derive(Debug, Clone, Copy, PartialEq, Eq, Structural)]
pub enum ExecutionHalt {
    /// An access to an address that nothing is mapped to.
    BusFault(u16),
    /// The cartridge asks for a mapper that is not implemented.
    UnsupportedMapper(u8),
    /// An unknown opcode, or an operation in an addressing mode that has no
    /// handler.
    UnimplementedInstruction(Instruction),
    /// The cooperative stop signal was seen.
    Ended,
}

} // verus!
