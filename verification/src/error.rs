//! Failures that the processor reports to its host.

use vstd::prelude::*;

verus! {

/// Why an operation on the processor did not complete.
#[derive(Debug, Clone, Copy, PartialEq, Eq, Structural)]
pub enum CpuError {
    /// The byte fetched at `address` is not an opcode of the supported set.
    UnimplementedOpcode { opcode: u8, address: u16 },
    /// An operand address was asked for in `NoneAddressing` mode, while the
    /// program counter stood at `address`.
    InvalidAddressingMode { address: u16 },
    /// A program of `len` bytes does not fit between 0x8000 and the top of
    /// memory.
    ProgramTooLarge { len: usize },
}

} // verus!
