//! The opcode table: which byte selects which operation in which addressing
//! mode.

use vstd::prelude::*;
use crate::addressing::AddressingMode;

verus! {

/// What an instruction does, apart from how it finds its operand.
#[derive(Debug, Clone, Copy, PartialEq, Eq, Structural)]
pub enum Operation {
    /// Halt.
    Brk,
    /// Add memory and carry to the accumulator.
    Adc,
    /// Subtract memory and borrow from the accumulator.
    Sbc,
    /// Load the accumulator from memory.
    Lda,
    /// Store the accumulator to memory.
    Sta,
    /// Copy the accumulator to X.
    Tax,
    /// Increment X.
    Inx,
}

/// An operation together with the addressing mode it is encoded with.
#[derive(Debug, Clone, Copy, PartialEq, Eq, Structural)]
pub struct Instruction {
    pub operation: Operation,
    pub mode: AddressingMode,
}

/// Whether the operation reads or writes a memory operand.
pub open spec fn takes_operand(operation: Operation) -> bool {
    match operation {
        Operation::Adc | Operation::Sbc | Operation::Lda | Operation::Sta => true,
        Operation::Brk | Operation::Tax | Operation::Inx => false,
    }
}

/// The instruction that an opcode byte stands for, or `None` for a byte
/// outside the supported set.
pub open spec fn decode_spec(opcode: u8) -> Option<Instruction> {
    if opcode == 0x00 {
        Some(Instruction { operation: Operation::Brk, mode: AddressingMode::NoneAddressing })
    } else if opcode == 0xAA {
        Some(Instruction { operation: Operation::Tax, mode: AddressingMode::NoneAddressing })
    } else if opcode == 0xE8 {
        Some(Instruction { operation: Operation::Inx, mode: AddressingMode::NoneAddressing })
    } else if opcode == 0x69 {
        Some(Instruction { operation: Operation::Adc, mode: AddressingMode::Immediate })
    } else if opcode == 0xE9 {
        Some(Instruction { operation: Operation::Sbc, mode: AddressingMode::Immediate })
    } else if opcode == 0xA9 {
        Some(Instruction { operation: Operation::Lda, mode: AddressingMode::Immediate })
    } else if opcode == 0xA5 {
        Some(Instruction { operation: Operation::Lda, mode: AddressingMode::ZeroPage })
    } else if opcode == 0xB5 {
        Some(Instruction { operation: Operation::Lda, mode: AddressingMode::ZeroPage_X })
    } else if opcode == 0xAD {
        Some(Instruction { operation: Operation::Lda, mode: AddressingMode::Absolute })
    } else if opcode == 0xBD {
        Some(Instruction { operation: Operation::Lda, mode: AddressingMode::Absolute_X })
    } else if opcode == 0xB9 {
        Some(Instruction { operation: Operation::Lda, mode: AddressingMode::Absolute_Y })
    } else if opcode == 0xA1 {
        Some(Instruction { operation: Operation::Lda, mode: AddressingMode::Indirect_X })
    } else if opcode == 0xB1 {
        Some(Instruction { operation: Operation::Lda, mode: AddressingMode::Indirect_Y })
    } else if opcode == 0x85 {
        Some(Instruction { operation: Operation::Sta, mode: AddressingMode::ZeroPage })
    } else if opcode == 0x95 {
        Some(Instruction { operation: Operation::Sta, mode: AddressingMode::ZeroPage_X })
    } else if opcode == 0x8D {
        Some(Instruction { operation: Operation::Sta, mode: AddressingMode::Absolute })
    } else if opcode == 0x9D {
        Some(Instruction { operation: Operation::Sta, mode: AddressingMode::Absolute_X })
    } else if opcode == 0x99 {
        Some(Instruction { operation: Operation::Sta, mode: AddressingMode::Absolute_Y })
    } else if opcode == 0x81 {
        Some(Instruction { operation: Operation::Sta, mode: AddressingMode::Indirect_X })
    } else if opcode == 0x91 {
        Some(Instruction { operation: Operation::Sta, mode: AddressingMode::Indirect_Y })
    } else {
        None
    }
}

/// Looks an opcode byte up in the table.
pub fn decode(opcode: u8) -> (decoded: Option<Instruction>)
    ensures
        decoded == decode_spec(opcode),
{
    let (operation, mode) = match opcode {
        0x00 => (Operation::Brk, AddressingMode::NoneAddressing),
        0xAA => (Operation::Tax, AddressingMode::NoneAddressing),
        0xE8 => (Operation::Inx, AddressingMode::NoneAddressing),
        0x69 => (Operation::Adc, AddressingMode::Immediate),
        0xE9 => (Operation::Sbc, AddressingMode::Immediate),
        0xA9 => (Operation::Lda, AddressingMode::Immediate),
        0xA5 => (Operation::Lda, AddressingMode::ZeroPage),
        0xB5 => (Operation::Lda, AddressingMode::ZeroPage_X),
        0xAD => (Operation::Lda, AddressingMode::Absolute),
        0xBD => (Operation::Lda, AddressingMode::Absolute_X),
        0xB9 => (Operation::Lda, AddressingMode::Absolute_Y),
        0xA1 => (Operation::Lda, AddressingMode::Indirect_X),
        0xB1 => (Operation::Lda, AddressingMode::Indirect_Y),
        0x85 => (Operation::Sta, AddressingMode::ZeroPage),
        0x95 => (Operation::Sta, AddressingMode::ZeroPage_X),
        0x8D => (Operation::Sta, AddressingMode::Absolute),
        0x9D => (Operation::Sta, AddressingMode::Absolute_X),
        0x99 => (Operation::Sta, AddressingMode::Absolute_Y),
        0x81 => (Operation::Sta, AddressingMode::Indirect_X),
        0x91 => (Operation::Sta, AddressingMode::Indirect_Y),
        _ => {
            return None;
        },
    };
    Some(Instruction { operation, mode })
}

/// An instruction that the table yields has an addressing mode exactly when
/// its operation takes a memory operand.
pub proof fn lemma_decoded_mode_fits_operation(opcode: u8)
    ensures
        decode_spec(opcode) matches Some(instruction) ==> (takes_operand(instruction.operation)
            <==> instruction.mode != AddressingMode::NoneAddressing),
{
}

/// No two opcode bytes stand for the same instruction.
pub proof fn lemma_decode_injective(first: u8, second: u8)
    requires
        decode_spec(first) is Some,
        decode_spec(first) == decode_spec(second),
    ensures
        first == second,
{
}

} // verus!
