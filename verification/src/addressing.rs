//! Addressing modes and the effective address each of them resolves to.

use vstd::prelude::*;
use crate::memory::{read16, word, MEMORY_SIZE};

verus! {

/// How an instruction finds its operand.
///
/// `NoneAddressing` marks instructions that take no memory operand; it
/// resolves to no address.
#[allow(non_camel_case_types)]
#[derive(Debug, Clone, Copy, PartialEq, Eq, Structural)]
pub enum AddressingMode {
    Immediate,
    ZeroPage,
    ZeroPage_X,
    ZeroPage_Y,
    Absolute,
    Absolute_X,
    Absolute_Y,
    Indirect_X,
    Indirect_Y,
    NoneAddressing,
}

/// The zero-page address `base + index`, wrapped to stay within 0x00..=0xFF.
pub open spec fn zero_page_offset(base: u8, index: u8) -> u8 {
    ((base + index) % 0x100) as u8
}

/// The address `base + index`, wrapped modulo 65536.
pub open spec fn absolute_offset(base: u16, index: u8) -> u16 {
    ((base + index) % 0x10000) as u16
}

/// The word whose low byte is at zero-page address `ptr` and whose high byte
/// is at the next zero-page address; after 0xFF the next one is 0x00.
pub open spec fn zero_page_pointer(mem: Seq<u8>, ptr: u8) -> u16 {
    word(mem[ptr as int], mem[zero_page_offset(ptr, 1) as int])
}

/// Number of operand bytes that follow the opcode in the given mode.
pub open spec fn operand_width(mode: AddressingMode) -> u16 {
    match mode {
        AddressingMode::Immediate
        | AddressingMode::ZeroPage
        | AddressingMode::ZeroPage_X
        | AddressingMode::ZeroPage_Y
        | AddressingMode::Indirect_X
        | AddressingMode::Indirect_Y => 1,
        AddressingMode::Absolute | AddressingMode::Absolute_X | AddressingMode::Absolute_Y => 2,
        AddressingMode::NoneAddressing => 0,
    }
}

/// The effective address of the operand, where `pc` is the address of the
/// first operand byte and `x`, `y` are the index registers.
///
/// `NoneAddressing` has no effective address; the value given for it here is
/// never used.
pub open spec fn effective_address(
    mode: AddressingMode,
    mem: Seq<u8>,
    pc: u16,
    x: u8,
    y: u8,
) -> u16 {
    match mode {
        AddressingMode::Immediate => pc,
        AddressingMode::ZeroPage => mem[pc as int] as u16,
        AddressingMode::ZeroPage_X => zero_page_offset(mem[pc as int], x) as u16,
        AddressingMode::ZeroPage_Y => zero_page_offset(mem[pc as int], y) as u16,
        AddressingMode::Absolute => read16(mem, pc),
        AddressingMode::Absolute_X => absolute_offset(read16(mem, pc), x),
        AddressingMode::Absolute_Y => absolute_offset(read16(mem, pc), y),
        AddressingMode::Indirect_X => zero_page_pointer(mem, zero_page_offset(mem[pc as int], x)),
        AddressingMode::Indirect_Y => absolute_offset(zero_page_pointer(mem, mem[pc as int]), y),
        AddressingMode::NoneAddressing => 0,
    }
}

impl AddressingMode {
    /// Number of operand bytes that follow the opcode: none for instructions
    /// without a memory operand, two for the absolute modes, one otherwise.
    pub fn operand_width(&self) -> (width: u16)
        ensures
            width == operand_width(*self),
    {
        match self {
            AddressingMode::Absolute | AddressingMode::Absolute_X | AddressingMode::Absolute_Y => 2,
            AddressingMode::NoneAddressing => 0,
            _ => 1,
        }
    }
}

/// Indexed zero-page addressing never leaves the zero page: the effective
/// address is `base + index` if that is below 0x100, and `base + index - 0x100`
/// otherwise.
pub proof fn lemma_zero_page_indexed_wraps(mem: Seq<u8>, pc: u16, x: u8, y: u8)
    ensures
        effective_address(AddressingMode::ZeroPage_X, mem, pc, x, y) < 0x100,
        effective_address(AddressingMode::ZeroPage_Y, mem, pc, x, y) < 0x100,
        effective_address(AddressingMode::ZeroPage_X, mem, pc, x, y) == if mem[pc as int] + x
            < 0x100 {
            mem[pc as int] + x
        } else {
            mem[pc as int] + x - 0x100
        },
        effective_address(AddressingMode::ZeroPage_Y, mem, pc, x, y) == if mem[pc as int] + y
            < 0x100 {
            mem[pc as int] + y
        } else {
            mem[pc as int] + y - 0x100
        },
{
}

/// The two bytes of an indirect pointer are both fetched from the zero page:
/// the effective address of an indirect mode depends on the operand byte, the
/// index registers and the contents of addresses 0x00..=0xFF, and on nothing
/// else in memory.
pub proof fn lemma_indirect_reads_zero_page(
    mode: AddressingMode,
    mem1: Seq<u8>,
    pc1: u16,
    mem2: Seq<u8>,
    pc2: u16,
    x: u8,
    y: u8,
)
    requires
        mode == AddressingMode::Indirect_X || mode == AddressingMode::Indirect_Y,
        mem1.len() == MEMORY_SIZE,
        mem2.len() == MEMORY_SIZE,
        mem1[pc1 as int] == mem2[pc2 as int],
        forall|i: int| 0 <= i < 0x100 ==> mem1[i] == mem2[i],
    ensures
        effective_address(mode, mem1, pc1, x, y) == effective_address(mode, mem2, pc2, x, y),
{
}

/// Where the pointer of an indirect mode sits at 0xFF, its high byte is read
/// from 0x00, not from 0x100.
pub proof fn lemma_zero_page_pointer_wraps(mem: Seq<u8>)
    ensures
        zero_page_pointer(mem, 0xFF) == word(mem[0xFF], mem[0x00]),
{
}

} // verus!
