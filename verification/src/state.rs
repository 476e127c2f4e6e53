//! The mathematical model of the processor: registers, flags, program
//! counter and memory as plain values, and what each instruction makes of
//! them.

use vstd::prelude::*;
use crate::addressing::{effective_address, AddressingMode};
use crate::alu::{
    adc_carry, adc_overflow, adc_result, adc_status, sbc_carry, sbc_overflow, sbc_result,
    sbc_status,
};
use crate::memory::{lemma_read16_after_write16, read16, write16, MEMORY_SIZE};
use crate::status::{
    carry_in, flag_set, is_negative, lemma_arithmetic_status, lemma_zn_status,
    lemma_zn_status_reserved, zn_status, CARRY, NEGATIVE, OVERFLOW, RESERVED, ZERO,
};

verus! {

/// Address at which programs are loaded.
pub const PROGRAM_START: u16 = 0x8000;

/// Address of the reset vector: the little-endian word from which `reset`
/// takes the program counter.
pub const RESET_VECTOR: u16 = 0xFFFC;

/// Largest program, in bytes, that fits between `PROGRAM_START` and the top
/// of memory.
pub const MAX_PROGRAM_LEN: usize = 0x8000;

/// Everything the processor holds, as a value.
#[verifier::ext_equal]
pub struct CpuState {
    /// Accumulator.
    pub a: u8,
    /// Index register X.
    pub x: u8,
    /// Index register Y.
    pub y: u8,
    /// Status flags.
    pub status: u8,
    /// Address of the next byte to fetch.
    pub pc: u16,
    /// The 65536 bytes of memory.
    pub mem: Seq<u8>,
}

impl CpuState {
    /// Memory has its full size, so that every 16-bit address names a byte.
    pub open spec fn wf(self) -> bool {
        self.mem.len() == MEMORY_SIZE
    }

    /// The state a new processor starts in: all registers and all of memory
    /// zero.
    pub open spec fn zeroed() -> CpuState {
        CpuState { a: 0, x: 0, y: 0, status: 0, pc: 0, mem: Seq::new(MEMORY_SIZE as nat, |i: int| 0u8) }
    }

    /// The byte at `addr`.
    pub open spec fn read(self, addr: u16) -> u8 {
        self.mem[addr as int]
    }

    /// The state after `data` has been stored at `addr`.
    pub open spec fn write(self, addr: u16, data: u8) -> CpuState {
        CpuState { mem: self.mem.update(addr as int, data), ..self }
    }

    /// The little-endian word at `addr`.
    pub open spec fn read16(self, addr: u16) -> u16 {
        read16(self.mem, addr)
    }

    /// The state after the little-endian word `data` has been stored at `addr`.
    pub open spec fn write16(self, addr: u16, data: u16) -> CpuState {
        CpuState { mem: write16(self.mem, addr, data), ..self }
    }

    /// The effective address of the operand that starts at the program
    /// counter.
    pub open spec fn operand_address(self, mode: AddressingMode) -> u16 {
        effective_address(mode, self.mem, self.pc, self.x, self.y)
    }

    /// The operand itself: the byte at the effective address.
    pub open spec fn operand(self, mode: AddressingMode) -> u8 {
        self.read(self.operand_address(mode))
    }

    /// The state with the Zero and Negative flags recomputed from `value`.
    pub open spec fn with_zn(self, value: u8) -> CpuState {
        CpuState { status: zn_status(self.status, value), ..self }
    }

    /// LDA: the accumulator takes the operand, Zero and Negative follow it.
    pub open spec fn lda(self, mode: AddressingMode) -> CpuState {
        CpuState {
            a: self.operand(mode),
            status: zn_status(self.status, self.operand(mode)),
            ..self
        }
    }

    /// STA: the accumulator is stored at the effective address.
    pub open spec fn sta(self, mode: AddressingMode) -> CpuState {
        self.write(self.operand_address(mode), self.a)
    }

    /// TAX: X takes the accumulator, Zero and Negative follow it.
    pub open spec fn tax(self) -> CpuState {
        CpuState { x: self.a, status: zn_status(self.status, self.a), ..self }
    }

    /// INX: X goes up by one modulo 256, Zero and Negative follow it.
    pub open spec fn inx(self) -> CpuState {
        let x = ((self.x + 1) % 0x100) as u8;
        CpuState { x, status: zn_status(self.status, x), ..self }
    }

    /// ADC: the accumulator takes `A + M + C` modulo 256; Carry, Overflow,
    /// Zero and Negative are recomputed.
    pub open spec fn adc(self, mode: AddressingMode) -> CpuState {
        CpuState {
            a: adc_result(self.a, self.operand(mode), self.status),
            status: adc_status(self.a, self.operand(mode), self.status),
            ..self
        }
    }

    /// SBC: the accumulator takes `A - M - (1 - C)` modulo 256; Carry,
    /// Overflow, Zero and Negative are recomputed.
    pub open spec fn sbc(self, mode: AddressingMode) -> CpuState {
        CpuState {
            a: sbc_result(self.a, self.operand(mode), self.status),
            status: sbc_status(self.a, self.operand(mode), self.status),
            ..self
        }
    }

    /// Reset: A, X, Y and the status byte are cleared and the program counter
    /// is taken from the reset vector. Memory is kept.
    pub open spec fn reset(self) -> CpuState {
        CpuState { a: 0, x: 0, y: 0, status: 0, pc: self.read16(RESET_VECTOR), mem: self.mem }
    }

    /// Memory with `program` copied to `PROGRAM_START` and onwards.
    pub open spec fn with_program(self, program: Seq<u8>) -> Seq<u8> {
        Seq::new(
            MEMORY_SIZE as nat,
            |i: int|
                if PROGRAM_START <= i < PROGRAM_START + program.len() {
                    program[i - PROGRAM_START]
                } else {
                    self.mem[i]
                },
        )
    }

    /// Load: the program is copied to `PROGRAM_START`, then the reset vector
    /// is pointed at it. A program that reaches up to the reset vector has
    /// the bytes there replaced by the vector.
    pub open spec fn load(self, program: Seq<u8>) -> CpuState {
        CpuState { mem: write16(self.with_program(program), RESET_VECTOR, PROGRAM_START), ..self }
    }

    /// LDA puts the operand, which in immediate mode is the byte under the
    /// program counter, into the accumulator; Zero and Negative describe the
    /// new accumulator; X, Y, Carry, Overflow, the reserved bits, the program
    /// counter and memory are as before.
    pub proof fn lemma_lda(self, mode: AddressingMode)
        ensures
            self.lda(mode).a == self.operand(mode),
            self.operand(AddressingMode::Immediate) == self.mem[self.pc as int],
            flag_set(self.lda(mode).status, ZERO) <==> self.lda(mode).a == 0,
            flag_set(self.lda(mode).status, NEGATIVE) <==> is_negative(self.lda(mode).a),
            flag_set(self.lda(mode).status, CARRY) == flag_set(self.status, CARRY),
            flag_set(self.lda(mode).status, OVERFLOW) == flag_set(self.status, OVERFLOW),
            self.lda(mode).status & RESERVED == self.status & RESERVED,
            self.lda(mode).x == self.x,
            self.lda(mode).y == self.y,
            self.lda(mode).pc == self.pc,
            self.lda(mode).mem == self.mem,
    {
        lemma_zn_status(self.status, self.operand(mode));
        lemma_zn_status_reserved(self.status, self.operand(mode));
    }

    /// STA puts the accumulator, unchanged, at the effective address; every
    /// other byte of memory, every register and every flag is as before.
    pub proof fn lemma_sta(self, mode: AddressingMode)
        requires
            self.wf(),
        ensures
            self.sta(mode).wf(),
            self.sta(mode).read(self.operand_address(mode)) == self.a,
            forall|addr: u16|
                addr != self.operand_address(mode) ==> #[trigger] self.sta(mode).read(addr)
                    == self.read(addr),
            self.sta(mode).status == self.status,
            self.sta(mode).a == self.a,
            self.sta(mode).x == self.x,
            self.sta(mode).y == self.y,
            self.sta(mode).pc == self.pc,
    {
    }

    /// TAX makes X a copy of the accumulator; Zero and Negative describe the
    /// new X; everything else, the accumulator included, is as before.
    pub proof fn lemma_tax(self)
        ensures
            self.tax().x == self.a,
            flag_set(self.tax().status, ZERO) <==> self.tax().x == 0,
            flag_set(self.tax().status, NEGATIVE) <==> is_negative(self.tax().x),
            flag_set(self.tax().status, CARRY) == flag_set(self.status, CARRY),
            flag_set(self.tax().status, OVERFLOW) == flag_set(self.status, OVERFLOW),
            self.tax().status & RESERVED == self.status & RESERVED,
            self.tax().a == self.a,
            self.tax().y == self.y,
            self.tax().pc == self.pc,
            self.tax().mem == self.mem,
    {
        lemma_zn_status(self.status, self.a);
        lemma_zn_status_reserved(self.status, self.a);
    }

    /// INX adds one to X modulo 256, so that 0xFF becomes 0x00 with Zero set;
    /// Zero and Negative describe the new X; everything else is as before.
    pub proof fn lemma_inx(self)
        ensures
            self.inx().x == (self.x + 1) % 0x100,
            self.x == 0xFF ==> self.inx().x == 0x00 && flag_set(self.inx().status, ZERO),
            self.x != 0xFF ==> self.inx().x == self.x + 1 && !flag_set(self.inx().status, ZERO),
            flag_set(self.inx().status, ZERO) <==> self.inx().x == 0,
            flag_set(self.inx().status, NEGATIVE) <==> is_negative(self.inx().x),
            flag_set(self.inx().status, CARRY) == flag_set(self.status, CARRY),
            flag_set(self.inx().status, OVERFLOW) == flag_set(self.status, OVERFLOW),
            self.inx().status & RESERVED == self.status & RESERVED,
            self.inx().a == self.a,
            self.inx().y == self.y,
            self.inx().pc == self.pc,
            self.inx().mem == self.mem,
    {
        lemma_zn_status(self.status, self.inx().x);
        lemma_zn_status_reserved(self.status, self.inx().x);
    }

    /// ADC stores the low byte of `A + M + C`; Carry tells whether the sum
    /// went past 255, Overflow whether the operands agreed in sign and the
    /// result does not; Zero and Negative describe the new accumulator; the
    /// reserved bits, X, Y, the program counter and memory are as before.
    pub proof fn lemma_adc(self, mode: AddressingMode)
        ensures
            self.adc(mode).a == (self.a + self.operand(mode) + carry_in(self.status)) % 0x100,
            flag_set(self.adc(mode).status, CARRY) <==> self.a + self.operand(mode) + carry_in(
                self.status,
            ) > 0xFF,
            flag_set(self.adc(mode).status, OVERFLOW) <==> adc_overflow(
                self.a,
                self.operand(mode),
                self.status,
            ),
            flag_set(self.adc(mode).status, ZERO) <==> self.adc(mode).a == 0,
            flag_set(self.adc(mode).status, NEGATIVE) <==> is_negative(self.adc(mode).a),
            self.adc(mode).status & RESERVED == self.status & RESERVED,
            self.adc(mode).x == self.x,
            self.adc(mode).y == self.y,
            self.adc(mode).pc == self.pc,
            self.adc(mode).mem == self.mem,
    {
        let m = self.operand(mode);
        lemma_arithmetic_status(
            self.status,
            adc_carry(self.a, m, self.status),
            adc_overflow(self.a, m, self.status),
            adc_result(self.a, m, self.status),
        );
    }

    /// SBC stores `A - M - (1 - C)` modulo 256; Carry tells that no borrow
    /// was needed, Overflow whether the operands differed in sign and the
    /// result lost the sign of the accumulator; Zero and Negative describe
    /// the new accumulator; the reserved bits, X, Y, the program counter and
    /// memory are as before.
    pub proof fn lemma_sbc(self, mode: AddressingMode)
        ensures
            self.sbc(mode).a == (self.a - self.operand(mode) - (1 - carry_in(self.status)))
                % 0x100,
            flag_set(self.sbc(mode).status, CARRY) <==> self.a - self.operand(mode) - (1
                - carry_in(self.status)) >= 0,
            flag_set(self.sbc(mode).status, OVERFLOW) <==> sbc_overflow(
                self.a,
                self.operand(mode),
                self.status,
            ),
            flag_set(self.sbc(mode).status, ZERO) <==> self.sbc(mode).a == 0,
            flag_set(self.sbc(mode).status, NEGATIVE) <==> is_negative(self.sbc(mode).a),
            self.sbc(mode).status & RESERVED == self.status & RESERVED,
            self.sbc(mode).x == self.x,
            self.sbc(mode).y == self.y,
            self.sbc(mode).pc == self.pc,
            self.sbc(mode).mem == self.mem,
    {
        let m = self.operand(mode);
        lemma_arithmetic_status(
            self.status,
            sbc_carry(self.a, m, self.status),
            sbc_overflow(self.a, m, self.status),
            sbc_result(self.a, m, self.status),
        );
    }

    /// Loading and then resetting leaves the program counter on the first
    /// byte of the program, whatever the program.
    pub proof fn lemma_load_reset(self, program: Seq<u8>)
        requires
            self.wf(),
            program.len() <= MAX_PROGRAM_LEN,
        ensures
            self.load(program).wf(),
            self.load(program).reset().pc == PROGRAM_START,
            forall|i: int|
                0 <= i < program.len() && PROGRAM_START + i != RESET_VECTOR && PROGRAM_START + i
                    != RESET_VECTOR + 1 ==> #[trigger] self.load(program).mem[PROGRAM_START + i]
                    == program[i],
            forall|i: int|
                0 <= i < PROGRAM_START ==> #[trigger] self.load(program).mem[i] == self.mem[i],
    {
        lemma_read16_after_write16(self.with_program(program), RESET_VECTOR, PROGRAM_START);
    }
}

} // verus!
