//! The processor itself: registers, flags and memory in one owned value, and
//! the operations that host code drives it with.

use vstd::prelude::*;
use crate::addressing::{absolute_offset, zero_page_offset, zero_page_pointer, AddressingMode};
use crate::error::CpuError;
use crate::execution::{executable, Step};
use crate::memory::{lemma_word_from_bytes, Memory};
use crate::opcode::{decode, lemma_decoded_mode_fits_operation, Instruction, Operation};
use crate::state::{CpuState, MAX_PROGRAM_LEN, PROGRAM_START, RESET_VECTOR};
use crate::status::{
    assign_flag, flag_set, lemma_carry_bit, lemma_sign_bit, lemma_zn_status, CARRY, NEGATIVE,
    OVERFLOW, ZERO,
};

verus! {

/// An 8-bit processor with its 64 KiB of memory.
///
/// The registers are plain fields that a host may read and write between
/// operations. Memory is reached through `mem_read`, `mem_write` and their
/// 16-bit variants.
pub struct CPU {
    pub register_a: u8,
    pub register_x: u8,
    pub register_y: u8,
    pub status: u8,
    pub program_counter: u16,
    pub memory: Memory,
}

impl View for CPU {
    type V = CpuState;

    open spec fn view(&self) -> CpuState {
        CpuState {
            a: self.register_a,
            x: self.register_x,
            y: self.register_y,
            status: self.status,
            pc: self.program_counter,
            mem: self.memory@,
        }
    }
}

impl CPU {
    /// Memory always holds exactly 65536 bytes.
    pub proof fn lemma_wf(&self)
        ensures
            self@.wf(),
    {
        self.memory.lemma_len();
    }

    /// A processor with every register and every byte of memory zero.
    pub fn new() -> (cpu: CPU)
        ensures
            cpu@ == CpuState::zeroed(),
    {
        CPU {
            register_a: 0,
            register_x: 0,
            register_y: 0,
            status: 0,
            program_counter: 0,
            memory: Memory::new(),
        }
    }

    /// Reads the byte at `addr`.
    pub fn mem_read(&self, addr: u16) -> (data: u8)
        ensures
            data == self@.read(addr),
    {
        self.memory.read(addr)
    }

    /// Stores `data` at `addr`; nothing else changes.
    pub fn mem_write(&mut self, addr: u16, data: u8)
        ensures
            final(self)@ == old(self)@.write(addr, data),
    {
        self.memory.write(addr, data);
    }

    /// Reads the little-endian word at `pos`: the low byte from `pos`, the
    /// high byte from the address after it. At `pos == 0xFFFF` the high byte
    /// comes from address 0x0000.
    pub fn mem_read_u16(&self, pos: u16) -> (data: u16)
        ensures
            data == self@.read16(pos),
    {
        self.memory.read16(pos)
    }

    /// Stores the little-endian word `data` at `pos`: the low byte at `pos`,
    /// the high byte at the address after it. At `pos == 0xFFFF` the high
    /// byte goes to address 0x0000.
    pub fn mem_write_u16(&mut self, pos: u16, data: u16)
        ensures
            final(self)@ == old(self)@.write16(pos, data),
    {
        self.memory.write16(pos, data);
    }

    /// Resolves the effective address of the operand whose first byte is
    /// under the program counter. Nothing is changed.
    ///
    /// `NoneAddressing` names no operand and is answered with
    /// `InvalidAddressingMode`; every other mode resolves.
    pub fn get_operand_address(&self, mode: &AddressingMode) -> (resolved: Result<u16, CpuError>)
        ensures
            match resolved {
                Ok(addr) => *mode != AddressingMode::NoneAddressing && addr
                    == self@.operand_address(*mode),
                Err(fault) => *mode == AddressingMode::NoneAddressing && fault
                    == (CpuError::InvalidAddressingMode { address: self.program_counter }),
            },
    {
        let pc = self.program_counter;
        match mode {
            AddressingMode::Immediate => Ok(pc),
            AddressingMode::ZeroPage => Ok(self.mem_read(pc) as u16),
            AddressingMode::Absolute => Ok(self.mem_read_u16(pc)),
            AddressingMode::ZeroPage_X => {
                let pos = self.mem_read(pc);
                let addr = pos.wrapping_add(self.register_x);
                assert(addr == zero_page_offset(pos, self.register_x));
                Ok(addr as u16)
            },
            AddressingMode::ZeroPage_Y => {
                let pos = self.mem_read(pc);
                let addr = pos.wrapping_add(self.register_y);
                assert(addr == zero_page_offset(pos, self.register_y));
                Ok(addr as u16)
            },
            AddressingMode::Absolute_X => {
                let base = self.mem_read_u16(pc);
                let addr = base.wrapping_add(self.register_x as u16);
                assert(addr == absolute_offset(base, self.register_x));
                Ok(addr)
            },
            AddressingMode::Absolute_Y => {
                let base = self.mem_read_u16(pc);
                let addr = base.wrapping_add(self.register_y as u16);
                assert(addr == absolute_offset(base, self.register_y));
                Ok(addr)
            },
            AddressingMode::Indirect_X => {
                let base = self.mem_read(pc);
                let ptr = base.wrapping_add(self.register_x);
                assert(ptr == zero_page_offset(base, self.register_x));
                Ok(self.read_zero_page_pointer(ptr))
            },
            AddressingMode::Indirect_Y => {
                let base = self.mem_read(pc);
                let deref_base = self.read_zero_page_pointer(base);
                let deref = deref_base.wrapping_add(self.register_y as u16);
                assert(deref == absolute_offset(deref_base, self.register_y));
                Ok(deref)
            },
            AddressingMode::NoneAddressing => Err(CpuError::InvalidAddressingMode { address: pc }),
        }
    }

    /// Reads the pointer whose low byte is at zero-page address `ptr`. The
    /// high byte is taken from the next zero-page address, which after 0xFF
    /// is 0x00.
    fn read_zero_page_pointer(&self, ptr: u8) -> (pointer: u16)
        ensures
            pointer == zero_page_pointer(self@.mem, ptr),
    {
        let lo = self.mem_read(ptr as u16);
        let hi = self.mem_read(ptr.wrapping_add(1) as u16);
        proof {
            lemma_word_from_bytes(lo, hi);
        }
        (hi as u16) << 8 | (lo as u16)
    }

    /// Recomputes the Zero and Negative flags from `result`.
    ///
    /// Zero ends up set if and only if `result` is 0, Negative if and only if
    /// bit 7 of `result` is set; the other six status bits, the registers and
    /// memory stay as they were.
    pub fn update_zero_and_negative_flags(&mut self, result: u8)
        ensures
            final(self)@ == old(self)@.with_zn(result),
            flag_set(final(self).status, ZERO) <==> result == 0,
            flag_set(final(self).status, NEGATIVE) <==> result & 0x80 != 0,
            final(self).status & !(ZERO | NEGATIVE) == old(self).status & !(ZERO | NEGATIVE),
    {
        proof {
            lemma_sign_bit(result);
            lemma_zn_status(self.status, result);
        }
        self.status = assign_flag(self.status, ZERO, result == 0);
        self.status = assign_flag(self.status, NEGATIVE, result & NEGATIVE != 0);
    }

    /// ADC: adds the operand and the carry to the accumulator.
    ///
    /// Carry is set when the sum exceeds 255, Overflow when the signed sum
    /// leaves -128..=127; Zero and Negative follow the new accumulator.
    pub fn adc(&mut self, mode: &AddressingMode) -> (done: Result<(), CpuError>)
        ensures
            match done {
                Ok(_) => {
                    &&& *mode != AddressingMode::NoneAddressing
                    &&& final(self)@ == old(self)@.adc(*mode)
                },
                Err(fault) => {
                    &&& *mode == AddressingMode::NoneAddressing
                    &&& fault == (CpuError::InvalidAddressingMode {
                        address: old(self).program_counter,
                    })
                    &&& final(self)@ == old(self)@
                },
            },
    {
        let addr = self.get_operand_address(mode)?;
        let value = self.mem_read(addr);

        let carry = self.status & CARRY;
        proof {
            lemma_carry_bit(self.status);
        }
        let sum: u16 = self.register_a as u16 + value as u16 + carry as u16;
        let n: u8 = (sum % 0x100) as u8;
        proof {
            lemma_sign_bit(self.register_a);
            lemma_sign_bit(value);
            lemma_sign_bit(n);
        }
        let overflow = (self.register_a & 0x80) == (value & 0x80) && (value & 0x80) != (n & 0x80);

        self.register_a = n;
        self.status = assign_flag(self.status, CARRY, sum > 0xFF);
        self.status = assign_flag(self.status, OVERFLOW, overflow);
        self.update_zero_and_negative_flags(self.register_a);
        Ok(())
    }

    /// SBC: subtracts the operand and the borrow from the accumulator.
    ///
    /// Carry is set when no borrow was needed, Overflow when the signed
    /// difference leaves -128..=127; Zero and Negative follow the new
    /// accumulator.
    pub fn sbc(&mut self, mode: &AddressingMode) -> (done: Result<(), CpuError>)
        ensures
            match done {
                Ok(_) => {
                    &&& *mode != AddressingMode::NoneAddressing
                    &&& final(self)@ == old(self)@.sbc(*mode)
                },
                Err(fault) => {
                    &&& *mode == AddressingMode::NoneAddressing
                    &&& fault == (CpuError::InvalidAddressingMode {
                        address: old(self).program_counter,
                    })
                    &&& final(self)@ == old(self)@
                },
            },
    {
        let addr = self.get_operand_address(mode)?;
        let value = self.mem_read(addr);

        let carry = self.status & CARRY;
        proof {
            lemma_carry_bit(self.status);
        }
        let minuend: u16 = 0x100 + self.register_a as u16;
        let difference: u16 = minuend - value as u16 - (1 - carry) as u16;
        let n: u8 = (difference % 0x100) as u8;
        proof {
            lemma_sign_bit(self.register_a);
            lemma_sign_bit(value);
            lemma_sign_bit(n);
        }
        let overflow = (self.register_a & 0x80) != (value & 0x80) && (self.register_a & 0x80) != (n
            & 0x80);

        self.register_a = n;
        self.status = assign_flag(self.status, CARRY, difference >= 0x100);
        self.status = assign_flag(self.status, OVERFLOW, overflow);
        self.update_zero_and_negative_flags(self.register_a);
        Ok(())
    }

    /// LDA: loads the operand into the accumulator.
    ///
    /// Zero and Negative follow the loaded byte; X, Y, Carry, Overflow, the
    /// program counter and memory are left alone.
    pub fn lda(&mut self, mode: &AddressingMode) -> (done: Result<(), CpuError>)
        ensures
            match done {
                Ok(_) => {
                    &&& *mode != AddressingMode::NoneAddressing
                    &&& final(self)@ == old(self)@.lda(*mode)
                },
                Err(fault) => {
                    &&& *mode == AddressingMode::NoneAddressing
                    &&& fault == (CpuError::InvalidAddressingMode {
                        address: old(self).program_counter,
                    })
                    &&& final(self)@ == old(self)@
                },
            },
            done is Ok ==> final(self).register_a == old(self)@.operand(*mode),
            final(self).register_x == old(self).register_x,
            final(self).register_y == old(self).register_y,
            final(self).status & !(ZERO | NEGATIVE) == old(self).status & !(ZERO | NEGATIVE),
    {
        let addr = self.get_operand_address(mode)?;
        let value = self.mem_read(addr);
        self.register_a = value;
        self.update_zero_and_negative_flags(self.register_a);
        Ok(())
    }

    /// TAX: copies the accumulator into X; Zero and Negative follow the new
    /// X, the accumulator keeps its value.
    pub fn tax(&mut self)
        ensures
            final(self)@ == old(self)@.tax(),
            final(self).register_x == old(self).register_a,
            final(self).register_a == old(self).register_a,
    {
        self.register_x = self.register_a;
        self.update_zero_and_negative_flags(self.register_x);
    }

    /// INX: increments X, wrapping from 0xFF to 0x00; Zero and Negative
    /// follow the new X.
    pub fn inx(&mut self)
        ensures
            final(self)@ == old(self)@.inx(),
            final(self).register_x == (old(self).register_x + 1) % 0x100,
            old(self).register_x == 0xFF ==> final(self).register_x == 0,
            old(self).register_x == 0xFF ==> flag_set(final(self).status, ZERO),
    {
        self.register_x = self.register_x.wrapping_add(1);
        self.update_zero_and_negative_flags(self.register_x);
    }

    /// STA: stores the accumulator at the effective address.
    ///
    /// Only that one byte of memory changes: registers, flags and program
    /// counter are left alone.
    pub fn sta(&mut self, mode: &AddressingMode) -> (done: Result<(), CpuError>)
        ensures
            match done {
                Ok(_) => {
                    &&& *mode != AddressingMode::NoneAddressing
                    &&& final(self)@ == old(self)@.sta(*mode)
                },
                Err(fault) => {
                    &&& *mode == AddressingMode::NoneAddressing
                    &&& fault == (CpuError::InvalidAddressingMode {
                        address: old(self).program_counter,
                    })
                    &&& final(self)@ == old(self)@
                },
            },
            final(self).status == old(self).status,
            final(self).register_a == old(self).register_a,
            done is Ok ==> final(self)@.read(old(self)@.operand_address(*mode))
                == old(self).register_a,
    {
        let addr = self.get_operand_address(mode)?;
        proof {
            self.lemma_wf();
        }
        self.mem_write(addr, self.register_a);
        Ok(())
    }

    /// Carries out one decoded instruction, with the program counter on its
    /// first operand byte. The program counter itself is not moved.
    ///
    /// An instruction that needs a memory operand but names no addressing
    /// mode is answered with `InvalidAddressingMode` and changes nothing.
    pub fn execute(&mut self, instruction: Instruction) -> (done: Result<(), CpuError>)
        ensures
            match done {
                Ok(_) => {
                    &&& executable(instruction)
                    &&& final(self)@ == old(self)@.execute(instruction)
                },
                Err(fault) => {
                    &&& !executable(instruction)
                    &&& fault == (CpuError::InvalidAddressingMode {
                        address: old(self).program_counter,
                    })
                    &&& final(self)@ == old(self)@
                },
            },
    {
        match instruction.operation {
            Operation::Brk => Ok(()),
            Operation::Adc => self.adc(&instruction.mode),
            Operation::Sbc => self.sbc(&instruction.mode),
            Operation::Lda => self.lda(&instruction.mode),
            Operation::Sta => self.sta(&instruction.mode),
            Operation::Tax => {
                self.tax();
                Ok(())
            },
            Operation::Inx => {
                self.inx();
                Ok(())
            },
        }
    }

    /// Fetches, decodes and executes the instruction under the program
    /// counter.
    ///
    /// The program counter moves past the opcode, the instruction takes
    /// effect, and the program counter moves past the operand. BRK reports
    /// `Halted`, every other supported opcode `Continue`. A byte outside the
    /// supported set is reported as `UnimplementedOpcode` with the byte and
    /// its address, and leaves the processor exactly as it was.
    pub fn step(&mut self) -> (outcome: Result<Step, CpuError>)
        ensures
            outcome == old(self)@.step_result(),
            final(self)@ == old(self)@.step(),
    {
        let address = self.program_counter;
        let opcode = self.mem_read(address);
        match decode(opcode) {
            None => Err(CpuError::UnimplementedOpcode { opcode, address }),
            Some(instruction) => {
                proof {
                    lemma_decoded_mode_fits_operation(opcode);
                }
                self.program_counter = self.program_counter.wrapping_add(1);
                assert(self@ == old(self)@.advance(1));
                self.execute(instruction)?;
                let width = instruction.mode.operand_width();
                let ghost executed = self@;
                self.program_counter = self.program_counter.wrapping_add(width);
                assert(self@ == executed.advance(width));
                match instruction.operation {
                    Operation::Brk => Ok(Step::Halted),
                    _ => Ok(Step::Continue),
                }
            },
        }
    }

    /// Clears A, X, Y and the status byte and takes the program counter from
    /// the reset vector at 0xFFFC/0xFFFD. Memory is kept.
    pub fn reset(&mut self)
        ensures
            final(self)@ == old(self)@.reset(),
    {
        self.register_a = 0;
        self.register_x = 0;
        self.register_y = 0;
        self.status = 0;

        self.program_counter = self.mem_read_u16(RESET_VECTOR);
    }

    /// Loads `program`, resets the processor and runs the program to its end.
    ///
    /// This is `load`, then `reset`, then `run`: the state left behind and the
    /// result are those of a run from the freshly loaded and reset state. A
    /// program that does not fit is refused as by `load`, and nothing is
    /// changed or run.
    ///
    /// Like `run`, this returns only if the program comes to an end.
    pub fn load_and_run(&mut self, program: Vec<u8>) -> (done: Result<(), CpuError>)
        requires
            program.len() <= MAX_PROGRAM_LEN ==> old(self)@.load(program@).reset().halts(),
        ensures
            program.len() <= MAX_PROGRAM_LEN ==> {
                &&& final(self)@ == old(self)@.load(program@).reset().run()
                &&& done == old(self)@.load(program@).reset().run_result()
            },
            program.len() > MAX_PROGRAM_LEN ==> {
                &&& final(self)@ == old(self)@
                &&& done == Err::<(), CpuError>(CpuError::ProgramTooLarge { len: program.len() })
            },
    {
        self.load(program)?;
        self.reset();
        self.run()
    }

    /// Copies `program` into memory from 0x8000 on and points the reset
    /// vector at 0x8000.
    ///
    /// A program of more than 0x8000 bytes does not fit below the top of
    /// memory: it is refused with `ProgramTooLarge` and nothing is changed.
    /// The vector is written after the program, so a program that reaches
    /// 0xFFFC has its bytes there replaced by the vector.
    pub fn load(&mut self, program: Vec<u8>) -> (done: Result<(), CpuError>)
        ensures
            match done {
                Ok(_) => {
                    &&& program.len() <= MAX_PROGRAM_LEN
                    &&& final(self)@ == old(self)@.load(program@)
                },
                Err(fault) => {
                    &&& program.len() > MAX_PROGRAM_LEN
                    &&& fault == (CpuError::ProgramTooLarge { len: program.len() })
                    &&& final(self)@ == old(self)@
                },
            },
    {
        if program.len() > MAX_PROGRAM_LEN {
            return Err(CpuError::ProgramTooLarge { len: program.len() });
        }
        let ghost start = self@;
        proof {
            self.lemma_wf();
            assert(start.with_program(program@.take(0)) =~= start.mem);
        }
        let mut i: usize = 0;
        while i < program.len()
            invariant
                i <= program.len() <= MAX_PROGRAM_LEN,
                start.wf(),
                self@ == (CpuState { mem: start.with_program(program@.take(i as int)), ..start }),
            decreases program.len() - i,
        {
            let addr = (PROGRAM_START as usize + i) as u16;
            self.mem_write(addr, program[i]);
            proof {
                assert(start.with_program(program@.take(i as int)).update(addr as int, program[i as int])
                    =~= start.with_program(program@.take(i + 1)));
            }
            i += 1;
        }
        proof {
            assert(program@.take(i as int) =~= program@);
        }
        self.mem_write_u16(RESET_VECTOR, PROGRAM_START);
        Ok(())
    }

    /// Executes at most `limit` instructions from the program counter on,
    /// stopping early at BRK or at an unsupported opcode.
    ///
    /// Where one of the first `limit` instructions ends the run, the result
    /// is `Some` of what `run` would have returned, and the processor is left
    /// as `run` would have left it. Otherwise the result is `None` and exactly
    /// `limit` instructions have been executed.
    pub fn run_steps(&mut self, limit: u64) -> (done: Option<Result<(), CpuError>>)
        ensures
            match done {
                Some(result) => {
                    &&& limit > 0 && old(self)@.halts_within((limit - 1) as nat)
                    &&& result == old(self)@.run_result()
                    &&& final(self)@ == old(self)@.run()
                },
                None => {
                    &&& !(limit > 0 && old(self)@.halts_within((limit - 1) as nat))
                    &&& final(self)@ == old(self)@.stopping_state(limit as nat)
                },
            },
    {
        let mut taken: u64 = 0;
        while taken < limit
            invariant
                taken <= limit,
                taken == 0 || !old(self)@.halts_within((taken - 1) as nat),
                self@ == old(self)@.stopping_state(taken as nat),
            decreases limit - taken,
        {
            proof {
                old(self)@.lemma_one_more_step(taken as nat);
                if self@.stops() {
                    old(self)@.lemma_halts_within_more(taken as nat, (limit - 1) as nat);
                    old(self)@.lemma_last_state(taken as nat);
                }
            }
            match self.step() {
                Ok(Step::Continue) => {
                    taken += 1;
                },
                Ok(Step::Halted) => {
                    return Some(Ok(()));
                },
                Err(fault) => {
                    return Some(Err(fault));
                },
            }
        }
        None
    }

    /// Executes instructions from the program counter on until BRK or an
    /// unsupported opcode is met.
    ///
    /// On BRK the result is `Ok` and the program counter stands behind the
    /// BRK. On an unsupported opcode the result is `UnimplementedOpcode` with
    /// the byte and its address, and the processor is left as the last
    /// completed instruction left it, the program counter on the offending
    /// byte. No other error is ever returned.
    ///
    /// A program that never reaches either keeps this call from returning;
    /// the precondition asks that it does reach one.
    pub fn run(&mut self) -> (done: Result<(), CpuError>)
        requires
            old(self)@.halts(),
        ensures
            final(self)@ == old(self)@.run(),
            done == old(self)@.run_result(),
            done matches Err(fault) ==> fault == (CpuError::UnimplementedOpcode {
                opcode: final(self)@.opcode(),
                address: final(self).program_counter,
            }),
    {
        let ghost mut fuel: nat = choose|steps: nat| old(self)@.halts_within(steps);
        loop
            invariant
                old(self)@.halts(),
                self@.halts_within(fuel),
                self@.stopping_state(fuel) == old(self)@.last_state(),
            decreases fuel,
        {
            proof {
                old(self)@.lemma_run_result();
            }
            match self.step() {
                Ok(Step::Continue) => {
                    proof {
                        fuel = (fuel - 1) as nat;
                    }
                },
                Ok(Step::Halted) => {
                    return Ok(());
                },
                Err(fault) => {
                    return Err(fault);
                },
            }
        }
    }
}

} // verus!
