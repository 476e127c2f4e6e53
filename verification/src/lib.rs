//! Instruction-execution core of an 8-bit, 6502-family microprocessor.
//!
//! The processor is one owned value, [`CPU`]: three registers, a status byte,
//! a program counter and 64 KiB of memory. A host loads a program, resets the
//! processor and runs it until BRK; between these calls it may read and write
//! registers and memory freely.
//!
//! Every operation is specified against [`state::CpuState`], a plain
//! mathematical value, so that what an instruction does can be read off one
//! function: `CpuState::lda`, `CpuState::adc`, `CpuState::step` and so on.

pub mod addressing;
pub mod alu;
pub mod cpu;
pub mod error;
pub mod execution;
pub mod memory;
pub mod opcode;
pub mod state;
pub mod status;

pub use addressing::AddressingMode;
pub use cpu::CPU;
pub use error::CpuError;
pub use execution::Step;
pub use memory::Memory;
pub use opcode::{decode, Instruction, Operation};
