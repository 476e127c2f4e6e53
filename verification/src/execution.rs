//! The fetch-decode-execute cycle, stated over the model: what one step makes
//! of a state, when a run stops, and in which state it does.

use vstd::prelude::*;
use crate::addressing::{operand_width, AddressingMode};
use crate::error::CpuError;
use crate::opcode::{decode_spec, takes_operand, Instruction, Operation};
use crate::state::CpuState;
use crate::status::RESERVED;

verus! {

/// How a single step ended.
#[derive(Debug, Clone, Copy, PartialEq, Eq, Structural)]
pub enum Step {
    /// An instruction other than BRK was executed; the next one can follow.
    Continue,
    /// BRK was executed; the run is over.
    Halted,
}

/// An instruction can be executed unless its operation needs a memory operand
/// and its mode names none.
pub open spec fn executable(instruction: Instruction) -> bool {
    takes_operand(instruction.operation) ==> instruction.mode != AddressingMode::NoneAddressing
}

impl CpuState {
    /// The byte under the program counter.
    pub open spec fn opcode(self) -> u8 {
        self.read(self.pc)
    }

    /// The state with the program counter moved on by `count` bytes, modulo
    /// 65536.
    pub open spec fn advance(self, count: u16) -> CpuState {
        CpuState { pc: ((self.pc + count) % 0x10000) as u16, ..self }
    }

    /// The effect of one instruction on registers, flags and memory, with the
    /// program counter standing on the first operand byte.
    pub open spec fn execute(self, instruction: Instruction) -> CpuState {
        match instruction.operation {
            Operation::Brk => self,
            Operation::Adc => self.adc(instruction.mode),
            Operation::Sbc => self.sbc(instruction.mode),
            Operation::Lda => self.lda(instruction.mode),
            Operation::Sta => self.sta(instruction.mode),
            Operation::Tax => self.tax(),
            Operation::Inx => self.inx(),
        }
    }

    /// How the step taken from this state ends: with a fault if the byte
    /// under the program counter is no supported opcode, halted if it is BRK,
    /// and ready to continue otherwise.
    pub open spec fn step_result(self) -> Result<Step, CpuError> {
        match decode_spec(self.opcode()) {
            None => Err(CpuError::UnimplementedOpcode { opcode: self.opcode(), address: self.pc }),
            Some(instruction) => if instruction.operation == Operation::Brk {
                Ok(Step::Halted)
            } else {
                Ok(Step::Continue)
            },
        }
    }

    /// The state after one step: the opcode is fetched, the program counter
    /// moves past it, the instruction takes effect, and the program counter
    /// moves past the operand. A fault leaves the state as it was.
    pub open spec fn step(self) -> CpuState {
        match decode_spec(self.opcode()) {
            None => self,
            Some(instruction) => self.advance(1).execute(instruction).advance(
                operand_width(instruction.mode),
            ),
        }
    }

    /// Whether the step taken from this state is the last of a run.
    pub open spec fn stops(self) -> bool {
        self.step_result() != Ok::<Step, CpuError>(Step::Continue)
    }

    /// Whether a run from this state reaches its last step after at most
    /// `steps` others.
    pub open spec fn halts_within(self, steps: nat) -> bool
        decreases steps,
    {
        self.stops() || (steps > 0 && self.step().halts_within((steps - 1) as nat))
    }

    /// Whether a run from this state ever ends.
    pub open spec fn halts(self) -> bool {
        exists|steps: nat| self.halts_within(steps)
    }

    /// The state reached after `steps` steps, or the first one before that
    /// from which the run stops.
    pub open spec fn stopping_state(self, steps: nat) -> CpuState
        decreases steps,
    {
        if self.stops() || steps == 0 {
            self
        } else {
            self.step().stopping_state((steps - 1) as nat)
        }
    }

    /// The state in which a run takes its last step. Meaningful where the
    /// run halts.
    pub open spec fn last_state(self) -> CpuState {
        self.stopping_state(choose|steps: nat| self.halts_within(steps))
    }

    /// The state that a run leaves behind: that after its last step.
    pub open spec fn run(self) -> CpuState {
        self.last_state().step()
    }

    /// What a run reports: success if it ended on BRK, the fault if it ended
    /// on an unsupported opcode.
    pub open spec fn run_result(self) -> Result<(), CpuError> {
        match self.last_state().step_result() {
            Ok(_) => Ok(()),
            Err(fault) => Err(fault),
        }
    }

    /// Any two step counts within which the run halts lead to the same
    /// stopping state.
    pub proof fn lemma_stopping_state_unique(self, first: nat, second: nat)
        requires
            self.halts_within(first),
            self.halts_within(second),
        ensures
            self.stopping_state(first) == self.stopping_state(second),
            self.stopping_state(first).stops(),
        decreases first,
    {
        if !self.stops() {
            self.step().lemma_stopping_state_unique((first - 1) as nat, (second - 1) as nat);
        }
    }

    /// A run that halts within `steps` steps ends in the stopping state
    /// found within `steps` steps.
    pub proof fn lemma_last_state(self, steps: nat)
        requires
            self.halts_within(steps),
        ensures
            self.halts(),
            self.last_state() == self.stopping_state(steps),
            self.last_state().stops(),
    {
        let chosen = choose|steps: nat| self.halts_within(steps);
        self.lemma_stopping_state_unique(steps, chosen);
    }

    /// A run that halts within some number of steps halts within any larger
    /// number.
    pub proof fn lemma_halts_within_more(self, steps: nat, more: nat)
        requires
            self.halts_within(steps),
            steps <= more,
        ensures
            self.halts_within(more),
        decreases steps,
    {
        if !self.stops() {
            self.step().lemma_halts_within_more((steps - 1) as nat, (more - 1) as nat);
        }
    }

    /// Where none of the first `steps` steps is the last one, the state
    /// reached after them decides whether the next step is: if it is not, the
    /// state after `steps + 1` steps is one step further.
    pub proof fn lemma_one_more_step(self, steps: nat)
        requires
            steps == 0 || !self.halts_within((steps - 1) as nat),
        ensures
            self.stopping_state(steps).stops() <==> self.halts_within(steps),
            !self.stopping_state(steps).stops() ==> self.stopping_state(steps + 1)
                == self.stopping_state(steps).step(),
        decreases steps,
    {
        if steps > 0 {
            let rest = (steps - 1) as nat;
            self.step().lemma_one_more_step(rest);
            assert(self.stopping_state(steps) == self.step().stopping_state(rest));
            assert(self.stopping_state(steps + 1) == self.step().stopping_state(rest + 1));
        } else {
            assert(self.stopping_state(1) == if self.stops() {
                self
            } else {
                self.step().stopping_state(0)
            });
        }
    }

    /// A state from which the run stops halts, and so does a state whose
    /// successor halts.
    pub proof fn lemma_halts_intro(self)
        requires
            self.stops() || self.step().halts(),
        ensures
            self.halts(),
    {
        if self.stops() {
            assert(self.halts_within(0));
        } else {
            let rest = choose|steps: nat| self.step().halts_within(steps);
            assert(self.halts_within(rest + 1));
        }
    }

    /// How a halting run unfolds: from a stopping state it is the single last
    /// step; from any other state it is the run of the successor, which halts
    /// too.
    pub proof fn lemma_run_unfold(self)
        requires
            self.halts(),
        ensures
            self.stops() ==> self.run() == self.step() && self.last_state() == self,
            !self.stops() ==> self.step().halts() && self.run() == self.step().run()
                && self.run_result() == self.step().run_result() && self.last_state()
                == self.step().last_state(),
    {
        let chosen = choose|steps: nat| self.halts_within(steps);
        if self.stops() {
            assert(self.stopping_state(chosen) == self);
        } else {
            let rest = (chosen - 1) as nat;
            assert(self.step().halts_within(rest));
            self.step().lemma_last_state(rest);
        }
    }

    /// A run never reports anything but success or an unsupported opcode, and
    /// the fault names the byte under the program counter of the final state.
    pub proof fn lemma_run_result(self)
        requires
            self.halts(),
        ensures
            self.run_result() is Ok <==> decode_spec(self.last_state().opcode()) is Some,
            self.run_result() is Ok ==> decode_spec(self.last_state().opcode()).unwrap().operation
                == Operation::Brk,
            self.run_result() is Err ==> self.run() == self.last_state() && self.run_result()
                == Err::<(), CpuError>(
                CpuError::UnimplementedOpcode {
                    opcode: self.run().opcode(),
                    address: self.run().pc,
                },
            ),
    {
        let chosen = choose|steps: nat| self.halts_within(steps);
        self.lemma_last_state(chosen);
    }

    /// What no step changes: the size of memory, the four reserved status
    /// bits, and the Y register, which no supported instruction writes.
    pub proof fn lemma_step_preserves(self)
        ensures
            self.wf() ==> self.step().wf(),
            self.step().status & RESERVED == self.status & RESERVED,
            self.step().y == self.y,
    {
        match decode_spec(self.opcode()) {
            None => {},
            Some(instruction) => {
                let fetched = self.advance(1);
                fetched.lemma_lda(instruction.mode);
                fetched.lemma_tax();
                fetched.lemma_inx();
                fetched.lemma_adc(instruction.mode);
                fetched.lemma_sbc(instruction.mode);
            },
        }
    }

    /// What no run changes: the size of memory, the four reserved status
    /// bits, and the Y register.
    pub proof fn lemma_run_preserves(self)
        requires
            self.halts(),
        ensures
            self.wf() ==> self.run().wf(),
            self.run().status & RESERVED == self.status & RESERVED,
            self.run().y == self.y,
    {
        let steps = choose|steps: nat| self.halts_within(steps);
        self.lemma_stopping_state_preserves(steps);
        self.last_state().lemma_step_preserves();
    }

    /// What holds of the state after one step holds of the state after any
    /// number of them.
    pub proof fn lemma_stopping_state_preserves(self, steps: nat)
        ensures
            self.wf() ==> self.stopping_state(steps).wf(),
            self.stopping_state(steps).status & RESERVED == self.status & RESERVED,
            self.stopping_state(steps).y == self.y,
        decreases steps,
    {
        if !(self.stops() || steps == 0) {
            self.lemma_step_preserves();
            self.step().lemma_stopping_state_preserves((steps - 1) as nat);
        }
    }
}

} // verus!
