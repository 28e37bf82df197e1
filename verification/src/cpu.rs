//! The executable processor: fetch, decode and execute against a cycle budget.
//!
//! # The cycle budget
//!
//! Every fetch, read and write debits the budget. The budget is a hard
//! ceiling: before an instruction runs, its whole cost is held against what is
//! left, and an instruction that costs more is not begun. `step` then answers
//! `BudgetExhausted` and `execute` returns with the cycles left over. No
//! counter ever goes below zero, and no instruction is ever left half done.
//!
//! # Unsupported opcodes
//!
//! A byte outside the supported set is no failure. It costs the cycle of its
//! fetch, the byte after it is taken as the next opcode, and the caller is
//! told: `step` names the byte in its outcome, `execute` collects the bytes in
//! its report. What to do about them is the host program's choice.
//!
//! # Addresses
//!
//! The program counter and the stack pointer are 16 bits wide and wrap: the
//! cell after `0xFFFF` is `0x0000`. No address can lie outside the memory.
//!
//! # The stack pointer
//!
//! Jump-to-subroutine stores two bytes at the stack pointer and moves the
//! stack pointer up by one. That is the convention of this core, not of the
//! chip, which moves its stack pointer down by two, one for each byte. A
//! return instruction, once there is one, has to pop to match.

use vstd::prelude::*;

use crate::instruction::Instruction;
use crate::machine::{advance, load_flags, memory_size, word, CpuState, Machine};
use crate::memory::{high_byte, low_byte, Memory};
use crate::processor_status::{Flag, ProcessorStatus};
use crate::registers::{Register, Registers};
use crate::theorems::lemma_run_within_budget;

verus! {

/// What one step did.
#[derive(Debug, Clone, Copy, PartialEq, Eq, Structural)]
pub enum StepOutcome {
    /// The instruction ran to completion. `Unsupported` stands for a byte
    /// that was skipped.
    Executed(Instruction),
    /// The budget does not cover the next instruction; nothing changed.
    BudgetExhausted,
}

impl StepOutcome {
    /// The outcome of a step of `m`.
    pub open spec fn of(m: Machine) -> StepOutcome {
        if m.affordable() {
            StepOutcome::Executed(m.instruction())
        } else {
            StepOutcome::BudgetExhausted
        }
    }
}

/// What a call of `execute` reports.
#[derive(Debug)]
pub struct Execution {
    /// The cycles left unspent. It is not zero exactly when the run ended on
    /// an instruction that costs more than what was left.
    pub remaining: u32,
    /// The unsupported opcode bytes that were skipped, in the order met.
    pub unsupported: Vec<u8>,
}

/// The machine made of a processor state, a memory and a budget.
pub open spec fn machine(cpu: CpuState, memory: Seq<u8>, cycles: u32) -> Machine {
    Machine { cpu, memory, cycles: cycles as nat }
}

/// The processor: program counter, stack pointer, register file and status.
#[derive(Debug, Clone, Copy)]
pub struct Cpu {
    program_counter: u16,
    stack_pointer: u16,
    registers: Registers,
    processor_status: ProcessorStatus,
}

impl View for Cpu {
    type V = CpuState;

    closed spec fn view(&self) -> CpuState {
        CpuState {
            program_counter: self.program_counter,
            stack_pointer: self.stack_pointer,
            a: self.registers[Register::A],
            x: self.registers[Register::X],
            y: self.registers[Register::Y],
            flags: self.processor_status@,
        }
    }
}

impl core::ops::Index<Register> for Cpu {
    type Output = u8;

    /// The value of register `index`.
    fn index(&self, index: Register) -> (value: &u8)
        ensures
            *value == self@.register(index),
    {
        &self.registers[index]
    }
}

impl vstd::std_specs::core::IndexSpecImpl<Register> for Cpu {
    open spec fn index_req(&self, index: &Register) -> bool {
        true
    }
}

impl core::ops::IndexMut<Register> for Cpu {
    /// Register `index`; writing through it changes that register only.
    fn index_mut(&mut self, index: Register) -> (value: &mut u8)
        ensures
            *value == old(self)@.register(index),
            final(self)@ == old(self)@.with_register(index, *final(value)),
    {
        core::ops::IndexMut::index_mut(&mut self.registers, index)
    }
}

impl Cpu {
    /// Opcode of load-accumulator, immediate.
    pub const INS_LDA_IM: u8 = 0xA9;

    /// Opcode of load-accumulator, zero page.
    pub const INS_LDA_ZP: u8 = 0xA5;

    /// Opcode of load-accumulator, zero page indexed by X.
    pub const INS_LDA_ZPX: u8 = 0xB5;

    /// Opcode of jump-to-subroutine.
    pub const INS_JSR: u8 = 0x20;

    /// A processor in its power-on state.
    pub fn new() -> (cpu: Self)
        ensures
            cpu@ == CpuState::power_on(),
    {
        Cpu {
            program_counter: 0xFFFC,
            stack_pointer: 0x0100,
            registers: Registers::new(),
            processor_status: ProcessorStatus::empty(),
        }
    }

    /// Puts the processor back into its power-on state, whatever state it was in.
    pub fn reset(&mut self)
        ensures
            final(self)@ == CpuState::power_on(),
    {
        self.program_counter = 0xFFFC;
        self.stack_pointer = 0x0100;
        self.registers = Registers::new();
        self.processor_status = ProcessorStatus::empty();
    }

    /// The address of the next instruction byte.
    pub fn program_counter(&self) -> (address: u16)
        ensures
            address == self@.program_counter,
    {
        self.program_counter
    }

    /// The address of the next free stack slot.
    pub fn stack_pointer(&self) -> (address: u16)
        ensures
            address == self@.stack_pointer,
    {
        self.stack_pointer
    }

    /// The condition flags.
    pub fn processor_status(&self) -> (status: ProcessorStatus)
        ensures
            status@ == self@.flags,
    {
        self.processor_status
    }

    /// Reads the byte at the program counter, moves the program counter one
    /// byte on and debits one cycle.
    fn fetch8(&mut self, cycles: &mut u32, mem: &Memory) -> (data: u8)
        requires
            *old(cycles) >= 1,
        ensures
            data == mem@[old(self)@.program_counter as int],
            final(self)@ == (CpuState {
                program_counter: advance(old(self)@.program_counter, 1),
                ..old(self)@
            }),
            *final(cycles) == *old(cycles) - 1,
    {
        let data = mem[self.program_counter as u32];
        self.program_counter = self.program_counter.wrapping_add(1);
        *cycles -= 1;
        data
    }

    /// Reads two bytes at the program counter as a little-endian word, moves
    /// the program counter two bytes on and debits two cycles.
    fn fetch16(&mut self, cycles: &mut u32, mem: &Memory) -> (data: u16)
        requires
            *old(cycles) >= 2,
        ensures
            data == word(
                mem@[old(self)@.program_counter as int],
                mem@[advance(old(self)@.program_counter, 1) as int],
            ),
            final(self)@ == (CpuState {
                program_counter: advance(old(self)@.program_counter, 2),
                ..old(self)@
            }),
            *final(cycles) == *old(cycles) - 2,
    {
        let low = self.fetch8(cycles, mem);
        let high = self.fetch8(cycles, mem);
        assert(low as u16 | (high as u16) << 8 == low + 0x100 * high) by (bit_vector);
        low as u16 | (high as u16) << 8
    }

    /// Reads the zero-page cell at `address` and debits one cycle.
    fn read_byte(&self, cycles: &mut u32, address: u8, mem: &Memory) -> (data: u8)
        requires
            *old(cycles) >= 1,
        ensures
            data == mem@[address as int],
            *final(cycles) == *old(cycles) - 1,
    {
        let data = mem[address as u32];
        *cycles -= 1;
        data
    }

    /// Sets Zero and Negative from the accumulator, as every load does.
    fn lda_set_status(&mut self)
        ensures
            final(self)@ == (CpuState { flags: load_flags(old(self)@.flags, old(self)@.a), ..old(self)@ }),
    {
        let value = self[Register::A];
        assert((value & 0x80 > 0) == (value >= 0x80)) by (bit_vector);
        self.processor_status.set(Flag::Zero, value == 0);
        self.processor_status.set(Flag::Negative, value & 0x80 > 0);
    }

    /// Stores `value` little-endian at the stack pointer and the cell after
    /// it, and debits one cycle. The stack pointer itself stays.
    fn push16(&self, cycles: &mut u32, value: u16, mem: &mut Memory)
        requires
            *old(cycles) >= 1,
        ensures
            final(mem)@ == old(mem)@.update(self@.stack_pointer as int, low_byte(value)).update(
                advance(self@.stack_pointer, 1) as int,
                high_byte(value),
            ),
            *final(cycles) == *old(cycles) - 1,
    {
        if self.stack_pointer < 0xFFFF {
            mem.write16(cycles, value, self.stack_pointer as u32);
        } else {
            // The cell after the last one is the first: the word straddles the wrap.
            let low = (value & 0xFF) as u8;
            let high = (value >> 8) as u8;
            assert(low == low_byte(value) && high == high_byte(value)) by (bit_vector)
                requires
                    low == (value & 0xFF) as u8,
                    high == (value >> 8) as u8,
            ;
            *core::ops::IndexMut::index_mut(mem, 0xFFFF) = low;
            *core::ops::IndexMut::index_mut(mem, 0x0000) = high;
            *cycles -= 1;
        }
    }

    /// Runs the next instruction to completion, where the budget covers all
    /// of it.
    ///
    /// Where it does not, nothing changes and the outcome is
    /// `BudgetExhausted`: the budget is never overdrawn, and no instruction
    /// is left half done. A byte that is no supported opcode is reported in
    /// the outcome and skipped at the price of its fetch.
    pub fn step(&mut self, cycles: &mut u32, mem: &mut Memory) -> (outcome: StepOutcome)
        ensures
            final(self)@ == machine(old(self)@, old(mem)@, *old(cycles)).step().cpu,
            final(mem)@ == machine(old(self)@, old(mem)@, *old(cycles)).step().memory,
            *final(cycles) == machine(old(self)@, old(mem)@, *old(cycles)).step().cycles,
            outcome == StepOutcome::of(machine(old(self)@, old(mem)@, *old(cycles))),
    {
        if *cycles == 0 {
            return StepOutcome::BudgetExhausted;
        }
        let start = self.program_counter;
        let opcode = self.fetch8(cycles, mem);
        let instruction = Instruction::decode(opcode);
        if *cycles < instruction.cycles() - 1 {
            self.program_counter = start;
            *cycles += 1;
            return StepOutcome::BudgetExhausted;
        }
        match instruction {
            Instruction::LdaImmediate => {
                let value = self.fetch8(cycles, mem);
                *core::ops::IndexMut::index_mut(self, Register::A) = value;
                self.lda_set_status();
            },
            Instruction::LdaZeroPage => {
                let address = self.fetch8(cycles, mem);
                let value = self.read_byte(cycles, address, mem);
                *core::ops::IndexMut::index_mut(self, Register::A) = value;
                self.lda_set_status();
            },
            Instruction::LdaZeroPageX => {
                let address = self.fetch8(cycles, mem).wrapping_add(self[Register::X]);
                *cycles -= 1;
                let value = self.read_byte(cycles, address, mem);
                *core::ops::IndexMut::index_mut(self, Register::A) = value;
                self.lda_set_status();
            },
            Instruction::Jsr => {
                let target = self.fetch16(cycles, mem);
                let return_address = self.program_counter.wrapping_sub(1);
                self.push16(cycles, return_address, mem);
                self.stack_pointer = self.stack_pointer.wrapping_add(1);
                self.program_counter = target;
                *cycles -= 1;
            },
            Instruction::Unsupported(_) => {},
        }
        StepOutcome::Executed(instruction)
    }

    /// Takes steps until the budget no longer covers the next instruction,
    /// and reports the cycles left over and the unsupported bytes skipped.
    pub fn execute(&mut self, cycles: u32, mem: &mut Memory) -> (report: Execution)
        ensures
            final(self)@ == machine(old(self)@, old(mem)@, cycles).run().cpu,
            final(mem)@ == machine(old(self)@, old(mem)@, cycles).run().memory,
            report.remaining == machine(old(self)@, old(mem)@, cycles).run().cycles,
            report.remaining <= cycles,
            report.unsupported@ == machine(old(self)@, old(mem)@, cycles).skipped(),
    {
        proof {
            lemma_run_within_budget(machine(self@, mem@, cycles));
        }
        let mut remaining = cycles;
        let mut unsupported: Vec<u8> = Vec::new();
        let ghost start = machine(self@, mem@, cycles);
        loop
            invariant
                mem@.len() == memory_size(),
                machine(self@, mem@, remaining).run() == start.run(),
                unsupported@ + machine(self@, mem@, remaining).skipped() == start.skipped(),
            ensures
                machine(self@, mem@, remaining) == start.run(),
                unsupported@ == start.skipped(),
            decreases remaining,
        {
            let ghost before = machine(self@, mem@, remaining);
            match self.step(&mut remaining, mem) {
                StepOutcome::Executed(Instruction::Unsupported(opcode)) => {
                    unsupported.push(opcode);
                    assert(unsupported@ + before.step().skipped() =~= start.skipped());
                },
                StepOutcome::Executed(_) => {},
                StepOutcome::BudgetExhausted => {
                    break ;
                },
            }
        }
        Execution { remaining, unsupported }
    }
}

} // verus!
