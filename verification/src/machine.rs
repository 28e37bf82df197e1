//! The processor as a mathematical object: its state, the effect of one
//! instruction, and the run of a cycle budget.
//!
//! Everything here is specification. The executable processor in `cpu` is
//! proved to follow it.

use vstd::prelude::*;

use crate::instruction::Instruction;
use crate::memory::{high_byte, low_byte};
use crate::processor_status::Flag;
use crate::registers::Register;

verus! {

/// The number of memory cells.
pub open spec fn memory_size() -> nat {
    0x1_0000
}

/// The architectural state of the processor.
pub struct CpuState {
    /// The address of the next instruction byte.
    pub program_counter: u16,
    /// The address of the next free stack slot.
    pub stack_pointer: u16,
    /// The accumulator.
    pub a: u8,
    /// The X index register.
    pub x: u8,
    /// The Y index register.
    pub y: u8,
    /// The condition flags that are set.
    pub flags: Set<Flag>,
}

impl CpuState {
    /// The state after power-on.
    pub open spec fn power_on() -> CpuState {
        CpuState {
            program_counter: 0xFFFC,
            stack_pointer: 0x0100,
            a: 0,
            x: 0,
            y: 0,
            flags: Set::empty(),
        }
    }

    /// The value of register `r`.
    pub open spec fn register(self, r: Register) -> u8 {
        match r {
            Register::A => self.a,
            Register::X => self.x,
            Register::Y => self.y,
        }
    }

    /// This state with register `r` holding `value`.
    pub open spec fn with_register(self, r: Register, value: u8) -> CpuState {
        match r {
            Register::A => CpuState { a: value, ..self },
            Register::X => CpuState { x: value, ..self },
            Register::Y => CpuState { y: value, ..self },
        }
    }
}

/// A processor, the memory it works on, and the cycles it may still spend.
pub struct Machine {
    /// The processor.
    pub cpu: CpuState,
    /// The memory, one byte per address.
    pub memory: Seq<u8>,
    /// The cycles that remain of the budget.
    pub cycles: nat,
}

/// The address `distance` cells past `address`; addresses wrap at 16 bits.
pub open spec fn advance(address: u16, distance: int) -> u16 {
    ((address + distance) % 0x1_0000) as u16
}

/// The 16-bit value with the given low and high bytes.
pub open spec fn word(low: u8, high: u8) -> u16 {
    (low + 0x100 * high) as u16
}

/// The zero-page address `index` cells past `base`; the sum wraps within the page.
pub open spec fn zero_page_indexed(base: u8, index: u8) -> u8 {
    ((base + index) % 0x100) as u8
}

/// The flags after a load of `value`: Zero is set exactly when `value` is 0,
/// Negative exactly when its bit 7 is 1; the other flags stay.
pub open spec fn load_flags(flags: Set<Flag>, value: u8) -> Set<Flag> {
    let zero = if value == 0 {
        flags.insert(Flag::Zero)
    } else {
        flags.remove(Flag::Zero)
    };
    if value >= 0x80 {
        zero.insert(Flag::Negative)
    } else {
        zero.remove(Flag::Negative)
    }
}

/// The state after the accumulator is loaded with `value` and the program
/// counter has moved `length` bytes on.
pub open spec fn loaded(cpu: CpuState, value: u8, length: int) -> CpuState {
    CpuState {
        program_counter: advance(cpu.program_counter, length),
        a: value,
        flags: load_flags(cpu.flags, value),
        ..cpu
    }
}

impl Machine {
    /// The memory holds one byte for each 16-bit address.
    pub open spec fn wf(self) -> bool {
        self.memory.len() == memory_size()
    }

    /// The byte `offset` cells past the program counter.
    pub open spec fn byte_at_pc(self, offset: int) -> u8 {
        self.memory[advance(self.cpu.program_counter, offset) as int]
    }

    /// The instruction that the program counter points at.
    pub open spec fn instruction(self) -> Instruction {
        Instruction::decode_spec(self.byte_at_pc(0))
    }

    /// Whether the budget covers the whole of the next instruction.
    pub open spec fn affordable(self) -> bool {
        self.instruction().cost() <= self.cycles
    }

    /// The address that jump-to-subroutine pushes: the program counter after
    /// the operand fetch, less one.
    pub open spec fn return_address(self) -> u16 {
        advance(advance(self.cpu.program_counter, 3), -1)
    }

    /// The processor after the next instruction has run to completion.
    pub open spec fn cpu_after(self) -> CpuState {
        let cpu = self.cpu;
        match self.instruction() {
            Instruction::LdaImmediate => loaded(cpu, self.byte_at_pc(1), 2),
            Instruction::LdaZeroPage => loaded(cpu, self.memory[self.byte_at_pc(1) as int], 2),
            Instruction::LdaZeroPageX => loaded(
                cpu,
                self.memory[zero_page_indexed(self.byte_at_pc(1), cpu.x) as int],
                2,
            ),
            Instruction::Jsr => CpuState {
                program_counter: word(self.byte_at_pc(1), self.byte_at_pc(2)),
                stack_pointer: advance(cpu.stack_pointer, 1),
                ..cpu
            },
            Instruction::Unsupported(_) => CpuState {
                program_counter: advance(cpu.program_counter, 1),
                ..cpu
            },
        }
    }

    /// The memory after the next instruction has run to completion.
    pub open spec fn memory_after(self) -> Seq<u8> {
        match self.instruction() {
            Instruction::Jsr => self.memory.update(
                self.cpu.stack_pointer as int,
                low_byte(self.return_address()),
            ).update(
                advance(self.cpu.stack_pointer, 1) as int,
                high_byte(self.return_address()),
            ),
            _ => self.memory,
        }
    }

    /// One step: the next instruction runs to completion where the budget
    /// covers all of it; otherwise nothing changes.
    pub open spec fn step(self) -> Machine {
        if self.affordable() {
            Machine {
                cpu: self.cpu_after(),
                memory: self.memory_after(),
                cycles: (self.cycles - self.instruction().cost()) as nat,
            }
        } else {
            self
        }
    }

    /// The machine after it has taken steps until the budget no longer covers
    /// the next instruction.
    pub open spec fn run(self) -> Machine
        decreases self.cycles,
    {
        if self.affordable() {
            self.step().run()
        } else {
            self
        }
    }

    /// The unsupported opcode bytes that `run` meets, in the order met.
    pub open spec fn skipped(self) -> Seq<u8>
        decreases self.cycles,
    {
        if self.affordable() {
            match self.instruction() {
                Instruction::Unsupported(opcode) => seq![opcode] + self.step().skipped(),
                _ => self.step().skipped(),
            }
        } else {
            Seq::empty()
        }
    }

    /// The memory cells that `run` reads or writes. An instruction that the
    /// budget does not cover has had its opcode read, where a cycle was left
    /// to read it.
    pub open spec fn accesses(self) -> nat
        decreases self.cycles,
    {
        if self.affordable() {
            self.instruction().accesses() + self.step().accesses()
        } else if self.cycles > 0 {
            1
        } else {
            0
        }
    }
}

} // verus!
