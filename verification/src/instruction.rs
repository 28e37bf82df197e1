//! Decoding of opcode bytes, and what each instruction costs.

use vstd::prelude::*;

use crate::cpu::Cpu;

verus! {

/// What an opcode byte decodes to.
#[derive(Debug, Clone, Copy, PartialEq, Eq, Structural)]
pub enum Instruction {
    /// Load the accumulator with the byte that follows the opcode.
    LdaImmediate,
    /// Load the accumulator from the zero-page cell that the operand names.
    LdaZeroPage,
    /// Load the accumulator from the zero-page cell at operand plus X, wrapping within the page.
    LdaZeroPageX,
    /// Push the return address and jump to the 16-bit operand.
    Jsr,
    /// A byte that is no opcode of the supported set; it is skipped.
    Unsupported(u8),
}

impl Instruction {
    /// The instruction that `opcode` stands for.
    pub open spec fn decode_spec(opcode: u8) -> Instruction {
        if opcode == Cpu::INS_LDA_IM {
            Instruction::LdaImmediate
        } else if opcode == Cpu::INS_LDA_ZP {
            Instruction::LdaZeroPage
        } else if opcode == Cpu::INS_LDA_ZPX {
            Instruction::LdaZeroPageX
        } else if opcode == Cpu::INS_JSR {
            Instruction::Jsr
        } else {
            Instruction::Unsupported(opcode)
        }
    }

    /// The cycles that the instruction consumes, its opcode fetch included.
    pub open spec fn cost(self) -> nat {
        match self {
            Instruction::LdaImmediate => 2,
            Instruction::LdaZeroPage => 3,
            Instruction::LdaZeroPageX => 4,
            Instruction::Jsr => 5,
            Instruction::Unsupported(_) => 1,
        }
    }

    /// The memory cells that the instruction reads or writes, its opcode fetch included.
    pub open spec fn accesses(self) -> nat {
        match self {
            Instruction::LdaImmediate => 2,
            Instruction::LdaZeroPage => 3,
            Instruction::LdaZeroPageX => 3,
            Instruction::Jsr => 5,
            Instruction::Unsupported(_) => 1,
        }
    }

    /// Decodes an opcode byte.
    #[verifier::when_used_as_spec(decode_spec)]
    pub fn decode(opcode: u8) -> (instruction: Instruction)
        ensures
            instruction == Instruction::decode_spec(opcode),
    {
        if opcode == Cpu::INS_LDA_IM {
            Instruction::LdaImmediate
        } else if opcode == Cpu::INS_LDA_ZP {
            Instruction::LdaZeroPage
        } else if opcode == Cpu::INS_LDA_ZPX {
            Instruction::LdaZeroPageX
        } else if opcode == Cpu::INS_JSR {
            Instruction::Jsr
        } else {
            Instruction::Unsupported(opcode)
        }
    }

    /// The cycles that the instruction consumes, its opcode fetch included.
    pub fn cycles(self) -> (cycles: u32)
        ensures
            cycles == self.cost(),
    {
        match self {
            Instruction::LdaImmediate => 2,
            Instruction::LdaZeroPage => 3,
            Instruction::LdaZeroPageX => 4,
            Instruction::Jsr => 5,
            Instruction::Unsupported(_) => 1,
        }
    }
}

} // verus!
