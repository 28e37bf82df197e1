//! What holds of every machine: the effect of each instruction, and the
//! bounds that a run of a cycle budget keeps.

use vstd::prelude::*;

use crate::cpu::Cpu;
use crate::instruction::Instruction;
use crate::machine::{advance, memory_size, word, CpuState, Machine};
use crate::memory::{high_byte, low_byte};
use crate::processor_status::Flag;

verus! {

/// Whether bit 7 of `value` is 1.
pub open spec fn bit7(value: u8) -> bool {
    value & 0x80 == 0x80
}

proof fn lemma_bit7(value: u8)
    by (bit_vector)
    ensures
        (value & 0x80 == 0x80) == (value >= 0x80),
{
}

/// Load-immediate puts its operand into the accumulator. It sets Zero exactly
/// when the operand is 0 and Negative exactly when bit 7 of the operand is 1,
/// and leaves every other flag, the other registers, the stack pointer and
/// the memory as they were.
pub proof fn lemma_load_immediate(m: Machine)
    requires
        m.wf(),
        m.byte_at_pc(0) == Cpu::INS_LDA_IM,
        m.cycles >= 2,
    ensures
        m.step().cpu.a == m.byte_at_pc(1),
        m.step().cpu.flags.contains(Flag::Zero) <==> m.byte_at_pc(1) == 0,
        m.step().cpu.flags.contains(Flag::Negative) <==> bit7(m.byte_at_pc(1)),
        forall|flag: Flag|
            flag != Flag::Zero && flag != Flag::Negative ==> (m.step().cpu.flags.contains(flag)
                <==> m.cpu.flags.contains(flag)),
        m.step().cpu.program_counter == advance(m.cpu.program_counter, 2),
        m.step().cpu.stack_pointer == m.cpu.stack_pointer,
        m.step().cpu.x == m.cpu.x,
        m.step().cpu.y == m.cpu.y,
        m.step().memory == m.memory,
        m.step().cycles == m.cycles - 2,
{
    lemma_bit7(m.byte_at_pc(1));
}

/// Zero-page load puts the byte of the cell that its operand names into the
/// accumulator: the value last written there. Its flags are those that
/// load-immediate of that value gives from the same flags.
pub proof fn lemma_load_zero_page(m: Machine, earlier: Seq<u8>, value: u8, immediate: Machine)
    requires
        m.wf(),
        m.byte_at_pc(0) == Cpu::INS_LDA_ZP,
        m.cycles >= 3,
        earlier.len() == memory_size(),
        m.memory == earlier.update(m.byte_at_pc(1) as int, value),
        immediate.wf(),
        immediate.byte_at_pc(0) == Cpu::INS_LDA_IM,
        immediate.byte_at_pc(1) == value,
        immediate.cycles >= 2,
        immediate.cpu.flags == m.cpu.flags,
    ensures
        m.step().cpu.a == value,
        m.step().cpu.a == m.memory[m.byte_at_pc(1) as int],
        m.step().cpu.flags == immediate.step().cpu.flags,
        m.step().cpu.program_counter == advance(m.cpu.program_counter, 2),
        m.step().memory == m.memory,
        m.step().cycles == m.cycles - 3,
{
    assert(m.step().cpu.flags =~= immediate.step().cpu.flags);
}

/// Zero-page load indexed by X reads the cell at operand plus X modulo 256:
/// the address stays within the zero page.
pub proof fn lemma_load_zero_page_indexed(m: Machine)
    requires
        m.wf(),
        m.byte_at_pc(0) == Cpu::INS_LDA_ZPX,
        m.cycles >= 4,
    ensures
        m.step().cpu.a == m.memory[(m.byte_at_pc(1) + m.cpu.x) % 256],
        0 <= (m.byte_at_pc(1) + m.cpu.x) % 256 < 256,
        m.step().cpu.program_counter == advance(m.cpu.program_counter, 2),
        m.step().memory == m.memory,
        m.step().cycles == m.cycles - 4,
{
}

/// Jump-to-subroutine stores the return address, which is the address of the
/// last byte of the instruction, little-endian at the stack pointer it began
/// with, moves the stack pointer one cell on and the program counter to the
/// operand. No other cell of the memory changes.
pub proof fn lemma_jump_to_subroutine(m: Machine)
    requires
        m.wf(),
        m.byte_at_pc(0) == Cpu::INS_JSR,
        m.cycles >= 5,
    ensures
        m.return_address() == advance(m.cpu.program_counter, 2),
        m.step().memory[m.cpu.stack_pointer as int] == low_byte(m.return_address()),
        m.step().memory[advance(m.cpu.stack_pointer, 1) as int] == high_byte(m.return_address()),
        word(low_byte(m.return_address()), high_byte(m.return_address())) == m.return_address(),
        forall|address: int|
            0 <= address < m.memory.len() && address != m.cpu.stack_pointer && address != advance(
                m.cpu.stack_pointer,
                1,
            ) ==> m.step().memory[address] == m.memory[address],
        m.step().memory.len() == m.memory.len(),
        m.step().cpu.program_counter == word(m.byte_at_pc(1), m.byte_at_pc(2)),
        m.step().cpu.stack_pointer == advance(m.cpu.stack_pointer, 1),
        m.step().cpu.a == m.cpu.a,
        m.step().cpu.x == m.cpu.x,
        m.step().cpu.y == m.cpu.y,
        m.step().cpu.flags == m.cpu.flags,
        m.step().cycles == m.cycles - 5,
{
}

/// A byte that is no supported opcode costs the one cycle of its fetch and
/// changes nothing but the program counter: the run reports the byte and goes
/// on with the byte after it as the next opcode.
pub proof fn lemma_unsupported_opcode(m: Machine)
    requires
        m.wf(),
        m.byte_at_pc(0) != Cpu::INS_LDA_IM,
        m.byte_at_pc(0) != Cpu::INS_LDA_ZP,
        m.byte_at_pc(0) != Cpu::INS_LDA_ZPX,
        m.byte_at_pc(0) != Cpu::INS_JSR,
        m.cycles >= 1,
    ensures
        m.step().cpu == (CpuState { program_counter: advance(m.cpu.program_counter, 1), ..m.cpu }),
        m.step().memory == m.memory,
        m.step().cycles == m.cycles - 1,
        m.step().instruction() == Instruction::decode_spec(m.byte_at_pc(1)),
        m.run() == m.step().run(),
        m.skipped() == seq![m.byte_at_pc(0)] + m.step().skipped(),
{
    assert(advance(advance(m.cpu.program_counter, 1), 0) == advance(m.cpu.program_counter, 1));
}

/// A run never overdraws its budget, and it ends only where the budget does
/// not cover the next instruction.
pub proof fn lemma_run_within_budget(m: Machine)
    ensures
        m.run().cycles <= m.cycles,
        !m.run().affordable(),
        m.wf() ==> m.run().wf(),
    decreases m.cycles,
{
    if m.affordable() {
        lemma_run_within_budget(m.step());
    }
}

/// A run reads and writes no more memory cells than its budget has cycles.
pub proof fn lemma_accesses_within_budget(m: Machine)
    ensures
        m.accesses() <= m.cycles,
    decreases m.cycles,
{
    if m.affordable() {
        lemma_accesses_within_budget(m.step());
    }
}

} // verus!
