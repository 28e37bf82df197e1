//! The register file: three 8-bit registers reached through a closed set of tags.

use vstd::prelude::*;

verus! {

/// Names one of the three 8-bit registers.
#[derive(Debug, Clone, Copy, PartialEq, Eq, Structural)]
pub enum Register {
    /// The accumulator.
    A,
    /// The X index register.
    X,
    /// The Y index register.
    Y,
}

impl Register {
    /// The slot that holds this register; distinct tags have distinct slots.
    pub open spec fn slot(self) -> int {
        match self {
            Register::A => 0,
            Register::X => 1,
            Register::Y => 2,
        }
    }

    /// The slot that holds this register.
    fn position(self) -> (i: usize)
        ensures
            i == self.slot(),
    {
        match self {
            Register::A => 0,
            Register::X => 1,
            Register::Y => 2,
        }
    }
}

/// The register file. Every register reads zero after construction.
#[derive(Debug, Clone, Copy)]
pub struct Registers(pub [u8; 3]);

impl Registers {
    /// The value held by register `r`.
    pub open spec fn spec_index(&self, r: Register) -> u8 {
        self.0[r.slot()]
    }

    /// A register file with all three registers zero.
    pub fn new() -> (regs: Self)
        ensures
            forall|r: Register| regs[r] == 0,
    {
        Registers([0u8; 3])
    }
}

impl core::ops::Index<Register> for Registers {
    type Output = u8;

    /// The value of register `index`.
    fn index(&self, index: Register) -> (value: &u8)
        ensures
            *value == self[index],
    {
        &self.0[index.position()]
    }
}

impl vstd::std_specs::core::IndexSpecImpl<Register> for Registers {
    open spec fn index_req(&self, index: &Register) -> bool {
        true
    }
}

impl core::ops::IndexMut<Register> for Registers {
    /// Register `index`; writing through it changes that register only.
    fn index_mut(&mut self, index: Register) -> (value: &mut u8)
        ensures
            *value == old(self)[index],
            forall|q: Register| final(self)[q] == if q == index { *final(value) } else { old(self)[q] },
    {
        &mut self.0[index.position()]
    }
}

} // verus!
