//! The 64 KiB byte-addressable store.
//!
//! Addresses are taken as `u32` and must lie below `Memory::MAX_MEM`. The
//! processor only ever forms 16-bit addresses, so it meets that by
//! construction; for any other caller an address outside the store is a
//! violated precondition, not an error to recover from.

use vstd::prelude::*;

verus! {

/// The low byte of a 16-bit value.
pub open spec fn low_byte(value: u16) -> u8 {
    (value % 256) as u8
}

/// The high byte of a 16-bit value.
pub open spec fn high_byte(value: u16) -> u8 {
    (value / 256) as u8
}

/// Sixty-four kibibytes of memory, addressed `0x0000..=0xFFFF`.
pub struct Memory {
    pub(crate) data: [u8; 65536],
}

impl View for Memory {
    type V = Seq<u8>;

    open(crate) spec fn view(&self) -> Seq<u8> {
        self.data@
    }
}

impl Memory {
    /// The number of cells.
    pub const MAX_MEM: usize = 1024 * 64;

    /// A store in which every cell is zero.
    pub fn new() -> (mem: Self)
        ensures
            mem@.len() == Memory::MAX_MEM,
            forall|a: int| 0 <= a < Memory::MAX_MEM ==> mem@[a] == 0,
    {
        Memory { data: [0u8; 65536] }
    }

    /// Stores `value` little-endian, the low byte at `addr` and the high byte
    /// at `addr + 1`, and debits one cycle. No other cell changes.
    ///
    /// Both cells must lie in the store, and `cycles` must hold the cycle to
    /// debit: the counter never goes below zero.
    pub fn write16(&mut self, cycles: &mut u32, value: u16, addr: u32)
        requires
            addr + 1 < Memory::MAX_MEM,
            *old(cycles) >= 1,
        ensures
            final(self)@ == old(self)@.update(addr as int, low_byte(value)).update(
                addr + 1,
                high_byte(value),
            ),
            *final(cycles) == *old(cycles) - 1,
    {
        let low = (value & 0xFF) as u8;
        let high = (value >> 8) as u8;
        assert(low == low_byte(value) && high == high_byte(value)) by (bit_vector)
            requires
                low == (value & 0xFF) as u8,
                high == (value >> 8) as u8,
        ;
        self.data[addr as usize] = low;
        self.data[addr as usize + 1] = high;
        *cycles -= 1;
    }
}

impl core::ops::Index<u32> for Memory {
    type Output = u8;

    /// The byte at address `index`.
    fn index(&self, index: u32) -> (value: &u8)
        ensures
            *value == self@[index as int],
    {
        &self.data[index as usize]
    }
}

impl vstd::std_specs::core::IndexSpecImpl<u32> for Memory {
    open spec fn index_req(&self, index: &u32) -> bool {
        *index < Memory::MAX_MEM
    }
}

impl core::ops::IndexMut<u32> for Memory {
    /// The cell at address `index`; writing through it changes that cell only.
    fn index_mut(&mut self, index: u32) -> (value: &mut u8)
        requires
            index < Memory::MAX_MEM,
        ensures
            *value == old(self)@[index as int],
            final(self)@ == old(self)@.update(index as int, *final(value)),
    {
        &mut self.data[index as usize]
    }
}

} // verus!
