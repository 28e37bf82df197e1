//! The processor status register: six named condition flags in one byte.

use vstd::prelude::*;

verus! {

/// One of the six condition flags.
#[derive(Debug, Clone, Copy, PartialEq, Eq, Structural)]
pub enum Flag {
    /// C: the carry out of an addition, a subtraction or a shift.
    Carry,
    /// Z: the last result was zero.
    Zero,
    /// I: maskable interrupts are inhibited.
    InterruptDisable,
    /// D: arithmetic works on binary-coded decimals.
    Decimal,
    /// V: the last signed result was out of range.
    Overflow,
    /// N: bit 7 of the last result.
    Negative,
}

impl Flag {
    /// The bit that stands for this flag in the status byte.
    pub open spec fn mask(self) -> u8 {
        match self {
            Flag::Carry => 0x01,
            Flag::Zero => 0x02,
            Flag::InterruptDisable => 0x04,
            Flag::Decimal => 0x08,
            Flag::Overflow => 0x40,
            Flag::Negative => 0x80,
        }
    }

    /// The bit that stands for this flag in the status byte.
    pub fn bit(self) -> (m: u8)
        ensures
            m == self.mask(),
    {
        match self {
            Flag::Carry => 0x01,
            Flag::Zero => 0x02,
            Flag::InterruptDisable => 0x04,
            Flag::Decimal => 0x08,
            Flag::Overflow => 0x40,
            Flag::Negative => 0x80,
        }
    }
}

/// What `flag` adds to the status byte of a set that holds `flags`.
pub open spec fn weight(flags: Set<Flag>, flag: Flag) -> int {
    if flags.contains(flag) {
        flag.mask() as int
    } else {
        0
    }
}

/// The status byte of a set of flags: the sum of the bits of the flags it holds.
pub open spec fn encoding(flags: Set<Flag>) -> int {
    weight(flags, Flag::Carry) + weight(flags, Flag::Zero) + weight(flags, Flag::InterruptDisable)
        + weight(flags, Flag::Decimal) + weight(flags, Flag::Overflow) + weight(
        flags,
        Flag::Negative,
    )
}

/// A set of condition flags, kept as one byte.
///
/// Bits 4 and 5 of the byte belong to no flag. They are zero in every value of
/// this type: no operation can reach them.
#[derive(Debug, Clone, Copy, PartialEq, Eq, Structural)]
pub struct ProcessorStatus {
    bits: u8,
}

impl View for ProcessorStatus {
    type V = Set<Flag>;

    closed spec fn view(&self) -> Set<Flag> {
        Set::new(|flag: Flag| self.bits & flag.mask() != 0)
    }
}

proof fn lemma_flag_bits(bits: u8, m: u8, n: u8)
    by (bit_vector)
    requires
        m == 0x01 || m == 0x02 || m == 0x04 || m == 0x08 || m == 0x40 || m == 0x80,
        n == 0x01 || n == 0x02 || n == 0x04 || n == 0x08 || n == 0x40 || n == 0x80,
    ensures
        ((bits | m) & n != 0) == (m == n || bits & n != 0),
        ((bits & !m) & n != 0) == (m != n && bits & n != 0),
        bits & 0x30 == 0 ==> (bits | m) & 0x30 == 0 && (bits & !m) & 0x30 == 0,
        (bits & m == m) == (bits & m != 0),
{
}

proof fn lemma_byte_is_sum_of_bits(bits: u8)
    by (bit_vector)
    requires
        bits & 0x30 == 0,
    ensures
        bits == (if bits & 0x01 != 0 { 0x01u8 } else { 0u8 }) + (if bits & 0x02 != 0 { 0x02u8 } else { 0u8 }) + (if bits
            & 0x04 != 0 { 0x04u8 } else { 0u8 }) + (if bits & 0x08 != 0 { 0x08u8 } else { 0u8 }) + (if bits & 0x40
            != 0 { 0x40u8 } else { 0u8 }) + (if bits & 0x80 != 0 { 0x80u8 } else { 0u8 }),
{
}

impl ProcessorStatus {
    /// The bits of the status byte that stand for a flag.
    pub const FLAG_BITS: u8 = 0b1100_1111;

    #[verifier::type_invariant]
    spec fn reserved_bits_clear(self) -> bool {
        self.bits & 0x30 == 0
    }

    /// The status with every flag clear.
    pub fn empty() -> (status: Self)
        ensures
            status@ == Set::<Flag>::empty(),
    {
        assert(0u8 & 0x30 == 0) by (bit_vector);
        let status = ProcessorStatus { bits: 0 };
        proof {
            assert forall|flag: Flag| 0u8 & #[trigger] flag.mask() == 0 by {
                let m = flag.mask();
                assert(0u8 & m == 0) by (bit_vector);
            }
            assert(status@ =~= Set::<Flag>::empty());
        }
        status
    }

    /// Whether `flag` is set.
    pub fn contains(&self, flag: Flag) -> (held: bool)
        ensures
            held == self@.contains(flag),
    {
        let m = flag.bit();
        proof {
            lemma_flag_bits(self.bits, m, m);
        }
        self.bits & m == m
    }

    /// Sets `flag` where `value` holds and clears it where not; no other flag changes.
    pub fn set(&mut self, flag: Flag, value: bool)
        ensures
            final(self)@ == if value {
                old(self)@.insert(flag)
            } else {
                old(self)@.remove(flag)
            },
    {
        let m = flag.bit();
        let before = self.bits;
        proof {
            use_type_invariant(&*self);
            assert forall|other: Flag|
                (((before | m) & #[trigger] other.mask() != 0) == (other == flag || before & other.mask() != 0))
                && (((before & !m) & other.mask() != 0) == (other != flag && before & other.mask() != 0)) by {
                lemma_flag_bits(before, m, other.mask());
            }
            lemma_flag_bits(before, m, m);
        }
        if value {
            self.bits = before | m;
            assert(self@ =~= old(self)@.insert(flag));
        } else {
            self.bits = before & !m;
            assert(self@ =~= old(self)@.remove(flag));
        }
    }

    /// The status byte: each flag held contributes its bit, and bits 4 and 5 are zero.
    pub fn bits(&self) -> (byte: u8)
        ensures
            byte == encoding(self@),
            byte & !ProcessorStatus::FLAG_BITS == 0,
    {
        proof {
            use_type_invariant(self);
            lemma_byte_is_sum_of_bits(self.bits);
            let b = self.bits;
            assert(!0b1100_1111u8 == 0x30u8) by (bit_vector);
        }
        self.bits
    }
}

} // verus!
