use emu6502::processor_status::{Flag, ProcessorStatus};

const ALL: [Flag; 6] = [
    Flag::Carry,
    Flag::Zero,
    Flag::InterruptDisable,
    Flag::Decimal,
    Flag::Overflow,
    Flag::Negative,
];

#[test]
fn empty_status_holds_no_flag() {
    let status = ProcessorStatus::empty();
    for flag in ALL {
        assert!(!status.contains(flag));
    }
    assert_eq!(status.bits(), 0);
}

#[test]
fn each_flag_has_its_bit() {
    assert_eq!(Flag::Carry.bit(), 0b0000_0001);
    assert_eq!(Flag::Zero.bit(), 0b0000_0010);
    assert_eq!(Flag::InterruptDisable.bit(), 0b0000_0100);
    assert_eq!(Flag::Decimal.bit(), 0b0000_1000);
    assert_eq!(Flag::Overflow.bit(), 0b0100_0000);
    assert_eq!(Flag::Negative.bit(), 0b1000_0000);
}

#[test]
fn setting_a_flag_sets_its_bit_only() {
    for flag in ALL {
        let mut status = ProcessorStatus::empty();
        status.set(flag, true);
        assert_eq!(status.bits(), flag.bit());
        for other in ALL {
            assert_eq!(status.contains(other), other == flag);
        }
    }
}

#[test]
fn clearing_a_flag_clears_its_bit_only() {
    for flag in ALL {
        let mut status = ProcessorStatus::empty();
        for other in ALL {
            status.set(other, true);
        }
        status.set(flag, false);
        assert_eq!(status.bits(), 0b1100_1111 & !flag.bit());
        for other in ALL {
            assert_eq!(status.contains(other), other != flag);
        }
    }
}

#[test]
fn bits_are_the_sum_of_the_flags_held() {
    let mut status = ProcessorStatus::empty();
    status.set(Flag::Carry, true);
    status.set(Flag::Negative, true);
    assert_eq!(status.bits(), 0x81);
    status.set(Flag::Decimal, true);
    assert_eq!(status.bits(), 0x89);
    status.set(Flag::Carry, false);
    assert_eq!(status.bits(), 0x88);
}

#[test]
fn reserved_bits_stay_zero() {
    let mut status = ProcessorStatus::empty();
    for flag in ALL {
        status.set(flag, true);
        assert_eq!(status.bits() & 0b0011_0000, 0);
    }
    assert_eq!(status.bits(), ProcessorStatus::FLAG_BITS);
    for flag in ALL {
        status.set(flag, false);
        assert_eq!(status.bits() & 0b0011_0000, 0);
    }
    assert_eq!(status.bits(), 0);
}

#[test]
fn setting_twice_is_setting_once() {
    let mut status = ProcessorStatus::empty();
    status.set(Flag::Overflow, true);
    status.set(Flag::Overflow, true);
    assert_eq!(status.bits(), 0x40);
    status.set(Flag::Overflow, false);
    status.set(Flag::Overflow, false);
    assert_eq!(status.bits(), 0);
}

#[test]
fn statuses_are_equal_when_they_hold_the_same_flags() {
    let mut one = ProcessorStatus::empty();
    let mut other = ProcessorStatus::empty();
    one.set(Flag::Zero, true);
    one.set(Flag::Carry, true);
    other.set(Flag::Carry, true);
    assert_ne!(one, other);
    other.set(Flag::Zero, true);
    assert_eq!(one, other);
}
