use emu6502::registers::{Register, Registers};

#[test]
fn new_registers_are_zero() {
    let regs = Registers::new();
    assert_eq!(regs[Register::A], 0);
    assert_eq!(regs[Register::X], 0);
    assert_eq!(regs[Register::Y], 0);
    assert_eq!(regs.0, [0, 0, 0]);
}

#[test]
fn registers_do_not_alias() {
    let mut regs = Registers::new();
    regs[Register::A] = 1;
    regs[Register::X] = 2;
    regs[Register::Y] = 3;
    assert_eq!(regs[Register::A], 1);
    assert_eq!(regs[Register::X], 2);
    assert_eq!(regs[Register::Y], 3);
    assert_eq!(regs.0, [1, 2, 3]);
}

#[test]
fn writing_one_register_leaves_the_others() {
    let mut regs = Registers([7, 8, 9]);
    regs[Register::X] = 0xFF;
    assert_eq!(regs.0, [7, 0xFF, 9]);
}

#[test]
fn register_tags_compare_by_name() {
    assert_eq!(Register::A, Register::A);
    assert_ne!(Register::A, Register::X);
    assert_ne!(Register::X, Register::Y);
}
