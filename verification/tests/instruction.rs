use emu6502::cpu::Cpu;
use emu6502::instruction::Instruction;

#[test]
fn opcodes_have_their_documented_values() {
    assert_eq!(Cpu::INS_LDA_IM, 0xA9);
    assert_eq!(Cpu::INS_LDA_ZP, 0xA5);
    assert_eq!(Cpu::INS_LDA_ZPX, 0xB5);
    assert_eq!(Cpu::INS_JSR, 0x20);
}

#[test]
fn decode_knows_the_four_opcodes() {
    assert_eq!(Instruction::decode(0xA9), Instruction::LdaImmediate);
    assert_eq!(Instruction::decode(0xA5), Instruction::LdaZeroPage);
    assert_eq!(Instruction::decode(0xB5), Instruction::LdaZeroPageX);
    assert_eq!(Instruction::decode(0x20), Instruction::Jsr);
}

#[test]
fn decode_reports_every_other_byte_as_unsupported() {
    for byte in 0..=255u8 {
        if byte != 0xA9 && byte != 0xA5 && byte != 0xB5 && byte != 0x20 {
            assert_eq!(Instruction::decode(byte), Instruction::Unsupported(byte));
        }
    }
}

#[test]
fn cycle_costs() {
    assert_eq!(Instruction::LdaImmediate.cycles(), 2);
    assert_eq!(Instruction::LdaZeroPage.cycles(), 3);
    assert_eq!(Instruction::LdaZeroPageX.cycles(), 4);
    assert_eq!(Instruction::Jsr.cycles(), 5);
    assert_eq!(Instruction::Unsupported(0x00).cycles(), 1);
    assert_eq!(Instruction::Unsupported(0xFF).cycles(), 1);
}
