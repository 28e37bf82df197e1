use emu6502::memory::Memory;

#[test]
fn new_memory_reads_zero_everywhere() {
    let mem = Memory::new();
    for address in 0..Memory::MAX_MEM {
        assert_eq!(mem[address as u32], 0);
    }
}

#[test]
fn max_mem_is_sixty_four_kibibytes() {
    assert_eq!(Memory::MAX_MEM, 65536);
}

#[test]
fn index_mut_writes_one_cell() {
    let mut mem = Memory::new();
    mem[0x1234] = 0xAB;
    assert_eq!(mem[0x1234], 0xAB);
    assert_eq!(mem[0x1233], 0);
    assert_eq!(mem[0x1235], 0);
}

#[test]
fn first_and_last_cell_are_addressable() {
    let mut mem = Memory::new();
    mem[0x0000] = 0x11;
    mem[0xFFFF] = 0x22;
    assert_eq!(mem[0x0000], 0x11);
    assert_eq!(mem[0xFFFF], 0x22);
}

#[test]
fn write16_stores_little_endian_and_debits_one_cycle() {
    let mut mem = Memory::new();
    let mut cycles: u32 = 5;
    mem.write16(&mut cycles, 0xBEEF, 0x0200);
    assert_eq!(mem[0x0200], 0xEF);
    assert_eq!(mem[0x0201], 0xBE);
    assert_eq!(mem[0x01FF], 0);
    assert_eq!(mem[0x0202], 0);
    assert_eq!(cycles, 4);
}

#[test]
fn write16_at_the_top_of_memory() {
    let mut mem = Memory::new();
    let mut cycles: u32 = 1;
    mem.write16(&mut cycles, 0x0102, 0xFFFE);
    assert_eq!(mem[0xFFFE], 0x02);
    assert_eq!(mem[0xFFFF], 0x01);
    assert_eq!(cycles, 0);
}

#[test]
fn write16_overwrites_what_was_there() {
    let mut mem = Memory::new();
    let mut cycles: u32 = 2;
    mem.write16(&mut cycles, 0xFFFF, 0x0010);
    mem.write16(&mut cycles, 0x0034, 0x0010);
    assert_eq!(mem[0x0010], 0x34);
    assert_eq!(mem[0x0011], 0x00);
    assert_eq!(cycles, 0);
}
