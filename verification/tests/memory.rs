use mos6502::mem::{fetch_bit, set_bit, Functions, Memory, MAX_MEMORY};

#[test]
fn bit_helpers() {
    assert_eq!(set_bit(0x00, 7, true), 0x80);
    assert_eq!(set_bit(0xFF, 0, false), 0xFE);
    assert_eq!(set_bit(0b0100, 2, true), 0b0100);
    assert!(fetch_bit(0x80, 7));
    assert!(!fetch_bit(0x80, 6));
    assert!(fetch_bit(0x01, 0));
}

#[test]
fn memory_write_byte() {
    let mut memory = Memory {
        data: [0; MAX_MEMORY],
    };
    let mut cycles: u32 = 5;

    memory.write_byte(0x84, 0x0042, &mut cycles);

    assert_eq!(memory.data[0x0042], 0x84);
    assert_eq!(cycles, 4);
}

#[test]
fn memory_write_2byte() {
    let mut memory = Memory {
        data: [0; MAX_MEMORY],
    };
    let mut cycles: u32 = 5;

    memory.write_2byte(0x8442, 0x0010, &mut cycles);

    assert_eq!(memory.data[0x0010], 0x42);
    assert_eq!(memory.data[0x0011], 0x84);
    assert_eq!(cycles, 3);
}
