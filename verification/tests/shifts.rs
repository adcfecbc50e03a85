use mos6502::checks::setup;
use mos6502::cpu::opcodes;
use mos6502::cpu::opcodes::ProcessorStatus;
use mos6502::cpu::processor::Functions;

#[test]
fn shift_left_accumulator() {
    let (mut memory, mut processor) = setup();
    processor.reset(&mut memory, 0xFF00);

    memory.data[0xFF00] = opcodes::ASL_ACCUMULATOR;
    processor.accumulator = 0b01;

    processor.cycles = 2;
    let cycles = processor.execute(&mut memory);

    assert_eq!(processor.accumulator, 0b10);
    assert_eq!(cycles, 2);
    assert!(!processor.fetch_status(ProcessorStatus::CarryFlag));
    assert!(!processor.fetch_status(ProcessorStatus::ZeroFlag));
    assert!(!processor.fetch_status(ProcessorStatus::NegativeFlag));
}

#[test]
fn shift_left_accumulator_carry_out() {
    let (mut memory, mut processor) = setup();
    processor.reset(&mut memory, 0xFF00);

    memory.data[0xFF00] = opcodes::ASL_ACCUMULATOR;
    processor.accumulator = 0b1000_0000;

    processor.cycles = 2;
    processor.execute(&mut memory);

    assert_eq!(processor.accumulator, 0);
    assert!(processor.fetch_status(ProcessorStatus::CarryFlag));
    assert!(processor.fetch_status(ProcessorStatus::ZeroFlag));
}

#[test]
fn shift_left_zero_page() {
    let (mut memory, mut processor) = setup();
    processor.reset(&mut memory, 0xFF00);

    memory.data[0xFF00] = opcodes::ASL_ZERO_PAGE;
    memory.data[0xFF01] = 0x42;
    memory.data[0x0042] = 0b0100_1101;

    processor.cycles = 5;
    let cycles = processor.execute(&mut memory);

    assert_eq!(memory.data[0x0042], 0b1001_1010);
    assert_eq!(cycles, 5);
    assert!(!processor.fetch_status(ProcessorStatus::CarryFlag));
    assert!(processor.fetch_status(ProcessorStatus::NegativeFlag));
}

#[test]
fn shift_left_zero_page_x() {
    let (mut memory, mut processor) = setup();
    processor.reset(&mut memory, 0xFF00);

    processor.register_x = 5;
    memory.data[0xFF00] = opcodes::ASL_ZERO_PAGE_X;
    memory.data[0xFF01] = 0x42;
    memory.data[0x0047] = 0b0100_1101;

    processor.cycles = 6;
    let cycles = processor.execute(&mut memory);

    assert_eq!(memory.data[0x0047], 0b1001_1010);
    assert_eq!(cycles, 6);
}

#[test]
fn shift_left_absolute() {
    let (mut memory, mut processor) = setup();
    processor.reset(&mut memory, 0xFF00);

    memory.data[0xFF00] = opcodes::ASL_ABSOLUTE;
    memory.data[0xFF01] = 0x00;
    memory.data[0xFF02] = 0x80;
    memory.data[0x8000] = 0b0100_1101;

    processor.cycles = 6;
    let cycles = processor.execute(&mut memory);

    assert_eq!(memory.data[0x8000], 0b1001_1010);
    assert_eq!(cycles, 6);
}

#[test]
fn shift_left_absolute_x() {
    let (mut memory, mut processor) = setup();
    processor.reset(&mut memory, 0xFF00);

    processor.register_x = 5;
    memory.data[0xFF00] = opcodes::ASL_ABSOLUTE_X;
    memory.data[0xFF01] = 0x00;
    memory.data[0xFF02] = 0x80;
    memory.data[0x8005] = 0b0100_1101;

    processor.cycles = 6;
    let cycles = processor.execute(&mut memory);

    assert_eq!(memory.data[0x8005], 0b1001_1010);
    assert_eq!(cycles, 6);
}

#[test]
fn shift_right_accumulator() {
    let (mut memory, mut processor) = setup();
    processor.reset(&mut memory, 0xFF00);

    memory.data[0xFF00] = opcodes::LSR_ACCUMULATOR;
    processor.accumulator = 0b11;

    processor.cycles = 2;
    let cycles = processor.execute(&mut memory);

    assert_eq!(processor.accumulator, 0b01);
    assert_eq!(cycles, 2);
    assert!(processor.fetch_status(ProcessorStatus::CarryFlag));
    assert!(!processor.fetch_status(ProcessorStatus::NegativeFlag));
}

#[test]
fn shift_right_zero_page() {
    let (mut memory, mut processor) = setup();
    processor.reset(&mut memory, 0xFF00);

    memory.data[0xFF00] = opcodes::LSR_ZERO_PAGE;
    memory.data[0xFF01] = 0x42;
    memory.data[0x0042] = 0b0100_1101;

    processor.cycles = 5;
    let cycles = processor.execute(&mut memory);

    assert_eq!(memory.data[0x0042], 0b0010_0110);
    assert_eq!(cycles, 5);
    assert!(processor.fetch_status(ProcessorStatus::CarryFlag));
}

#[test]
fn rotate_left_accumulator() {
    let (mut memory, mut processor) = setup();
    processor.reset(&mut memory, 0xFF00);

    memory.data[0xFF00] = opcodes::ROL_ACCUMULATOR;
    processor.accumulator = 0b1000_0001;
    processor.set_status(ProcessorStatus::CarryFlag, true);

    processor.cycles = 2;
    let cycles = processor.execute(&mut memory);

    // The old Carry enters at bit 0; the old bit 7 leaves into the Carry.
    assert_eq!(processor.accumulator, 0b0000_0011);
    assert_eq!(cycles, 2);
    assert!(processor.fetch_status(ProcessorStatus::CarryFlag));
}

#[test]
fn rotate_left_zero_page() {
    let (mut memory, mut processor) = setup();
    processor.reset(&mut memory, 0xFF00);

    memory.data[0xFF00] = opcodes::ROL_ZERO_PAGE;
    memory.data[0xFF01] = 0x42;
    memory.data[0x0042] = 0b0100_1101;
    processor.set_status(ProcessorStatus::CarryFlag, true);

    processor.cycles = 5;
    let cycles = processor.execute(&mut memory);

    assert_eq!(memory.data[0x0042], 0b1001_1011);
    assert_eq!(cycles, 5);
    assert!(!processor.fetch_status(ProcessorStatus::CarryFlag));
}

#[test]
fn rotate_right_accumulator() {
    let (mut memory, mut processor) = setup();
    processor.reset(&mut memory, 0xFF00);

    memory.data[0xFF00] = opcodes::ROR_ACCUMULATOR;
    processor.accumulator = 0b0;
    processor.set_status(ProcessorStatus::CarryFlag, true);

    processor.cycles = 2;
    let cycles = processor.execute(&mut memory);

    assert_eq!(processor.accumulator, 0b1000_0000);
    assert_eq!(cycles, 2);
    assert!(!processor.fetch_status(ProcessorStatus::CarryFlag));
    assert!(processor.fetch_status(ProcessorStatus::NegativeFlag));
}

#[test]
fn rotate_right_zero_page() {
    let (mut memory, mut processor) = setup();
    processor.reset(&mut memory, 0xFF00);

    memory.data[0xFF00] = opcodes::ROR_ZERO_PAGE;
    memory.data[0xFF01] = 0x42;
    memory.data[0x0042] = 0b0100_1101;
    processor.set_status(ProcessorStatus::CarryFlag, true);

    processor.cycles = 5;
    let cycles = processor.execute(&mut memory);

    // The old Carry enters at bit 7; the old bit 0 leaves into the Carry.
    assert_eq!(memory.data[0x0042], 0b1010_0110);
    assert_eq!(cycles, 5);
    assert!(processor.fetch_status(ProcessorStatus::CarryFlag));
}
