use mos6502::checks::setup;
use mos6502::cpu::functions::stack::StackFunctions;
use mos6502::cpu::opcodes;
use mos6502::cpu::opcodes::ProcessorStatus;
use mos6502::cpu::processor::Functions;
use mos6502::mem::{fetch_bit, set_bit};

#[test]
fn transfer_stack_to_x() {
    let (mut memory, mut processor) = setup();
    processor.reset(&mut memory, 0xFF00);

    memory.data[0xFF00] = opcodes::TSX;

    processor.cycles = 2;
    let cycles = processor.execute(&mut memory);

    assert_eq!(processor.register_x, 0xFF);
    assert!(processor.fetch_status(ProcessorStatus::NegativeFlag));
    assert_eq!(cycles, 2);
}

#[test]
fn transfer_stack_to_x_zero_flag() {
    let (mut memory, mut processor) = setup();
    processor.reset(&mut memory, 0xFF00);

    processor.stack_pointer = 0x00;
    memory.data[0xFF00] = opcodes::TSX;

    processor.cycles = 2;
    let cycles = processor.execute(&mut memory);

    assert_eq!(processor.register_x, 0x00);
    assert!(processor.fetch_status(ProcessorStatus::ZeroFlag));
    assert_eq!(cycles, 2);
}

#[test]
fn transfer_x_to_stack() {
    let (mut memory, mut processor) = setup();
    processor.reset(&mut memory, 0xFF00);

    processor.register_x = 0x42;
    memory.data[0xFF00] = opcodes::TXS;

    processor.cycles = 2;
    let cycles = processor.execute(&mut memory);

    assert_eq!(processor.stack_pointer, 0x42);
    assert_eq!(cycles, 2);
}

#[test]
fn push_accumulator_to_stack() {
    let (mut memory, mut processor) = setup();
    processor.reset(&mut memory, 0xFF00);

    processor.accumulator = 0x42;
    memory.data[0xFF00] = opcodes::PHA;

    processor.cycles = 3;
    let cycles = processor.execute(&mut memory);

    assert_eq!(memory.data[0x01FF], 0x42);
    assert_eq!(processor.stack_pointer, 0xFE);
    assert_eq!(cycles, 3);
}

#[test]
fn push_status_to_stack() {
    let (mut memory, mut processor) = setup();
    processor.reset(&mut memory, 0xFF00);

    processor.status = 0b1001_0110;
    memory.data[0xFF00] = opcodes::PHP;

    processor.cycles = 3;
    let cycles = processor.execute(&mut memory);

    let stack_address = processor.stack_pointer_to_address().wrapping_add(1);
    let memory_at_stack_pointer = memory.data[stack_address as usize];

    let mut status_pushed: u8 = processor.status;
    status_pushed = set_bit(status_pushed, 4, true);
    status_pushed = set_bit(status_pushed, 5, true);

    assert_eq!(memory_at_stack_pointer, status_pushed);
    assert!(fetch_bit(memory_at_stack_pointer, 4));
    assert!(fetch_bit(memory_at_stack_pointer, 5));
    assert_eq!(cycles, 3);
}

#[test]
fn pull_accumulator_from_stack() {
    let (mut memory, mut processor) = setup();
    processor.reset(&mut memory, 0xFF00);

    processor.stack_pointer = 0xFE;
    memory.data[0xFF00] = opcodes::PLA;
    memory.data[0x01FF] = 0x20;

    processor.cycles = 4;
    let cycles = processor.execute(&mut memory);

    assert_eq!(processor.accumulator, 0x20);
    assert_eq!(processor.stack_pointer, 0xFF);
    assert_eq!(cycles, 4);
}

#[test]
fn pull_status_from_stack() {
    // Bits 0 to 3, 6 and 7 come from the popped byte; bits 4 and 5 keep
    // their live values (here both set).
    let (mut memory, mut processor) = setup();
    processor.reset(&mut memory, 0xFF00);

    processor.stack_pointer = 0xFE;
    processor.status = 0xFF;
    memory.data[0xFF00] = opcodes::PLP;
    memory.data[0x01FF] = 0b0101_0001;

    processor.cycles = 4;
    let cycles = processor.execute(&mut memory);

    assert_eq!(processor.status, 0b0111_0001);
    assert_eq!(cycles, 4);
}

#[test]
fn push_pull_status_round_trip() {
    // PHP then PLP: the stack byte always carries bits 4 and 5 set, and the
    // live status register comes back exactly as it was.
    let (mut memory, mut processor) = setup();
    processor.reset(&mut memory, 0xFF00);

    processor.status = 0b1000_0011;
    memory.data[0xFF00] = opcodes::PHP;
    memory.data[0xFF01] = opcodes::PLP;

    processor.cycles = 7;
    let cycles = processor.execute(&mut memory);

    assert_eq!(memory.data[0x01FF], 0b1011_0011);
    assert!(fetch_bit(memory.data[0x01FF], 4));
    assert!(fetch_bit(memory.data[0x01FF], 5));
    assert_eq!(processor.status, 0b1000_0011);
    assert_eq!(processor.stack_pointer, 0xFF);
    assert_eq!(cycles, 7);
}
