use mos6502::checks::setup;
use mos6502::cpu::opcodes;
use mos6502::cpu::opcodes::ProcessorStatus;
use mos6502::cpu::processor::Functions;

#[test]
fn transfer_accumulator_to_x() {
    let (mut memory, mut processor) = setup();
    processor.reset(&mut memory, 0xFF00);

    processor.accumulator = 0x42;
    memory.data[0xFF00] = opcodes::TAX;

    processor.cycles = 2;
    let cycles = processor.execute(&mut memory);

    assert_eq!(processor.register_x, 0x42);
    assert_eq!(cycles, 2);
}

#[test]
fn transfer_accumulator_to_y() {
    let (mut memory, mut processor) = setup();
    processor.reset(&mut memory, 0xFF00);

    processor.accumulator = 0x42;
    memory.data[0xFF00] = opcodes::TAY;

    processor.cycles = 2;
    let cycles = processor.execute(&mut memory);

    assert_eq!(processor.register_y, 0x42);
    assert_eq!(cycles, 2);
}

#[test]
fn transfer_x_to_accumulator() {
    let (mut memory, mut processor) = setup();
    processor.reset(&mut memory, 0xFF00);

    processor.register_x = 0x42;
    memory.data[0xFF00] = opcodes::TXA;

    processor.cycles = 2;
    let cycles = processor.execute(&mut memory);

    assert_eq!(processor.accumulator, 0x42);
    assert_eq!(cycles, 2);
}

#[test]
fn transfer_y_to_accumulator() {
    let (mut memory, mut processor) = setup();
    processor.reset(&mut memory, 0xFF00);

    processor.register_y = 0x42;
    memory.data[0xFF00] = opcodes::TYA;

    processor.cycles = 2;
    let cycles = processor.execute(&mut memory);

    assert_eq!(processor.accumulator, 0x42);
    assert_eq!(cycles, 2);
}

#[test]
fn transfer_sets_zero_flag() {
    let (mut memory, mut processor) = setup();
    processor.reset(&mut memory, 0xFF00);

    processor.accumulator = 0x00;
    processor.register_x = 0x42;
    memory.data[0xFF00] = opcodes::TAX;

    processor.cycles = 2;
    processor.execute(&mut memory);

    assert_eq!(processor.register_x, 0x00);
    assert!(processor.fetch_status(ProcessorStatus::ZeroFlag));
}

#[test]
fn transfer_sets_negative_flag() {
    let (mut memory, mut processor) = setup();
    processor.reset(&mut memory, 0xFF00);

    processor.register_y = 0x80;
    memory.data[0xFF00] = opcodes::TYA;

    processor.cycles = 2;
    processor.execute(&mut memory);

    assert_eq!(processor.accumulator, 0x80);
    assert!(processor.fetch_status(ProcessorStatus::NegativeFlag));
}
