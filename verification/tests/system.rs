use mos6502::checks::setup;
use mos6502::cpu::opcodes;
use mos6502::cpu::opcodes::ProcessorStatus;
use mos6502::cpu::processor::Functions;
use mos6502::mem::set_bit;

#[test]
fn force_interrupt() {
    let (mut memory, mut processor) = setup();
    processor.reset(&mut memory, 0xFF00);

    memory.data[0xFF00] = opcodes::BRK;
    memory.data[0xFFFE] = 0x00;
    memory.data[0xFFFF] = 0x80;

    let original_stack_pointer: u16 = processor.stack_pointer.into();
    let mut pushed_status = processor.status;
    pushed_status = set_bit(pushed_status, 4, true);
    pushed_status = set_bit(pushed_status, 5, true);

    processor.cycles = 7;
    let cycles = processor.execute(&mut memory);

    assert_eq!(processor.program_counter, 0x8000);
    // The pushed return address is the byte after BRK's padding operand.
    assert_eq!(memory.data[(0x100 | original_stack_pointer) as usize], 0xFF);
    assert_eq!(
        memory.data[(0x100 | original_stack_pointer) as usize - 1],
        0x02
    );
    assert_eq!(
        memory.data[(0x100 | original_stack_pointer) as usize - 2],
        pushed_status
    );
    assert!(processor.fetch_status(ProcessorStatus::BreakCommand));
    assert!(processor.fetch_status(ProcessorStatus::InterruptDisable));
    assert_eq!(cycles, 7);
}

#[test]
fn return_from_interrupt() {
    let (mut memory, mut processor) = setup();
    processor.reset(&mut memory, 0xFF00);

    memory.data[0xFF00] = opcodes::BRK;
    memory.data[0xFFFE] = 0x00;
    memory.data[0xFFFF] = 0x80;
    memory.data[0x8000] = opcodes::RTI;

    let original_stack_pointer = processor.stack_pointer;
    let original_status = processor.status;

    processor.cycles = 13;
    let cycles = processor.execute(&mut memory);

    assert_eq!(processor.program_counter, 0xFF02);
    assert_eq!(processor.stack_pointer, original_stack_pointer);
    assert_eq!(processor.status, original_status);
    assert_eq!(cycles, 13);
}
