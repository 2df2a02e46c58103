use traps::frame::INSTRUCTION_WIDTH;
use traps::TrapFrame;

fn frame_at(program_counter: u64) -> TrapFrame {
    let mut registers = [0u64; 31];
    for (index, register) in registers.iter_mut().enumerate() {
        *register = 0x1000 + index as u64;
    }
    TrapFrame { program_counter, processor_state: 0x3c5, stack_pointer: 0x7fff_fff0, registers }
}

#[test]
fn instruction_width_is_four_bytes() {
    assert_eq!(INSTRUCTION_WIDTH, 4);
}

#[test]
fn advance_adds_exactly_four() {
    let mut frame = frame_at(0x8_0000);
    frame.advance();
    assert_eq!(frame.program_counter, 0x8_0004);
    frame.advance();
    assert_eq!(frame.program_counter, 0x8_0008);
}

#[test]
fn advance_from_zero() {
    let mut frame = frame_at(0);
    frame.advance();
    assert_eq!(frame.program_counter, 4);
}

#[test]
fn advance_leaves_every_other_register_alone() {
    let before = frame_at(0x4000);
    let mut frame = before;
    frame.advance();
    assert_eq!(frame, TrapFrame { program_counter: 0x4004, ..before });
    assert_eq!(frame.processor_state, 0x3c5);
    assert_eq!(frame.stack_pointer, 0x7fff_fff0);
    assert_eq!(frame.registers, before.registers);
}

#[test]
fn advance_up_to_the_last_address() {
    let mut frame = frame_at(u64::MAX - 4);
    assert!(frame.can_advance());
    frame.advance();
    assert_eq!(frame.program_counter, u64::MAX);
    assert!(!frame.can_advance());
}

#[test]
fn can_advance_tells_when_the_counter_would_overflow() {
    assert!(frame_at(0).can_advance());
    assert!(frame_at(0xffff_0000_0000_0000).can_advance());
    assert!(frame_at(u64::MAX - 5).can_advance());
    assert!(frame_at(u64::MAX - 4).can_advance());
    assert!(!frame_at(u64::MAX - 3).can_advance());
    assert!(!frame_at(u64::MAX - 1).can_advance());
    assert!(!frame_at(u64::MAX).can_advance());
}
