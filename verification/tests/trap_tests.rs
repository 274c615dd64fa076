use batch_kernel::interrupts::{
    decode_cause, trap_handler, ExceptionKind, InterruptKind, TrapCause, TrapFrame, TrapOutcome,
    BREAKPOINT_INSTRUCTION_WIDTH,
};

fn frame_at(pc: usize) -> TrapFrame {
    TrapFrame {
        regs: [0; 32],
        fregs: [0; 32],
        pc,
    }
}

#[test]
fn test_breakpoint_resumes_past_instruction() {
    let mut frame = frame_at(0x8000_1000);
    frame.regs[2] = 0xdead;
    let outcome = trap_handler(&mut frame, false, 3);
    assert_eq!(outcome, TrapOutcome::Resume);
    assert_eq!(frame.pc, 0x8000_1000 + BREAKPOINT_INSTRUCTION_WIDTH);
    assert_eq!(frame.regs[2], 0xdead);
}

#[test]
fn test_fatal_exceptions_halt_without_touching_frame() {
    // Every recognized fatal kind, and an unrecognized code.
    for code in [0usize, 1, 2, 5, 7, 4, 6, 8, 99] {
        let mut frame = frame_at(0x4000);
        let outcome = trap_handler(&mut frame, false, code);
        assert_eq!(outcome, TrapOutcome::Halt);
        assert_eq!(frame.pc, 0x4000);
    }
}

#[test]
fn test_timer_interrupt_is_acknowledged() {
    let mut frame = frame_at(0x4000);
    let outcome = trap_handler(&mut frame, true, 7);
    assert_eq!(outcome, TrapOutcome::AcknowledgeTimer);
    assert_eq!(frame.pc, 0x4000);
}

#[test]
fn test_software_interrupt_is_acknowledged() {
    let mut frame = frame_at(0x4000);
    let outcome = trap_handler(&mut frame, true, 3);
    assert_eq!(outcome, TrapOutcome::AcknowledgeSoftware);
}

#[test]
fn test_external_interrupt_is_forwarded() {
    let mut frame = frame_at(0x4000);
    let outcome = trap_handler(&mut frame, true, 11);
    assert_eq!(outcome, TrapOutcome::ForwardExternal);
}

#[test]
fn test_unknown_interrupt_is_ignored() {
    let mut frame = frame_at(0x4000);
    let outcome = trap_handler(&mut frame, true, 9);
    assert_eq!(outcome, TrapOutcome::IgnoreUnknown);
    assert_eq!(frame.pc, 0x4000);
}

#[test]
fn test_decode_cause_exceptions() {
    assert_eq!(
        decode_cause(false, 0),
        TrapCause::Exception(ExceptionKind::InstructionMisaligned)
    );
    assert_eq!(
        decode_cause(false, 1),
        TrapCause::Exception(ExceptionKind::InstructionFault)
    );
    assert_eq!(
        decode_cause(false, 2),
        TrapCause::Exception(ExceptionKind::IllegalInstruction)
    );
    assert_eq!(
        decode_cause(false, 3),
        TrapCause::Exception(ExceptionKind::Breakpoint)
    );
    assert_eq!(
        decode_cause(false, 5),
        TrapCause::Exception(ExceptionKind::LoadFault)
    );
    assert_eq!(
        decode_cause(false, 7),
        TrapCause::Exception(ExceptionKind::StoreFault)
    );
    assert_eq!(
        decode_cause(false, 12),
        TrapCause::Exception(ExceptionKind::Unknown)
    );
}

#[test]
fn test_decode_cause_interrupts() {
    assert_eq!(
        decode_cause(true, 3),
        TrapCause::Interrupt(InterruptKind::MachineSoft)
    );
    assert_eq!(
        decode_cause(true, 7),
        TrapCause::Interrupt(InterruptKind::MachineTimer)
    );
    assert_eq!(
        decode_cause(true, 11),
        TrapCause::Interrupt(InterruptKind::MachineExternal)
    );
    assert_eq!(
        decode_cause(true, 5),
        TrapCause::Interrupt(InterruptKind::Unknown)
    );
}
