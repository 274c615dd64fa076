//! Trap classification and routing. The hardware side — reading the cause
//! register, programming the trap vector, clearing interrupt-enable bits,
//! halting — stays with the platform layer; this module decides, from the
//! decoded cause alone, what that layer must do: resume after a
//! breakpoint, halt on any other exception, acknowledge timer and software
//! interrupts, forward external ones, and ignore unknown sources.

use vstd::prelude::*;

verus! {

/// Width in bytes of the breakpoint instruction the saved program counter
/// is advanced past.
pub const BREAKPOINT_INSTRUCTION_WIDTH: usize = 2;

/// Snapshot of the general-purpose and floating-point registers and the
/// program counter at the moment of a trap.
#[derive(Clone, Copy)]
pub struct TrapFrame {
    pub regs: [usize; 32],
    pub fregs: [usize; 32],
    pub pc: usize,
}

/// Synchronous exception kinds this core distinguishes. Every kind other
/// than `Breakpoint` is fatal; kinds outside the recognized set fall under
/// `Unknown` and are fatal as well.
#[derive(Debug, Clone, Copy, PartialEq, Eq, Structural)]
pub enum ExceptionKind {
    InstructionMisaligned,
    InstructionFault,
    IllegalInstruction,
    Breakpoint,
    LoadFault,
    StoreFault,
    Unknown,
}

/// Maskable interrupt sources; anything else is `Unknown` and ignored.
#[derive(Debug, Clone, Copy, PartialEq, Eq, Structural)]
pub enum InterruptKind {
    MachineSoft,
    MachineTimer,
    MachineExternal,
    Unknown,
}

/// A decoded trap cause: a synchronous exception or an asynchronous
/// interrupt.
#[derive(Debug, Clone, Copy, PartialEq, Eq, Structural)]
pub enum TrapCause {
    Exception(ExceptionKind),
    Interrupt(InterruptKind),
}

/// What the platform layer must do after classification: resume the
/// interrupted context, halt the system, clear an interrupt source's
/// enable bit before resuming, hand an external interrupt to the device
/// layer, or log an unknown source and carry on.
#[derive(Debug, Clone, Copy, PartialEq, Eq, Structural)]
pub enum TrapOutcome {
    Resume,
    Halt,
    AcknowledgeTimer,
    AcknowledgeSoftware,
    ForwardExternal,
    IgnoreUnknown,
}

/// The exception kind named by an exception cause code.
pub open spec fn spec_classify_exception(code: usize) -> ExceptionKind {
    if code == 0 {
        ExceptionKind::InstructionMisaligned
    } else if code == 1 {
        ExceptionKind::InstructionFault
    } else if code == 2 {
        ExceptionKind::IllegalInstruction
    } else if code == 3 {
        ExceptionKind::Breakpoint
    } else if code == 5 {
        ExceptionKind::LoadFault
    } else if code == 7 {
        ExceptionKind::StoreFault
    } else {
        ExceptionKind::Unknown
    }
}

/// The interrupt source named by an interrupt cause code.
pub open spec fn spec_classify_interrupt(code: usize) -> InterruptKind {
    if code == 3 {
        InterruptKind::MachineSoft
    } else if code == 7 {
        InterruptKind::MachineTimer
    } else if code == 11 {
        InterruptKind::MachineExternal
    } else {
        InterruptKind::Unknown
    }
}

/// The trap cause encoded by the interrupt flag and cause code of the
/// hardware cause register.
pub open spec fn spec_decode_cause(is_interrupt: bool, code: usize) -> TrapCause {
    if is_interrupt {
        TrapCause::Interrupt(spec_classify_interrupt(code))
    } else {
        TrapCause::Exception(spec_classify_exception(code))
    }
}

/// The action each decoded cause maps to.
pub open spec fn spec_trap_outcome(cause: TrapCause) -> TrapOutcome {
    match cause {
        TrapCause::Exception(ExceptionKind::Breakpoint) => TrapOutcome::Resume,
        TrapCause::Exception(_) => TrapOutcome::Halt,
        TrapCause::Interrupt(InterruptKind::MachineTimer) => TrapOutcome::AcknowledgeTimer,
        TrapCause::Interrupt(InterruptKind::MachineSoft) => TrapOutcome::AcknowledgeSoftware,
        TrapCause::Interrupt(InterruptKind::MachineExternal) => TrapOutcome::ForwardExternal,
        TrapCause::Interrupt(InterruptKind::Unknown) => TrapOutcome::IgnoreUnknown,
    }
}

/// Decodes the interrupt flag and cause code read from the hardware cause
/// register.
pub fn decode_cause(is_interrupt: bool, code: usize) -> (r: TrapCause)
    ensures
        r == spec_decode_cause(is_interrupt, code),
{
    if is_interrupt {
        TrapCause::Interrupt(
            match code {
                3 => InterruptKind::MachineSoft,
                7 => InterruptKind::MachineTimer,
                11 => InterruptKind::MachineExternal,
                _ => InterruptKind::Unknown,
            },
        )
    } else {
        TrapCause::Exception(
            match code {
                0 => ExceptionKind::InstructionMisaligned,
                1 => ExceptionKind::InstructionFault,
                2 => ExceptionKind::IllegalInstruction,
                3 => ExceptionKind::Breakpoint,
                5 => ExceptionKind::LoadFault,
                7 => ExceptionKind::StoreFault,
                _ => ExceptionKind::Unknown,
            },
        )
    }
}

/// Routes a synchronous exception. A breakpoint advances the saved
/// program counter past the breakpoint instruction and resumes; every
/// other kind leaves the frame untouched and demands a halt — control
/// never returns to the faulting context.
pub fn handle_exception(exception: ExceptionKind, trap_frame: &mut TrapFrame) -> (r: TrapOutcome)
    requires
        exception == ExceptionKind::Breakpoint ==> old(trap_frame).pc
            + BREAKPOINT_INSTRUCTION_WIDTH <= usize::MAX,
    ensures
        exception == ExceptionKind::Breakpoint ==> {
            &&& r == TrapOutcome::Resume
            &&& final(trap_frame).pc == old(trap_frame).pc + BREAKPOINT_INSTRUCTION_WIDTH
            &&& final(trap_frame).regs == old(trap_frame).regs
            &&& final(trap_frame).fregs == old(trap_frame).fregs
        },
        exception != ExceptionKind::Breakpoint ==> {
            &&& r == TrapOutcome::Halt
            &&& *final(trap_frame) == *old(trap_frame)
        },
{
    match exception {
        ExceptionKind::Breakpoint => {
            trap_frame.pc = trap_frame.pc + BREAKPOINT_INSTRUCTION_WIDTH;
            TrapOutcome::Resume
        },
        _ => TrapOutcome::Halt,
    }
}

/// Routes an asynchronous interrupt. Timer and software sources must have
/// their enable bit cleared before returning, to prevent immediate
/// re-entry; external sources are handed to the device layer; unknown
/// sources are ignored. None is fatal.
pub fn handle_interrupt(interrupt: InterruptKind) -> (r: TrapOutcome)
    ensures
        r == spec_trap_outcome(TrapCause::Interrupt(interrupt)),
        r != TrapOutcome::Halt,
        r != TrapOutcome::Resume,
{
    match interrupt {
        InterruptKind::MachineTimer => TrapOutcome::AcknowledgeTimer,
        InterruptKind::MachineSoft => TrapOutcome::AcknowledgeSoftware,
        InterruptKind::MachineExternal => TrapOutcome::ForwardExternal,
        InterruptKind::Unknown => TrapOutcome::IgnoreUnknown,
    }
}

/// Classifies a trap from the interrupt flag and cause code and routes it.
/// A breakpoint — and only a breakpoint — resumes at `pc` plus the
/// breakpoint instruction's width without halting; every other exception
/// halts; interrupts never touch the frame.
pub fn trap_handler(trap_frame: &mut TrapFrame, is_interrupt: bool, code: usize) -> (r:
    TrapOutcome)
    requires
        spec_decode_cause(is_interrupt, code) == TrapCause::Exception(
            ExceptionKind::Breakpoint,
        ) ==> old(trap_frame).pc + BREAKPOINT_INSTRUCTION_WIDTH <= usize::MAX,
    ensures
        r == spec_trap_outcome(spec_decode_cause(is_interrupt, code)),
        r == TrapOutcome::Resume ==> {
            &&& final(trap_frame).pc == old(trap_frame).pc + BREAKPOINT_INSTRUCTION_WIDTH
            &&& final(trap_frame).regs == old(trap_frame).regs
            &&& final(trap_frame).fregs == old(trap_frame).fregs
        },
        r != TrapOutcome::Resume ==> *final(trap_frame) == *old(trap_frame),
{
    let cause = decode_cause(is_interrupt, code);
    match cause {
        TrapCause::Exception(exception) => handle_exception(exception, trap_frame),
        TrapCause::Interrupt(interrupt) => handle_interrupt(interrupt),
    }
}

} // verus!
