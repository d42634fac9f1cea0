use vstd::prelude::*;

verus! {

/// The values the CPU pushes on trap entry, as the handlers see them.
#[derive(Clone, Copy, Debug, PartialEq, Eq, Structural)]
pub struct ExceptionFrame {
    pub instruction_pointer: u64,
    pub code_segment: u64,
    pub cpu_flags: u64,
    pub stack_pointer: u64,
    pub stack_segment: u64,
}

/// How a handler leaves the trap.
#[derive(Clone, Copy, Debug, PartialEq, Eq, Structural)]
pub enum HandlerExit {
    /// Return from the trap; the CPU continues at `at`.
    Resume { at: u64 },
    /// Never return: wait forever.
    Halt,
}

/// What a handler writes to the output sink, title then frame, and how it then
/// leaves the trap. Nothing in it is allocated, so a handler can build it on any
/// stack.
#[derive(Clone, Copy, Debug)]
pub struct TrapReport {
    /// First line of the report: the vector's name.
    pub title: &'static str,
    /// The frame the CPU pushed, reported after the title.
    pub frame: ExceptionFrame,
    pub exit: HandlerExit,
}

/// Breakpoint: report the frame, then resume where the pushed frame says. The
/// `int3` trap pushes the address after the one-byte instruction, so execution
/// goes on past the breakpoint.
pub fn breakpoint_handler(frame: &ExceptionFrame) -> (r: TrapReport)
    ensures
        r.title@ == "EXCEPTION: BREAKPOINT"@,
        r.frame == *frame,
        r.exit == (HandlerExit::Resume { at: frame.instruction_pointer }),
{
    TrapReport {
        title: "EXCEPTION: BREAKPOINT",
        frame: *frame,
        exit: HandlerExit::Resume { at: frame.instruction_pointer },
    }
}

/// Double fault: report the frame, then halt for good; resuming could fault
/// again at once.
pub fn double_fault_handler(frame: &ExceptionFrame, error_code: u64) -> (r: TrapReport)
    ensures
        r.title@ == "EXCEPTION: DOUBLE FAULT"@,
        r.frame == *frame,
        r.exit == HandlerExit::Halt,
{
    TrapReport { title: "EXCEPTION: DOUBLE FAULT", frame: *frame, exit: HandlerExit::Halt }
}

} // verus!
