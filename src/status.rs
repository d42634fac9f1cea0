use vstd::prelude::*;
use crate::serial::{print_line, SerialLine};

verus! {

/// Value written to the debug-exit port to end a test run.
pub const EXIT_VALUE: u32 = 0;

/// Exit status of the emulator after `value` is written to its debug-exit port:
/// the value shifted left by one, with the low bit set.
pub fn debug_exit_status(value: u32) -> (r: u32)
    requires
        value < 0x8000_0000,
    ensures
        r == 2 * value + 1,
{
    value * 2 + 1
}

/// The token a test run reports over serial: `ok` on success, `failed` otherwise.
pub fn status_token(passed: bool) -> (r: &'static str)
    ensures
        r@ == (if passed { "ok"@ } else { "failed"@ }),
{
    if passed {
        "ok"
    } else {
        "failed"
    }
}

/// What a test's panic path reports over serial. When the test expects the
/// panic, it reports success; otherwise it reports failure followed by the
/// panic message on the next line.
pub fn report_panic(line: &mut SerialLine, panic_expected: bool, message: &str)
    ensures
        final(line)@ == (if panic_expected {
            old(line)@ + "ok"@ + "\n"@
        } else {
            old(line)@ + "failed"@ + "\n"@ + message@ + "\n"@
        }),
{
    print_line(line, status_token(panic_expected));
    if !panic_expected {
        print_line(line, message);
    }
}

/// What a test reports over serial when it reaches its end without a panic.
pub fn report_success(line: &mut SerialLine)
    ensures
        final(line)@ == old(line)@ + "ok"@ + "\n"@,
{
    print_line(line, status_token(true));
}

} // verus!
