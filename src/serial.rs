use vstd::prelude::*;
use vstd::string::StringExecFns;

verus! {

/// Text written to the serial line and not yet handed to the UART.
#[derive(Debug)]
pub struct SerialLine {
    pending: String,
}

impl View for SerialLine {
    type V = Seq<char>;

    closed spec fn view(&self) -> Seq<char> {
        self.pending@
    }
}

impl SerialLine {
    /// A line with nothing pending.
    pub fn new() -> (r: SerialLine)
        ensures
            r@ == Seq::<char>::empty(),
    {
        SerialLine { pending: String::new() }
    }

    /// Hands over everything written so far and leaves the line empty.
    pub fn take(&mut self) -> (r: String)
        ensures
            r@ == old(self)@,
            final(self)@ == Seq::<char>::empty(),
    {
        let mut out = String::new();
        std::mem::swap(&mut out, &mut self.pending);
        out
    }
}

/// Writes `text` to the serial line.
pub fn print(line: &mut SerialLine, text: &str)
    ensures
        final(line)@ == old(line)@ + text@,
{
    line.pending.append(text);
}

/// Writes `text` and a newline to the serial line.
pub fn print_line(line: &mut SerialLine, text: &str)
    ensures
        final(line)@ == old(line)@ + text@ + "\n"@,
{
    print(line, text);
    print(line, "\n");
}

} // verus!
