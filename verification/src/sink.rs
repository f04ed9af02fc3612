//! The output channel abstraction: a sink for one logical stream
//! (standard output or standard error) that accumulates the text a
//! command writes. The surrounding program decides where the gathered
//! text finally goes (the console, or a file opened for a redirection);
//! the command logic itself only ever appends through this type.

use vstd::prelude::*;

verus! {

/// A sink for one output stream. Everything a command writes to the
/// stream during one line of processing is collected here, in order.
pub struct OutputSink {
    data: String,
}

impl OutputSink {
    /// The text written to this sink so far, as a sequence of characters.
    pub closed spec fn view(&self) -> Seq<char> {
        self.data@
    }

    /// A fresh sink with nothing written yet.
    pub fn new() -> (s: OutputSink)
        ensures
            s@ == Seq::<char>::empty(),
    {
        OutputSink { data: String::new() }
    }

    /// Hands the gathered text out, for whoever owns the real stream.
    pub fn into_string(self) -> (r: String)
        ensures
            r@ == self@,
    {
        self.data
    }
}

/// Appends the message to the sink, exactly as given.
pub fn write_to_buffer(message: &str, buffer: &mut OutputSink)
    ensures
        final(buffer)@ == old(buffer)@ + message@,
{
    buffer.data.append(message);
}

/// Appends the message to the sink, followed by a newline.
pub fn writeln_to_buffer(message: &str, buffer: &mut OutputSink)
    ensures
        final(buffer)@ == old(buffer)@ + message@ + "\n"@,
{
    buffer.data.append(message);
    buffer.data.append("\n");
}

} // verus!
