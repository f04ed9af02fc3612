//! Forwarding an external command's captured output. The caller runs
//! the resolved executable to completion and collects its standard
//! output and standard error as byte buffers; this module decodes
//! each buffer as text — replacing invalid sequences rather than
//! failing — and writes the result through the matching output
//! channel, so that a redirection applies to external commands
//! exactly as it does to builtins.

use vstd::prelude::*;
use crate::sink::OutputSink;
use crate::sink::write_to_buffer;

verus! {

/// What lossy UTF-8 decoding makes of a byte buffer: every invalid
/// sequence replaced, everything else decoded as it stands.
pub uninterp spec fn lossy_utf8(bytes: Seq<u8>) -> Seq<char>;

/// Relies on String::from_utf8_lossy: decodes the bytes as UTF-8 and
/// replaces invalid sequences with the replacement character. The
/// result depends on the bytes alone, and no bytes decode to no text.
#[verifier::external_body]
fn lossy_decode(bytes: &Vec<u8>) -> (r: String)
    ensures
        r@ == lossy_utf8(bytes@),
        bytes@.len() == 0 ==> r@.len() == 0,
{
    String::from_utf8_lossy(bytes).into_owned()
}

/// Writes an external command's captured standard output and standard
/// error, lossily decoded, to the respective sinks.
pub fn forward_captured_output(
    out_bytes: &Vec<u8>,
    err_bytes: &Vec<u8>,
    stdout_buffer: &mut OutputSink,
    stderr_buffer: &mut OutputSink,
)
    ensures
        final(stdout_buffer)@ == old(stdout_buffer)@ + lossy_utf8(out_bytes@),
        final(stderr_buffer)@ == old(stderr_buffer)@ + lossy_utf8(err_bytes@),
{
    let out_text = lossy_decode(out_bytes);
    write_to_buffer(out_text.as_str(), stdout_buffer);
    let err_text = lossy_decode(err_bytes);
    write_to_buffer(err_text.as_str(), stderr_buffer);
}

} // verus!
