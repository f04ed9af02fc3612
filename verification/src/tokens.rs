//! The tokenizer: turns a raw input line into shell-style words.
//! The word splitting itself (whitespace separation with single and
//! double quoting) is done by the `shlex` crate; this module gives its
//! result a name and maps its failure onto the crate's own error type.

use vstd::prelude::*;

verus! {

/// What shell-style word splitting makes of a line: `Some` of the word
/// sequence, or `None` when the line is malformed (it ends inside a
/// quotation or right after a bare backslash).
pub uninterp spec fn shell_split(line: Seq<char>) -> Option<Seq<Seq<char>>>;

/// A character that shell word splitting treats as plain whitespace.
pub open spec fn is_shell_blank(c: char) -> bool {
    c == ' ' || c == '\t' || c == '\n'
}

/// A line of nothing but blanks (possibly empty).
pub open spec fn all_blank(line: Seq<char>) -> bool {
    forall|i: int| 0 <= i < line.len() ==> is_shell_blank(#[trigger] line[i])
}

/// Relies on shlex::split: POSIX-style shell word splitting, `None`
/// exactly when the input ends inside a quotation or right after a
/// bare backslash. The result depends on the characters of the line
/// alone; a line of nothing but blanks splits into no words at all.
#[verifier::external_body]
fn shlex_split(line: &str) -> (r: Option<Vec<String>>)
    ensures
        r.deep_view() == shell_split(line@),
        match r {
            Some(v) => all_blank(line@) ==> v@.len() == 0,
            None => !all_blank(line@),
        },
{
    shlex::split(line)
}

/// The one failure tokenizing can report: the line was not a valid
/// sequence of shell words.
#[derive(PartialEq, Eq, Structural, Clone, Copy, Debug)]
pub enum TokenizeError {
    MalformedInput,
}

impl TokenizeError {
    /// The text shown to the user for this error.
    pub fn message(&self) -> (r: String)
        ensures
            r@ == "malformed input: unterminated quote or trailing backslash"@,
    {
        String::from_str("malformed input: unterminated quote or trailing backslash")
    }
}

/// Splits a raw input line into shell-style tokens.
///
/// Succeeds with exactly the words `shell_split` names, and fails with
/// `MalformedInput` exactly when `shell_split` reports the line as
/// malformed. A line of nothing but blanks (or nothing at all) yields
/// an empty token sequence.
pub fn tokenize(line: &str) -> (r: Result<Vec<String>, TokenizeError>)
    ensures
        match r {
            Ok(v) => shell_split(line@) matches Some(ts) && v.deep_view() == ts,
            Err(e) => shell_split(line@) is None && e == TokenizeError::MalformedInput,
        },
        all_blank(line@) ==> (r matches Ok(v) && v.deep_view().len() == 0),
{
    match shlex_split(line) {
        Some(v) => Ok(v),
        None => Err(TokenizeError::MalformedInput),
    }
}

} // verus!
