//! The redirection parser: scans a token sequence for the first
//! redirection operator, extracts the directive it denotes (which
//! stream, truncate or append, and the target path), and removes the
//! operator and its target from the command line. Only the first
//! operator found is honoured; anything after it stays in the token
//! stream as ordinary arguments.

use vstd::prelude::*;
use crate::text::str_eq;

verus! {

/// Which of the two output streams a directive reroutes.
#[derive(PartialEq, Eq, Structural, Clone, Copy, Debug)]
pub enum RedirStream {
    Stdout,
    Stderr,
}

/// Whether the target file is truncated or appended to.
#[derive(PartialEq, Eq, Structural, Clone, Copy, Debug)]
pub enum RedirMode {
    Truncate,
    Append,
}

/// A parsed redirection: reroute `stream` to the file at `target`,
/// opened in `mode`.
#[derive(Debug)]
pub struct RedirectionDirective {
    pub stream: RedirStream,
    pub mode: RedirMode,
    pub target: String,
}

/// Why applying a redirection failed. The parser itself only ever
/// reports a missing target; the other two describe what can go wrong
/// when the target is opened, so that every redirection failure is
/// reported in one voice.
#[derive(PartialEq, Eq, Structural, Clone, Copy, Debug)]
pub enum RedirError {
    MissingTarget,
    TargetParentMissing,
    OpenFailed,
}

pub open spec fn redir_message(e: RedirError) -> Seq<char> {
    match e {
        RedirError::MissingTarget => "Redirection target missing"@,
        RedirError::TargetParentMissing => "Redirection target doesn't exist"@,
        RedirError::OpenFailed => "Failed to open redirection target for writing"@,
    }
}

impl RedirError {
    /// The short description of this failure.
    pub fn message(&self) -> (r: String)
        ensures
            r@ == redir_message(*self),
    {
        match self {
            RedirError::MissingTarget => String::from_str("Redirection target missing"),
            RedirError::TargetParentMissing => String::from_str("Redirection target doesn't exist"),
            RedirError::OpenFailed => String::from_str(
                "Failed to open redirection target for writing",
            ),
        }
    }

    /// The full line reported to the user for this failure.
    pub fn report_line(&self) -> (r: String)
        ensures
            r@ == "Failed to parse redirection: "@ + redir_message(*self),
    {
        let mut r = String::from_str("Failed to parse redirection: ");
        let m = self.message();
        r.append(m.as_str());
        r
    }
}

/// A truncating redirection operator token.
pub open spec fn is_write_op(t: Seq<char>) -> bool {
    t == ">"@ || t == "1>"@ || t == "2>"@
}

/// An appending redirection operator token.
pub open spec fn is_append_op(t: Seq<char>) -> bool {
    t == ">>"@ || t == "1>>"@ || t == "2>>"@
}

pub open spec fn is_redir_op(t: Seq<char>) -> bool {
    is_write_op(t) || is_append_op(t)
}

/// The stream an operator token reroutes: stderr for the operators
/// that name stream two, stdout for all others.
pub open spec fn op_stream(t: Seq<char>) -> RedirStream {
    if t == "2>"@ || t == "2>>"@ {
        RedirStream::Stderr
    } else {
        RedirStream::Stdout
    }
}

pub open spec fn op_mode(t: Seq<char>) -> RedirMode {
    if is_append_op(t) {
        RedirMode::Append
    } else {
        RedirMode::Truncate
    }
}

/// The position of the first redirection operator in the token
/// sequence, if any.
pub open spec fn first_redir_index(ts: Seq<Seq<char>>) -> Option<int>
    decreases ts.len(),
{
    if ts.len() == 0 {
        None
    } else if is_redir_op(ts[0]) {
        Some(0)
    } else {
        match first_redir_index(ts.drop_first()) {
            Some(i) => Some(i + 1),
            None => None,
        }
    }
}

/// A token sequence has no first redirection operator exactly when no
/// token in it is a redirection operator. Together with the contract
/// of `parse_redirection`, this says that a command line without a
/// redirection operator reaches dispatch exactly as the tokenizer
/// produced it.
pub proof fn lemma_no_redir_op(ts: Seq<Seq<char>>)
    ensures
        first_redir_index(ts) is None <==> (forall|j: int|
            0 <= j < ts.len() ==> !is_redir_op(#[trigger] ts[j])),
    decreases ts.len(),
{
    if ts.len() > 0 {
        let rest = ts.drop_first();
        lemma_no_redir_op(rest);
        assert(forall|j: int| 0 <= j < rest.len() ==> #[trigger] rest[j] == ts[j + 1]);
        if first_redir_index(ts) is None {
            assert forall|j: int| 0 <= j < ts.len() implies !is_redir_op(#[trigger] ts[j]) by {
                if j > 0 {
                    assert(ts[j] == rest[j - 1]);
                }
            }
        } else {
            if forall|j: int| 0 <= j < ts.len() ==> !is_redir_op(#[trigger] ts[j]) {
                assert(forall|j: int| 0 <= j < rest.len() ==> !is_redir_op(#[trigger] rest[j]));
                assert(first_redir_index(rest) is None);
                assert(!is_redir_op(ts[0]));
                assert(false);
            }
        }
    }
}

/// Only the first redirection operator takes effect: once the
/// operator at `i` and its target are removed, every later token —
/// a second operator and its target included — stands unchanged in
/// the command line, two places further left, and is passed through
/// as an ordinary argument.
pub proof fn lemma_second_operator_stays(ts: Seq<Seq<char>>, i: int, k: int)
    requires
        first_redir_index(ts) == Some(i),
        0 <= i,
        i + 1 < k < ts.len(),
    ensures
        (ts.subrange(0, i) + ts.subrange(i + 2, ts.len() as int))[k - 2] == ts[k],
{
}

proof fn lemma_first_redir_index_at(ts: Seq<Seq<char>>, i: int)
    requires
        0 <= i < ts.len(),
        is_redir_op(ts[i]),
        forall|j: int| 0 <= j < i ==> !is_redir_op(#[trigger] ts[j]),
    ensures
        first_redir_index(ts) == Some(i),
    decreases i,
{
    if i > 0 {
        let rest = ts.drop_first();
        assert(forall|j: int| 0 <= j < rest.len() ==> #[trigger] rest[j] == ts[j + 1]);
        lemma_first_redir_index_at(rest, i - 1);
    }
}

/// Extracts the directive denoted by the operator at `curr_idx` and
/// the token after it, and removes both tokens from the command line.
/// Fails, leaving the command line unchanged, when no target token
/// follows the operator.
pub fn apply_redirection(is_append: bool, curr_idx: usize, cmds: &mut Vec<String>) -> (r: Result<
    RedirectionDirective,
    RedirError,
>)
    requires
        curr_idx < old(cmds)@.len(),
        is_append == is_append_op(old(cmds).deep_view()[curr_idx as int]),
    ensures
        ({
            let ts = old(cmds).deep_view();
            let rest = final(cmds).deep_view();
            if curr_idx + 1 < ts.len() {
                r matches Ok(dir)
                    && dir.stream == op_stream(ts[curr_idx as int])
                    && dir.mode == op_mode(ts[curr_idx as int])
                    && dir.target@ == ts[curr_idx + 1]
                    && rest == ts.subrange(0, curr_idx as int)
                        + ts.subrange(curr_idx + 2, ts.len() as int)
            } else {
                r == Err::<RedirectionDirective, RedirError>(RedirError::MissingTarget)
                    && rest == ts
            }
        }),
{
    let ghost ts = cmds.deep_view();
    let n = cmds.len();
    if curr_idx + 1 >= n {
        return Err(RedirError::MissingTarget);
    }
    let target = cmds[curr_idx + 1].clone();
    let to_stderr = str_eq(cmds[curr_idx].as_str(), "2>") || str_eq(
        cmds[curr_idx].as_str(),
        "2>>",
    );
    let stream = if to_stderr {
        RedirStream::Stderr
    } else {
        RedirStream::Stdout
    };
    let mode = if is_append {
        RedirMode::Append
    } else {
        RedirMode::Truncate
    };
    cmds.remove(curr_idx);
    cmds.remove(curr_idx);
    proof {
        assert(cmds.deep_view() =~= ts.subrange(0, curr_idx as int) + ts.subrange(
            curr_idx + 2,
            ts.len() as int,
        ));
    }
    Ok(RedirectionDirective { stream, mode, target })
}

/// Scans the command line left to right for the first redirection
/// operator. When one is found, the directive it denotes is returned
/// and the operator and its target are removed; everything after them
/// — later operators included — is left in place as ordinary
/// arguments. A command line without an operator passes through
/// unchanged.
#[verifier::loop_isolation(false)]
pub fn parse_redirection(cmds: &mut Vec<String>) -> (r: Result<
    Option<RedirectionDirective>,
    RedirError,
>)
    ensures
        ({
            let ts = old(cmds).deep_view();
            let rest = final(cmds).deep_view();
            match first_redir_index(ts) {
                None => r matches Ok(d) && d is None && rest == ts,
                Some(i) => if i + 1 < ts.len() {
                    r matches Ok(Some(dir))
                        && dir.stream == op_stream(ts[i])
                        && dir.mode == op_mode(ts[i])
                        && dir.target@ == ts[i + 1]
                        && rest == ts.subrange(0, i) + ts.subrange(i + 2, ts.len() as int)
                } else {
                    r == Err::<Option<RedirectionDirective>, RedirError>(RedirError::MissingTarget)
                        && rest == ts
                },
            }
        }),
{
    let ghost ts = cmds.deep_view();
    let mut i: usize = 0;
    while i < cmds.len()
        invariant
            ts == cmds.deep_view(),
            cmds@.len() == ts.len(),
            i <= ts.len(),
            forall|j: int| 0 <= j < i ==> !is_redir_op(#[trigger] ts[j]),
        decreases ts.len() - i,
    {
        let is_w = str_eq(cmds[i].as_str(), ">") || str_eq(cmds[i].as_str(), "1>") || str_eq(
            cmds[i].as_str(),
            "2>",
        );
        let is_a = str_eq(cmds[i].as_str(), ">>") || str_eq(cmds[i].as_str(), "1>>") || str_eq(
            cmds[i].as_str(),
            "2>>",
        );
        if is_w || is_a {
            proof {
                assert(ts[i as int] == cmds@[i as int]@);
                assert(is_redir_op(ts[i as int]));
                lemma_first_redir_index_at(ts, i as int);
            }
            let res = apply_redirection(is_a, i, cmds);
            return match res {
                Ok(dir) => Ok(Some(dir)),
                Err(e) => Err(e),
            };
        }
        i = i + 1;
    }
    proof {
        lemma_no_redir_op(ts);
    }
    Ok(None)
}

} // verus!

