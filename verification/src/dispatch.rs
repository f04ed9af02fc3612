//! The command classifier: decides, from the redirection-stripped
//! command line, which executor handles it. The first token names the
//! command; `exit` is only recognised with zero or one argument, as
//! any longer line falls through to the external runner. The `exit`
//! code argument is parsed here too, with a bad argument reported
//! rather than taken as fatal.

use vstd::prelude::*;
use crate::redirect::first_redir_index;
use crate::redirect::op_mode;
use crate::redirect::op_stream;
use crate::redirect::parse_redirection;
use crate::redirect::RedirError;
use crate::redirect::RedirectionDirective;
use crate::text::int_val;
use crate::text::parses_to_i32;
use crate::text::parse_i32;
use crate::text::str_eq;
use crate::tokens::shell_split;
use crate::tokens::tokenize;

verus! {

/// Why a raw line never reached dispatch.
#[derive(PartialEq, Eq, Structural, Clone, Copy, Debug)]
pub enum LineError {
    Malformed,
    Redirection(RedirError),
}

/// The front of the pipeline in one step: tokenizes the raw line and
/// applies the redirection parser to the result. On success the
/// command line handed back is ready for dispatch: token-identical to
/// the tokenizer's output when the line held no redirection operator,
/// and otherwise that output with the first operator and its target
/// removed, alongside the directive they denoted.
pub fn prepare_command(line: &str) -> (r: Result<
    (Vec<String>, Option<RedirectionDirective>),
    LineError,
>)
    ensures
        ({
            match shell_split(line@) {
                None => r matches Err(e) && e is Malformed,
                Some(ts) => match first_redir_index(ts) {
                    None => r matches Ok((cmds, d)) && cmds.deep_view() == ts && d is None,
                    Some(i) => if i + 1 < ts.len() {
                        r matches Ok((cmds, d)) && d matches Some(dir)
                            && dir.stream == op_stream(ts[i])
                            && dir.mode == op_mode(ts[i])
                            && dir.target@ == ts[i + 1]
                            && cmds.deep_view() == ts.subrange(0, i)
                                + ts.subrange(i + 2, ts.len() as int)
                    } else {
                        r matches Err(e) && e == LineError::Redirection(RedirError::MissingTarget)
                    },
                },
            }
        }),
{
    let mut cmds = match tokenize(line) {
        Ok(tokens) => tokens,
        Err(_) => {
            return Err(LineError::Malformed);
        },
    };
    match parse_redirection(&mut cmds) {
        Ok(d) => Ok((cmds, d)),
        Err(e) => Err(LineError::Redirection(e)),
    }
}

/// Where a command line is dispatched.
#[derive(PartialEq, Eq, Structural, Clone, Copy, Debug)]
pub enum CommandKind {
    Empty,
    Exit,
    Pwd,
    Type,
    Echo,
    Cd,
    External,
}

/// The dispatch rule: an empty line does nothing; `exit` with at most
/// one argument terminates; `pwd`, `type`, `echo` and `cd` go to
/// their builtin executors; every other leading token names an
/// external command.
pub open spec fn classify_spec(cmds: Seq<Seq<char>>) -> CommandKind {
    if cmds.len() == 0 {
        CommandKind::Empty
    } else if cmds[0] == "exit"@ && cmds.len() <= 2 {
        CommandKind::Exit
    } else if cmds[0] == "pwd"@ {
        CommandKind::Pwd
    } else if cmds[0] == "type"@ {
        CommandKind::Type
    } else if cmds[0] == "echo"@ {
        CommandKind::Echo
    } else if cmds[0] == "cd"@ {
        CommandKind::Cd
    } else {
        CommandKind::External
    }
}

/// Classifies a command line, exactly as `classify_spec` says.
pub fn classify(cmds: &Vec<String>) -> (k: CommandKind)
    ensures
        k == classify_spec(cmds.deep_view()),
{
    if cmds.len() == 0 {
        return CommandKind::Empty;
    }
    proof {
        assert(cmds.deep_view()[0] == cmds@[0]@);
    }
    let first = &cmds[0];
    if str_eq(first.as_str(), "exit") && cmds.len() <= 2 {
        CommandKind::Exit
    } else if str_eq(first.as_str(), "pwd") {
        CommandKind::Pwd
    } else if str_eq(first.as_str(), "type") {
        CommandKind::Type
    } else if str_eq(first.as_str(), "echo") {
        CommandKind::Echo
    } else if str_eq(first.as_str(), "cd") {
        CommandKind::Cd
    } else {
        CommandKind::External
    }
}

/// A line that tokenizes to no words at all executes nothing: the
/// redirection parser finds no operator in it, and dispatch sends it
/// nowhere.
pub proof fn lemma_empty_line_is_noop(ts: Seq<Seq<char>>)
    requires
        ts.len() == 0,
    ensures
        classify_spec(ts) is Empty,
        crate::redirect::first_redir_index(ts) is None,
{
}

/// The exit code an `exit` line asks for: zero with no argument, the
/// argument's value when it is a decimal integer in range, and
/// otherwise the report to show the user instead of terminating.
pub fn exit_code_of(cmds: &Vec<String>) -> (r: Result<i32, String>)
    requires
        classify_spec(cmds.deep_view()) is Exit,
    ensures
        ({
            let a = cmds.deep_view();
            if a.len() == 1 {
                r matches Ok(code) && code == 0
            } else if parses_to_i32(a[1]) {
                r matches Ok(code) && code as int == int_val(a[1])
            } else {
                r matches Err(m) && m@ == "exit: "@ + a[1] + ": numeric argument required"@
            }
        }),
{
    if cmds.len() == 1 {
        return Ok(0);
    }
    proof {
        assert(cmds.deep_view()[1] == cmds@[1]@);
    }
    let arg = &cmds[1];
    match parse_i32(arg.as_str()) {
        Some(v) => Ok(v),
        None => {
            let mut m = String::from_str("exit: ");
            m.append(arg.as_str());
            m.append(": numeric argument required");
            proof {
                assert(m@ =~= "exit: "@ + cmds.deep_view()[1] + ": numeric argument required"@);
            }
            Err(m)
        },
    }
}

} // verus!
