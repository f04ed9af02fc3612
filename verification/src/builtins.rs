//! The builtin executors: `echo`, `pwd`, `type` and `cd`, plus the
//! report for an unknown external command. Each writes its result
//! through the output channel abstraction; none of them touches the
//! process state itself. `pwd` is handed the current working
//! directory, `type` the result of the search-path lookup, and `cd`
//! answers with the directory the caller should change to.

use vstd::prelude::*;
use crate::sink::OutputSink;
use crate::sink::writeln_to_buffer;
use crate::text::dec_rep;
use crate::text::joined_with;
use crate::text::join_with;
use crate::text::starts_with_char;
use crate::text::str_eq;
use crate::text::usize_to_string;

verus! {

/// The names the interpreter implements itself rather than by
/// spawning an external process.
pub open spec fn is_builtin_name(name: Seq<char>) -> bool {
    name == "echo"@ || name == "type"@ || name == "pwd"@ || name == "exit"@ || name == "cd"@
}

/// Whether the name is one of the shell's builtins.
pub fn is_builtin(name: &str) -> (r: bool)
    ensures
        r == is_builtin_name(name@),
{
    str_eq(name, "echo") || str_eq(name, "type") || str_eq(name, "pwd") || str_eq(name, "exit")
        || str_eq(name, "cd")
}

/// Writes the space-joined arguments, followed by a newline, to the
/// stdout sink.
pub fn echo_cmd(echo_strs: &Vec<String>, stdout_buffer: &mut OutputSink)
    ensures
        final(stdout_buffer)@ == old(stdout_buffer)@ + joined_with(echo_strs.deep_view(), " "@)
            + "\n"@,
{
    let joined = join_with(echo_strs, " ");
    writeln_to_buffer(joined.as_str(), stdout_buffer);
}

/// Writes the current working directory, followed by a newline, to
/// the stdout sink; with any argument it reports `too many arguments`
/// instead. `cmds` is the whole command line, `pwd` included.
pub fn pwd_cmd(cmds: &Vec<String>, current_dir: &str, stdout_buffer: &mut OutputSink)
    ensures
        cmds@.len() > 1 ==> final(stdout_buffer)@ == old(stdout_buffer)@ + "too many arguments"@
            + "\n"@,
        cmds@.len() <= 1 ==> final(stdout_buffer)@ == old(stdout_buffer)@ + current_dir@ + "\n"@,
{
    if cmds.len() > 1 {
        writeln_to_buffer("too many arguments", stdout_buffer);
        return ;
    }
    writeln_to_buffer(current_dir, stdout_buffer);
}

/// What `cd` asks of its caller: change to the given directory, or
/// nothing (the report, if one was owed, has been written already).
#[derive(Debug)]
pub enum CdAction {
    NoChange,
    ChangeTo(String),
}

/// Decides where `cd` goes. `args` is everything after the command
/// name. No argument, or one beginning with `~`, selects the home
/// directory (reporting `cd: HOME not set` when there is none); an
/// argument beginning with `.` is joined onto the current working
/// directory; anything else is taken as it stands. More than one
/// argument reports `too many arguments`. The caller performs the
/// actual directory change and, on failure, `cd_report_failure`.
pub fn cd_cmd(args: &Vec<String>, cwd: &str, home: Option<&str>, stdout_buffer: &mut OutputSink)
    -> (r: CdAction)
    ensures
        ({
            let a = args.deep_view();
            let pre = old(stdout_buffer)@;
            let out = final(stdout_buffer)@;
            if a.len() > 1 {
                r is NoChange && out == pre + "too many arguments"@ + "\n"@
            } else if a.len() == 0 || (a[0].len() > 0 && a[0][0] == '~') {
                match home {
                    Some(h) => r matches CdAction::ChangeTo(p) && p@ == h@ && out == pre,
                    None => r is NoChange && out == pre + "cd: HOME not set"@ + "\n"@,
                }
            } else if a[0].len() > 0 && a[0][0] == '.' {
                r matches CdAction::ChangeTo(p) && p@ == cwd@ + "/"@ + a[0] && out == pre
            } else {
                r matches CdAction::ChangeTo(p) && p@ == a[0] && out == pre
            }
        }),
{
    if args.len() > 1 {
        writeln_to_buffer("too many arguments", stdout_buffer);
        return CdAction::NoChange;
    }
    if args.len() == 0 || starts_with_char(args[0].as_str(), '~') {
        match home {
            Some(h) => {
                return CdAction::ChangeTo(String::from_str(h));
            },
            None => {
                writeln_to_buffer("cd: HOME not set", stdout_buffer);
                return CdAction::NoChange;
            },
        }
    }
    if starts_with_char(args[0].as_str(), '.') {
        let mut p = String::from_str(cwd);
        p.append("/");
        p.append(args[0].as_str());
        CdAction::ChangeTo(p)
    } else {
        CdAction::ChangeTo(args[0].clone())
    }
}

/// The recovered report when the directory change itself fails.
pub fn cd_report_failure(path: &str, stdout_buffer: &mut OutputSink)
    ensures
        final(stdout_buffer)@ == old(stdout_buffer)@ + "cd: "@ + path@
            + ": No such file or directory"@ + "\n"@,
{
    let mut m = String::from_str("cd: ");
    m.append(path);
    m.append(": No such file or directory");
    writeln_to_buffer(m.as_str(), stdout_buffer);
    proof {
        assert(stdout_buffer@ =~= old(stdout_buffer)@ + "cd: "@ + path@
            + ": No such file or directory"@ + "\n"@);
    }
}

/// Reports what a name is: a shell builtin, the external command at
/// the resolved path, or not found. `type_strs` is everything after
/// the command name; `resolved` is the search-path lookup's result
/// for the queried name (it is ignored for builtins). Exactly one
/// name must be queried, else the argument count is reported. All
/// outcomes go to the stdout sink.
pub fn type_cmd(type_strs: &Vec<String>, resolved: &Option<String>, stdout_buffer: &mut OutputSink)
    ensures
        ({
            let a = type_strs.deep_view();
            let pre = old(stdout_buffer)@;
            let out = final(stdout_buffer)@;
            if a.len() != 1 {
                out == pre + "incorrect number of args for type command, expected 1, got "@
                    + dec_rep(a.len()) + "\n"@
            } else if is_builtin_name(a[0]) {
                out == pre + a[0] + " is a shell builtin"@ + "\n"@
            } else {
                match resolved {
                    Some(p) => out == pre + a[0] + " is "@ + p@ + "\n"@,
                    None => out == pre + a[0] + ": not found"@ + "\n"@,
                }
            }
        }),
{
    if type_strs.len() != 1 {
        let mut m = String::from_str("incorrect number of args for type command, expected 1, got ");
        let n = usize_to_string(type_strs.len());
        m.append(n.as_str());
        writeln_to_buffer(m.as_str(), stdout_buffer);
        proof {
            assert(stdout_buffer@ =~= old(stdout_buffer)@
                + "incorrect number of args for type command, expected 1, got "@
                + dec_rep(type_strs.deep_view().len()) + "\n"@);
        }
        return ;
    }
    let cmd = &type_strs[0];
    if is_builtin(cmd.as_str()) {
        let mut m = cmd.clone();
        m.append(" is a shell builtin");
        writeln_to_buffer(m.as_str(), stdout_buffer);
        proof {
            assert(stdout_buffer@ =~= old(stdout_buffer)@ + type_strs.deep_view()[0]
                + " is a shell builtin"@ + "\n"@);
        }
        return ;
    }
    match resolved {
        Some(p) => {
            let mut m = cmd.clone();
            m.append(" is ");
            m.append(p.as_str());
            writeln_to_buffer(m.as_str(), stdout_buffer);
            proof {
                assert(stdout_buffer@ =~= old(stdout_buffer)@ + type_strs.deep_view()[0]
                    + " is "@ + p@ + "\n"@);
            }
        },
        None => {
            let mut m = cmd.clone();
            m.append(": not found");
            writeln_to_buffer(m.as_str(), stdout_buffer);
            proof {
                assert(stdout_buffer@ =~= old(stdout_buffer)@ + type_strs.deep_view()[0]
                    + ": not found"@ + "\n"@);
            }
        },
    }
}

/// The report for a leading token that names no builtin and no
/// executable on the search path.
pub fn cmd_not_found(cmd: &str, stdout_buffer: &mut OutputSink)
    ensures
        final(stdout_buffer)@ == old(stdout_buffer)@ + cmd@ + ": command not found"@ + "\n"@,
{
    let mut m = String::from_str(cmd);
    m.append(": command not found");
    writeln_to_buffer(m.as_str(), stdout_buffer);
    proof {
        assert(stdout_buffer@ =~= old(stdout_buffer)@ + cmd@ + ": command not found"@
            + "\n"@);
    }
}

} // verus!
