use tinyshell::dispatch::classify;
use tinyshell::dispatch::exit_code_of;
use tinyshell::dispatch::prepare_command;
use tinyshell::dispatch::CommandKind;
use tinyshell::dispatch::LineError;
use tinyshell::redirect::parse_redirection;
use tinyshell::redirect::RedirError;
use tinyshell::redirect::RedirMode;
use tinyshell::redirect::RedirStream;
use tinyshell::tokens::tokenize;
use tinyshell::tokens::TokenizeError;

fn words(parts: &[&str]) -> Vec<String> {
    parts.iter().map(|p| String::from(*p)).collect()
}

#[test]
fn tokenize_empty_line_yields_no_tokens() {
    let tokens = tokenize("").unwrap();
    assert_eq!(tokens.len(), 0);
}

#[test]
fn tokenize_blank_line_yields_no_tokens() {
    let tokens = tokenize("   ").unwrap();
    assert_eq!(tokens.len(), 0);
}

#[test]
fn tokenize_splits_plain_words() {
    let tokens = tokenize("pwd > out.txt").unwrap();
    assert_eq!(tokens, words(&["pwd", ">", "out.txt"]));
}

#[test]
fn tokenize_resolves_quotes() {
    let tokens = tokenize("echo a \"b c\" 'd e'").unwrap();
    assert_eq!(tokens, words(&["echo", "a", "b c", "d e"]));
}

#[test]
fn tokenize_unterminated_quote_is_malformed() {
    let r = tokenize("echo 'oops");
    assert_eq!(r.unwrap_err(), TokenizeError::MalformedInput);
}

#[test]
fn parse_redirection_without_operator_keeps_tokens() {
    let mut cmds = words(&["echo", "a", "b c"]);
    let r = parse_redirection(&mut cmds).unwrap();
    assert!(r.is_none());
    assert_eq!(cmds, words(&["echo", "a", "b c"]));
}

#[test]
fn parse_redirection_extracts_stdout_truncate() {
    let mut cmds = words(&["pwd", ">", "out.txt"]);
    let d = parse_redirection(&mut cmds).unwrap().unwrap();
    assert_eq!(d.stream, RedirStream::Stdout);
    assert_eq!(d.mode, RedirMode::Truncate);
    assert_eq!(d.target, "out.txt");
    assert_eq!(cmds, words(&["pwd"]));
}

#[test]
fn parse_redirection_digit_one_is_stdout() {
    let mut cmds = words(&["echo", "hi", "1>", "f"]);
    let d = parse_redirection(&mut cmds).unwrap().unwrap();
    assert_eq!(d.stream, RedirStream::Stdout);
    assert_eq!(d.mode, RedirMode::Truncate);
    assert_eq!(cmds, words(&["echo", "hi"]));
}

#[test]
fn parse_redirection_append_form() {
    let mut cmds = words(&["pwd", ">>", "out.txt"]);
    let d = parse_redirection(&mut cmds).unwrap().unwrap();
    assert_eq!(d.stream, RedirStream::Stdout);
    assert_eq!(d.mode, RedirMode::Append);
    assert_eq!(cmds, words(&["pwd"]));
}

#[test]
fn parse_redirection_stderr_forms() {
    let mut cmds = words(&["x", "2>", "e.txt"]);
    let d = parse_redirection(&mut cmds).unwrap().unwrap();
    assert_eq!(d.stream, RedirStream::Stderr);
    assert_eq!(d.mode, RedirMode::Truncate);

    let mut cmds = words(&["x", "2>>", "e.txt"]);
    let d = parse_redirection(&mut cmds).unwrap().unwrap();
    assert_eq!(d.stream, RedirStream::Stderr);
    assert_eq!(d.mode, RedirMode::Append);
}

#[test]
fn parse_redirection_missing_target() {
    let mut cmds = words(&["echo", "hi", ">"]);
    let e = parse_redirection(&mut cmds).unwrap_err();
    assert_eq!(e, RedirError::MissingTarget);
    assert_eq!(cmds, words(&["echo", "hi", ">"]));
    assert_eq!(e.message(), "Redirection target missing");
}

#[test]
fn parse_redirection_second_operator_is_literal() {
    let mut cmds = words(&["echo", "a", ">", "f", ">", "g"]);
    let d = parse_redirection(&mut cmds).unwrap().unwrap();
    assert_eq!(d.target, "f");
    assert_eq!(cmds, words(&["echo", "a", ">", "g"]));
}

#[test]
fn redirection_error_messages() {
    assert_eq!(
        RedirError::TargetParentMissing.message(),
        "Redirection target doesn't exist"
    );
    assert_eq!(
        RedirError::OpenFailed.message(),
        "Failed to open redirection target for writing"
    );
    assert_eq!(
        RedirError::MissingTarget.report_line(),
        "Failed to parse redirection: Redirection target missing"
    );
}

#[test]
fn prepare_command_without_operator_is_token_identical() {
    let (cmds, d) = prepare_command("echo a \"b c\" 'd e'").unwrap();
    assert!(d.is_none());
    assert_eq!(cmds, tokenize("echo a \"b c\" 'd e'").unwrap());
    assert_eq!(cmds, words(&["echo", "a", "b c", "d e"]));
}

#[test]
fn prepare_command_extracts_directive() {
    let (cmds, d) = prepare_command("pwd > out.txt").unwrap();
    let d = d.unwrap();
    assert_eq!(cmds, words(&["pwd"]));
    assert_eq!(d.stream, RedirStream::Stdout);
    assert_eq!(d.mode, RedirMode::Truncate);
    assert_eq!(d.target, "out.txt");
}

#[test]
fn prepare_command_reports_malformed_line() {
    let e = prepare_command("echo 'oops").unwrap_err();
    assert_eq!(e, LineError::Malformed);
}

#[test]
fn prepare_command_reports_missing_target() {
    let e = prepare_command("echo hi >").unwrap_err();
    assert_eq!(e, LineError::Redirection(RedirError::MissingTarget));
}

#[test]
fn classify_empty_line_executes_nothing() {
    assert_eq!(classify(&words(&[])), CommandKind::Empty);
}

#[test]
fn classify_builtins_and_external() {
    assert_eq!(classify(&words(&["exit"])), CommandKind::Exit);
    assert_eq!(classify(&words(&["exit", "3"])), CommandKind::Exit);
    assert_eq!(classify(&words(&["pwd"])), CommandKind::Pwd);
    assert_eq!(classify(&words(&["type", "x"])), CommandKind::Type);
    assert_eq!(classify(&words(&["echo", "x"])), CommandKind::Echo);
    assert_eq!(classify(&words(&["cd", ".."])), CommandKind::Cd);
    assert_eq!(classify(&words(&["ls", "-l"])), CommandKind::External);
}

#[test]
fn classify_exit_with_two_args_is_external() {
    assert_eq!(classify(&words(&["exit", "1", "2"])), CommandKind::External);
}

#[test]
fn exit_code_defaults_to_zero() {
    assert_eq!(exit_code_of(&words(&["exit"])).unwrap(), 0);
}

#[test]
fn exit_code_parses_argument() {
    assert_eq!(exit_code_of(&words(&["exit", "7"])).unwrap(), 7);
    assert_eq!(exit_code_of(&words(&["exit", "-3"])).unwrap(), -3);
    assert_eq!(exit_code_of(&words(&["exit", "+12"])).unwrap(), 12);
}

#[test]
fn exit_code_rejects_non_integer() {
    let m = exit_code_of(&words(&["exit", "abc"])).unwrap_err();
    assert_eq!(m, "exit: abc: numeric argument required");
}
