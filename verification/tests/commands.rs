use tinyshell::builtins::cd_cmd;
use tinyshell::builtins::cd_report_failure;
use tinyshell::builtins::cmd_not_found;
use tinyshell::builtins::echo_cmd;
use tinyshell::builtins::is_builtin;
use tinyshell::builtins::pwd_cmd;
use tinyshell::builtins::type_cmd;
use tinyshell::builtins::CdAction;
use tinyshell::external::forward_captured_output;
use tinyshell::search::candidate_paths;
use tinyshell::search::find_external_cmd;
use tinyshell::search::split_search_path;
use tinyshell::sink::write_to_buffer;
use tinyshell::sink::writeln_to_buffer;
use tinyshell::sink::OutputSink;
use tinyshell::text::parse_i32;
use tinyshell::text::usize_to_string;

fn words(parts: &[&str]) -> Vec<String> {
    parts.iter().map(|p| String::from(*p)).collect()
}

#[test]
fn sink_accumulates_writes() {
    let mut s = OutputSink::new();
    write_to_buffer("ab", &mut s);
    writeln_to_buffer("cd", &mut s);
    assert_eq!(s.into_string(), "abcd\n");
}

#[test]
fn echo_joins_arguments_with_spaces() {
    let mut out = OutputSink::new();
    echo_cmd(&words(&["a", "b c", "d e"]), &mut out);
    assert_eq!(out.into_string(), "a b c d e\n");
}

#[test]
fn echo_without_arguments_writes_bare_newline() {
    let mut out = OutputSink::new();
    echo_cmd(&words(&[]), &mut out);
    assert_eq!(out.into_string(), "\n");
}

#[test]
fn pwd_writes_current_directory() {
    let mut out = OutputSink::new();
    pwd_cmd(&words(&["pwd"]), "/home/user", &mut out);
    assert_eq!(out.into_string(), "/home/user\n");
}

#[test]
fn pwd_rejects_arguments() {
    let mut out = OutputSink::new();
    pwd_cmd(&words(&["pwd", "x"]), "/home/user", &mut out);
    assert_eq!(out.into_string(), "too many arguments\n");
}

#[test]
fn type_reports_builtin() {
    let mut out = OutputSink::new();
    type_cmd(&words(&["cd"]), &None, &mut out);
    assert_eq!(out.into_string(), "cd is a shell builtin\n");
}

#[test]
fn type_reports_resolved_path() {
    let mut out = OutputSink::new();
    type_cmd(&words(&["ls"]), &Some(String::from("/usr/bin/ls")), &mut out);
    assert_eq!(out.into_string(), "ls is /usr/bin/ls\n");
}

#[test]
fn type_reports_not_found() {
    let mut out = OutputSink::new();
    type_cmd(&words(&["nonexistent_cmd_xyz"]), &None, &mut out);
    assert_eq!(out.into_string(), "nonexistent_cmd_xyz: not found\n");
}

#[test]
fn type_rejects_wrong_argument_count() {
    let mut out = OutputSink::new();
    type_cmd(&words(&["a", "b"]), &None, &mut out);
    assert_eq!(
        out.into_string(),
        "incorrect number of args for type command, expected 1, got 2\n"
    );
}

#[test]
fn builtin_registry_has_all_five_names() {
    assert!(is_builtin("echo"));
    assert!(is_builtin("type"));
    assert!(is_builtin("pwd"));
    assert!(is_builtin("exit"));
    assert!(is_builtin("cd"));
    assert!(!is_builtin("ls"));
}

#[test]
fn unknown_command_reports_and_interpreter_goes_on() {
    let mut out = OutputSink::new();
    cmd_not_found("nonexistent_cmd_xyz", &mut out);
    echo_cmd(&words(&["still", "here"]), &mut out);
    assert_eq!(
        out.into_string(),
        "nonexistent_cmd_xyz: command not found\nstill here\n"
    );
}

#[test]
fn cd_to_parent_joins_on_cwd() {
    let mut out = OutputSink::new();
    let r = cd_cmd(&words(&[".."]), "/a/b", Some("/home/user"), &mut out);
    match r {
        CdAction::ChangeTo(p) => assert_eq!(p, "/a/b/.."),
        CdAction::NoChange => panic!("expected a directory change"),
    }
    assert_eq!(out.into_string(), "");
}

#[test]
fn cd_absolute_path_is_taken_as_given() {
    let mut out = OutputSink::new();
    let r = cd_cmd(&words(&["/definitely/missing"]), "/a/b", None, &mut out);
    match r {
        CdAction::ChangeTo(p) => assert_eq!(p, "/definitely/missing"),
        CdAction::NoChange => panic!("expected a directory change"),
    }
}

#[test]
fn cd_missing_directory_message() {
    let mut out = OutputSink::new();
    cd_report_failure("/definitely/missing", &mut out);
    assert_eq!(
        out.into_string(),
        "cd: /definitely/missing: No such file or directory\n"
    );
}

#[test]
fn cd_without_argument_goes_home() {
    let mut out = OutputSink::new();
    let r = cd_cmd(&words(&[]), "/a/b", Some("/home/user"), &mut out);
    match r {
        CdAction::ChangeTo(p) => assert_eq!(p, "/home/user"),
        CdAction::NoChange => panic!("expected a directory change"),
    }
}

#[test]
fn cd_tilde_goes_home() {
    let mut out = OutputSink::new();
    let r = cd_cmd(&words(&["~"]), "/a/b", Some("/home/user"), &mut out);
    match r {
        CdAction::ChangeTo(p) => assert_eq!(p, "/home/user"),
        CdAction::NoChange => panic!("expected a directory change"),
    }
}

#[test]
fn cd_home_unset_is_reported() {
    let mut out = OutputSink::new();
    let r = cd_cmd(&words(&[]), "/a/b", None, &mut out);
    assert!(matches!(r, CdAction::NoChange));
    assert_eq!(out.into_string(), "cd: HOME not set\n");
}

#[test]
fn cd_rejects_extra_arguments() {
    let mut out = OutputSink::new();
    let r = cd_cmd(&words(&["a", "b"]), "/a/b", Some("/home/user"), &mut out);
    assert!(matches!(r, CdAction::NoChange));
    assert_eq!(out.into_string(), "too many arguments\n");
}

#[test]
fn search_path_splits_on_colons() {
    let dirs = split_search_path("/usr/bin:/bin:/usr/local/bin");
    assert_eq!(dirs, words(&["/usr/bin", "/bin", "/usr/local/bin"]));
}

#[test]
fn search_path_keeps_empty_entries() {
    let dirs = split_search_path("/usr/bin::/bin");
    assert_eq!(dirs, words(&["/usr/bin", "", "/bin"]));
}

#[test]
fn candidate_paths_join_directories_and_name() {
    let dirs = words(&["/usr/bin", "/opt/tools/", ""]);
    let cands = candidate_paths(&dirs, "ls");
    assert_eq!(cands, words(&["/usr/bin/ls", "/opt/tools/ls", "ls"]));
}

#[test]
fn find_external_cmd_picks_first_confirmed() {
    let cands = words(&["/a/ls", "/b/ls", "/c/ls"]);
    let flags = vec![false, true, true];
    assert_eq!(find_external_cmd(&cands, &flags).unwrap(), "/b/ls");
}

#[test]
fn find_external_cmd_none_when_no_probe_confirms() {
    let cands = words(&["/a/ls", "/b/ls"]);
    let flags = vec![false, false];
    assert!(find_external_cmd(&cands, &flags).is_none());
}

#[test]
fn captured_output_goes_to_both_sinks() {
    let mut out = OutputSink::new();
    let mut err = OutputSink::new();
    write_to_buffer("pre|", &mut out);
    forward_captured_output(
        &b"hello\n".to_vec(),
        &b"oops\n".to_vec(),
        &mut out,
        &mut err,
    );
    assert_eq!(out.into_string(), "pre|hello\n");
    assert_eq!(err.into_string(), "oops\n");
}

#[test]
fn captured_output_is_decoded_lossily() {
    let mut out = OutputSink::new();
    let mut err = OutputSink::new();
    forward_captured_output(&vec![0xffu8, b'a'], &Vec::new(), &mut out, &mut err);
    assert_eq!(out.into_string(), "\u{fffd}a");
    assert_eq!(err.into_string(), "");
}

#[test]
fn parse_i32_accepts_integers_in_range() {
    assert_eq!(parse_i32("0").unwrap(), 0);
    assert_eq!(parse_i32("42").unwrap(), 42);
    assert_eq!(parse_i32("-1").unwrap(), -1);
    assert_eq!(parse_i32("+7").unwrap(), 7);
    assert_eq!(parse_i32("2147483647").unwrap(), 2147483647);
    assert_eq!(parse_i32("-2147483648").unwrap(), -2147483648);
}

#[test]
fn parse_i32_rejects_everything_else() {
    assert!(parse_i32("").is_none());
    assert!(parse_i32("-").is_none());
    assert!(parse_i32("+").is_none());
    assert!(parse_i32("abc").is_none());
    assert!(parse_i32("1x").is_none());
    assert!(parse_i32("2147483648").is_none());
    assert!(parse_i32("-2147483649").is_none());
    assert!(parse_i32(" 1").is_none());
}

#[test]
fn counters_render_in_decimal() {
    assert_eq!(usize_to_string(0), "0");
    assert_eq!(usize_to_string(10), "10");
    assert_eq!(usize_to_string(255), "255");
}
