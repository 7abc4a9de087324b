use konk::{LaunchError, Runnable};

fn runnable(command: &str, use_subshell: bool) -> Runnable {
    Runnable {
        label: "[x] ".to_string(),
        show_pid: false,
        command: command.to_string(),
        working_dir: None,
        use_subshell,
    }
}

#[test]
fn subshell_invocation_runs_the_command_through_sh() {
    let inv = runnable("echo hello && ls", true).invocation().unwrap();
    assert_eq!(inv.program, "/bin/sh");
    assert_eq!(inv.args, vec!["-c".to_string(), "echo hello && ls".to_string()]);
}

#[test]
fn direct_invocation_splits_the_command_into_words() {
    let inv = runnable("echo hello world", false).invocation().unwrap();
    assert_eq!(inv.program, "echo");
    assert_eq!(inv.args, vec!["hello".to_string(), "world".to_string()]);
}

#[test]
fn direct_invocation_respects_quoting() {
    let inv = runnable("echo 'one word' two", false).invocation().unwrap();
    assert_eq!(inv.program, "echo");
    assert_eq!(inv.args, vec!["one word".to_string(), "two".to_string()]);
}

#[test]
fn unclosed_quote_is_a_parse_error() {
    let r = runnable("echo 'oops", false).invocation();
    assert!(matches!(r, Err(LaunchError::CommandParse)));
}

#[test]
fn empty_command_is_an_error() {
    let r = runnable("", false).invocation();
    assert!(matches!(r, Err(LaunchError::EmptyCommand)));
    let r = runnable("   ", false).invocation();
    assert!(matches!(r, Err(LaunchError::EmptyCommand)));
}

#[test]
fn subshell_invocation_accepts_an_empty_command() {
    let inv = runnable("", true).invocation().unwrap();
    assert_eq!(inv.program, "/bin/sh");
    assert_eq!(inv.args, vec!["-c".to_string(), "".to_string()]);
}

#[test]
fn effective_label_embeds_the_pid_when_requested() {
    let mut r = runnable("echo hi", true);
    r.show_pid = true;
    assert_eq!(r.effective_label(4217), "[x] (PID: 4217) ");
}

#[test]
fn effective_label_is_unchanged_without_show_pid() {
    let r = runnable("echo hi", true);
    assert_eq!(r.effective_label(4217), "[x] ");
}

#[test]
fn launch_error_messages() {
    assert_eq!(LaunchError::CommandParse.message(), "command could not be parsed");
    assert_eq!(LaunchError::EmptyCommand.message(), "no command");
}
