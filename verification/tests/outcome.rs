use konk::{completion_result, exit_outcome, ExitStatus, ExitStatusError};

#[test]
fn exit_outcome_records_label_and_success() {
    let outcome = exit_outcome(&"[a] ".to_string(), ExitStatus { code: Some(0) });
    assert_eq!(outcome.label, "[a] ");
    assert!(outcome.success);
    assert_eq!(outcome.status_description, "exit status: 0");
}

#[test]
fn exit_outcome_records_failures() {
    let outcome = exit_outcome(&"[a] ".to_string(), ExitStatus { code: Some(127) });
    assert!(!outcome.success);
    assert_eq!(outcome.status_description, "exit status: 127");
}

#[test]
fn completion_result_is_ok_exactly_on_exit_zero() {
    assert!(completion_result(&"[a] ".to_string(), ExitStatus { code: Some(0) }).is_ok());
    let err = completion_result(&"[a] ".to_string(), ExitStatus { code: Some(3) }).unwrap_err();
    assert_eq!(err.label, "[a] ");
    assert_eq!(err.status, ExitStatus { code: Some(3) });
    assert!(completion_result(&"[a] ".to_string(), ExitStatus { code: None }).is_err());
}

#[test]
fn exit_status_error_message_names_label_and_status() {
    let err = ExitStatusError { status: ExitStatus { code: Some(1) }, label: "[web]".to_string() };
    assert_eq!(err.message(), "[web] command exited with non-zero status: exit status: 1");
}

#[test]
fn exit_status_error_message_for_abnormal_termination() {
    let err = ExitStatusError { status: ExitStatus { code: None }, label: "[web]".to_string() };
    assert_eq!(err.message(), "[web] command exited with non-zero status: terminated abnormally");
}
