use konk::{resolve_color, validate_label_options, SetupError};

#[test]
fn an_explicit_color_flag_wins_over_the_environment() {
    assert!(resolve_color(Some(true), true));
    assert!(!resolve_color(Some(false), false));
}

#[test]
fn without_a_flag_the_environment_decides() {
    assert!(resolve_color(None, false));
    assert!(!resolve_color(None, true));
}

#[test]
fn no_options_is_ok() {
    assert!(validate_label_options(3, 0, false, false).is_ok());
}

#[test]
fn zero_commands_zero_labels_is_ok() {
    assert!(validate_label_options(0, 0, false, false).is_ok());
}

#[test]
fn matching_label_count_is_ok() {
    assert!(validate_label_options(2, 2, false, false).is_ok());
}

#[test]
fn label_count_mismatch_is_a_setup_error() {
    assert_eq!(validate_label_options(3, 2, false, false), Err(SetupError::LabelCountMismatch));
    assert_eq!(validate_label_options(0, 1, false, false), Err(SetupError::LabelCountMismatch));
}

#[test]
fn no_label_with_command_as_label_is_a_setup_error() {
    assert_eq!(
        validate_label_options(1, 0, true, true),
        Err(SetupError::NoLabelWithCommandAsLabel)
    );
}

#[test]
fn no_label_with_labels_is_a_setup_error() {
    assert_eq!(validate_label_options(2, 2, true, false), Err(SetupError::NoLabelWithLabels));
}

#[test]
fn command_as_label_with_labels_is_a_setup_error() {
    assert_eq!(
        validate_label_options(2, 2, false, true),
        Err(SetupError::CommandAsLabelWithLabels)
    );
}

#[test]
fn no_label_alone_is_ok() {
    assert!(validate_label_options(2, 0, true, false).is_ok());
}

#[test]
fn command_as_label_alone_is_ok() {
    assert!(validate_label_options(2, 0, false, true).is_ok());
}

#[test]
fn setup_error_messages() {
    assert_eq!(
        SetupError::NoLabelWithCommandAsLabel.message(),
        "Cannot use both --no-label and --command-as-label"
    );
    assert_eq!(
        SetupError::LabelCountMismatch.message(),
        "Number of labels must match number of commands"
    );
    assert_eq!(SetupError::NoLabelWithLabels.message(), "Cannot use --no-label with --label");
    assert_eq!(
        SetupError::CommandAsLabelWithLabels.message(),
        "Cannot use --command-as-label with --label"
    );
}
