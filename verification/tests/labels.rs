use konk::{collect_labels, resolve_labels, LabelOpts};

fn strings(items: &[&str]) -> Vec<String> {
    items.iter().map(|s| s.to_string()).collect()
}

#[test]
fn index_labels_without_color() {
    let commands = strings(&["echo a", "echo b"]);
    let opts = LabelOpts { command_as_label: false, color: false, provided_labels: Vec::new() };
    let labels = collect_labels(&commands, opts);
    assert_eq!(labels, strings(&["[0] ", "[1] "]));
}

#[test]
fn provided_labels_are_padded_to_the_widest() {
    let commands = strings(&["a", "b"]);
    let opts = LabelOpts {
        command_as_label: false,
        color: false,
        provided_labels: strings(&["web", "a"]),
    };
    let labels = collect_labels(&commands, opts);
    assert_eq!(labels, strings(&["[web] ", "[a  ] "]));
}

#[test]
fn command_as_label_uses_the_command_string() {
    let commands = strings(&["echo hi", "ls"]);
    let opts = LabelOpts { command_as_label: true, color: false, provided_labels: Vec::new() };
    let labels = collect_labels(&commands, opts);
    assert_eq!(labels, strings(&["[echo hi] ", "[ls     ] "]));
}

#[test]
fn colored_labels_rotate_over_six_colors() {
    let commands = strings(&["a", "b", "c", "d", "e", "f", "g"]);
    let opts = LabelOpts { command_as_label: false, color: true, provided_labels: Vec::new() };
    let labels = collect_labels(&commands, opts);
    assert_eq!(labels[0], "\x1b[0;31m[0]\x1b[0m ");
    assert_eq!(labels[1], "\x1b[0;32m[1]\x1b[0m ");
    assert_eq!(labels[5], "\x1b[0;36m[5]\x1b[0m ");
    // the seventh command wraps back to the first color
    assert_eq!(labels[6], "\x1b[0;31m[6]\x1b[0m ");
}

#[test]
fn index_labels_reach_two_digits() {
    let commands = strings(&["a", "b", "c", "d", "e", "f", "g", "h", "i", "j", "k"]);
    let opts = LabelOpts { command_as_label: false, color: false, provided_labels: Vec::new() };
    let labels = collect_labels(&commands, opts);
    assert_eq!(labels[0], "[0 ] ");
    assert_eq!(labels[9], "[9 ] ");
    assert_eq!(labels[10], "[10] ");
}

#[test]
fn no_label_yields_empty_labels() {
    let commands = strings(&["echo a", "echo b"]);
    let opts = LabelOpts { command_as_label: false, color: false, provided_labels: Vec::new() };
    let labels = resolve_labels(&commands, true, opts);
    assert_eq!(labels, strings(&["", ""]));
}

#[test]
fn resolve_labels_formats_when_labels_are_wanted() {
    let commands = strings(&["echo a"]);
    let opts = LabelOpts { command_as_label: false, color: false, provided_labels: Vec::new() };
    let labels = resolve_labels(&commands, false, opts);
    assert_eq!(labels, strings(&["[0] "]));
}

#[test]
fn no_commands_no_labels() {
    let commands: Vec<String> = Vec::new();
    let opts = LabelOpts { command_as_label: false, color: false, provided_labels: Vec::new() };
    let labels = collect_labels(&commands, opts);
    assert!(labels.is_empty());
}
