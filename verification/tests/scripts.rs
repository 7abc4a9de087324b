use konk::{collect_npm_commands, ScriptError};

fn strings(items: &[&str]) -> Vec<String> {
    items.iter().map(|s| s.to_string()).collect()
}

#[test]
fn exact_request_generates_one_command() {
    let mut commands = Vec::new();
    let npm = strings(&["build"]);
    let names = strings(&["build", "build:watch"]);
    let r = collect_npm_commands(&mut commands, &npm, &names, &"npm".to_string());
    assert!(r.is_ok());
    assert_eq!(commands, strings(&["npm run build"]));
}

#[test]
fn alternate_runner_is_used_in_generated_commands() {
    let mut commands = Vec::new();
    let npm = strings(&["build"]);
    let names = strings(&["build"]);
    let r = collect_npm_commands(&mut commands, &npm, &names, &"bun".to_string());
    assert!(r.is_ok());
    assert_eq!(commands, strings(&["bun run build"]));
}

#[test]
fn wildcard_request_matches_every_name_with_the_prefix() {
    let mut commands = Vec::new();
    let npm = strings(&["build*"]);
    let names = strings(&["build", "build:watch", "test"]);
    let r = collect_npm_commands(&mut commands, &npm, &names, &"npm".to_string());
    assert!(r.is_ok());
    let mut got = commands.clone();
    got.sort();
    assert_eq!(got, strings(&["npm run build", "npm run build:watch"]));
}

#[test]
fn wildcard_prefix_is_matched_literally() {
    let mut commands = Vec::new();
    let npm = strings(&["build:*"]);
    let names = strings(&["build", "build:watch"]);
    let r = collect_npm_commands(&mut commands, &npm, &names, &"npm".to_string());
    assert!(r.is_ok());
    assert_eq!(commands, strings(&["npm run build:watch"]));
}

#[test]
fn wildcard_with_no_matches_generates_nothing() {
    let mut commands = Vec::new();
    let npm = strings(&["deploy*"]);
    let names = strings(&["build", "test"]);
    let r = collect_npm_commands(&mut commands, &npm, &names, &"npm".to_string());
    assert!(r.is_ok());
    assert!(commands.is_empty());
}

#[test]
fn unknown_exact_request_is_a_setup_error() {
    let mut commands = Vec::new();
    let npm = strings(&["deploy"]);
    let names = strings(&["build", "test"]);
    let r = collect_npm_commands(&mut commands, &npm, &names, &"npm".to_string());
    match r {
        Err(ScriptError::UnknownScript(name)) => assert_eq!(name, "deploy"),
        Ok(()) => panic!("expected an unknown-script error"),
    }
    assert!(commands.is_empty());
}

#[test]
fn expansion_stops_at_the_first_unknown_request() {
    let mut commands = Vec::new();
    let npm = strings(&["build", "deploy", "test"]);
    let names = strings(&["build", "test"]);
    let r = collect_npm_commands(&mut commands, &npm, &names, &"npm".to_string());
    match r {
        Err(ScriptError::UnknownScript(name)) => assert_eq!(name, "deploy"),
        Ok(()) => panic!("expected an unknown-script error"),
    }
    assert_eq!(commands, strings(&["npm run build"]));
}

#[test]
fn generated_commands_are_appended_after_existing_ones() {
    let mut commands = strings(&["echo literal"]);
    let npm = strings(&["test"]);
    let names = strings(&["build", "test"]);
    let r = collect_npm_commands(&mut commands, &npm, &names, &"npm".to_string());
    assert!(r.is_ok());
    assert_eq!(commands, strings(&["echo literal", "npm run test"]));
}

#[test]
fn no_requests_generate_nothing() {
    let mut commands = strings(&["echo literal"]);
    let npm: Vec<String> = Vec::new();
    let names = strings(&["build"]);
    let r = collect_npm_commands(&mut commands, &npm, &names, &"npm".to_string());
    assert!(r.is_ok());
    assert_eq!(commands, strings(&["echo literal"]));
}

#[test]
fn unknown_script_message_names_the_script() {
    let err = ScriptError::UnknownScript("deploy".to_string());
    assert_eq!(err.message(), "Script \"deploy\" does not exist in package.json");
}
