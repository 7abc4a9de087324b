use konk::{run_concurrently, run_serially};

#[test]
fn serial_all_successes_runs_everything() {
    let summary = run_serially(&vec![true, true, true], false);
    assert_eq!(summary.launched, 3);
    assert_eq!(summary.awaited, 3);
    assert!(!summary.failed);
}

#[test]
fn serial_failure_stops_the_batch() {
    // the failing command is at position 1: positions 2 and 3 never launch
    let summary = run_serially(&vec![true, false, true, true], false);
    assert_eq!(summary.launched, 2);
    assert_eq!(summary.awaited, 2);
    assert!(summary.failed);
}

#[test]
fn serial_failure_at_the_first_position_launches_only_it() {
    let summary = run_serially(&vec![false, true], false);
    assert_eq!(summary.launched, 1);
    assert!(summary.failed);
}

#[test]
fn serial_continue_on_failure_runs_everything() {
    let summary = run_serially(&vec![true, false, true, false], true);
    assert_eq!(summary.launched, 4);
    assert_eq!(summary.awaited, 4);
    assert!(summary.failed);
}

#[test]
fn serial_continue_on_failure_succeeds_without_failures() {
    let summary = run_serially(&vec![true, true], true);
    assert_eq!(summary.launched, 2);
    assert!(!summary.failed);
}

#[test]
fn serial_empty_batch_succeeds() {
    let summary = run_serially(&Vec::new(), false);
    assert_eq!(summary.launched, 0);
    assert!(!summary.failed);
}

#[test]
fn concurrent_launches_everything_before_consuming() {
    // outcomes in completion order; an early failure stops consumption
    // but never launching
    let summary = run_concurrently(&vec![false, true, true], false);
    assert_eq!(summary.launched, 3);
    assert_eq!(summary.awaited, 1);
    assert!(summary.failed);
}

#[test]
fn concurrent_continue_on_failure_consumes_everything() {
    let summary = run_concurrently(&vec![true, false, true], true);
    assert_eq!(summary.launched, 3);
    assert_eq!(summary.awaited, 3);
    assert!(summary.failed);
}

#[test]
fn concurrent_all_successes_succeed() {
    let summary = run_concurrently(&vec![true, true], false);
    assert_eq!(summary.launched, 2);
    assert_eq!(summary.awaited, 2);
    assert!(!summary.failed);
}

#[test]
fn concurrent_empty_batch_succeeds() {
    let summary = run_concurrently(&Vec::new(), true);
    assert_eq!(summary.launched, 0);
    assert_eq!(summary.awaited, 0);
    assert!(!summary.failed);
}
