use konk::{SignalAction, SignalManager, SignalPhase, KILL_EXIT_CODE};

#[test]
fn a_fresh_manager_is_idle_with_no_processes() {
    let manager = SignalManager::new(10);
    assert_eq!(manager.phase, SignalPhase::Idle);
    assert!(manager.pids.is_empty());
    assert_eq!(manager.grace_secs, 10);
}

#[test]
fn the_first_signal_opens_the_grace_period_and_kills_nothing() {
    let mut manager = SignalManager::new(10);
    manager.register(101);
    manager.register(102);
    let action = manager.on_signal();
    assert_eq!(manager.phase, SignalPhase::GracePeriod);
    match action {
        SignalAction::StartGraceTimer { grace_secs } => assert_eq!(grace_secs, 10),
        SignalAction::KillAll { .. } => panic!("the first signal must not kill"),
    }
    // the registered set is untouched
    assert_eq!(manager.pids, vec![101, 102]);
}

#[test]
fn a_second_signal_kills_every_registered_pid_and_exits_130() {
    let mut manager = SignalManager::new(10);
    manager.register(101);
    manager.register(102);
    manager.on_signal();
    let action = manager.on_signal();
    assert_eq!(manager.phase, SignalPhase::Killing);
    match action {
        SignalAction::KillAll { pids, exit_code } => {
            assert_eq!(pids, vec![101, 102]);
            assert_eq!(exit_code, 130);
        }
        SignalAction::StartGraceTimer { .. } => panic!("the second signal must kill"),
    }
}

#[test]
fn grace_period_expiry_kills_every_registered_pid() {
    let mut manager = SignalManager::new(1);
    manager.register(7);
    manager.on_signal();
    let action = manager.on_grace_timeout();
    assert_eq!(manager.phase, SignalPhase::Killing);
    match action {
        Some(SignalAction::KillAll { pids, exit_code }) => {
            assert_eq!(pids, vec![7]);
            assert_eq!(exit_code, KILL_EXIT_CODE);
        }
        _ => panic!("expiry during the grace period must kill"),
    }
}

#[test]
fn a_late_expiry_after_the_kill_changes_nothing() {
    let mut manager = SignalManager::new(1);
    manager.register(7);
    manager.on_signal();
    manager.on_signal();
    let action = manager.on_grace_timeout();
    assert!(action.is_none());
    assert_eq!(manager.phase, SignalPhase::Killing);
}

#[test]
fn registration_only_ever_appends() {
    let mut manager = SignalManager::new(10);
    manager.register(1);
    manager.on_signal();
    // a command still starting registers during the grace period
    manager.register(2);
    assert_eq!(manager.pids, vec![1, 2]);
}

#[test]
fn the_kill_exit_code_is_130() {
    assert_eq!(KILL_EXIT_CODE, 130);
}
