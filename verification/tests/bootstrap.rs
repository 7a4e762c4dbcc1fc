use shopcore::bootstrap::BootPhase;
use shopcore::bootstrap::Bootstrapper;
use shopcore::bootstrap::CONNECT_ATTEMPTS;
use shopcore::bootstrap::RETRY_PAUSE_SECONDS;
use shopcore::bootstrap::RetryAction;
use shopcore::bootstrap::run_bootstrap;

#[test]
fn the_policy_constants() {
    assert_eq!(CONNECT_ATTEMPTS, 5);
    assert_eq!(RETRY_PAUSE_SECONDS, 2);
}

#[test]
fn five_straight_failures_give_up_after_five_paused_attempts() {
    let results = vec![false, false, false, false, false];
    let (connected, failures) = run_bootstrap(&results);
    assert_eq!(connected, None);
    assert_eq!(failures, 5);
}

#[test]
fn success_on_the_third_attempt_proceeds_normally() {
    let results = vec![false, false, true, false, false];
    let (connected, failures) = run_bootstrap(&results);
    assert_eq!(connected, Some(2));
    assert_eq!(failures, 2);
}

#[test]
fn immediate_success_needs_no_pause() {
    let results = vec![true, true, true, true, true];
    let (connected, failures) = run_bootstrap(&results);
    assert_eq!(connected, Some(0));
    assert_eq!(failures, 0);
}

#[test]
fn the_sequencer_pauses_after_each_failure_and_gives_up_on_the_last() {
    let mut boot = Bootstrapper::new();
    for spent in 1..=5 {
        assert!(boot.should_attempt());
        let action = boot.on_failure();
        if spent < 5 {
            assert_eq!(action, RetryAction::PauseThenRetry);
        } else {
            assert_eq!(action, RetryAction::GiveUp);
        }
    }
    assert!(!boot.should_attempt());
}

#[test]
fn success_ends_the_sequence() {
    let mut boot = Bootstrapper::new();
    assert!(boot.should_attempt());
    let _ = boot.on_failure();
    assert!(boot.should_attempt());
    boot.on_success();
    assert!(!boot.should_attempt());
}

#[test]
fn phases_are_observable() {
    assert_ne!(BootPhase::Connecting, BootPhase::Connected);
    assert_ne!(BootPhase::Connected, BootPhase::Failed);
}
