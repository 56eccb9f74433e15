use minirt::{Signal, State, WaitOutcome};

#[test]
fn new_signal_is_empty() {
    let s = Signal::new();
    assert_eq!(s.state(), State::Empty);
    assert!(!s.is_waiting());
}

#[test]
fn second_wait_is_a_misuse() {
    let mut s = Signal::new();
    assert_eq!(s.wait(), WaitOutcome::Parked);
    assert!(s.is_waiting());
    assert_eq!(s.wait(), WaitOutcome::MultipleWait);
    assert_eq!(s.state(), State::Waiting);
}

#[test]
fn notify_before_wait_is_not_lost() {
    let mut s = Signal::new();
    assert!(!s.notify());
    assert_eq!(s.state(), State::Notified);
    assert_eq!(s.wait(), WaitOutcome::Consumed);
    assert_eq!(s.state(), State::Empty);
}

#[test]
fn notifications_coalesce() {
    let mut s = Signal::new();
    assert!(!s.notify());
    assert!(!s.notify());
    assert_eq!(s.state(), State::Notified);
    assert_eq!(s.wait(), WaitOutcome::Consumed);
    assert_eq!(s.wait(), WaitOutcome::Parked);
}

#[test]
fn notify_wakes_the_parked_thread() {
    let mut s = Signal::new();
    assert_eq!(s.wait(), WaitOutcome::Parked);
    assert!(s.notify());
    assert_eq!(s.state(), State::Empty);
    assert!(!s.is_waiting());
}
