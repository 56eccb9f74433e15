use minirt::{block_on, spawn, Executor, State, Step, WaitOutcome};

#[test]
fn ready_main_returns_without_waiting() {
    let mut e = Executor::new();
    let r = block_on(&mut e, Some(42u32));
    assert_eq!(r, Step::Return(42));
    assert_eq!(e.signal_state_now(), State::Empty);
}

#[test]
fn spawned_tasks_are_retried_in_order_before_the_next_main_poll() {
    let mut e = Executor::new();
    let (a, _) = spawn(&mut e);
    let (b, _) = spawn(&mut e);
    let (c, _) = spawn(&mut e);
    let mut log = Vec::new();
    let mut step = block_on::<u32>(&mut e, None);
    while let Step::Retry(id) = step {
        log.push(id);
        step = e.task_advanced(id, true);
    }
    assert_eq!(log, vec![a, b, c]);
    assert_eq!(step, Step::Park(WaitOutcome::Consumed));
    let r = block_on(&mut e, Some(5u32));
    assert_eq!(r, Step::Return(5));
}

#[test]
fn top_level_is_polled_before_ready_tasks() {
    let mut e = Executor::new();
    let (a, _) = spawn(&mut e);
    let r = block_on(&mut e, Some(1u8));
    assert_eq!(r, Step::Return(1));
    assert_eq!(e.queued_len(), 1);
    let r = block_on::<u8>(&mut e, None);
    assert_eq!(r, Step::Retry(a));
}

#[test]
fn pending_main_parks_once_until_its_handle_fires() {
    let mut e = Executor::new();
    let mut waits = 0;
    let r = block_on::<u8>(&mut e, None);
    if let Step::Park(_) = r {
        waits += 1;
    }
    assert_eq!(r, Step::Park(WaitOutcome::Parked));
    assert!(e.is_parked());
    assert!(e.wake_main());
    assert!(!e.is_parked());
    let r = block_on(&mut e, Some(9u8));
    assert_eq!(r, Step::Return(9));
    assert_eq!(waits, 1);
}

#[test]
fn spawned_child_runs_before_the_loop_parks() {
    let mut e = Executor::new();
    let (child, _) = spawn(&mut e);
    let r = block_on::<u8>(&mut e, None);
    assert_eq!(r, Step::Retry(child));
    let r = e.task_advanced::<u8>(child, true);
    assert_eq!(r, Step::Park(WaitOutcome::Consumed));
    assert!(e.is_finished(child));
    let r = block_on::<u8>(&mut e, None);
    assert_eq!(r, Step::Park(WaitOutcome::Parked));
    assert!(e.wake_main());
    let r = block_on(&mut e, Some(0u8));
    assert_eq!(r, Step::Return(0));
}

#[test]
fn task_woken_while_running_is_retried_in_the_same_drain() {
    let mut e = Executor::new();
    let (a, _) = spawn(&mut e);
    let r = block_on::<u8>(&mut e, None);
    assert_eq!(r, Step::Retry(a));
    assert!(!e.wake_task(a));
    let r = e.task_advanced::<u8>(a, false);
    assert_eq!(r, Step::Retry(a));
}

#[test]
fn task_finished_after_waking_itself_is_dropped_from_the_queue() {
    let mut e = Executor::new();
    let (a, _) = spawn(&mut e);
    let (b, _) = spawn(&mut e);
    let r = block_on::<u8>(&mut e, None);
    assert_eq!(r, Step::Retry(a));
    e.wake_task(a);
    assert_eq!(e.queued_len(), 2);
    let r = e.task_advanced::<u8>(a, true);
    assert_eq!(r, Step::Retry(b));
    assert_eq!(e.queued_len(), 0);
}

#[test]
fn wake_of_a_parked_loop_queues_the_task_and_releases_it() {
    let mut e = Executor::new();
    let (a, _) = spawn(&mut e);
    let r = block_on::<u8>(&mut e, None);
    assert_eq!(r, Step::Retry(a));
    let r = e.task_advanced::<u8>(a, false);
    assert_eq!(r, Step::Park(WaitOutcome::Consumed));
    let r = block_on::<u8>(&mut e, None);
    assert_eq!(r, Step::Park(WaitOutcome::Parked));
    assert!(e.wake_task(a));
    assert_eq!(e.signal_state_now(), State::Empty);
    let r = block_on::<u8>(&mut e, None);
    assert_eq!(r, Step::Retry(a));
}

#[test]
fn two_loops_parking_on_one_executor_is_a_misuse() {
    let mut e = Executor::new();
    let r = block_on::<u8>(&mut e, None);
    assert_eq!(r, Step::Park(WaitOutcome::Parked));
    let r = block_on::<u8>(&mut e, None);
    assert_eq!(r, Step::Park(WaitOutcome::MultipleWait));
}
