use minirt::RunQueue;

#[test]
fn empty_queue_pops_nothing() {
    let mut q = RunQueue::new();
    assert!(q.is_empty());
    assert_eq!(q.task_count(), 0);
    assert_eq!(q.pop_front(), None);
}

#[test]
fn tasks_come_out_in_insertion_order() {
    let mut q = RunQueue::new();
    let a = q.add_task();
    let b = q.add_task();
    let c = q.add_task();
    assert_eq!((a, b, c), (0, 1, 2));
    assert_eq!(q.len(), 3);
    assert_eq!(q.pop_front(), Some(a));
    assert_eq!(q.pop_front(), Some(b));
    assert_eq!(q.pop_front(), Some(c));
    assert_eq!(q.pop_front(), None);
}

#[test]
fn repeated_wakes_queue_a_task_once() {
    let mut q = RunQueue::new();
    let a = q.add_task();
    assert!(!q.wake(a));
    assert_eq!(q.len(), 1);
    assert_eq!(q.pop_front(), Some(a));
    assert!(q.wake(a));
    assert!(!q.wake(a));
    assert_eq!(q.len(), 1);
}

#[test]
fn finished_task_is_never_queued_again() {
    let mut q = RunQueue::new();
    let a = q.add_task();
    let b = q.add_task();
    q.finish(a);
    assert!(q.is_finished(a));
    assert!(!q.is_finished(b));
    assert_eq!(q.len(), 1);
    assert!(!q.wake(a));
    assert_eq!(q.pop_front(), Some(b));
    assert_eq!(q.pop_front(), None);
}

#[test]
fn finish_takes_a_requeued_task_out_of_the_middle() {
    let mut q = RunQueue::new();
    let a = q.add_task();
    let b = q.add_task();
    let c = q.add_task();
    q.finish(b);
    assert_eq!(q.pop_front(), Some(a));
    assert_eq!(q.pop_front(), Some(c));
    assert_eq!(q.pop_front(), None);
}
