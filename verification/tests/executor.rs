//! The ready queue and waker identities: FIFO fairness, priming,
//! discarding of corrupted identities, and the fatal overflow condition.

use coopsched::executor::{wake_task, get_waker, Executor, ExtWaker, SchedError};

#[test]
fn ready_queue_is_fifo() {
    let mut e = Executor::new(3);
    wake_task(&mut e, 1).unwrap();
    wake_task(&mut e, 0).unwrap();
    wake_task(&mut e, 2).unwrap();
    assert_eq!(e.next_ready(), Some(1));
    assert_eq!(e.next_ready(), Some(0));
    assert_eq!(e.next_ready(), Some(2));
    assert_eq!(e.next_ready(), None);
}

#[test]
fn both_tasks_polled_once_before_either_again() {
    let mut e = Executor::new(2);
    wake_task(&mut e, 0).unwrap();
    wake_task(&mut e, 1).unwrap();
    // Task 0 wakes itself again while both initial wakes are pending.
    wake_task(&mut e, 0).unwrap();
    let first = e.next_ready().unwrap();
    let second = e.next_ready().unwrap();
    assert_eq!((first, second), (0, 1));
    assert_eq!(e.next_ready(), Some(0));
}

#[test]
fn priming_enqueues_every_task_once() {
    let mut e = Executor::new(4);
    e.prime();
    assert_eq!(e.next_ready(), Some(0));
    assert_eq!(e.next_ready(), Some(1));
    assert_eq!(e.next_ready(), Some(2));
    assert_eq!(e.next_ready(), Some(3));
    assert_eq!(e.next_ready(), None);
}

#[test]
fn out_of_range_identity_is_discarded() {
    let mut e = Executor::new(2);
    wake_task(&mut e, 77).unwrap();
    wake_task(&mut e, 1).unwrap();
    // The corrupted identity is dropped, not fatal; the valid one runs.
    assert_eq!(e.next_ready(), Some(1));
    assert_eq!(e.next_ready(), None);
}

#[test]
fn queue_overflow_is_reported() {
    let mut e = Executor::new(4);
    for task_id in 0..4 {
        wake_task(&mut e, task_id).unwrap();
    }
    assert_eq!(wake_task(&mut e, 0), Err(SchedError::ReadyQueueFull));
}

#[test]
fn waker_carries_its_task_identity() {
    let w = get_waker(3);
    assert_eq!(w.task_id(), 3);
    let clone = w;
    let mut e = Executor::new(4);
    clone.wake(&mut e).unwrap();
    w.wake(&mut e).unwrap();
    assert_eq!(e.next_ready(), Some(3));
    assert_eq!(e.next_ready(), Some(3));
}
