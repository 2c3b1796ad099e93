//! The deadline manager: wake order, no early wakes, immediate wake of an
//! already-elapsed deadline, compare reprogramming, and capacity limits.

use coopsched::executor::SchedError;
use coopsched::kernel::Kernel;

#[test]
fn deadlines_fire_in_order_regardless_of_insertion() {
    let mut k = Kernel::new(3);
    k.init();
    // Insert out of order: D2, D1, D3.
    k.add_deadline(300, 1).0.unwrap();
    k.add_deadline(100, 0).0.unwrap();
    k.add_deadline(500, 2).0.unwrap();
    k.advance_time(600).unwrap();
    assert_eq!(k.next_ready(), Some(0));
    assert_eq!(k.next_ready(), Some(1));
    assert_eq!(k.next_ready(), Some(2));
    assert_eq!(k.next_ready(), None);
}

#[test]
fn no_wake_before_the_deadline() {
    let mut k = Kernel::new(1);
    k.init();
    k.add_deadline(100, 0).0.unwrap();
    k.advance_time(99).unwrap();
    assert_eq!(k.next_ready(), None);
    k.advance_time(1).unwrap();
    assert_eq!(k.next_ready(), Some(0));
}

#[test]
fn elapsed_deadline_wakes_at_registration() {
    let mut k = Kernel::new(1);
    k.init();
    k.advance_time(50).unwrap();
    // The condition is already true when the wait is registered: the wake
    // happens immediately rather than being lost.
    k.add_deadline(10, 0).0.unwrap();
    assert_eq!(k.next_ready(), Some(0));
}

#[test]
fn compare_event_disabled_when_nothing_pending() {
    let mut k = Kernel::new(1);
    k.init();
    k.add_deadline(100, 0).0.unwrap();
    assert!(k.ticker.rtc.compare_enabled);
    assert_eq!(k.ticker.rtc.compare, 100);
    k.advance_time(200).unwrap();
    assert!(!k.ticker.rtc.compare_enabled);
}

#[test]
fn earliest_insertion_reprograms_compare() {
    let mut k = Kernel::new(2);
    k.init();
    k.add_deadline(300, 1).0.unwrap();
    assert_eq!(k.ticker.rtc.compare, 300);
    k.add_deadline(100, 0).0.unwrap();
    assert_eq!(k.ticker.rtc.compare, 100);
}

#[test]
fn deadline_of_a_later_epoch_waits_for_it() {
    let mut k = Kernel::new(1);
    k.init();
    let period = 1u64 << 24;
    k.ticker.rtc.trigger_overflow();
    // Ends shortly after the counter wraps into the next epoch: the
    // compare event stays disabled — armed at the deadline's low bits it
    // would fire a stale match this epoch — until the overflow advances
    // the epoch.
    k.add_deadline(period + 0x20, 0).0.unwrap();
    assert!(!k.ticker.rtc.compare_enabled);
    k.advance_time(0x18).unwrap();
    assert_eq!(k.next_ready(), None);
    k.advance_time(0x40).unwrap();
    assert_eq!(k.next_ready(), Some(0));
}

#[test]
fn full_deadline_collection_is_reported() {
    let mut k = Kernel::new(4);
    k.init();
    k.add_deadline(1000, 0).0.unwrap();
    k.add_deadline(2000, 1).0.unwrap();
    k.add_deadline(3000, 2).0.unwrap();
    k.add_deadline(4000, 3).0.unwrap();
    assert_eq!(k.add_deadline(5000, 0).0, Err(SchedError::DeadlinesFull));
}
