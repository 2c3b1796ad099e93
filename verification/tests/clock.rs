//! The monotonic clock: composition of overflow epoch and raw counter,
//! consistency checking, and monotonicity across wraparound.

use coopsched::kernel::Kernel;
use coopsched::ticker::{CounterResult, Ticker, COUNTER_PERIOD};

#[test]
fn count_composes_epoch_and_counter() {
    let cr = CounterResult { ovf_before: 2, ovf: 2, counter: 5 };
    assert!(cr.is_valid());
    assert_eq!(cr.get_count(), (2u64 << 24) | 5);
    assert_eq!(cr.get_count(), 2 * COUNTER_PERIOD as u64 + 5);
}

#[test]
fn mismatched_overflow_reads_are_invalid() {
    let cr = CounterResult { ovf_before: 2, ovf: 3, counter: 5 };
    assert!(!cr.is_valid());
}

#[test]
fn now_reads_zero_after_init() {
    let mut k = Kernel::new(0);
    k.init();
    assert_eq!(k.now(), 0);
}

#[test]
fn time_advances_by_exact_tick_count() {
    let mut k = Kernel::new(0);
    k.init();
    k.advance_time(5).unwrap();
    assert_eq!(k.now(), 5);
    k.advance_time(1000).unwrap();
    assert_eq!(k.now(), 1005);
}

#[test]
fn now_never_decreases_across_wraparound() {
    let mut k = Kernel::new(0);
    k.init();
    // Jump close to the counter's wrap point, as the hardware's forced
    // overflow does, then walk across it.
    k.ticker.rtc.trigger_overflow();
    let mut last = k.now();
    for _ in 0..64 {
        k.advance_time(1).unwrap();
        let t = k.now();
        assert!(t >= last, "clock went backward: {} then {}", last, t);
        last = t;
    }
    assert_eq!(k.ticker.ovf_count, 1);
}

#[test]
fn now_after_forced_overflow_has_next_epoch() {
    let mut k = Kernel::new(0);
    k.init();
    k.ticker.rtc.trigger_overflow();
    // 0xFF_FFF0 + 0x20 ticks crosses the wrap by 0x10.
    k.advance_time(0x20).unwrap();
    assert_eq!(k.ticker.ovf_count, 1);
    let raw = k.ticker.rtc.counter;
    assert_eq!(raw, 0x10);
    assert_eq!(k.now(), (1u64 << 24) | raw as u64);
}

#[test]
fn overflow_interrupt_is_sole_epoch_writer() {
    let mut t = Ticker::new();
    t.init();
    assert_eq!(t.get_ovf_count(), 0);
    t.ovf_once();
    t.ovf_once();
    assert_eq!(t.get_ovf_count(), 2);
}
