//! Monotonic clock: a wide tick value reconstructed from a narrow wrapping
//! hardware counter plus an overflow epoch counter.
//!
//! The hardware timer is held as a model type [`Rtc`] whose registers
//! (counter, compare, latched event flags) are plain values, so every
//! decision taken on them is verified. [`Rtc::tick`] advances the counter by
//! one as the hardware would, latching events on wraparound and on compare
//! match.

use vstd::prelude::*;

verus! {

/// Bit width of the hardware counter.
pub const COUNTER_BITS: u32 = 24;

/// One full period of the hardware counter: 2 to the `COUNTER_BITS`.
pub const COUNTER_PERIOD: u32 = 0x100_0000;

/// Logical time encoded by an overflow epoch and a raw counter value:
/// `ovf * COUNTER_PERIOD + counter`, the value `(ovf << COUNTER_BITS) |
/// counter` computes when `counter` is in range.
pub open spec fn ticks_of(ovf: u32, counter: u32) -> int {
    ovf * COUNTER_PERIOD + counter
}

/// The overflow epoch a logical time belongs to: its high bits.
pub open spec fn epoch_of(deadline: u64) -> int {
    deadline as int / COUNTER_PERIOD as int
}

/// The raw counter value at which a logical time falls: its low bits.
pub open spec fn low_bits_of(deadline: u64) -> int {
    deadline as int % COUNTER_PERIOD as int
}

/// Model of the hardware timer peripheral: the registers the scheduling
/// core reads and writes, as plain values.
pub struct Rtc {
    /// Current raw counter value; wraps to zero after `COUNTER_PERIOD - 1`.
    pub counter: u32,
    /// Whether the counter is running.
    pub counter_enabled: bool,
    /// Value of the compare register.
    pub compare: u32,
    /// Whether the compare event is enabled; a disabled event never latches.
    pub compare_enabled: bool,
    /// Whether the overflow event is enabled.
    pub overflow_enabled: bool,
    /// Latched overflow event, cleared by `reset_overflow_event`.
    pub overflow_event: bool,
    /// Latched compare event, cleared by `reset_compare_event`.
    pub compare_event: bool,
}

impl Rtc {
    /// Register values stay inside the counter's width.
    pub open spec fn wf(&self) -> bool {
        self.counter < COUNTER_PERIOD && self.compare < COUNTER_PERIOD
    }

    pub fn new() -> (r: Rtc)
        ensures
            r.wf(),
            r.counter == 0,
            !r.counter_enabled,
            r.compare == 0,
            !r.compare_enabled,
            !r.overflow_enabled,
            !r.overflow_event,
            !r.compare_event,
    {
        Rtc {
            counter: 0,
            counter_enabled: false,
            compare: 0,
            compare_enabled: false,
            overflow_enabled: false,
            overflow_event: false,
            compare_event: false,
        }
    }

    pub fn get_counter(&self) -> (c: u32)
        ensures
            c == self.counter,
    {
        self.counter
    }

    pub fn enable_counter(&mut self)
        ensures
            *final(self) == (Rtc { counter_enabled: true, ..*old(self) }),
    {
        self.counter_enabled = true;
    }

    pub fn set_compare(&mut self, value: u32)
        requires
            value < COUNTER_PERIOD,
        ensures
            *final(self) == (Rtc { compare: value, ..*old(self) }),
    {
        self.compare = value;
    }

    pub fn enable_compare_event(&mut self)
        ensures
            *final(self) == (Rtc { compare_enabled: true, ..*old(self) }),
    {
        self.compare_enabled = true;
    }

    pub fn disable_compare_event(&mut self)
        ensures
            *final(self) == (Rtc { compare_enabled: false, ..*old(self) }),
    {
        self.compare_enabled = false;
    }

    pub fn enable_overflow_event(&mut self)
        ensures
            *final(self) == (Rtc { overflow_enabled: true, ..*old(self) }),
    {
        self.overflow_enabled = true;
    }

    pub fn is_overflow_triggered(&self) -> (b: bool)
        ensures
            b == self.overflow_event,
    {
        self.overflow_event
    }

    pub fn is_compare_triggered(&self) -> (b: bool)
        ensures
            b == self.compare_event,
    {
        self.compare_event
    }

    pub fn reset_overflow_event(&mut self)
        ensures
            *final(self) == (Rtc { overflow_event: false, ..*old(self) }),
    {
        self.overflow_event = false;
    }

    pub fn reset_compare_event(&mut self)
        ensures
            *final(self) == (Rtc { compare_event: false, ..*old(self) }),
    {
        self.compare_event = false;
    }

    /// Force the counter close to its wrap point, as the hardware's
    /// trigger-overflow task does, to exercise the wraparound path.
    pub fn trigger_overflow(&mut self)
        ensures
            *final(self) == (Rtc { counter: 0xFF_FFF0, ..*old(self) }),
            final(self).wf() == (old(self).compare < COUNTER_PERIOD),
    {
        self.counter = 0xFF_FFF0;
    }

    /// One hardware clock tick: the counter advances, wrapping to zero at
    /// the end of its period; a wrap latches the overflow event and a
    /// compare match latches the compare event, each only while enabled.
    pub fn tick(&mut self)
        requires
            old(self).wf(),
        ensures
            final(self).wf(),
            final(self).counter == if old(self).counter + 1 == COUNTER_PERIOD {
                0u32
            } else {
                (old(self).counter + 1) as u32
            },
            final(self).overflow_event == (old(self).overflow_event || (old(self).overflow_enabled
                && old(self).counter + 1 == COUNTER_PERIOD)),
            final(self).compare_event == (old(self).compare_event || (old(self).compare_enabled
                && final(self).counter == old(self).compare)),
            final(self).counter_enabled == old(self).counter_enabled,
            final(self).compare == old(self).compare,
            final(self).compare_enabled == old(self).compare_enabled,
            final(self).overflow_enabled == old(self).overflow_enabled,
    {
        let next: u32 = if self.counter + 1 == COUNTER_PERIOD {
            0
        } else {
            self.counter + 1
        };
        if next == 0 && self.overflow_enabled {
            self.overflow_event = true;
        }
        if self.compare_enabled && next == self.compare {
            self.compare_event = true;
        }
        self.counter = next;
    }
}

/// One consistent-read attempt of the clock: the overflow count sampled
/// before and after the raw counter. The sample is usable only when the
/// two overflow reads agree.
pub struct CounterResult {
    pub ovf_before: u32,
    pub ovf: u32,
    pub counter: u32,
}

impl CounterResult {
    /// No overflow interrupt ran between the two overflow reads.
    pub fn is_valid(&self) -> (b: bool)
        ensures
            b == (self.ovf_before == self.ovf),
    {
        self.ovf_before == self.ovf
    }

    /// The wide tick value: overflow epoch in the high bits, raw counter in
    /// the low bits.
    pub fn get_count(&self) -> (t: u64)
        requires
            self.counter < COUNTER_PERIOD,
        ensures
            t as int == ticks_of(self.ovf, self.counter),
    {
        let t: u64 = ((self.ovf as u64) << 24u64) | (self.counter as u64);
        proof {
            let o = self.ovf as u64;
            let c = self.counter as u64;
            assert((o << 24u64) | c == o * 0x100_0000 + c) by (bit_vector)
                requires
                    o < 0x1_0000_0000u64,
                    c < 0x100_0000u64,
            ;
        }
        t
    }
}

/// The clock: an overflow epoch counter advanced only by the overflow
/// interrupt, plus the hardware timer it reads.
pub struct Ticker {
    pub ovf_count: u32,
    pub rtc: Rtc,
    pub initialized: bool,
}

impl Ticker {
    pub open spec fn wf(&self) -> bool {
        self.rtc.wf()
    }

    /// The logical time this clock currently reads.
    pub open spec fn spec_now(&self) -> int {
        ticks_of(self.ovf_count, self.rtc.counter)
    }

    pub fn new() -> (t: Ticker)
        ensures
            t.wf(),
            t.ovf_count == 0,
            !t.initialized,
            t.rtc.counter == 0,
            !t.rtc.compare_enabled,
            !t.rtc.overflow_event,
            !t.rtc.compare_event,
    {
        Ticker { ovf_count: 0, rtc: Rtc::new(), initialized: false }
    }

    /// Start the counter and enable the overflow event, after which the
    /// clock may be read.
    pub fn init(&mut self)
        requires
            old(self).wf(),
        ensures
            final(self).wf(),
            final(self).initialized,
            final(self).ovf_count == old(self).ovf_count,
            final(self).rtc.counter == old(self).rtc.counter,
            final(self).rtc.counter_enabled,
            final(self).rtc.overflow_enabled,
            final(self).rtc.compare == old(self).rtc.compare,
            final(self).rtc.compare_enabled == old(self).rtc.compare_enabled,
            final(self).rtc.overflow_event == old(self).rtc.overflow_event,
            final(self).rtc.compare_event == old(self).rtc.compare_event,
    {
        self.rtc.enable_counter();
        self.rtc.enable_overflow_event();
        self.initialized = true;
    }

    pub fn get_ovf_count(&self) -> (o: u32)
        ensures
            o == self.ovf_count,
    {
        self.ovf_count
    }

    /// Record one counter overflow; called only by the overflow interrupt
    /// path, the sole writer of the epoch counter.
    pub fn ovf_once(&mut self)
        ensures
            final(self).ovf_count as int == (old(self).ovf_count as int + 1) % 0x1_0000_0000,
            final(self).rtc == old(self).rtc,
            final(self).initialized == old(self).initialized,
    {
        self.ovf_count = self.ovf_count.wrapping_add(1);
    }

    /// One read attempt: overflow count, then raw counter, then overflow
    /// count again.
    pub fn get_counter_result(&self) -> (r: CounterResult)
        ensures
            r.ovf_before == self.ovf_count,
            r.ovf == self.ovf_count,
            r.counter == self.rtc.counter,
    {
        let ovf_before: u32 = self.get_ovf_count();
        let counter = self.rtc.get_counter();
        let ovf: u32 = self.get_ovf_count();
        CounterResult { ovf_before, ovf, counter }
    }

    /// Current logical time. Read attempts repeat until one is consistent;
    /// an attempt during which no overflow interrupt ran is always
    /// consistent. A latched overflow event must have been serviced first:
    /// after a wrap whose interrupt has not yet run, the epoch counter
    /// still lags and a reading would appear to go backward.
    pub fn now(&self) -> (t: u64)
        requires
            self.wf(),
            self.initialized,
            !self.rtc.overflow_event,
        ensures
            t as int == self.spec_now(),
    {
        loop
            invariant
                self.wf(),
            decreases 0int,
        {
            let result = self.get_counter_result();
            if result.is_valid() {
                return result.get_count();
            }
        }
    }
}

/// Law: logical time never decreases. Any later reading has an overflow
/// epoch at least as large, and within one epoch a counter at least as
/// large; its composed tick value is then at least as large, even across
/// a counter wraparound (where the epoch has advanced).
pub proof fn lemma_now_monotonic(ovf1: u32, counter1: u32, ovf2: u32, counter2: u32)
    requires
        counter1 < COUNTER_PERIOD,
        counter2 < COUNTER_PERIOD,
        ovf1 < ovf2 || (ovf1 == ovf2 && counter1 <= counter2),
    ensures
        ticks_of(ovf1, counter1) <= ticks_of(ovf2, counter2),
{
    assert(ovf1 as int * 0x100_0000 + counter1 <= ovf2 as int * 0x100_0000 + counter2)
        by (nonlinear_arith)
        requires
            counter1 < 0x100_0000,
            0 <= counter2,
            ovf1 < ovf2 || (ovf1 == ovf2 && counter1 <= counter2),
    ;
}

} // verus!
