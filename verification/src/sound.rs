//! A tone request: frequency and duration, as the sound task plays it.

use vstd::prelude::*;

verus! {

use crate::time::millis_to_ticks;

/// One tone: its frequency in hertz and how long it sounds.
#[derive(Clone, Copy, Debug, PartialEq, Eq, Structural)]
pub struct Sound {
    pub freq_hz: u32,
    pub duration_ms: u32,
}

impl Sound {
    pub fn new(freq_hz: u32, duration_ms: u32) -> (s: Sound)
        ensures
            s.freq_hz == freq_hz,
            s.duration_ms == duration_ms,
    {
        Sound { freq_hz, duration_ms }
    }

    /// The tone's period in microseconds of a 1 MHz base clock, as the
    /// pulse-width hardware wants it.
    pub fn period(&self) -> (p: u32)
        requires
            self.freq_hz > 0,
        ensures
            p == 1_000_000u32 / self.freq_hz,
    {
        let clk: u32 = 1_000_000;
        clk / self.freq_hz
    }

    /// How long the tone sounds, in clock ticks.
    pub fn duration(&self) -> (t: u64)
        ensures
            t as int == (self.duration_ms * 4096) / 125,
    {
        millis_to_ticks(self.duration_ms as u64)
    }
}

} // verus!
