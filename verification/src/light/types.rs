//! State of the display animation.

use vstd::prelude::*;

verus! {

use crate::time::Timer;

/// Where the animation stands: about to toggle, or waiting out the blink
/// interval.
pub enum LedState {
    Toggle,
    Wait(Timer),
}

} // verus!
