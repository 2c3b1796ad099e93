//! The animation controller: toggle the active light, wait out the blink
//! interval on a software timer, repeat; a button press shifts the active
//! light and restarts the cadence.

use vstd::prelude::*;

verus! {

use crate::button::ButtonDirection;
use crate::executor::SchedError;
use crate::future::{OurFuture, Poll};
use crate::kernel::Kernel;
use crate::light::operator::LedOperator;
use crate::light::types::LedState;
use crate::time::{millis_to_ticks, Timer};
use crate::wakeup::{drained, MAX_DEADLINE_VALUE, MAX_DEADLINES};

/// The blink interval, in milliseconds.
pub const BLINK_MS: u64 = 500;

/// `BLINK_MS` in clock ticks.
pub open spec fn blink_ticks() -> int {
    (BLINK_MS * 4096) / 125
}

/// The controller: the operator it drives and where the animation stands.
pub struct LedController<O: LedOperator> {
    pub operator: O,
    pub state: LedState,
}

/// What one poll step of the controller does. When the blink interval has
/// still to run out, nothing moves; otherwise the operator toggles once
/// and a fresh interval timer is registered, whose deadline wakes the
/// task for the next toggle.
pub open spec fn controller_poll_ens<O: LedOperator>(
    pre: LedController<O>,
    pre_kernel: Kernel,
    post: LedController<O>,
    post_kernel: Kernel,
    task_id: usize,
    r: Result<Poll<()>, SchedError>,
) -> bool {
    let now = pre_kernel.ticker.spec_now();
    let waiting = match pre.state {
        LedState::Wait(t) => now < t.end_time,
        LedState::Toggle => false,
    };
    &&& r is Ok ==> r == Ok::<Poll<()>, SchedError>(Poll::Pending)
    &&& post_kernel.gpiote == pre_kernel.gpiote
    &&& post_kernel.ticker.ovf_count == pre_kernel.ticker.ovf_count
    &&& post_kernel.ticker.rtc.counter == pre_kernel.ticker.rtc.counter
    &&& if waiting {
        &&& r is Ok
        &&& post == pre
        &&& post_kernel.executor == pre_kernel.executor
        &&& post_kernel.ticker == pre_kernel.ticker
        &&& post_kernel.wakeup == pre_kernel.wakeup
    } else {
        &&& pre.operator.toggle_ens(post.operator)
        &&& (r == Err::<Poll<()>, SchedError>(SchedError::DeadlinesFull) <==>
            pre_kernel.wakeup.entries().len() >= MAX_DEADLINES)
        &&& r is Ok ==> (post.state matches LedState::Wait(t) && t.end_time as int == now
            + blink_ticks() && (exists|w: Seq<(u64, usize)>|
            #[trigger] drained(
                w,
                pre_kernel.wakeup.entries().insert((t.end_time, task_id)),
                post_kernel.wakeup.entries(),
                pre_kernel.ticker.ovf_count,
                pre_kernel.ticker.rtc.counter,
            ) && post_kernel.executor.ids() == pre_kernel.executor.ids() + w.map_values(
                |e: (u64, usize)| e.1,
            )))
    }
}

/// What a shift does: the operator shifts and the animation restarts at a
/// toggle, so the newly active light answers at once.
pub open spec fn controller_shift_ens<O: LedOperator>(
    pre: LedController<O>,
    direction: ButtonDirection,
    post: LedController<O>,
) -> bool {
    &&& pre.operator.shift_ens(direction, post.operator)
    &&& post.state is Toggle
}

impl<O: LedOperator> LedController<O> {
    pub open spec fn inv(&self) -> bool {
        &&& self.operator.op_inv()
        &&& match self.state {
            LedState::Wait(t) => t.state is Wait && t.end_time < MAX_DEADLINE_VALUE,
            LedState::Toggle => true,
        }
    }

    pub fn new(operator: O) -> (c: LedController<O>)
        requires
            operator.op_inv(),
        ensures
            c.inv(),
            c.operator == operator,
            c.state is Toggle,
    {
        LedController { operator, state: LedState::Toggle }
    }

    /// One poll step of the animation.
    pub fn poll(&mut self, task_id: usize, kernel: &mut Kernel) -> (r: Result<
        Poll<()>,
        SchedError,
    >)
        requires
            old(self).inv(),
            old(kernel).wf(),
            old(kernel).ticker.initialized,
            !old(kernel).ticker.rtc.overflow_event,
            old(kernel).ticker.spec_now() + 0x8000 < MAX_DEADLINE_VALUE,
        ensures
            final(self).inv(),
            final(kernel).wf(),
            final(kernel).ticker.initialized,
            !final(kernel).ticker.rtc.overflow_event,
            final(kernel).executor.n_tasks == old(kernel).executor.n_tasks,
            controller_poll_ens(
                *old(self),
                *old(kernel),
                *final(self),
                *final(kernel),
                task_id,
                r,
            ),
    {
        // A matured interval re-enables the toggle.
        if matches!(self.state, LedState::Wait(_)) {
            let mut finished = false;
            match &mut self.state {
                LedState::Wait(timer) => {
                    match timer.poll(task_id, kernel) {
                        Err(e) => {
                            return Err(e);
                        },
                        Ok(Poll::Pending) => {
                            return Ok(Poll::Pending);
                        },
                        Ok(Poll::Ready(())) => {
                            finished = true;
                        },
                    }
                },
                _ => {
                },
            }
            if finished {
                self.state = LedState::Toggle;
            }
        }
        // Toggle, then wait out one blink interval.
        self.operator.toggle();
        let duration = millis_to_ticks(BLINK_MS);
        let mut timer = Timer::new(duration, kernel);
        match timer.poll(task_id, kernel) {
            Err(e) => Err(e),
            Ok(_) => {
                self.state = LedState::Wait(timer);
                Ok(Poll::Pending)
            },
        }
    }

    /// Shift the active light and restart the cadence.
    pub fn shift(&mut self, direction: ButtonDirection)
        requires
            old(self).inv(),
        ensures
            final(self).inv(),
            controller_shift_ens(*old(self), direction, *final(self)),
    {
        self.operator.shift(direction);
        self.state = LedState::Toggle;
    }
}

} // verus!
