//! Button reader: a debounce state machine driven by an edge-wake input
//! channel and a software timer.
//!
//! A press (the pin at its active-low level) sends the button's direction
//! into the mailbox, then a debounce delay runs, then the release is
//! awaited; each poll step runs every transition currently enabled and
//! then suspends, having registered the wake for whatever it now waits on.

use vstd::prelude::*;

verus! {

use crate::channel::{Channel, Sender};
use crate::executor::SchedError;
use crate::future::Poll;
use crate::future::OurFuture;
use crate::gpiote::{GpioteChannel, InputChannel, PinState, MAX_CHANNELS_USED};
use crate::kernel::Kernel;
use crate::time::{millis_to_ticks, Timer};
use crate::wakeup::{drained, MAX_DEADLINE_VALUE, MAX_DEADLINES};

/// How long a detected press settles before the release is watched for,
/// in milliseconds.
pub const DEBOUNCE_MS: u64 = 100;

/// `DEBOUNCE_MS` in clock ticks.
pub open spec fn debounce_ticks() -> int {
    (DEBOUNCE_MS * 4096) / 125
}

/// Which button the task reads.
#[derive(Clone, Copy, PartialEq, Eq, Structural, Debug)]
pub enum ButtonDirection {
    Left,
    Right,
}

/// Where the debounce state machine stands.
pub enum ButtonState {
    WaitForPress,
    Debounce(Timer),
    WaitForRelease,
}

/// One button's task state: its input channel, the direction it reports,
/// the state machine, and the sending side of the direction mailbox.
pub struct ButtonTask {
    pub input: InputChannel,
    pub direction: ButtonDirection,
    pub state: ButtonState,
    pub sender: Sender<ButtonDirection>,
}

/// What one poll step of the button task does, by the state it starts in
/// and the pin level it reads. Wherever the step suspends on the pin, the
/// task's identity lands in the channel's wake slot; the direction is sent
/// exactly when a press is detected.
pub open spec fn button_poll_ens(
    pre: ButtonTask,
    pre_kernel: Kernel,
    pre_slot: Option<ButtonDirection>,
    post: ButtonTask,
    post_kernel: Kernel,
    post_slot: Option<ButtonDirection>,
    task_id: usize,
    r: Result<Poll<()>, SchedError>,
) -> bool {
    let cid = pre.input.channel_id as int;
    let ch = pre_kernel.gpiote.channels@[cid];
    let pin_high = ch.pin_high;
    let now = pre_kernel.ticker.spec_now();
    let slot_armed = (post_kernel.gpiote.channels@ == pre_kernel.gpiote.channels@.update(
        cid,
        GpioteChannel { wake_slot: task_id, ..ch },
    ));
    let kernel_quiet = (post_kernel.executor == pre_kernel.executor
        && post_kernel.ticker == pre_kernel.ticker && post_kernel.wakeup
        == pre_kernel.wakeup);
    &&& r is Ok ==> r == Ok::<Poll<()>, SchedError>(Poll::Pending)
    &&& match pre.state {
        ButtonState::WaitForPress => {
            if pin_high {
                // Not pressed: suspend on the falling edge.
                &&& r is Ok
                &&& post.state is WaitForPress
                &&& post.input.ready_state is Low
                &&& post_slot == pre_slot
                &&& kernel_quiet
                &&& slot_armed
            } else {
                // Pressed: report the direction, then debounce.
                &&& post_slot == Some(pre.direction)
                &&& post_kernel.gpiote == pre_kernel.gpiote
                &&& post_kernel.ticker.ovf_count == pre_kernel.ticker.ovf_count
                &&& post_kernel.ticker.rtc.counter == pre_kernel.ticker.rtc.counter
                &&& (r == Err::<Poll<()>, SchedError>(SchedError::DeadlinesFull) <==>
                    pre_kernel.wakeup.entries().len() >= MAX_DEADLINES)
                &&& r is Ok ==> (post.state matches ButtonState::Debounce(t) && t.end_time
                    as int == now + debounce_ticks() && (exists|w: Seq<(u64, usize)>|
                    #[trigger] drained(
                        w,
                        pre_kernel.wakeup.entries().insert((t.end_time, task_id)),
                        post_kernel.wakeup.entries(),
                        pre_kernel.ticker.ovf_count,
                        pre_kernel.ticker.rtc.counter,
                    ) && post_kernel.executor.ids() == pre_kernel.executor.ids()
                        + w.map_values(|e: (u64, usize)| e.1)))
            }
        },
        ButtonState::Debounce(t) => {
            if now < t.end_time {
                // Still settling.
                &&& r is Ok
                &&& (post.state matches ButtonState::Debounce(t2) && t2.end_time
                    == t.end_time)
                &&& post_slot == pre_slot
                &&& kernel_quiet
                &&& post_kernel.gpiote == pre_kernel.gpiote
            } else {
                // Settled: watch for the release (or, released already,
                // for the next press).
                &&& r is Ok
                &&& (post.state is WaitForPress) == pin_high
                &&& (post.state is WaitForRelease) == !pin_high
                &&& post.input.ready_state == (if pin_high {
                    PinState::Low
                } else {
                    PinState::High
                })
                &&& post_slot == pre_slot
                &&& kernel_quiet
                &&& slot_armed
            }
        },
        ButtonState::WaitForRelease => {
            &&& r is Ok
            &&& (post.state is WaitForPress) == pin_high
            &&& (post.state is WaitForRelease) == !pin_high
            &&& post.input.ready_state == (if pin_high {
                PinState::Low
            } else {
                PinState::High
            })
            &&& post_slot == pre_slot
            &&& kernel_quiet
            &&& slot_armed
        },
    }
}

impl ButtonTask {
    /// Task and channel stay inside the pool, and a running debounce timer
    /// has registered its deadline and keeps it representable.
    pub open spec fn inv(&self) -> bool {
        &&& self.input.channel_id < MAX_CHANNELS_USED
        &&& match self.state {
            ButtonState::Debounce(t) => t.state is Wait && t.end_time < MAX_DEADLINE_VALUE,
            _ => true,
        }
    }

    pub fn new(
        input: InputChannel,
        direction: ButtonDirection,
        sender: Sender<ButtonDirection>,
    ) -> (t: ButtonTask)
        requires
            input.channel_id < MAX_CHANNELS_USED,
        ensures
            t.inv(),
            t.input == input,
            t.direction == direction,
            t.state is WaitForPress,
    {
        ButtonTask { input, direction, state: ButtonState::WaitForPress, sender }
    }

    /// One poll step: run every transition currently enabled, then
    /// suspend. The task never completes; an error is the fatal capacity
    /// condition from registering the debounce deadline.
    pub fn poll(
        &mut self,
        task_id: usize,
        kernel: &mut Kernel,
        channel: &mut Channel<ButtonDirection>,
    ) -> (r: Result<Poll<()>, SchedError>)
        requires
            old(self).inv(),
            old(kernel).wf(),
            old(kernel).ticker.initialized,
            !old(kernel).ticker.rtc.overflow_event,
            old(kernel).ticker.spec_now() + 4096 < MAX_DEADLINE_VALUE,
        ensures
            final(self).inv(),
            final(kernel).wf(),
            final(kernel).ticker.initialized,
            !final(kernel).ticker.rtc.overflow_event,
            final(self).input.channel_id == old(self).input.channel_id,
            final(self).direction == old(self).direction,
            final(kernel).executor.n_tasks == old(kernel).executor.n_tasks,
            final(kernel).gpiote.next_channel == old(kernel).gpiote.next_channel,
            button_poll_ens(
                *old(self),
                *old(kernel),
                old(channel).slot,
                *final(self),
                *final(kernel),
                final(channel).slot,
                task_id,
                r,
            ),
    {
        // A matured debounce moves on to watching the release.
        if matches!(self.state, ButtonState::Debounce(_)) {
            let mut finished = false;
            match &mut self.state {
                ButtonState::Debounce(timer) => {
                    match timer.poll(task_id, kernel) {
                        Err(e) => {
                            return Err(e);
                        },
                        Ok(Poll::Pending) => {
                            return Ok(Poll::Pending);
                        },
                        Ok(Poll::Ready(())) => {
                            finished = true;
                        },
                    }
                },
                _ => {
                },
            }
            if finished {
                self.state = ButtonState::WaitForRelease;
            }
        }
        // Release observed (pin back high) rearms the press watch.
        if matches!(self.state, ButtonState::WaitForRelease) {
            self.input.set_ready_state(PinState::High);
            match self.input.poll(task_id, kernel) {
                Err(e) => {
                    return Err(e);
                },
                Ok(Poll::Pending) => {
                    return Ok(Poll::Pending);
                },
                Ok(Poll::Ready(())) => {
                    self.state = ButtonState::WaitForPress;
                },
            }
        }
        // A press (pin low) reports the direction and starts the debounce
        // delay; the delay's first poll registers its deadline.
        if matches!(self.state, ButtonState::WaitForPress) {
            self.input.set_ready_state(PinState::Low);
            match self.input.poll(task_id, kernel) {
                Err(e) => {
                    return Err(e);
                },
                Ok(Poll::Pending) => {
                    return Ok(Poll::Pending);
                },
                Ok(Poll::Ready(())) => {
                    self.sender.send(channel, self.direction);
                    let duration = millis_to_ticks(DEBOUNCE_MS);
                    let mut timer = Timer::new(duration, kernel);
                    match timer.poll(task_id, kernel) {
                        Err(e) => {
                            return Err(e);
                        },
                        Ok(_) => {
                            self.state = ButtonState::Debounce(timer);
                            return Ok(Poll::Pending);
                        },
                    }
                },
            }
        }
        Ok(Poll::Pending)
    }
}

} // verus!
