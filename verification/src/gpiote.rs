//! Edge wake bridge: one slot per hardware edge-interrupt channel binding
//! a pin edge to the single task waiting on it.
//!
//! Channels are claimed statically from a small fixed pool. A task waiting
//! for a pin level first checks the current level — so a condition already
//! true at registration resolves without any interrupt — and otherwise
//! records its identity in the channel's wake slot. The shared edge
//! interrupt clears each fired channel's event, takes the recorded
//! identity (resetting the slot to "no one waiting"), and wakes that task.
//! Edges trigger on both transitions; which level a task wants is decided
//! purely in software by the level check.

use vstd::prelude::*;

verus! {

use vstd::pervasive::VecAdditionalExecFns;
use crate::executor::{Executor, SchedError, wake_task, READY_CAPACITY};
use crate::future::{OurFuture, Poll};
use crate::kernel::Kernel;

/// Size of the hardware edge-interrupt channel pool.
pub const MAX_CHANNELS_USED: usize = 2;

/// Sentinel for "no one waiting" in a wake slot.
pub const INVALID_TASK_ID: usize = 0xFFFF_FFFF;

/// Logic level of a digital input pin.
#[derive(Clone, Copy, PartialEq, Eq, Structural, Debug)]
pub enum PinState {
    Low,
    High,
}

/// One edge-interrupt channel: the level of the pin routed to it, its
/// latched edge event, whether its interrupt is enabled, and the identity
/// of the task waiting on it (or the sentinel).
pub struct GpioteChannel {
    pub pin_high: bool,
    pub event: bool,
    pub enabled: bool,
    pub wake_slot: usize,
}

/// Model of the edge-interrupt peripheral: the fixed channel pool and the
/// allocator cursor for claiming channels.
pub struct Gpiote {
    pub channels: Vec<GpioteChannel>,
    pub next_channel: usize,
}

impl Gpiote {
    pub open spec fn wf(&self) -> bool {
        self.channels.len() == MAX_CHANNELS_USED
    }

    pub fn new() -> (g: Gpiote)
        ensures
            g.wf(),
            g.next_channel == 0,
            forall|i: int|
                0 <= i < MAX_CHANNELS_USED ==> #[trigger] g.channels@[i] == (GpioteChannel {
                    pin_high: false,
                    event: false,
                    enabled: false,
                    wake_slot: INVALID_TASK_ID,
                }),
    {
        let mut channels: Vec<GpioteChannel> = Vec::new();
        channels.push(
            GpioteChannel { pin_high: false, event: false, enabled: false, wake_slot: INVALID_TASK_ID },
        );
        channels.push(
            GpioteChannel { pin_high: false, event: false, enabled: false, wake_slot: INVALID_TASK_ID },
        );
        Gpiote { channels, next_channel: 0 }
    }

    /// Drive a channel's pin to a level, as the outside world would. A
    /// change of level is an edge; while the channel's interrupt is
    /// enabled, either edge latches the channel's event.
    pub fn set_pin_level(&mut self, channel_id: usize, high: bool)
        requires
            old(self).wf(),
            channel_id < MAX_CHANNELS_USED,
        ensures
            final(self).wf(),
            final(self).next_channel == old(self).next_channel,
            final(self).channels@ == old(self).channels@.update(
                channel_id as int,
                GpioteChannel {
                    pin_high: high,
                    event: old(self).channels@[channel_id as int].event || (old(self).channels@[channel_id as int].enabled && old(self).channels@[channel_id as int].pin_high != high),
                    ..old(self).channels@[channel_id as int]
                },
            ),
    {
        let c = &self.channels[channel_id];
        let edge = c.enabled && c.pin_high != high;
        let updated = GpioteChannel {
            pin_high: high,
            event: c.event || edge,
            enabled: c.enabled,
            wake_slot: c.wake_slot,
        };
        self.channels.set(channel_id, updated);
    }

    pub fn pin_is_high(&self, channel_id: usize) -> (b: bool)
        requires
            self.wf(),
            channel_id < MAX_CHANNELS_USED,
        ensures
            b == self.channels@[channel_id as int].pin_high,
    {
        self.channels[channel_id].pin_high
    }
}

/// A task's handle on one input pin and the edge channel it claimed.
pub struct InputChannel {
    pub channel_id: usize,
    pub ready_state: PinState,
}

impl InputChannel {
    /// Claim the next unused channel from the pool and enable its edge
    /// interrupt. The pool is small and fixed; exhausting it is excluded
    /// here, mirroring the fatal-unimplemented path of a board with no
    /// channel left.
    pub fn new(gpiote: &mut Gpiote) -> (c: InputChannel)
        requires
            old(gpiote).wf(),
            old(gpiote).next_channel < MAX_CHANNELS_USED,
        ensures
            final(gpiote).wf(),
            c.channel_id == old(gpiote).next_channel,
            c.ready_state == PinState::Low,
            final(gpiote).next_channel == old(gpiote).next_channel + 1,
            final(gpiote).channels@ == old(gpiote).channels@.update(
                c.channel_id as int,
                GpioteChannel { enabled: true, ..old(gpiote).channels@[c.channel_id as int] },
            ),
    {
        let channel_id = gpiote.next_channel;
        gpiote.next_channel = channel_id + 1;
        let c = &gpiote.channels[channel_id];
        let updated = GpioteChannel {
            pin_high: c.pin_high,
            event: c.event,
            enabled: true,
            wake_slot: c.wake_slot,
        };
        gpiote.channels.set(channel_id, updated);
        InputChannel { channel_id, ready_state: PinState::Low }
    }

    /// Choose which level the next poll should treat as ready.
    pub fn set_ready_state(&mut self, state: PinState)
        ensures
            final(self).channel_id == old(self).channel_id,
            final(self).ready_state == state,
    {
        self.ready_state = state;
    }

    /// Suspend until the pin reads `state`: sets the ready level, then
    /// polls once — resolving immediately when the pin already matches,
    /// and otherwise recording the caller in the channel's wake slot.
    pub fn wait_for(&mut self, state: PinState, task_id: usize, kernel: &mut Kernel) -> (r:
        Result<Poll<()>, SchedError>)
        requires
            old(self).inv(),
            old(kernel).wf(),
            old(kernel).ticker.initialized,
            !old(kernel).ticker.rtc.overflow_event,
        ensures
            final(self).inv(),
            final(kernel).wf(),
            final(kernel).ticker.initialized,
            !final(kernel).ticker.rtc.overflow_event,
            final(self).channel_id == old(self).channel_id,
            final(self).ready_state == state,
            (InputChannel { ready_state: state, ..*old(self) }).poll_ens(
                task_id,
                *old(kernel),
                *final(self),
                *final(kernel),
                r,
            ),
    {
        self.set_ready_state(state);
        self.poll(task_id, kernel)
    }
}

impl OurFuture for InputChannel {
    type Output = ();

    /// The claimed channel lies inside the pool.
    open spec fn inv(&self) -> bool {
        self.channel_id < MAX_CHANNELS_USED
    }

    /// The level check happens before any suspension: a pin already at the
    /// ready level resolves at once and changes nothing; otherwise the
    /// caller's identity lands in the channel's wake slot (overwriting any
    /// previous waiter — each channel is owned by one task) and the step
    /// reports pending. Nothing else in the kernel moves.
    open spec fn poll_ens(
        &self,
        task_id: usize,
        pre_kernel: Kernel,
        post: Self,
        post_kernel: Kernel,
        r: Result<Poll<()>, SchedError>,
    ) -> bool {
        let ch = pre_kernel.gpiote.channels@[self.channel_id as int];
        &&& post == *self
        &&& post_kernel.executor == pre_kernel.executor
        &&& post_kernel.ticker == pre_kernel.ticker
        &&& post_kernel.wakeup == pre_kernel.wakeup
        &&& post_kernel.gpiote.next_channel == pre_kernel.gpiote.next_channel
        &&& if ch.pin_high == (self.ready_state is High) {
            r == Ok::<Poll<()>, SchedError>(Poll::Ready(())) && post_kernel.gpiote
                == pre_kernel.gpiote
        } else {
            r == Ok::<Poll<()>, SchedError>(Poll::Pending)
                && post_kernel.gpiote.channels@ == pre_kernel.gpiote.channels@.update(
                self.channel_id as int,
                GpioteChannel { wake_slot: task_id, ..ch },
            )
        }
    }

    fn poll(&mut self, task_id: usize, kernel: &mut Kernel) -> (r: Result<
        Poll<()>,
        SchedError,
    >) {
        let ready_high = match self.ready_state {
            PinState::High => true,
            PinState::Low => false,
        };
        if kernel.gpiote.pin_is_high(self.channel_id) == ready_high {
            return Ok(Poll::Ready(()));
        }
        let c = &kernel.gpiote.channels[self.channel_id];
        let updated = GpioteChannel {
            pin_high: c.pin_high,
            event: c.event,
            enabled: c.enabled,
            wake_slot: task_id,
        };
        kernel.gpiote.channels.set(self.channel_id, updated);
        Ok(Poll::Pending)
    }
}

/// The task identity a channel would contribute to the wake list: one
/// entry when its event has fired and some task is recorded.
pub open spec fn channel_wake(c: GpioteChannel) -> Seq<usize> {
    if c.event && c.wake_slot != INVALID_TASK_ID {
        seq![c.wake_slot]
    } else {
        Seq::empty()
    }
}

/// The wakes the edge interrupt delivers for the first `i` channels, in
/// channel order.
pub open spec fn wakes_upto(channels: Seq<GpioteChannel>, i: int) -> Seq<usize>
    decreases i,
{
    if i <= 0 {
        Seq::empty()
    } else {
        wakes_upto(channels, i - 1) + channel_wake(channels[i - 1])
    }
}

/// What the interrupt leaves in a channel: a fired channel has its event
/// cleared and its slot reset to "no one waiting"; an idle channel is
/// untouched.
pub open spec fn channel_after_interrupt(c: GpioteChannel) -> GpioteChannel {
    if c.event {
        GpioteChannel { event: false, wake_slot: INVALID_TASK_ID, ..c }
    } else {
        c
    }
}

/// The shared edge interrupt handler: scan every channel; for each with a
/// fired event, clear the event, take the recorded task identity (the
/// slot reverts to "no one waiting"), and wake that task — exactly one
/// wake per fired channel with a waiter. A fired channel with no waiter is
/// only cleared: its owning task will re-check the pin level on its next
/// poll.
pub fn gpiote_interrupt(gpiote: &mut Gpiote, executor: &mut Executor) -> (r: Result<
    (),
    SchedError,
>)
    requires
        old(gpiote).wf(),
    ensures
        final(gpiote).wf(),
        final(gpiote).next_channel == old(gpiote).next_channel,
        final(executor).n_tasks == old(executor).n_tasks,
        r is Ok ==> forall|i: int|
            0 <= i < MAX_CHANNELS_USED ==> #[trigger] final(gpiote).channels@[i]
                == channel_after_interrupt(old(gpiote).channels@[i]),
        r is Ok ==> final(executor).ids() == old(executor).ids() + wakes_upto(
            old(gpiote).channels@,
            MAX_CHANNELS_USED as int,
        ),
        r is Err ==> r == Err::<(), SchedError>(SchedError::ReadyQueueFull) && final(executor).ids().len() >= READY_CAPACITY,
{
    let mut channel: usize = 0;
    while channel < MAX_CHANNELS_USED
        invariant
            gpiote.wf(),
            channel <= MAX_CHANNELS_USED,
            gpiote.next_channel == old(gpiote).next_channel,
            executor.n_tasks == old(executor).n_tasks,
            forall|i: int|
                0 <= i < channel ==> #[trigger] gpiote.channels@[i] == channel_after_interrupt(
                    old(gpiote).channels@[i],
                ),
            forall|i: int|
                channel <= i < MAX_CHANNELS_USED ==> #[trigger] gpiote.channels@[i] == old(gpiote).channels@[i],
            executor.ids() == old(executor).ids() + wakes_upto(
                old(gpiote).channels@,
                channel as int,
            ),
        decreases MAX_CHANNELS_USED - channel,
    {
        let c = &gpiote.channels[channel];
        if c.event {
            let task_id = c.wake_slot;
            let updated = GpioteChannel {
                pin_high: c.pin_high,
                event: false,
                enabled: c.enabled,
                wake_slot: INVALID_TASK_ID,
            };
            gpiote.channels.set(channel, updated);
            if task_id != INVALID_TASK_ID {
                match wake_task(executor, task_id) {
                    Err(e) => {
                        return Err(e);
                    },
                    Ok(()) => {},
                }
            }
        }
        proof {
            assert(executor.ids() =~= old(executor).ids() + wakes_upto(
                old(gpiote).channels@,
                channel + 1,
            ));
        }
        channel = channel + 1;
    }
    Ok(())
}

} // verus!
