//! Software timers: awaited by registering an absolute deadline with the
//! wakeup manager and suspending until logical time reaches it.

use vstd::prelude::*;

verus! {

use crate::executor::SchedError;
use crate::future::{OurFuture, Poll};
use crate::kernel::Kernel;
use crate::wakeup::{drained, due, earliest, MAX_DEADLINE_VALUE, MAX_DEADLINES};

/// Relies on fugit::Duration::<u64, 1, 32768>::millis: at this 32768 Hz
/// tick base it returns `ms * 4096 / 125` ticks (the 1/32768-second and
/// 1/1000-second fractions reduced by their gcd of 8), rounding down.
#[verifier::external_body]
pub(crate) fn millis_to_ticks(ms: u64) -> (t: u64)
    requires
        ms < 0x10_0000_0000_0000,
    ensures
        t as int == (ms * 4096) / 125,
{
    fugit::Duration::<u64, 1, 32768>::millis(ms).ticks()
}

/// Whether the timer has still to arrange its wake, or already has.
pub enum TimerState {
    Init,
    Wait,
}

/// One software timer: an absolute end time in ticks. Its first poll
/// registers the deadline and suspends; later polls complete once the
/// clock reaches the end time. There is no cancellation: a registered
/// deadline always fires.
pub struct Timer {
    pub end_time: u64,
    pub state: TimerState,
}

impl Timer {
    /// Construct with a duration: the timer ends that many ticks from now.
    pub fn new(duration_ticks: u64, kernel: &Kernel) -> (t: Timer)
        requires
            kernel.wf(),
            kernel.ticker.initialized,
            !kernel.ticker.rtc.overflow_event,
            kernel.ticker.spec_now() + duration_ticks < MAX_DEADLINE_VALUE,
        ensures
            t.inv(),
            t.end_time as int == kernel.ticker.spec_now() + duration_ticks,
            t.state is Init,
    {
        let end_time = kernel.now() + duration_ticks;
        Timer { end_time, state: TimerState::Init }
    }

    /// Whether the timer's end time has been reached.
    pub fn is_ready(&self, kernel: &Kernel) -> (b: bool)
        requires
            kernel.wf(),
            kernel.ticker.initialized,
            !kernel.ticker.rtc.overflow_event,
        ensures
            b == (kernel.ticker.spec_now() >= self.end_time),
    {
        kernel.now() >= self.end_time
    }

    /// Register this timer's deadline for the given task.
    fn register(&self, task_id: usize, kernel: &mut Kernel) -> (r: Result<(), SchedError>)
        requires
            old(kernel).wf(),
            self.inv(),
        ensures
            final(kernel).wf(),
            final(kernel).ticker.initialized == old(kernel).ticker.initialized,
            final(kernel).executor.n_tasks == old(kernel).executor.n_tasks,
            final(kernel).gpiote == old(kernel).gpiote,
            final(kernel).ticker.ovf_count == old(kernel).ticker.ovf_count,
            final(kernel).ticker.rtc.counter == old(kernel).ticker.rtc.counter,
            final(kernel).ticker.rtc.overflow_event == old(kernel).ticker.rtc.overflow_event,
            r == Err::<(), SchedError>(SchedError::DeadlinesFull) <==> old(kernel).wakeup.entries().len() >= MAX_DEADLINES,
            r == Err::<(), SchedError>(SchedError::DeadlinesFull) ==> final(kernel).wakeup.entries() == old(kernel).wakeup.entries() && final(kernel).executor.ids()
                == old(kernel).executor.ids() && final(kernel).ticker == old(kernel).ticker,
            old(kernel).wakeup.entries().len() < MAX_DEADLINES ==> exists|
                w: Seq<(u64, usize)>,
            |
                #[trigger] drained(
                    w,
                    old(kernel).wakeup.entries().insert((self.end_time, task_id)),
                    final(kernel).wakeup.entries(),
                    old(kernel).ticker.ovf_count,
                    old(kernel).ticker.rtc.counter,
                ) && final(kernel).executor.ids() == old(kernel).executor.ids()
                    + w.map_values(|e: (u64, usize)| e.1),
            r is Ok && earliest(self.end_time, old(kernel).wakeup.entries()) && due(
                self.end_time,
                old(kernel).ticker.ovf_count,
                old(kernel).ticker.rtc.counter,
            ) ==> final(kernel).executor.ids().contains(task_id),
    {
        let (res, w) = kernel.add_deadline(self.end_time, task_id);
        proof {
            if old(kernel).wakeup.entries().len() < MAX_DEADLINES {
                assert(drained(
                    w@,
                    old(kernel).wakeup.entries().insert((self.end_time, task_id)),
                    kernel.wakeup.entries(),
                    old(kernel).ticker.ovf_count,
                    old(kernel).ticker.rtc.counter,
                ));
            }
        }
        res
    }
}

impl OurFuture for Timer {
    type Output = ();

    /// The end time keeps its overflow epoch representable.
    open spec fn inv(&self) -> bool {
        self.end_time < MAX_DEADLINE_VALUE
    }

    /// First poll (`Init`): the deadline is registered — an already-due
    /// earliest deadline wakes the task at once — and the timer suspends.
    /// Later polls (`Wait`): complete exactly when logical time has
    /// reached the end time, touching nothing.
    open spec fn poll_ens(
        &self,
        task_id: usize,
        pre_kernel: Kernel,
        post: Self,
        post_kernel: Kernel,
        r: Result<Poll<()>, SchedError>,
    ) -> bool {
        &&& post.end_time == self.end_time
        &&& post_kernel.gpiote == pre_kernel.gpiote
        &&& post_kernel.ticker.ovf_count == pre_kernel.ticker.ovf_count
        &&& post_kernel.ticker.rtc.counter == pre_kernel.ticker.rtc.counter
        &&& match self.state {
            TimerState::Wait => {
                &&& post_kernel == pre_kernel
                &&& post.state is Wait
                &&& r == Ok::<Poll<()>, SchedError>(
                    if pre_kernel.ticker.spec_now() >= self.end_time {
                        Poll::Ready(())
                    } else {
                        Poll::Pending
                    },
                )
            },
            TimerState::Init => {
                &&& r is Ok ==> post.state is Wait && r == Ok::<Poll<()>, SchedError>(
                    Poll::Pending,
                )
                &&& (r == Err::<Poll<()>, SchedError>(SchedError::DeadlinesFull) <==>
                    pre_kernel.wakeup.entries().len() >= MAX_DEADLINES)
                &&& r == Err::<Poll<()>, SchedError>(SchedError::DeadlinesFull)
                    ==> post_kernel.wakeup.entries() == pre_kernel.wakeup.entries()
                    && post_kernel.executor.ids() == pre_kernel.executor.ids()
                    && post_kernel.ticker == pre_kernel.ticker && post.state is Init
                &&& pre_kernel.wakeup.entries().len() < MAX_DEADLINES ==> exists|
                    w: Seq<(u64, usize)>,
                |
                    #[trigger] drained(
                        w,
                        pre_kernel.wakeup.entries().insert((self.end_time, task_id)),
                        post_kernel.wakeup.entries(),
                        pre_kernel.ticker.ovf_count,
                        pre_kernel.ticker.rtc.counter,
                    ) && post_kernel.executor.ids() == pre_kernel.executor.ids()
                        + w.map_values(|e: (u64, usize)| e.1)
                &&& r is Ok && earliest(self.end_time, pre_kernel.wakeup.entries()) && due(
                    self.end_time,
                    pre_kernel.ticker.ovf_count,
                    pre_kernel.ticker.rtc.counter,
                ) ==> post_kernel.executor.ids().contains(task_id)
            },
        }
    }

    fn poll(&mut self, task_id: usize, kernel: &mut Kernel) -> (r: Result<
        Poll<()>,
        SchedError,
    >) {
        match self.state {
            TimerState::Init => {
                match self.register(task_id, kernel) {
                    Err(e) => Err(e),
                    Ok(()) => {
                        self.state = TimerState::Wait;
                        Ok(Poll::Pending)
                    },
                }
            },
            TimerState::Wait => {
                if kernel.now() >= self.end_time {
                    Ok(Poll::Ready(()))
                } else {
                    Ok(Poll::Pending)
                }
            },
        }
    }
}

} // verus!
