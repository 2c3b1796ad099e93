//! The task contract: a poll step that either completes or has arranged a
//! future wake before reporting pending.

use vstd::prelude::*;

verus! {

use crate::executor::SchedError;
use crate::kernel::Kernel;

/// Result of one poll step.
#[derive(Debug)]
pub enum Poll<T> {
    Pending,
    Ready(T),
}

/// Anything pollable by the executor. A poll step runs to completion
/// without blocking; a `Pending` result means the task has already
/// registered the wake condition (a deadline or an edge-wake slot) that
/// will mark it ready again. A step that exhausts a bounded collection
/// reports the capacity error instead, the fatal condition on which the
/// embedding halts the system.
pub trait OurFuture: Sized {
    type Output;

    /// Well-formedness of the task's own state; every poll step preserves
    /// it, whatever else runs in between.
    spec fn inv(&self) -> bool;

    /// The task's poll-step relation: how the post-states of task and
    /// kernel and the returned value follow from the pre-states.
    spec fn poll_ens(
        &self,
        task_id: usize,
        pre_kernel: Kernel,
        post: Self,
        post_kernel: Kernel,
        r: Result<Poll<Self::Output>, SchedError>,
    ) -> bool;

    fn poll(&mut self, task_id: usize, kernel: &mut Kernel) -> (r: Result<
        Poll<Self::Output>,
        SchedError,
    >)
        requires
            old(self).inv(),
            old(kernel).wf(),
            old(kernel).ticker.initialized,
            !old(kernel).ticker.rtc.overflow_event,
        ensures
            final(self).inv(),
            final(kernel).wf(),
            final(kernel).ticker.initialized,
            !final(kernel).ticker.rtc.overflow_event,
            final(kernel).executor.n_tasks == old(kernel).executor.n_tasks,
            old(self).poll_ens(task_id, *old(kernel), *final(self), *final(kernel), r),
    ;
}

} // verus!
