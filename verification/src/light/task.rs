//! The display task: drain the direction mailbox, shifting on a received
//! press, then run the animation controller's poll step.

use vstd::prelude::*;

verus! {

use crate::button::ButtonDirection;
use crate::channel::{Channel, Receiver};
use crate::executor::SchedError;
use crate::future::Poll;
use crate::kernel::Kernel;
use crate::light::controller::{
    controller_poll_ens,
    controller_shift_ens,
    LedController,
};
use crate::light::operator::LedOperator;
use crate::wakeup::MAX_DEADLINE_VALUE;

/// The display task: the controller plus the receiving side of the
/// direction mailbox.
pub struct LedTask<O: LedOperator> {
    pub controller: LedController<O>,
    pub receiver: Receiver<ButtonDirection>,
}

impl<O: LedOperator> LedTask<O> {
    pub open spec fn inv(&self) -> bool {
        self.controller.inv()
    }

    pub fn new(controller: LedController<O>, receiver: Receiver<ButtonDirection>) -> (t:
        LedTask<O>)
        requires
            controller.inv(),
        ensures
            t.inv(),
            t.controller == controller,
    {
        LedTask { controller, receiver }
    }

    /// One poll step: take whatever press is in the mailbox — latest value
    /// wins — shift on it, then run the animation step. The mailbox is
    /// empty afterwards; the task never completes.
    pub fn poll(
        &mut self,
        task_id: usize,
        kernel: &mut Kernel,
        channel: &mut Channel<ButtonDirection>,
    ) -> (r: Result<Poll<()>, SchedError>)
        requires
            old(self).inv(),
            old(kernel).wf(),
            old(kernel).ticker.initialized,
            !old(kernel).ticker.rtc.overflow_event,
            old(kernel).ticker.spec_now() + 0x8000 < MAX_DEADLINE_VALUE,
        ensures
            final(self).inv(),
            final(kernel).wf(),
            final(kernel).ticker.initialized,
            !final(kernel).ticker.rtc.overflow_event,
            final(kernel).executor.n_tasks == old(kernel).executor.n_tasks,
            final(channel).slot is None,
            old(channel).slot is None ==> controller_poll_ens(
                old(self).controller,
                *old(kernel),
                final(self).controller,
                *final(kernel),
                task_id,
                r,
            ),
            old(channel).slot matches Some(direction) ==> exists|mid: LedController<O>|
                #[trigger] controller_shift_ens(old(self).controller, direction, mid)
                    && controller_poll_ens(
                    mid,
                    *old(kernel),
                    final(self).controller,
                    *final(kernel),
                    task_id,
                    r,
                ),
    {
        match self.receiver.receive(channel) {
            Some(direction) => {
                self.controller.shift(direction);
                proof {
                    assert(controller_shift_ens(
                        old(self).controller,
                        direction,
                        self.controller,
                    ));
                }
            },
            None => {
            },
        }
        self.controller.poll(task_id, kernel)
    }
}

} // verus!
