//! The process-scoped scheduling core: the executor's ready queue, the
//! monotonic clock, the deadline manager and the edge wake bridge, wired
//! together, plus the interrupt entry points and the executor's
//! drain-and-poll loop.

use vstd::prelude::*;

verus! {

use crate::executor::{Executor, SchedError, first_valid, after_next, READY_CAPACITY};
use crate::future::{OurFuture, Poll};
use crate::gpiote::{Gpiote, gpiote_interrupt};
use vstd::multiset::Multiset;
use crate::ticker::{epoch_of, low_bits_of, Ticker, COUNTER_PERIOD};
use crate::wakeup::{
    drained,
    due,
    earliest,
    lemma_due_implies_elapsed,
    entry_le,
    is_min_entry,
    lemma_has_min_entry,
    lemma_min_entry_unique,
    WakeupManager,
    MAX_DEADLINE_VALUE,
    MAX_DEADLINES,
};

/// The scheduling core's whole state. On the board each piece is a
/// process-wide singleton shared with interrupt handlers; here the
/// interrupt entry points are methods, called by the embedding when the
/// corresponding hardware event fires (or by a simulation driving the
/// hardware models).
pub struct Kernel {
    pub executor: Executor,
    pub ticker: Ticker,
    pub wakeup: WakeupManager,
    pub gpiote: Gpiote,
}

impl Kernel {
    pub open spec fn wf(&self) -> bool {
        self.executor.wf() && self.ticker.wf() && self.wakeup.wf() && self.gpiote.wf()
    }

    /// The single compare channel stands armed for the nearest pending
    /// deadline: whenever the least pending deadline lies in the clock's
    /// current overflow epoch, the compare event is enabled with that
    /// deadline's counter value. This is how many software timers share
    /// one hardware compare register.
    pub open spec fn compare_armed_for_min(&self) -> bool {
        forall|m: (u64, usize)|
            #[trigger] is_min_entry(m, self.wakeup.entries()) && epoch_of(m.0)
                == self.ticker.ovf_count ==> self.ticker.rtc.compare_enabled
                && self.ticker.rtc.compare as int == low_bits_of(m.0)
    }

    pub fn new(n_tasks: usize) -> (k: Kernel)
        requires
            n_tasks <= READY_CAPACITY,
        ensures
            k.wf(),
            k.executor.n_tasks == n_tasks,
            k.executor.ids() == Seq::<usize>::empty(),
            k.wakeup.entries() == Multiset::<(u64, usize)>::empty(),
            !k.ticker.initialized,
            k.ticker.ovf_count == 0,
            k.ticker.rtc.counter == 0,
            !k.ticker.rtc.compare_enabled,
            !k.ticker.rtc.overflow_event,
            !k.ticker.rtc.compare_event,
            k.gpiote.next_channel == 0,
    {
        Kernel {
            executor: Executor::new(n_tasks),
            ticker: Ticker::new(),
            wakeup: WakeupManager::new(),
            gpiote: Gpiote::new(),
        }
    }

    /// Start the clock hardware; nothing may read the clock before this.
    pub fn init(&mut self)
        requires
            old(self).wf(),
        ensures
            final(self).wf(),
            final(self).ticker.initialized,
            final(self).ticker.ovf_count == old(self).ticker.ovf_count,
            final(self).ticker.rtc.counter == old(self).ticker.rtc.counter,
            final(self).ticker.rtc.compare_enabled == old(self).ticker.rtc.compare_enabled,
            final(self).ticker.rtc.overflow_event == old(self).ticker.rtc.overflow_event,
            final(self).ticker.rtc.compare_event == old(self).ticker.rtc.compare_event,
            final(self).executor == old(self).executor,
            final(self).wakeup == old(self).wakeup,
            final(self).gpiote == old(self).gpiote,
    {
        self.ticker.init();
    }

    /// Current logical time; reads happen with the overflow interrupt
    /// serviced.
    pub fn now(&self) -> (t: u64)
        requires
            self.wf(),
            self.ticker.initialized,
            !self.ticker.rtc.overflow_event,
        ensures
            t as int == self.ticker.spec_now(),
    {
        self.ticker.now()
    }

    /// Mark a task ready.
    pub fn wake_task(&mut self, task_id: usize) -> (r: Result<(), SchedError>)
        ensures
            final(self).ticker == old(self).ticker,
            final(self).wakeup == old(self).wakeup,
            final(self).gpiote == old(self).gpiote,
            final(self).executor.n_tasks == old(self).executor.n_tasks,
            old(self).executor.ids().len() < READY_CAPACITY ==> r is Ok,
            r is Ok ==> final(self).executor.ids() == old(self).executor.ids().push(task_id),
            r is Err ==> r == Err::<(), SchedError>(SchedError::ReadyQueueFull) && old(self).executor.ids().len() >= READY_CAPACITY && final(self).executor.ids() == old(self).executor.ids(),
    {
        crate::executor::wake_task(&mut self.executor, task_id)
    }

    /// Register a deadline for a task; reprograms the compare register at
    /// once when the new deadline is the earliest pending one.
    pub fn add_deadline(&mut self, deadline: u64, task_id: usize) -> (r: (
        Result<(), SchedError>,
        Ghost<Seq<(u64, usize)>>,
    ))
        requires
            old(self).wf(),
            deadline < MAX_DEADLINE_VALUE,
        ensures
            final(self).wf(),
            final(self).gpiote == old(self).gpiote,
            final(self).executor.n_tasks == old(self).executor.n_tasks,
            final(self).ticker.ovf_count == old(self).ticker.ovf_count,
            final(self).ticker.rtc.counter == old(self).ticker.rtc.counter,
            final(self).ticker.initialized == old(self).ticker.initialized,
            final(self).ticker.rtc.counter_enabled == old(self).ticker.rtc.counter_enabled,
            final(self).ticker.rtc.overflow_enabled == old(self).ticker.rtc.overflow_enabled,
            final(self).ticker.rtc.overflow_event == old(self).ticker.rtc.overflow_event,
            final(self).ticker.rtc.compare_event == old(self).ticker.rtc.compare_event,
            r.0 == Err::<(), SchedError>(SchedError::DeadlinesFull) <==> old(self).wakeup.entries().len() >= MAX_DEADLINES,
            r.0 == Err::<(), SchedError>(SchedError::DeadlinesFull) ==> final(self).wakeup.entries() == old(self).wakeup.entries() && final(self).executor.ids()
                == old(self).executor.ids() && final(self).ticker == old(self).ticker,
            old(self).wakeup.entries().len() < MAX_DEADLINES ==> drained(
                r.1@,
                old(self).wakeup.entries().insert((deadline, task_id)),
                final(self).wakeup.entries(),
                old(self).ticker.ovf_count,
                old(self).ticker.rtc.counter,
            ) && final(self).executor.ids() == old(self).executor.ids() + r.1@.map_values(
                |e: (u64, usize)| e.1,
            ),
            old(self).wakeup.entries().len() < MAX_DEADLINES && !earliest(
                deadline,
                old(self).wakeup.entries(),
            ) ==> r.0 is Ok && r.1@.len() == 0 && final(self).ticker.rtc == old(self).ticker.rtc,
            r.0 == Err::<(), SchedError>(SchedError::ReadyQueueFull) ==> final(self).executor.ids().len() >= READY_CAPACITY,
            r.0 is Ok && old(self).wakeup.entries().len() < MAX_DEADLINES && earliest(
                deadline,
                old(self).wakeup.entries(),
            ) && due(deadline, old(self).ticker.ovf_count, old(self).ticker.rtc.counter)
                ==> final(self).executor.ids().contains(task_id),
            r.0 is Ok && earliest(deadline, old(self).wakeup.entries()) ==> final(self).compare_armed_for_min(),
            r.0 is Ok && !earliest(deadline, old(self).wakeup.entries()) && old(self).compare_armed_for_min() ==> final(self).compare_armed_for_min(),
    {
        let r = self.wakeup.add_deadline(deadline, task_id, &mut self.ticker, &mut self.executor);
        proof {
            broadcast use vstd::multiset::group_multiset_axioms;
            broadcast use vstd::seq_lib::group_to_multiset_ensures;

            let pre = old(self).wakeup.entries();
            let entry = (deadline, task_id);
            if r.0 is Ok && earliest(deadline, pre) {
                assert forall|m: (u64, usize)|
                    #[trigger] is_min_entry(m, self.wakeup.entries()) && epoch_of(m.0)
                        == self.ticker.ovf_count implies self.ticker.rtc.compare_enabled
                    && self.ticker.rtc.compare as int == low_bits_of(m.0) by {
                    assert(self.wakeup.entries().count(m) > 0);
                    let m0 = choose|m0: (u64, usize)|
                        #[trigger] is_min_entry(m0, self.wakeup.entries()) && !due(
                            m0.0,
                            old(self).ticker.ovf_count,
                            old(self).ticker.rtc.counter,
                        ) && (epoch_of(m0.0) == old(self).ticker.ovf_count ==> self.ticker.rtc.compare_enabled
                            && self.ticker.rtc.compare as int == low_bits_of(m0.0)
                            && low_bits_of(m0.0) > old(self).ticker.rtc.counter + 1) && (
                        epoch_of(m0.0) != old(self).ticker.ovf_count
                            ==> !self.ticker.rtc.compare_enabled);
                    lemma_min_entry_unique(m, m0, self.wakeup.entries());
                }
            }
            if r.0 is Ok && !earliest(deadline, pre) && old(self).compare_armed_for_min() {
                // Nothing was drained: the collection is the old one plus
                // the new entry, and the hardware was left alone.
                assert(r.1@.to_multiset() =~= Multiset::<(u64, usize)>::empty());
                assert(self.wakeup.entries() =~= pre.insert(entry));
                assert forall|m: (u64, usize)|
                    #[trigger] is_min_entry(m, self.wakeup.entries()) && epoch_of(m.0)
                        == self.ticker.ovf_count implies self.ticker.rtc.compare_enabled
                    && self.ticker.rtc.compare as int == low_bits_of(m.0) by {
                    assert(self.wakeup.entries().count(m) > 0);
                    if m != entry {
                        // The least entry was already pending: the old
                        // arming covers it.
                        assert(pre.count(m) > 0);
                        assert forall|e: (u64, usize)| #[trigger] pre.count(e) > 0 implies entry_le(
                            m,
                            e,
                        ) by {
                            assert(self.wakeup.entries().count(e) > 0);
                        }
                        assert(is_min_entry(m, pre));
                    } else {
                        // The new entry ties the old least deadline (it is
                        // not strictly earliest), so the old arming value
                        // is the same counter value.
                        let e0 = choose|e0: (u64, usize)| pre.count(e0) > 0 && deadline >= e0.0;
                        assert(pre.count(e0) > 0 && deadline >= e0.0);
                        assert(pre.len() > 0) by {
                            assert(pre.count(e0) <= pre.len());
                        }
                        lemma_has_min_entry(pre);
                        let m_old = choose|mm: (u64, usize)| #[trigger] is_min_entry(mm, pre);
                        assert(pre.count(m_old) > 0);
                        assert(self.wakeup.entries().count(m_old) > 0);
                        assert(entry_le(m, m_old));
                        assert(entry_le(m_old, e0));
                        assert(m_old.0 == deadline);
                        assert(epoch_of(m_old.0) == epoch_of(m.0) && low_bits_of(m_old.0)
                            == low_bits_of(m.0));
                        assert(is_min_entry(m_old, pre) && epoch_of(m_old.0)
                            == old(self).ticker.ovf_count);
                    }
                }
            }
        }
        r
    }

    /// Dequeue the identity of the next task to poll.
    pub fn next_ready(&mut self) -> (r: Option<usize>)
        ensures
            final(self).ticker == old(self).ticker,
            final(self).wakeup == old(self).wakeup,
            final(self).gpiote == old(self).gpiote,
            final(self).executor.n_tasks == old(self).executor.n_tasks,
            r == first_valid(old(self).executor.ids(), old(self).executor.n_tasks),
            final(self).executor.ids() == after_next(
                old(self).executor.ids(),
                old(self).executor.n_tasks,
            ),
            r is Some ==> r->Some_0 < old(self).executor.n_tasks,
    {
        self.executor.next_ready()
    }

    /// The timer interrupt entry point: acknowledge the overflow event
    /// (advancing the epoch — this is the overflow counter's only writer)
    /// and the compare event, then re-evaluate pending deadlines and
    /// reprogram the compare register.
    pub fn rtc0_interrupt(&mut self) -> (r: (
        Result<(), SchedError>,
        Ghost<Seq<(u64, usize)>>,
    ))
        requires
            old(self).wf(),
            old(self).ticker.rtc.overflow_event ==> old(self).ticker.ovf_count < 0xFFFF_FFFF,
        ensures
            final(self).wf(),
            final(self).gpiote == old(self).gpiote,
            final(self).executor.n_tasks == old(self).executor.n_tasks,
            final(self).ticker.ovf_count == if old(self).ticker.rtc.overflow_event {
                (old(self).ticker.ovf_count + 1) as u32
            } else {
                old(self).ticker.ovf_count
            },
            final(self).ticker.rtc.counter == old(self).ticker.rtc.counter,
            !final(self).ticker.rtc.overflow_event,
            !final(self).ticker.rtc.compare_event,
            final(self).ticker.initialized == old(self).ticker.initialized,
            final(self).ticker.rtc.counter_enabled == old(self).ticker.rtc.counter_enabled,
            final(self).ticker.rtc.overflow_enabled == old(self).ticker.rtc.overflow_enabled,
            drained(
                r.1@,
                old(self).wakeup.entries(),
                final(self).wakeup.entries(),
                final(self).ticker.ovf_count,
                old(self).ticker.rtc.counter,
            ),
            final(self).executor.ids() == old(self).executor.ids() + r.1@.map_values(
                |e: (u64, usize)| e.1,
            ),
            r.0 is Err ==> r.0 == Err::<(), SchedError>(SchedError::ReadyQueueFull) && final(self).executor.ids().len() >= READY_CAPACITY,
            r.0 is Ok && final(self).wakeup.entries().len() == 0 ==> !final(self).ticker.rtc.compare_enabled,
            r.0 is Ok && old(self).wakeup.no_stale_epochs(final(self).ticker.ovf_count)
                ==> forall|e: (u64, usize)|
                #[trigger] final(self).wakeup.entries().count(e) > 0 ==> !due(
                    e.0,
                    final(self).ticker.ovf_count,
                    old(self).ticker.rtc.counter,
                ),
            r.0 is Ok ==> final(self).compare_armed_for_min(),
    {
        if self.ticker.rtc.is_overflow_triggered() {
            self.ticker.rtc.reset_overflow_event();
            self.ticker.ovf_once();
        }
        if self.ticker.rtc.is_compare_triggered() {
            self.ticker.rtc.reset_compare_event();
        }
        let r = self.wakeup.check_and_schedule_wakeups(&mut self.ticker, &mut self.executor);
        proof {
            if r.0 is Ok {
                assert forall|m: (u64, usize)|
                    #[trigger] is_min_entry(m, self.wakeup.entries()) && epoch_of(m.0)
                        == self.ticker.ovf_count implies self.ticker.rtc.compare_enabled
                    && self.ticker.rtc.compare as int == low_bits_of(m.0) by {
                    broadcast use vstd::multiset::group_multiset_axioms;

                    assert(self.wakeup.entries().count(m) > 0);
                    let m0 = choose|m0: (u64, usize)|
                        #[trigger] is_min_entry(m0, self.wakeup.entries()) && !due(
                            m0.0,
                            self.ticker.ovf_count,
                            old(self).ticker.rtc.counter,
                        ) && (epoch_of(m0.0) == self.ticker.ovf_count
                            ==> self.ticker.rtc.compare_enabled && self.ticker.rtc.compare
                            as int == low_bits_of(m0.0) && low_bits_of(m0.0) > old(self).ticker.rtc.counter + 1);
                    lemma_min_entry_unique(m, m0, self.wakeup.entries());
                }
            }
        }
        r
    }

    /// The edge interrupt entry point.
    pub fn gpiote_interrupt(&mut self) -> (r: Result<(), SchedError>)
        requires
            old(self).wf(),
        ensures
            final(self).wf(),
            final(self).ticker == old(self).ticker,
            final(self).wakeup == old(self).wakeup,
            final(self).gpiote.next_channel == old(self).gpiote.next_channel,
            final(self).executor.n_tasks == old(self).executor.n_tasks,
            r is Ok ==> forall|i: int|
                0 <= i < crate::gpiote::MAX_CHANNELS_USED ==> #[trigger] final(self).gpiote.channels@[i] == crate::gpiote::channel_after_interrupt(
                    old(self).gpiote.channels@[i],
                ),
            r is Ok ==> final(self).executor.ids() == old(self).executor.ids()
                + crate::gpiote::wakes_upto(
                old(self).gpiote.channels@,
                crate::gpiote::MAX_CHANNELS_USED as int,
            ),
            r is Err ==> r == Err::<(), SchedError>(SchedError::ReadyQueueFull) && final(self).executor.ids().len() >= READY_CAPACITY,
    {
        gpiote_interrupt(&mut self.gpiote, &mut self.executor)
    }

    /// Let `n` hardware ticks elapse, servicing the timer interrupt after
    /// any tick that latches an event — as the board does when interrupts
    /// are unmasked. Logical time advances by exactly the ticks elapsed;
    /// an error means a wake found the ready queue full, after which time
    /// has advanced by only part of `n`.
    pub fn advance_time(&mut self, n: u32) -> (r: Result<(), SchedError>)
        requires
            old(self).wf(),
            old(self).ticker.spec_now() + n + COUNTER_PERIOD < MAX_DEADLINE_VALUE,
            old(self).ticker.rtc.overflow_enabled,
            !old(self).ticker.rtc.overflow_event,
            !old(self).ticker.rtc.compare_event,
        ensures
            final(self).wf(),
            final(self).gpiote == old(self).gpiote,
            final(self).executor.n_tasks == old(self).executor.n_tasks,
            final(self).ticker.initialized == old(self).ticker.initialized,
            !final(self).ticker.rtc.overflow_event,
            !final(self).ticker.rtc.compare_event,
            r is Ok ==> final(self).ticker.spec_now() == old(self).ticker.spec_now() + n,
            r is Ok && old(self).compare_armed_for_min() ==> final(self).compare_armed_for_min(),
            r is Err ==> r == Err::<(), SchedError>(SchedError::ReadyQueueFull) && final(self).executor.ids().len() >= READY_CAPACITY && old(self).ticker.spec_now()
                <= final(self).ticker.spec_now() <= old(self).ticker.spec_now() + n,
            exists|w: Seq<(u64, usize)>|
                #![trigger w.to_multiset()]
                old(self).wakeup.entries() == final(self).wakeup.entries().add(
                    w.to_multiset(),
                ) && final(self).executor.ids() == old(self).executor.ids() + w.map_values(
                    |e: (u64, usize)| e.1,
                ) && (forall|k: int|
                    0 <= k < w.len() ==> (#[trigger] w[k]).0 as int <= final(self).ticker.spec_now() + 1),
    {
        let ghost mut woken: Seq<(u64, usize)> = Seq::empty();
        proof {
            broadcast use vstd::multiset::group_multiset_axioms;
            broadcast use vstd::seq_lib::group_to_multiset_ensures;

            assert(self.wakeup.entries() =~= self.wakeup.entries().add(woken.to_multiset()));
            assert(self.executor.ids() =~= self.executor.ids() + woken.map_values(
                |e: (u64, usize)| e.1,
            ));
        }
        let mut i: u32 = 0;
        while i < n
            invariant
                self.wf(),
                i <= n,
                self.gpiote == old(self).gpiote,
                self.executor.n_tasks == old(self).executor.n_tasks,
                self.ticker.initialized == old(self).ticker.initialized,
                self.ticker.rtc.overflow_enabled,
                !self.ticker.rtc.overflow_event,
                !self.ticker.rtc.compare_event,
                self.ticker.spec_now() == old(self).ticker.spec_now() + i,
                old(self).compare_armed_for_min() ==> self.compare_armed_for_min(),
                old(self).ticker.spec_now() + n + COUNTER_PERIOD < MAX_DEADLINE_VALUE,
                old(self).wakeup.entries() == self.wakeup.entries().add(woken.to_multiset()),
                self.executor.ids() == old(self).executor.ids() + woken.map_values(
                    |e: (u64, usize)| e.1,
                ),
                forall|k: int|
                    0 <= k < woken.len() ==> (#[trigger] woken[k]).0 as int
                        <= self.ticker.spec_now() + 1,
            decreases n - i,
        {
            proof {
                assert(self.ticker.ovf_count * COUNTER_PERIOD + self.ticker.rtc.counter
                    < MAX_DEADLINE_VALUE - COUNTER_PERIOD);
                assert(self.ticker.ovf_count < 0xFFFF_FFFF) by (nonlinear_arith)
                    requires
                        self.ticker.ovf_count * 0x100_0000 + self.ticker.rtc.counter
                            < 0x100_0000_0000_0000 - 0x100_0000,
                        self.ticker.rtc.counter >= 0,
                ;
            }
            self.ticker.rtc.tick();
            if self.ticker.rtc.is_overflow_triggered() || self.ticker.rtc.is_compare_triggered() {
                let ghost pre_service = *self;
                let served = self.rtc0_interrupt();
                proof {
                    broadcast use vstd::multiset::group_multiset_axioms;
                    broadcast use vstd::seq_lib::group_to_multiset_ensures;

                    let ghost prev = woken;
                    woken = woken + served.1@;
                    vstd::seq_lib::lemma_multiset_commutative(prev, served.1@);
                    assert(old(self).wakeup.entries() =~= self.wakeup.entries().add(
                        woken.to_multiset(),
                    ));
                    assert(woken.map_values(|e: (u64, usize)| e.1) =~= prev.map_values(
                        |e: (u64, usize)| e.1,
                    ) + served.1@.map_values(|e: (u64, usize)| e.1));
                    assert(self.executor.ids() =~= old(self).executor.ids()
                        + woken.map_values(|e: (u64, usize)| e.1));
                    assert forall|k: int| 0 <= k < woken.len() implies (
                    #[trigger] woken[k]).0 as int <= self.ticker.spec_now() + 1 by {
                        if k >= prev.len() {
                            let entry = served.1@[k - prev.len()];
                            assert(due(
                                entry.0,
                                self.ticker.ovf_count,
                                pre_service.ticker.rtc.counter,
                            ));
                            lemma_due_implies_elapsed(
                                entry.0,
                                self.ticker.ovf_count,
                                pre_service.ticker.rtc.counter,
                            );
                        }
                    }
                }
                match served.0 {
                    Err(e) => {
                        return Err(e);
                    },
                    Ok(()) => {},
                }
            }
            i = i + 1;
        }
        Ok(())
    }
}

/// The kernel as one dequeue step leaves it: the executor has moved past
/// the head identity (discarding any out-of-range ones on the way), and
/// nothing else has moved.
pub open spec fn dequeued_kernel(pre: Kernel, mid: Kernel) -> bool {
    &&& mid.executor.n_tasks == pre.executor.n_tasks
    &&& mid.executor.ids() == after_next(pre.executor.ids(), pre.executor.n_tasks)
    &&& mid.ticker == pre.ticker
    &&& mid.wakeup == pre.wakeup
    &&& mid.gpiote == pre.gpiote
}

/// One completed drain step: the ready queue's first in-range identity
/// came off it, and exactly that task was polled once with its own
/// identity — the step's whole effect is that poll's own relation applied
/// to the dequeued state. No task is polled without having been enqueued.
pub open spec fn drain_step_ens<T: OurFuture<Output = ()>>(
    pre_tasks: Seq<T>,
    pre_kernel: Kernel,
    post_tasks: Seq<T>,
    post_kernel: Kernel,
) -> bool {
    let picked = first_valid(pre_kernel.executor.ids(), pre_kernel.executor.n_tasks);
    &&& picked is Some
    &&& picked->Some_0 < pre_tasks.len()
    &&& {
        let task_id = picked->Some_0;
        &&& (exists|mid: Kernel, p: Poll<()>|
            dequeued_kernel(pre_kernel, mid) && #[trigger] pre_tasks[task_id as int].poll_ens(
                task_id,
                mid,
                post_tasks[task_id as int],
                post_kernel,
                Ok::<Poll<()>, SchedError>(p),
            ))
        &&& post_tasks == pre_tasks.update(task_id as int, post_tasks[task_id as int])
    }
}

/// A drain trace: successive (task list, kernel) states, each consecutive
/// pair one completed dequeue-and-poll step.
pub open spec fn drain_trace<T: OurFuture<Output = ()>>(states: Seq<(Seq<T>, Kernel)>) -> bool {
    forall|i: int|
        0 <= i < states.len() - 1 ==> drain_step_ens(
            (#[trigger] states[i]).0,
            states[i].1,
            states[i + 1].0,
            states[i + 1].1,
        )
}

/// The executor's drain loop: repeatedly dequeue a ready task identity and
/// poll that task once, until nothing is ready or the poll budget is
/// spent. The returned trace lists every intermediate state: each step
/// polled exactly the dequeued head identity, so a task runs only after a
/// priming or a wake put it in the queue. A count short of the budget
/// means the ready queue emptied — the point where the board build idles
/// the core until the next interrupt. An error is a poll step's fatal
/// capacity condition, with the failing step's relation in the contract.
#[verifier::rlimit(60)]
pub fn poll_ready_tasks<T: OurFuture<Output = ()>>(
    kernel: &mut Kernel,
    tasks: &mut Vec<T>,
    fuel: usize,
) -> (r: (Result<usize, SchedError>, Ghost<Seq<(Seq<T>, Kernel)>>))
    requires
        old(kernel).wf(),
        old(kernel).ticker.initialized,
        !old(kernel).ticker.rtc.overflow_event,
        old(kernel).executor.n_tasks == old(tasks).len(),
        forall|i: int| 0 <= i < old(tasks).len() ==> (#[trigger] old(tasks)@[i]).inv(),
    ensures
        final(kernel).wf(),
        final(kernel).ticker.initialized,
        !final(kernel).ticker.rtc.overflow_event,
        final(kernel).executor.n_tasks == old(kernel).executor.n_tasks,
        final(tasks).len() == old(tasks).len(),
        forall|i: int| 0 <= i < final(tasks).len() ==> (#[trigger] final(tasks)@[i]).inv(),
        r.1@.len() >= 1,
        r.1@.first() == (old(tasks)@, *old(kernel)),
        drain_trace(r.1@),
        r.0 is Ok ==> r.0->Ok_0 as int == r.1@.len() - 1 && r.1@.last().0 == final(tasks)@ && r.0->Ok_0 <= fuel && (r.0->Ok_0 == fuel ==> r.1@.last().1 == *final(kernel))
            && (r.0->Ok_0 < fuel ==> first_valid(
            r.1@.last().1.executor.ids(),
            r.1@.last().1.executor.n_tasks,
        ) is None && dequeued_kernel(r.1@.last().1, *final(kernel)) && final(kernel).executor.ids().len() == 0),
        r.0 matches Err(e) ==> ({
            let pre_tasks = r.1@.last().0;
            let pre_kernel = r.1@.last().1;
            let picked = first_valid(pre_kernel.executor.ids(), pre_kernel.executor.n_tasks);
            &&& r.1@.len() - 1 < fuel
            &&& picked is Some
            &&& picked->Some_0 < pre_tasks.len()
            &&& (exists|mid: Kernel|
                dequeued_kernel(pre_kernel, mid)
                    && #[trigger] pre_tasks[picked->Some_0 as int].poll_ens(
                    picked->Some_0,
                    mid,
                    final(tasks)@[picked->Some_0 as int],
                    *final(kernel),
                    Err::<Poll<()>, SchedError>(e),
                ))
            &&& final(tasks)@ == pre_tasks.update(
                picked->Some_0 as int,
                final(tasks)@[picked->Some_0 as int],
            )
        }),
{
    let ghost mut states: Seq<(Seq<T>, Kernel)> = seq![(tasks@, *kernel)];
    let mut polled: usize = 0;
    while polled < fuel
        invariant
            kernel.wf(),
            kernel.ticker.initialized,
            !kernel.ticker.rtc.overflow_event,
            kernel.executor.n_tasks == old(kernel).executor.n_tasks,
            kernel.executor.n_tasks == tasks.len(),
            tasks.len() == old(tasks).len(),
            forall|i: int| 0 <= i < tasks.len() ==> (#[trigger] tasks@[i]).inv(),
            polled <= fuel,
            states.len() == polled + 1,
            states.first() == (old(tasks)@, *old(kernel)),
            states.last() == (tasks@, *kernel),
            drain_trace(states),
        decreases fuel - polled,
    {
        let ghost pre_kernel = *kernel;
        let ghost pre_tasks = tasks@;
        match kernel.next_ready() {
            None => {
                return (Ok(polled), Ghost(states));
            },
            Some(task_id) => {
                let ghost mid = *kernel;
                let task = &mut tasks[task_id];
                match task.poll(task_id, kernel) {
                    Err(e) => {
                        proof {
                            assert(dequeued_kernel(pre_kernel, mid));
                            assert forall|i: int| 0 <= i < tasks.len() implies (
                            #[trigger] tasks@[i]).inv() by {
                                if i != task_id {
                                    assert(tasks@[i] == pre_tasks[i]);
                                }
                            }
                        }
                        return (Err(e), Ghost(states));
                    },
                    Ok(p) => {
                        proof {
                            let ghost prev = states;
                            states = states.push((tasks@, *kernel));
                            assert(dequeued_kernel(pre_kernel, mid));
                            assert(pre_tasks[task_id as int].poll_ens(
                                task_id,
                                mid,
                                tasks@[task_id as int],
                                *kernel,
                                Ok::<Poll<()>, SchedError>(p),
                            ));
                            assert(drain_step_ens(pre_tasks, pre_kernel, tasks@, *kernel));
                            assert forall|j: int|
                                0 <= j < states.len() - 1 implies drain_step_ens(
                                (#[trigger] states[j]).0,
                                states[j].1,
                                states[j + 1].0,
                                states[j + 1].1,
                            ) by {
                                if j < prev.len() - 1 {
                                    assert(drain_step_ens(
                                        prev[j].0,
                                        prev[j].1,
                                        prev[j + 1].0,
                                        prev[j + 1].1,
                                    ));
                                }
                            }
                            assert forall|i: int| 0 <= i < tasks.len() implies (
                            #[trigger] tasks@[i]).inv() by {
                                if i != task_id {
                                    assert(tasks@[i] == pre_tasks[i]);
                                }
                            }
                        }
                        polled = polled + 1;
                    },
                }
            },
        }
    }
    (Ok(polled), Ghost(states))
}

/// Start the executor: enqueue every task identity once, so each task
/// gets an initial poll, then run the drain loop. The trace's first state
/// shows the primed queue — identities in order, each exactly once,
/// before any poll.
pub fn run_tasks<T: OurFuture<Output = ()>>(
    kernel: &mut Kernel,
    tasks: &mut Vec<T>,
    fuel: usize,
) -> (r: (Result<usize, SchedError>, Ghost<Seq<(Seq<T>, Kernel)>>))
    requires
        old(kernel).wf(),
        old(kernel).ticker.initialized,
        !old(kernel).ticker.rtc.overflow_event,
        old(kernel).executor.n_tasks == old(tasks).len(),
        old(kernel).executor.ids().len() == 0,
        forall|i: int| 0 <= i < old(tasks).len() ==> (#[trigger] old(tasks)@[i]).inv(),
    ensures
        final(kernel).wf(),
        final(kernel).ticker.initialized,
        !final(kernel).ticker.rtc.overflow_event,
        final(kernel).executor.n_tasks == old(kernel).executor.n_tasks,
        final(tasks).len() == old(tasks).len(),
        forall|i: int| 0 <= i < final(tasks).len() ==> (#[trigger] final(tasks)@[i]).inv(),
        r.1@.len() >= 1,
        r.1@.first().0 == old(tasks)@,
        r.1@.first().1.executor.ids() == Seq::new(
            old(tasks).len() as nat,
            |i: int| i as usize,
        ),
        r.1@.first().1.executor.n_tasks == old(kernel).executor.n_tasks,
        r.1@.first().1.ticker == old(kernel).ticker,
        r.1@.first().1.wakeup == old(kernel).wakeup,
        r.1@.first().1.gpiote == old(kernel).gpiote,
        drain_trace(r.1@),
        r.0 is Ok ==> r.0->Ok_0 as int == r.1@.len() - 1 && r.1@.last().0 == final(tasks)@ && r.0->Ok_0 <= fuel && (r.0->Ok_0 == fuel ==> r.1@.last().1 == *final(kernel))
            && (r.0->Ok_0 < fuel ==> first_valid(
            r.1@.last().1.executor.ids(),
            r.1@.last().1.executor.n_tasks,
        ) is None && dequeued_kernel(r.1@.last().1, *final(kernel)) && final(kernel).executor.ids().len() == 0),
        r.0 matches Err(e) ==> ({
            let pre_tasks = r.1@.last().0;
            let pre_kernel = r.1@.last().1;
            let picked = first_valid(pre_kernel.executor.ids(), pre_kernel.executor.n_tasks);
            &&& picked is Some
            &&& picked->Some_0 < pre_tasks.len()
            &&& (exists|mid: Kernel|
                dequeued_kernel(pre_kernel, mid)
                    && #[trigger] pre_tasks[picked->Some_0 as int].poll_ens(
                    picked->Some_0,
                    mid,
                    final(tasks)@[picked->Some_0 as int],
                    *final(kernel),
                    Err::<Poll<()>, SchedError>(e),
                ))
            &&& final(tasks)@ == pre_tasks.update(
                picked->Some_0 as int,
                final(tasks)@[picked->Some_0 as int],
            )
        }),
{
    kernel.executor.prime();
    poll_ready_tasks(kernel, tasks, fuel)
}

} // verus!
