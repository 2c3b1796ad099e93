//! Deadline/wakeup manager: a bounded min-ordered collection of
//! (deadline, task identity) pairs, multiplexed onto one hardware compare
//! register.
//!
//! The reprogramming routine shared by `add_deadline` and the timer
//! interrupt drains every deadline that has come due — waking its task —
//! and then either arms the compare register for the nearest remaining
//! deadline of the current overflow epoch, or disables the compare event
//! when nothing is pending. When the nearest deadline belongs to a later
//! overflow epoch the compare event is likewise disabled — armed at a
//! stale value it would only fire spuriously — and the deadline is
//! reconsidered once the overflow interrupt advances the epoch and runs
//! this routine again.

use vstd::prelude::*;

verus! {

use vstd::multiset::Multiset;
use crate::executor::{Executor, SchedError, wake_task, READY_CAPACITY};
use crate::ticker::{Ticker, COUNTER_PERIOD, epoch_of, low_bits_of, ticks_of};

/// Capacity of the deadline collection.
pub const MAX_DEADLINES: usize = 4;

/// Deadlines must leave the overflow epoch representable in 32 bits, the
/// width of the clock's epoch counter.
pub const MAX_DEADLINE_VALUE: u64 = 0x100_0000_0000_0000;

/// A pending wakeup: an absolute logical-time deadline and the identity of
/// the task to wake when it elapses.
pub type WakeupDeadline = (u64, usize);

/// The entries a deadline heap holds. Order inside the heap is not
/// observable; only the multiset of entries is.
pub uninterp spec fn deadline_entries(
    h: heapless::binary_heap::BinaryHeap<(u64, usize), heapless::binary_heap::Min, 4>,
) -> Multiset<(u64, usize)>;

#[verifier::external_type_specification]
#[verifier::external_body]
pub struct ExMin(heapless::binary_heap::Min);

#[verifier::external_type_specification]
#[verifier::external_body]
#[verifier::reject_recursive_types(T)]
#[verifier::reject_recursive_types(K)]
pub struct ExBinaryHeap<T, K, const N: usize>(heapless::binary_heap::BinaryHeap<T, K, N>);

/// The order the heap ranks entries by: std's lexicographic `Ord` on
/// `(u64, usize)` — deadline first, task identity breaking ties.
pub open spec fn entry_le(a: (u64, usize), b: (u64, usize)) -> bool {
    a.0 < b.0 || (a.0 == b.0 && a.1 <= b.1)
}

/// `m` is in `s` and no entry of `s` ranks below it.
pub open spec fn is_min_entry(m: (u64, usize), s: Multiset<(u64, usize)>) -> bool {
    s.contains(m) && forall|e: (u64, usize)| #[trigger] s.count(e) > 0 ==> entry_le(m, e)
}

/// What one run of the reprogramming routine removed: `woken` lists, in
/// the order their tasks were woken, the entries taken out of a collection
/// that held `before`, leaving `after`. Every woken entry was due, they
/// came out in ascending heap order, and none outranks an entry left
/// behind — so wakes happen in deadline order, ties broken by task
/// identity, and never for a deadline that has not come due.
pub open spec fn drained(
    woken: Seq<(u64, usize)>,
    before: Multiset<(u64, usize)>,
    after: Multiset<(u64, usize)>,
    ovf: u32,
    counter: u32,
) -> bool {
    &&& before == after.add(woken.to_multiset())
    &&& forall|i: int| 0 <= i < woken.len() ==> due((#[trigger] woken[i]).0, ovf, counter)
    &&& forall|i: int, j: int|
        #![trigger woken[i], woken[j]]
        0 <= i <= j < woken.len() ==> entry_le(woken[i], woken[j])
    &&& forall|i: int, e: (u64, usize)|
        #![trigger woken[i], after.count(e)]
        0 <= i < woken.len() && after.count(e) > 0 ==> entry_le(woken[i], e)
}

/// A deadline has come due at clock reading (ovf, counter): it lies in the
/// current overflow epoch and its counter value is at most one tick ahead
/// of the current counter. The one-tick margin exists because a compare
/// value only one tick ahead could already have passed by the time it was
/// written to the hardware.
pub open spec fn due(deadline: u64, ovf: u32, counter: u32) -> bool {
    epoch_of(deadline) == ovf && low_bits_of(deadline) <= counter + 1
}

/// The new deadline strictly precedes every pending one (or none is
/// pending): exactly when an insertion must reprogram the compare
/// register inside the same critical step, so that an earlier deadline is
/// never lost because the hardware stayed armed for a later one.
pub open spec fn earliest(deadline: u64, entries: Multiset<(u64, usize)>) -> bool {
    forall|e: (u64, usize)| #[trigger] entries.count(e) > 0 ==> deadline < e.0
}

/// Relies on heapless::binary_heap::BinaryHeap::new: the heap starts empty.
#[verifier::external_body]
fn heap_new() -> (h: heapless::binary_heap::BinaryHeap<
    (u64, usize),
    heapless::binary_heap::Min,
    4,
>)
    ensures
        deadline_entries(h) == Multiset::<(u64, usize)>::empty(),
{
    heapless::binary_heap::BinaryHeap::new()
}

/// Relies on heapless::binary_heap::BinaryHeap::peek: on this `Min`-kind
/// heap it returns the least entry (lexicographic `Ord` on the tuple)
/// without removing it, or `None` when the heap is empty.
#[verifier::external_body]
fn heap_peek(
    h: &heapless::binary_heap::BinaryHeap<(u64, usize), heapless::binary_heap::Min, 4>,
) -> (r: Option<(u64, usize)>)
    ensures
        r is None <==> deadline_entries(*h).len() == 0,
        r is Some ==> is_min_entry(r->Some_0, deadline_entries(*h)),
{
    h.peek().copied()
}

/// Relies on heapless::binary_heap::BinaryHeap::pop: it removes and
/// returns the least entry, or returns `None` when the heap is empty.
#[verifier::external_body]
fn heap_pop(
    h: &mut heapless::binary_heap::BinaryHeap<(u64, usize), heapless::binary_heap::Min, 4>,
) -> (r: Option<(u64, usize)>)
    ensures
        r is None <==> deadline_entries(*old(h)).len() == 0,
        r is None ==> deadline_entries(*final(h)) == deadline_entries(*old(h)),
        r is Some ==> is_min_entry(r->Some_0, deadline_entries(*old(h))) && deadline_entries(
            *final(h),
        ) == deadline_entries(*old(h)).remove(r->Some_0),
{
    h.pop()
}

/// Relies on heapless::binary_heap::BinaryHeap::push: it inserts the entry,
/// handing it back instead when the heap already holds its full capacity
/// of 4 entries.
#[verifier::external_body]
fn heap_push(
    h: &mut heapless::binary_heap::BinaryHeap<(u64, usize), heapless::binary_heap::Min, 4>,
    entry: (u64, usize),
) -> (r: Result<(), (u64, usize)>)
    ensures
        r is Err <==> deadline_entries(*old(h)).len() >= MAX_DEADLINES,
        r is Ok ==> deadline_entries(*final(h)) == deadline_entries(*old(h)).insert(entry),
        r is Err ==> deadline_entries(*final(h)) == deadline_entries(*old(h)),
{
    h.push(entry)
}

/// The overflow epoch a deadline belongs to: its high bits.
fn deadline_epoch(deadline: u64) -> (o: u32)
    requires
        deadline < MAX_DEADLINE_VALUE,
    ensures
        o as int == epoch_of(deadline),
{
    proof {
        assert(deadline >> 24u64 == deadline / 0x100_0000u64) by (bit_vector);
        assert(deadline / 0x100_0000u64 < 0x1_0000_0000u64) by (bit_vector)
            requires
                deadline < 0x100_0000_0000_0000u64,
        ;
    }
    (deadline >> 24u64) as u32
}

/// The raw counter value at which a deadline falls: its low bits.
fn deadline_low(deadline: u64) -> (c: u32)
    ensures
        c as int == low_bits_of(deadline),
        c < COUNTER_PERIOD,
{
    proof {
        assert(deadline & 0xFF_FF_FFu64 == deadline % 0x100_0000u64) by (bit_vector);
    }
    (deadline & 0xFF_FF_FF) as u32
}

/// Law: a due deadline has already elapsed, up to the one-tick compare
/// margin — no task is woken earlier than one tick before its deadline.
pub proof fn lemma_due_implies_elapsed(deadline: u64, ovf: u32, counter: u32)
    requires
        due(deadline, ovf, counter),
    ensures
        deadline as int <= ticks_of(ovf, counter) + 1,
{
    vstd::arithmetic::div_mod::lemma_fundamental_div_mod(
        deadline as int,
        COUNTER_PERIOD as int,
    );
}

/// Law: among deadlines of the current or a later epoch, "due" is closed
/// downward — if a deadline is due, so is every deadline at or below it.
/// The drain that pops a min-ordered heap while its head is due therefore
/// wakes exactly the due entries.
pub proof fn lemma_due_downward_closed(d1: u64, d2: u64, ovf: u32, counter: u32)
    requires
        d1 <= d2,
        due(d2, ovf, counter),
        epoch_of(d1) >= ovf,
    ensures
        due(d1, ovf, counter),
{
    vstd::arithmetic::div_mod::lemma_fundamental_div_mod(d1 as int, COUNTER_PERIOD as int);
    vstd::arithmetic::div_mod::lemma_fundamental_div_mod(d2 as int, COUNTER_PERIOD as int);
    vstd::arithmetic::div_mod::lemma_div_is_ordered(
        d1 as int,
        d2 as int,
        COUNTER_PERIOD as int,
    );
    vstd::arithmetic::div_mod::lemma_mod_bound(d1 as int, COUNTER_PERIOD as int);
    vstd::arithmetic::div_mod::lemma_mod_bound(d2 as int, COUNTER_PERIOD as int);
}

/// Two least entries of the same collection are the same entry.
pub proof fn lemma_min_entry_unique(
    a: (u64, usize),
    b: (u64, usize),
    s: Multiset<(u64, usize)>,
)
    requires
        is_min_entry(a, s),
        is_min_entry(b, s),
    ensures
        a == b,
{
    assert(s.count(a) > 0);
    assert(s.count(b) > 0);
    assert(entry_le(a, b) && entry_le(b, a));
}

/// A nonempty collection has a least entry.
pub proof fn lemma_has_min_entry(s: Multiset<(u64, usize)>)
    requires
        s.len() > 0,
    ensures
        exists|m: (u64, usize)| #[trigger] is_min_entry(m, s),
    decreases s.len(),
{
    broadcast use vstd::multiset::group_multiset_axioms;

    let x = s.choose();
    assert(s.count(x) > 0);
    let rest = s.remove(x);
    assert(rest.insert(x) =~= s);
    vstd::multiset::lemma_insert_len(rest, x);
    if rest.len() == 0 {
        assert forall|e: (u64, usize)| #[trigger] s.count(e) > 0 implies entry_le(x, e) by {
            if e != x {
                assert(rest.count(e) > 0);
                assert(rest.count(e) <= rest.len());
            }
        }
        assert(is_min_entry(x, s));
    } else {
        lemma_has_min_entry(rest);
        let m0 = choose|m: (u64, usize)| #[trigger] is_min_entry(m, rest);
        if entry_le(x, m0) {
            assert forall|e: (u64, usize)| #[trigger] s.count(e) > 0 implies entry_le(
                x,
                e,
            ) by {
                if e != x {
                    assert(rest.count(e) > 0);
                }
            }
            assert(is_min_entry(x, s));
        } else {
            assert(entry_le(m0, x));
            assert(s.count(m0) > 0);
            assert forall|e: (u64, usize)| #[trigger] s.count(e) > 0 implies entry_le(
                m0,
                e,
            ) by {
                if e != x {
                    assert(rest.count(e) > 0);
                }
            }
            assert(is_min_entry(m0, s));
        }
    }
}

/// Law: deadline ordering. In any one run of the drain, tasks are woken
/// in deadline order — an earlier wake never belongs to a later deadline —
/// and only for deadlines that have come due.
pub proof fn lemma_deadline_wake_order(
    woken: Seq<(u64, usize)>,
    before: Multiset<(u64, usize)>,
    after: Multiset<(u64, usize)>,
    ovf: u32,
    counter: u32,
    i: int,
    j: int,
)
    requires
        drained(woken, before, after, ovf, counter),
        0 <= i <= j < woken.len(),
    ensures
        woken[i].0 <= woken[j].0,
        due(woken[i].0, ovf, counter),
        due(woken[j].0, ovf, counter),
{
}

/// Law: no lost wake. When the drain has run to completion — nothing
/// still pending is due — every entry that was due beforehand has had its
/// task woken.
pub proof fn lemma_no_lost_wake(
    woken: Seq<(u64, usize)>,
    before: Multiset<(u64, usize)>,
    after: Multiset<(u64, usize)>,
    ovf: u32,
    counter: u32,
    e: (u64, usize),
)
    requires
        drained(woken, before, after, ovf, counter),
        before.contains(e),
        due(e.0, ovf, counter),
        forall|f: (u64, usize)| #[trigger] after.count(f) > 0 ==> !due(f.0, ovf, counter),
    ensures
        woken.contains(e),
{
    broadcast use vstd::multiset::group_multiset_axioms;
    broadcast use vstd::seq_lib::group_to_multiset_ensures;

    assert(after.count(e) == 0);
    assert(woken.to_multiset().count(e) > 0);
}

/// Holder of the pending deadlines.
pub struct WakeupManager {
    pub deadlines: heapless::binary_heap::BinaryHeap<
        (u64, usize),
        heapless::binary_heap::Min,
        4,
    >,
}

impl WakeupManager {
    /// The pending (deadline, task) pairs.
    pub open spec fn entries(&self) -> Multiset<(u64, usize)> {
        deadline_entries(self.deadlines)
    }

    /// Every pending deadline keeps its epoch representable.
    pub open spec fn wf(&self) -> bool {
        forall|e: (u64, usize)| #[trigger] self.entries().count(e) > 0 ==> e.0
            < MAX_DEADLINE_VALUE
    }

    /// No pending deadline belongs to an epoch the clock has already left
    /// behind; holds whenever due deadlines are drained before the epoch
    /// advances.
    pub open spec fn no_stale_epochs(&self, ovf: u32) -> bool {
        forall|e: (u64, usize)| #[trigger] self.entries().count(e) > 0 ==> epoch_of(e.0)
            >= ovf
    }

    pub fn new() -> (m: WakeupManager)
        ensures
            m.entries() == Multiset::<(u64, usize)>::empty(),
            m.wf(),
    {
        let m = WakeupManager { deadlines: heap_new() };
        proof {
            broadcast use vstd::multiset::group_multiset_axioms;

        }
        m
    }

    /// The reprogramming routine shared by `add_deadline` and the timer
    /// interrupt: drain every due deadline, waking its task, in heap
    /// order; then arm the compare register for the nearest remaining
    /// deadline of the current epoch, or disable the compare event when
    /// nothing remains. Fails only when a wake finds the ready queue full,
    /// in which case the undrained entries (the failed one included) stay.
    fn schedule_wakeup(&mut self, ticker: &mut Ticker, executor: &mut Executor) -> (r: (
        Result<(), SchedError>,
        Ghost<Seq<(u64, usize)>>,
    ))
        requires
            old(self).wf(),
            old(ticker).wf(),
        ensures
            final(self).wf(),
            final(ticker).wf(),
            old(self).no_stale_epochs(old(ticker).ovf_count) ==> final(self).no_stale_epochs(
                old(ticker).ovf_count,
            ),
            final(executor).n_tasks == old(executor).n_tasks,
            final(ticker).ovf_count == old(ticker).ovf_count,
            final(ticker).rtc.counter == old(ticker).rtc.counter,
            final(ticker).rtc.counter_enabled == old(ticker).rtc.counter_enabled,
            final(ticker).rtc.overflow_enabled == old(ticker).rtc.overflow_enabled,
            final(ticker).rtc.overflow_event == old(ticker).rtc.overflow_event,
            final(ticker).rtc.compare_event == old(ticker).rtc.compare_event,
            final(ticker).initialized == old(ticker).initialized,
            drained(
                r.1@,
                old(self).entries(),
                final(self).entries(),
                old(ticker).ovf_count,
                old(ticker).rtc.counter,
            ),
            final(executor).ids() == old(executor).ids() + r.1@.map_values(
                |e: (u64, usize)| e.1,
            ),
            r.0 is Err ==> r.0 == Err::<(), SchedError>(SchedError::ReadyQueueFull) && final(executor).ids().len() >= READY_CAPACITY && final(ticker).rtc.compare_enabled == old(ticker).rtc.compare_enabled && final(ticker).rtc.compare == old(ticker).rtc.compare,
            r.0 is Ok && final(self).entries().len() == 0 ==> !final(ticker).rtc.compare_enabled,
            r.0 is Ok && final(self).entries().len() > 0 ==> exists|m: (u64, usize)|
                #[trigger] is_min_entry(m, final(self).entries()) && !due(
                    m.0,
                    old(ticker).ovf_count,
                    old(ticker).rtc.counter,
                ) && (epoch_of(m.0) == old(ticker).ovf_count ==> final(ticker).rtc.compare_enabled && final(ticker).rtc.compare as int == low_bits_of(m.0)
                    && low_bits_of(m.0) > old(ticker).rtc.counter + 1) && (epoch_of(m.0)
                    != old(ticker).ovf_count ==> !final(ticker).rtc.compare_enabled),
            r.0 is Ok && old(self).no_stale_epochs(old(ticker).ovf_count) ==> forall|
                e: (u64, usize),
            |
                #[trigger] final(self).entries().count(e) > 0 ==> !due(
                    e.0,
                    old(ticker).ovf_count,
                    old(ticker).rtc.counter,
                ),
    {
        let current_ovf = ticker.get_ovf_count();
        let current_counter = ticker.rtc.get_counter();
        let ghost mut woken: Seq<(u64, usize)> = Seq::empty();
        proof {
            broadcast use vstd::multiset::group_multiset_axioms;
            broadcast use vstd::seq_lib::group_to_multiset_ensures;

            assert(old(self).entries() =~= deadline_entries(self.deadlines).add(
                woken.to_multiset(),
            ));
            assert(executor.ids() =~= old(executor).ids() + woken.map_values(
                |e: (u64, usize)| e.1,
            ));
        }
        loop
            invariant
                self.wf(),
                old(ticker).wf(),
                *ticker == *old(ticker),
                current_ovf == old(ticker).ovf_count,
                current_counter == old(ticker).rtc.counter,
                current_counter < COUNTER_PERIOD,
                executor.n_tasks == old(executor).n_tasks,
                old(self).entries() == deadline_entries(self.deadlines).add(
                    woken.to_multiset(),
                ),
                executor.ids() == old(executor).ids() + woken.map_values(
                    |e: (u64, usize)| e.1,
                ),
                forall|i: int|
                    0 <= i < woken.len() ==> due(
                        (#[trigger] woken[i]).0,
                        current_ovf,
                        current_counter,
                    ),
                forall|i: int, j: int|
                    #![trigger woken[i], woken[j]]
        0 <= i <= j < woken.len() ==> entry_le(woken[i], woken[j]),
                forall|i: int, e: (u64, usize)|
                    #![trigger woken[i], deadline_entries(self.deadlines).count(e)]
                    0 <= i < woken.len() && deadline_entries(self.deadlines).count(e) > 0
                        ==> entry_le(woken[i], e),
            ensures
                self.wf(),
                *ticker == *old(ticker),
                executor.n_tasks == old(executor).n_tasks,
                old(self).entries() == deadline_entries(self.deadlines).add(
                    woken.to_multiset(),
                ),
                executor.ids() == old(executor).ids() + woken.map_values(
                    |e: (u64, usize)| e.1,
                ),
                forall|i: int|
                    0 <= i < woken.len() ==> due(
                        (#[trigger] woken[i]).0,
                        current_ovf,
                        current_counter,
                    ),
                forall|i: int, j: int|
                    #![trigger woken[i], woken[j]]
        0 <= i <= j < woken.len() ==> entry_le(woken[i], woken[j]),
                forall|i: int, e: (u64, usize)|
                    #![trigger woken[i], deadline_entries(self.deadlines).count(e)]
                    0 <= i < woken.len() && deadline_entries(self.deadlines).count(e) > 0
                        ==> entry_le(woken[i], e),
                deadline_entries(self.deadlines).len() == 0 || exists|m: (u64, usize)|
                    #[trigger] is_min_entry(m, deadline_entries(self.deadlines)) && !due(
                        m.0,
                        current_ovf,
                        current_counter,
                    ),
            decreases deadline_entries(self.deadlines).len(),
        {
            match heap_peek(&self.deadlines) {
                None => {
                    break ;
                },
                Some(head) => {
                    proof {
                        broadcast use vstd::multiset::group_multiset_axioms;

                        assert(deadline_entries(self.deadlines).count(head) > 0);
                        assert(self.entries().count(head) > 0);
                        assert(head.0 < MAX_DEADLINE_VALUE);
                    }
                    if deadline_epoch(head.0) == current_ovf && deadline_low(head.0)
                        <= current_counter + 1 {
                        match wake_task(executor, head.1) {
                            Err(e) => {
                                return (Err(e), Ghost(woken));
                            },
                            Ok(()) => {},
                        }
                        let popped = heap_pop(&mut self.deadlines);
                        proof {
                            broadcast use vstd::multiset::group_multiset_axioms;
                            broadcast use vstd::seq_lib::group_to_multiset_ensures;

                            let ghost before = deadline_entries(self.deadlines).insert(
                                popped->Some_0,
                            );
                            let p = popped->Some_0;
                            assert(entry_le(p, head) && entry_le(head, p));
                            assert(p == head);
                            let ghost prev = woken;
                            woken = woken.push(head);
                            assert(woken.map_values(|e: (u64, usize)| e.1)
                                =~= prev.map_values(|e: (u64, usize)| e.1).push(head.1));
                            assert(executor.ids() =~= old(executor).ids()
                                + woken.map_values(|e: (u64, usize)| e.1));
                            assert(old(self).entries() =~= deadline_entries(
                                self.deadlines,
                            ).add(woken.to_multiset()));
                            assert forall|i: int, e: (u64, usize)|
                                0 <= i < woken.len() && #[trigger] deadline_entries(
                                    self.deadlines,
                                ).count(e) > 0 implies entry_le(#[trigger] woken[i], e) by {
                                assert(before.count(e) > 0);
                            }
                            assert forall|i: int, j: int|
                                #![trigger woken[i], woken[j]]
                                0 <= i <= j < woken.len() implies entry_le(
                                woken[i],
                                woken[j],
                            ) by {
                                if j == woken.len() - 1 && i < j {
                                    assert(before.count(head) > 0);
                                    assert(entry_le(prev[i], head));
                                }
                            }
                        }
                    } else {
                        proof {
                            assert(is_min_entry(head, deadline_entries(self.deadlines))
                                && !due(head.0, current_ovf, current_counter));
                        }
                        break ;
                    }
                },
            }
        }
        let remaining = heap_peek(&self.deadlines);
        match remaining {
            None => {
                ticker.rtc.disable_compare_event();
            },
            Some(head2) => {
                proof {
                    broadcast use vstd::multiset::group_multiset_axioms;

                    assert(deadline_entries(self.deadlines).count(head2) > 0);
                }
                if deadline_epoch(head2.0) == current_ovf {
                    let low2 = deadline_low(head2.0);
                    ticker.rtc.set_compare(low2);
                    ticker.rtc.enable_compare_event();
                } else {
                    ticker.rtc.disable_compare_event();
                }
            },
        }
        proof {
            broadcast use vstd::multiset::group_multiset_axioms;
            broadcast use vstd::seq_lib::group_to_multiset_ensures;

            assert forall|e: (u64, usize)|
                #[trigger] deadline_entries(self.deadlines).count(e) > 0 implies old(self).entries().count(e) > 0 by {}
            if deadline_entries(self.deadlines).len() > 0 {
                let m0 = choose|m: (u64, usize)|
                    #[trigger] is_min_entry(m, deadline_entries(self.deadlines)) && !due(
                        m.0,
                        current_ovf,
                        current_counter,
                    );
                let h2 = remaining->Some_0;
                assert(entry_le(m0, h2) && entry_le(h2, m0));
                assert(m0 == h2);
                if old(self).no_stale_epochs(old(ticker).ovf_count) {
                    assert forall|e: (u64, usize)|
                        #[trigger] deadline_entries(self.deadlines).count(e) > 0 implies !due(
                        e.0,
                        current_ovf,
                        current_counter,
                    ) by {
                        if due(e.0, current_ovf, current_counter) {
                            assert(old(self).entries().count(m0) > 0);
                            assert(m0.0 <= e.0);
                            lemma_due_downward_closed(
                                m0.0,
                                e.0,
                                current_ovf,
                                current_counter,
                            );
                        }
                    }
                }
            }
        }
        (Ok(()), Ghost(woken))
    }

    /// Re-evaluate pending deadlines against the clock and reprogram the
    /// compare register; called from the timer interrupt on every compare
    /// match and on every overflow.
    pub fn check_and_schedule_wakeups(
        &mut self,
        ticker: &mut Ticker,
        executor: &mut Executor,
    ) -> (r: (Result<(), SchedError>, Ghost<Seq<(u64, usize)>>))
        requires
            old(self).wf(),
            old(ticker).wf(),
        ensures
            final(self).wf(),
            final(ticker).wf(),
            old(self).no_stale_epochs(old(ticker).ovf_count) ==> final(self).no_stale_epochs(
                old(ticker).ovf_count,
            ),
            final(executor).n_tasks == old(executor).n_tasks,
            final(ticker).ovf_count == old(ticker).ovf_count,
            final(ticker).rtc.counter == old(ticker).rtc.counter,
            final(ticker).rtc.counter_enabled == old(ticker).rtc.counter_enabled,
            final(ticker).rtc.overflow_enabled == old(ticker).rtc.overflow_enabled,
            final(ticker).rtc.overflow_event == old(ticker).rtc.overflow_event,
            final(ticker).rtc.compare_event == old(ticker).rtc.compare_event,
            final(ticker).initialized == old(ticker).initialized,
            drained(
                r.1@,
                old(self).entries(),
                final(self).entries(),
                old(ticker).ovf_count,
                old(ticker).rtc.counter,
            ),
            final(executor).ids() == old(executor).ids() + r.1@.map_values(
                |e: (u64, usize)| e.1,
            ),
            r.0 is Err ==> r.0 == Err::<(), SchedError>(SchedError::ReadyQueueFull) && final(executor).ids().len() >= READY_CAPACITY,
            r.0 is Ok && final(self).entries().len() == 0 ==> !final(ticker).rtc.compare_enabled,
            r.0 is Ok && final(self).entries().len() > 0 ==> exists|m: (u64, usize)|
                #[trigger] is_min_entry(m, final(self).entries()) && !due(
                    m.0,
                    old(ticker).ovf_count,
                    old(ticker).rtc.counter,
                ) && (epoch_of(m.0) == old(ticker).ovf_count ==> final(ticker).rtc.compare_enabled && final(ticker).rtc.compare as int == low_bits_of(m.0)
                    && low_bits_of(m.0) > old(ticker).rtc.counter + 1),
            r.0 is Ok && old(self).no_stale_epochs(old(ticker).ovf_count) ==> forall|
                e: (u64, usize),
            |
                #[trigger] final(self).entries().count(e) > 0 ==> !due(
                    e.0,
                    old(ticker).ovf_count,
                    old(ticker).rtc.counter,
                ),
    {
        self.schedule_wakeup(ticker, executor)
    }

    /// Register a deadline for a task. When the new deadline is the
    /// earliest pending one the compare register is reprogrammed at once —
    /// the same drain as the timer interrupt — so a deadline that has
    /// already come due wakes its task immediately rather than being lost.
    /// A full collection is the fatal capacity condition: nothing is
    /// inserted and `DeadlinesFull` comes back.
    pub fn add_deadline(
        &mut self,
        deadline: u64,
        task_id: usize,
        ticker: &mut Ticker,
        executor: &mut Executor,
    ) -> (r: (Result<(), SchedError>, Ghost<Seq<(u64, usize)>>))
        requires
            old(self).wf(),
            old(ticker).wf(),
            deadline < MAX_DEADLINE_VALUE,
        ensures
            final(self).wf(),
            final(ticker).wf(),
            final(executor).n_tasks == old(executor).n_tasks,
            final(ticker).ovf_count == old(ticker).ovf_count,
            final(ticker).rtc.counter == old(ticker).rtc.counter,
            final(ticker).initialized == old(ticker).initialized,
            final(ticker).rtc.counter_enabled == old(ticker).rtc.counter_enabled,
            final(ticker).rtc.overflow_enabled == old(ticker).rtc.overflow_enabled,
            final(ticker).rtc.overflow_event == old(ticker).rtc.overflow_event,
            final(ticker).rtc.compare_event == old(ticker).rtc.compare_event,
            old(self).no_stale_epochs(old(ticker).ovf_count) && epoch_of(deadline) >= old(ticker).ovf_count ==> final(self).no_stale_epochs(old(ticker).ovf_count),
            r.0 == Err::<(), SchedError>(SchedError::DeadlinesFull) <==> old(self).entries().len() >= MAX_DEADLINES,
            r.0 == Err::<(), SchedError>(SchedError::DeadlinesFull) ==> final(self).entries()
                == old(self).entries() && final(executor).ids() == old(executor).ids()
                && r.1@.len() == 0 && *final(ticker) == *old(ticker),
            old(self).entries().len() < MAX_DEADLINES ==> drained(
                r.1@,
                old(self).entries().insert((deadline, task_id)),
                final(self).entries(),
                old(ticker).ovf_count,
                old(ticker).rtc.counter,
            ) && final(executor).ids() == old(executor).ids() + r.1@.map_values(
                |e: (u64, usize)| e.1,
            ),
            old(self).entries().len() < MAX_DEADLINES && !earliest(
                deadline,
                old(self).entries(),
            ) ==> r.0 is Ok && r.1@.len() == 0 && final(ticker).rtc == old(ticker).rtc,
            r.0 == Err::<(), SchedError>(SchedError::ReadyQueueFull) ==> final(executor).ids().len() >= READY_CAPACITY && old(self).entries().len() < MAX_DEADLINES,
            r.0 is Ok && old(self).entries().len() < MAX_DEADLINES && earliest(
                deadline,
                old(self).entries(),
            ) && due(deadline, old(ticker).ovf_count, old(ticker).rtc.counter) ==> final(executor).ids().contains(task_id),
            r.0 is Ok && old(self).entries().len() < MAX_DEADLINES && earliest(
                deadline,
                old(self).entries(),
            ) && final(self).entries().len() > 0 ==> exists|m: (u64, usize)|
                #[trigger] is_min_entry(m, final(self).entries()) && !due(
                    m.0,
                    old(ticker).ovf_count,
                    old(ticker).rtc.counter,
                ) && (epoch_of(m.0) == old(ticker).ovf_count ==> final(ticker).rtc.compare_enabled
                    && final(ticker).rtc.compare as int == low_bits_of(m.0) && low_bits_of(m.0)
                    > old(ticker).rtc.counter + 1) && (epoch_of(m.0) != old(ticker).ovf_count
                    ==> !final(ticker).rtc.compare_enabled),
            r.0 is Ok && old(self).entries().len() < MAX_DEADLINES && earliest(
                deadline,
                old(self).entries(),
            ) && final(self).entries().len() == 0 ==> !final(ticker).rtc.compare_enabled,
    {
        let is_earliest: bool = match heap_peek(&self.deadlines) {
            Some(next) => deadline < next.0,
            None => true,
        };
        proof {
            broadcast use vstd::multiset::group_multiset_axioms;

            assert(is_earliest == earliest(deadline, old(self).entries())) by {
                if deadline_entries(self.deadlines).len() > 0 {
                    let m = choose|m: (u64, usize)|
                        #[trigger] is_min_entry(m, deadline_entries(self.deadlines));
                }
            }
        }
        match heap_push(&mut self.deadlines, (deadline, task_id)) {
            Err(_) => {
                proof {
                    broadcast use vstd::seq_lib::group_to_multiset_ensures;

                }
                return (Err(SchedError::DeadlinesFull), Ghost(Seq::empty()));
            },
            Ok(()) => {},
        }
        proof {
            broadcast use vstd::multiset::group_multiset_axioms;

            assert forall|e: (u64, usize)|
                #[trigger] deadline_entries(self.deadlines).count(e) > 0 implies e.0
                < MAX_DEADLINE_VALUE by {
                if e != (deadline, task_id) {
                    assert(old(self).entries().count(e) > 0);
                }
            }
        }
        if is_earliest {
            let (res, woken) = self.schedule_wakeup(ticker, executor);
            proof {
                broadcast use vstd::multiset::group_multiset_axioms;
                broadcast use vstd::seq_lib::group_to_multiset_ensures;

                let inserted = old(self).entries().insert((deadline, task_id));
                let entry = (deadline, task_id);
                if res is Ok && due(deadline, old(ticker).ovf_count, old(ticker).rtc.counter) {
                    assert(inserted.count(entry) > 0);
                    if self.entries().count(entry) > 0 {
                        let m = choose|m: (u64, usize)|
                            #[trigger] is_min_entry(m, self.entries()) && !due(
                                m.0,
                                old(ticker).ovf_count,
                                old(ticker).rtc.counter,
                            );
                        assert(self.entries().count(m) > 0);
                        assert(inserted.count(m) > 0);
                        assert(entry_le(m, entry));
                        if m != entry {
                            assert(old(self).entries().count(m) > 0);
                            assert(deadline < m.0);
                        }
                        assert(false);
                    }
                    assert(woken@.to_multiset().count(entry) > 0);
                    assert(woken@.contains(entry));
                    let i = choose|i: int|
                        0 <= i < woken@.len() && woken@[i] == entry;
                    assert(woken@.map_values(|e: (u64, usize)| e.1)[i] == task_id);
                    assert(executor.ids()[old(executor).ids().len() + i] == task_id);
                    assert(executor.ids().contains(task_id));
                }
            }
            (res, woken)
        } else {
            proof {
                broadcast use vstd::multiset::group_multiset_axioms;
                broadcast use vstd::seq_lib::group_to_multiset_ensures;

                let w: Seq<(u64, usize)> = Seq::empty();
                assert(w.to_multiset() =~= Multiset::<(u64, usize)>::empty());
                assert(old(self).entries().insert((deadline, task_id)) =~= self.entries().add(
                    w.to_multiset(),
                ));
                assert(executor.ids() =~= executor.ids() + w.map_values(
                    |e: (u64, usize)| e.1,
                ));
            }
            (Ok(()), Ghost(Seq::empty()))
        }
    }
}

} // verus!
