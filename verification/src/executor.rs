//! Ready-task queue and waker identities.
//!
//! Task identities are small integers: a task's fixed index into the task
//! list. The ready queue is a bounded FIFO of identities; enqueue failure
//! (capacity exhausted) is reported to the caller, since a silently dropped
//! wake would stall a task forever. An out-of-range identity coming out of
//! the queue is discarded, never fatal: the remaining tasks must keep
//! running.

use vstd::prelude::*;

verus! {

/// Capacity of the ready queue, at least the number of tasks.
pub const READY_CAPACITY: usize = 4;

/// A fatal capacity condition: a full bounded collection means a wake or a
/// deadline would be dropped, which would leave a task asleep forever.
#[derive(Debug, PartialEq, Eq, Structural, Clone, Copy)]
pub enum SchedError {
    ReadyQueueFull,
    DeadlinesFull,
}

/// The task identities a ready queue holds, oldest first.
pub uninterp spec fn ready_ids(q: heapless::mpmc::MpMcQueue<usize, 4>) -> Seq<usize>;

#[verifier::external_type_specification]
#[verifier::external_body]
#[verifier::reject_recursive_types(T)]
pub struct ExMpMcQueue<T, const N: usize>(heapless::mpmc::MpMcQueue<T, N>);

/// Relies on heapless::mpmc::MpMcQueue::new: the queue starts empty.
#[verifier::external_body]
fn queue_new() -> (q: heapless::mpmc::MpMcQueue<usize, 4>)
    ensures
        ready_ids(q) == Seq::<usize>::empty(),
{
    heapless::mpmc::MpMcQueue::new()
}

/// Relies on heapless::mpmc::MpMcQueue::enqueue: under this exclusive
/// (single-threaded) access it appends the item at the back of the FIFO,
/// handing the item back instead when all 4 slots are occupied.
#[verifier::external_body]
fn queue_enqueue(q: &mut heapless::mpmc::MpMcQueue<usize, 4>, id: usize) -> (r: Result<
    (),
    usize,
>)
    ensures
        ready_ids(*old(q)).len() < READY_CAPACITY ==> r is Ok,
        r is Ok ==> ready_ids(*final(q)) == ready_ids(*old(q)).push(id),
        r is Err ==> ready_ids(*old(q)).len() >= READY_CAPACITY && ready_ids(*final(q))
            == ready_ids(*old(q)),
{
    q.enqueue(id)
}

/// Relies on heapless::mpmc::MpMcQueue::dequeue: under this exclusive
/// access it removes and returns the item at the front of the FIFO, or
/// `None` when the queue is empty.
#[verifier::external_body]
fn queue_dequeue(q: &mut heapless::mpmc::MpMcQueue<usize, 4>) -> (r: Option<usize>)
    ensures
        ready_ids(*old(q)).len() == 0 ==> r is None,
        r is None ==> ready_ids(*old(q)).len() == 0 && ready_ids(*final(q)) == ready_ids(
            *old(q),
        ),
        r is Some ==> ready_ids(*old(q)).len() > 0 && r == Some(ready_ids(*old(q)).first())
            && ready_ids(*final(q)) == ready_ids(*old(q)).drop_first(),
{
    q.dequeue()
}

/// `s` with every leading out-of-range identity removed: what the drain
/// loop sees once it has discarded corrupted entries at the front.
pub open spec fn skip_invalid(s: Seq<usize>, n_tasks: usize) -> Seq<usize>
    decreases s.len(),
{
    if s.len() == 0 {
        s
    } else if s.first() < n_tasks {
        s
    } else {
        skip_invalid(s.drop_first(), n_tasks)
    }
}

/// The identity the next dequeue-and-validate step yields, if any.
pub open spec fn first_valid(s: Seq<usize>, n_tasks: usize) -> Option<usize> {
    if skip_invalid(s, n_tasks).len() == 0 {
        None
    } else {
        Some(skip_invalid(s, n_tasks).first())
    }
}

/// What the queue holds after the next dequeue-and-validate step.
pub open spec fn after_next(s: Seq<usize>, n_tasks: usize) -> Seq<usize> {
    if skip_invalid(s, n_tasks).len() == 0 {
        skip_invalid(s, n_tasks)
    } else {
        skip_invalid(s, n_tasks).drop_first()
    }
}

/// The executor's consumer state: the ready queue plus the fixed task
/// count against which dequeued identities are validated.
pub struct Executor {
    pub ready: heapless::mpmc::MpMcQueue<usize, 4>,
    pub n_tasks: usize,
}

impl Executor {
    /// The queue's contents, oldest first.
    pub open spec fn ids(&self) -> Seq<usize> {
        ready_ids(self.ready)
    }

    pub open spec fn wf(&self) -> bool {
        self.n_tasks <= READY_CAPACITY
    }

    pub fn new(n_tasks: usize) -> (e: Executor)
        requires
            n_tasks <= READY_CAPACITY,
        ensures
            e.wf(),
            e.n_tasks == n_tasks,
            e.ids() == Seq::<usize>::empty(),
    {
        Executor { ready: queue_new(), n_tasks }
    }

    /// Enqueue every task identity once, so each task gets an initial poll.
    pub fn prime(&mut self)
        requires
            old(self).wf(),
            old(self).ids().len() == 0,
        ensures
            final(self).wf(),
            final(self).n_tasks == old(self).n_tasks,
            final(self).ids() == Seq::new(old(self).n_tasks as nat, |i: int| i as usize),
    {
        let n = self.n_tasks;
        let mut task_id: usize = 0;
        while task_id < n
            invariant
                self.wf(),
                self.n_tasks == n,
                task_id <= n,
                self.ids() == Seq::new(task_id as nat, |i: int| i as usize),
            decreases n - task_id,
        {
            let r = queue_enqueue(&mut self.ready, task_id);
            proof {
                assert(r is Ok);
                assert(Seq::new((task_id + 1) as nat, |i: int| i as usize) =~= Seq::new(
                    task_id as nat,
                    |i: int| i as usize,
                ).push(task_id));
            }
            task_id = task_id + 1;
        }
    }

    /// Dequeue the identity of the next task to poll, discarding (as the
    /// non-fatal corrupted-waker case) any leading identity that is not
    /// below the task count.
    pub fn next_ready(&mut self) -> (r: Option<usize>)
        ensures
            final(self).n_tasks == old(self).n_tasks,
            r == first_valid(old(self).ids(), old(self).n_tasks),
            final(self).ids() == after_next(old(self).ids(), old(self).n_tasks),
            r is Some ==> r->Some_0 < old(self).n_tasks,
    {
        let n = self.n_tasks;
        loop
            invariant
                self.n_tasks == n,
                n == old(self).n_tasks,
                skip_invalid(self.ids(), n) == skip_invalid(old(self).ids(), n),
            decreases self.ids().len(),
        {
            match queue_dequeue(&mut self.ready) {
                None => {
                    return None;
                },
                Some(id) => {
                    if id < n {
                        return Some(id);
                    }
                },
            }
        }
    }
}

/// Mark a task ready: enqueue its identity. Callable from interrupt paths
/// and from a task's own poll step; a full queue is the explicit fatal
/// condition (wakes outpacing drains means the capacity was mis-sized).
pub fn wake_task(executor: &mut Executor, task_id: usize) -> (r: Result<(), SchedError>)
    ensures
        final(executor).n_tasks == old(executor).n_tasks,
        old(executor).ids().len() < READY_CAPACITY ==> r is Ok,
        r is Ok ==> final(executor).ids() == old(executor).ids().push(task_id),
        r is Err ==> r == Err::<(), SchedError>(SchedError::ReadyQueueFull) && old(
            executor,
        ).ids().len() >= READY_CAPACITY && final(executor).ids() == old(executor).ids(),
{
    match queue_enqueue(&mut executor.ready, task_id) {
        Ok(()) => Ok(()),
        Err(_) => Err(SchedError::ReadyQueueFull),
    }
}

/// An opaque wake capability encoding exactly one task identity.
#[derive(Clone, Copy)]
pub struct Waker {
    pub id: usize,
}

/// Anything that exposes the task identity it would wake.
pub trait ExtWaker {
    spec fn spec_task_id(&self) -> usize;

    fn task_id(&self) -> (id: usize)
        ensures
            id == self.spec_task_id(),
    ;
}

impl ExtWaker for Waker {
    open spec fn spec_task_id(&self) -> usize {
        self.id
    }

    fn task_id(&self) -> (id: usize) {
        self.id
    }
}

impl Waker {
    /// Mark this waker's task ready on the given executor.
    pub fn wake(&self, executor: &mut Executor) -> (r: Result<(), SchedError>)
        ensures
            final(executor).n_tasks == old(executor).n_tasks,
            old(executor).ids().len() < READY_CAPACITY ==> r is Ok,
            r is Ok ==> final(executor).ids() == old(executor).ids().push(self.id),
            r is Err ==> old(executor).ids().len() >= READY_CAPACITY && final(executor).ids()
                == old(executor).ids(),
    {
        wake_task(executor, self.id)
    }
}

/// A waker for the given task identity; clones of it are equivalent.
pub fn get_waker(task_id: usize) -> (w: Waker)
    ensures
        w.id == task_id,
{
    Waker { id: task_id }
}

/// Law: FIFO fairness. While every queued identity is in range, tasks come
/// out of the ready queue in exactly the order they were marked ready: the
/// next poll goes to the head, and the rest keep their order. In
/// particular, two tasks both marked ready before any poll are each polled
/// once before either is polled again.
pub proof fn lemma_ready_fifo(ids: Seq<usize>, n_tasks: usize)
    requires
        ids.len() > 0,
        forall|i: int| 0 <= i < ids.len() ==> ids[i] < n_tasks,
    ensures
        first_valid(ids, n_tasks) == Some(ids.first()),
        after_next(ids, n_tasks) == ids.drop_first(),
{
    assert(ids.first() < n_tasks);
    assert(skip_invalid(ids, n_tasks) == ids);
}

} // verus!
