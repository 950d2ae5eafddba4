//! The pool's own decisions: how many workers it has, whether it still
//! accepts tasks, what shutdown puts on the channel, and the order in which
//! worker threads are joined.
use crate::dispatch::{task_messages, terminates, DispatchQueue, Message};
use vstd::prelude::*;

verus! {

/// Returned by a submission once shutdown has begun.
#[derive(Clone, Copy, Debug, PartialEq, Eq, Structural)]
pub struct PoolClosedError;

/// The abstract state of a pool: its fixed worker count, whether shutdown has
/// begun, and which workers have been joined.
pub struct PoolView {
    pub size: nat,
    pub closed: bool,
    pub joined: Seq<bool>,
}

/// Whether a pool in state `p` takes new tasks: only until shutdown begins.
pub open spec fn accepts_tasks(p: PoolView) -> bool {
    !p.closed
}

/// The ids `0..n` of the workers in `joined` that were not joined yet,
/// ascending.
pub open spec fn pending_upto(joined: Seq<bool>, n: nat) -> Seq<usize>
    decreases n,
{
    if n == 0 {
        Seq::empty()
    } else if !joined[n - 1] {
        pending_upto(joined, (n - 1) as nat).push((n - 1) as usize)
    } else {
        pending_upto(joined, (n - 1) as nat)
    }
}

/// The bookkeeping of a pool of worker threads.
pub struct PoolControl {
    size: usize,
    closed: bool,
    joined: Vec<bool>,
}

impl View for PoolControl {
    type V = PoolView;

    closed spec fn view(&self) -> PoolView {
        PoolView { size: self.size as nat, closed: self.closed, joined: self.joined@ }
    }
}

impl PoolControl {
    /// The worker count is positive and each worker has one join flag.
    pub open spec fn wf(&self) -> bool {
        &&& self@.size > 0
        &&& self@.joined.len() == self@.size
    }

    /// A pool of `size` workers, none joined, accepting tasks. A pool without
    /// workers could make no progress, so `size` must be positive.
    pub fn new(size: usize) -> (p: PoolControl)
        requires
            size > 0,
        ensures
            p.wf(),
            p@.size == size,
            !p@.closed,
            p@.joined == Seq::new(size as nat, |i: int| false),
    {
        let mut joined: Vec<bool> = Vec::with_capacity(size);
        let mut i: usize = 0;
        while i < size
            invariant
                i <= size,
                joined@ == Seq::new(i as nat, |j: int| false),
            decreases size - i,
        {
            joined.push(false);
            i = i + 1;
        }
        PoolControl { size, closed: false, joined }
    }

    /// The number of workers, fixed for the pool's lifetime.
    pub fn size(&self) -> (r: usize)
        ensures
            r == self@.size,
    {
        self.size
    }

    /// Whether shutdown has begun.
    pub fn is_closed(&self) -> (r: bool)
        ensures
            r == self@.closed,
    {
        self.closed
    }

    /// Puts `task` on the channel behind everything submitted before it, or,
    /// once shutdown has begun, refuses it and leaves the channel as it was.
    pub fn submit<T>(&self, queue: &mut DispatchQueue<T>, task: T) -> (r: Result<
        (),
        PoolClosedError,
    >)
        ensures
            r is Ok <==> accepts_tasks(self@),
            r is Ok ==> final(queue)@ == old(queue)@.push(Message::Task(task)),
            r is Err ==> final(queue)@ == old(queue)@,
    {
        if self.closed {
            Err(PoolClosedError)
        } else {
            queue.send(Message::Task(task));
            Ok(())
        }
    }

    /// Begins shutdown: from now on submissions are refused, and one terminate
    /// marker per worker goes on the channel behind every task submitted
    /// before. A second call changes nothing. Returns whether this call began
    /// it.
    pub fn shutdown<T>(&mut self, queue: &mut DispatchQueue<T>) -> (r: bool)
        requires
            old(self).wf(),
        ensures
            final(self).wf(),
            r == !old(self)@.closed,
            final(self)@ == (PoolView { closed: true, ..old(self)@ }),
            r ==> final(queue)@ == old(queue)@ + terminates::<T>(old(self)@.size),
            !r ==> final(queue)@ == old(queue)@,
    {
        if self.closed {
            return false;
        }
        self.closed = true;
        let mut i: usize = 0;
        assert(old(queue)@ + terminates::<T>(0) =~= old(queue)@);
        while i < self.size
            invariant
                i <= self.size,
                queue@ == old(queue)@ + terminates::<T>(i as nat),
                self.size == old(self).size,
                self.joined == old(self).joined,
                self.closed,
            decreases self.size - i,
        {
            proof {
                assert(terminates::<T>(i as nat).push(Message::Terminate) =~= terminates::<T>(
                    (i + 1) as nat,
                ));
            }
            queue.send(Message::Terminate);
            assert(old(queue)@ + terminates::<T>(i as nat).push(Message::Terminate) =~= (old(queue)@
                + terminates::<T>(i as nat)).push(Message::Terminate));
            i = i + 1;
        }
        true
    }

    /// Whether worker `id` has been joined.
    pub fn is_joined(&self, id: usize) -> (r: bool)
        requires
            self.wf(),
            id < self@.size,
        ensures
            r == self@.joined[id as int],
    {
        self.joined[id]
    }

    /// The workers to join now, in ascending id order, each at most once:
    /// those not joined yet, once shutdown has begun, else none (joining a
    /// worker that was never told to stop would block). They count as joined
    /// from here on.
    pub fn take_join_order(&mut self) -> (order: Vec<usize>)
        requires
            old(self).wf(),
        ensures
            final(self).wf(),
            final(self)@.size == old(self)@.size,
            final(self)@.closed == old(self)@.closed,
            old(self)@.closed ==> order@ == pending_upto(old(self)@.joined, old(self)@.size),
            old(self)@.closed ==> final(self)@.joined == Seq::new(old(self)@.size, |i: int| true),
            !old(self)@.closed ==> order@.len() == 0 && final(self)@ == old(self)@,
    {
        let mut order: Vec<usize> = Vec::new();
        if !self.closed {
            return order;
        }
        let ghost before = self.joined@;
        let mut i: usize = 0;
        while i < self.size
            invariant
                self.wf(),
                self.closed,
                i <= self.size,
                self.size == old(self).size,
                before == old(self)@.joined,
                order@ == pending_upto(before, i as nat),
                forall|j: int| 0 <= j < i ==> self.joined@[j],
                forall|j: int| i <= j < self.size ==> self.joined@[j] == before[j],
            decreases self.size - i,
        {
            if !self.joined[i] {
                order.push(i);
            }
            self.joined.set(i, true);
            i = i + 1;
        }
        assert(self.joined@ =~= Seq::new(self.size as nat, |i: int| true));
        order
    }
}

/// On a pool where no worker was joined, the join order holds the first `n`
/// ids, each once, ascending.
proof fn lemma_pending_all(size: nat, n: nat)
    requires
        n <= size,
    ensures
        pending_upto(Seq::new(size, |i: int| false), n) == Seq::new(n, |i: int| i as usize),
    decreases n,
{
    if n > 0 {
        lemma_pending_all(size, (n - 1) as nat);
        assert(pending_upto(Seq::new(size, |i: int| false), n) =~= Seq::new(n, |i: int| i as usize));
    }
}

/// Nothing is left to join once every worker is joined.
proof fn lemma_pending_none(size: nat, n: nat)
    requires
        n <= size,
    ensures
        pending_upto(Seq::new(size, |i: int| true), n) == Seq::<usize>::empty(),
    decreases n,
{
    if n > 0 {
        lemma_pending_none(size, (n - 1) as nat);
    }
}

/// Teardown joins every worker exactly once: a pool of `size` workers, none
/// joined, joins ids `0..size` in order on its first join after shutdown, and
/// nothing on any later one.
pub proof fn lemma_each_worker_joined_once(size: nat)
    requires
        size > 0,
    ensures
        pending_upto(Seq::new(size, |i: int| false), size) == Seq::new(size, |i: int| i as usize),
        pending_upto(Seq::new(size, |i: int| true), size) == Seq::<usize>::empty(),
{
    lemma_pending_all(size, size);
    lemma_pending_none(size, size);
}

/// Once shutdown has begun, the pool refuses every submission: the state that
/// shutdown leaves takes no task, and neither does the one a second shutdown
/// leaves. (A submission does not change the pool's state.)
pub proof fn lemma_closed_refuses(p: PoolView)
    ensures
        !accepts_tasks(PoolView { closed: true, ..p }),
        !accepts_tasks(PoolView { closed: true, ..(PoolView { closed: true, ..p }) }),
{
}

/// No task is lost or run twice, and none is cut off by shutdown: after `tasks`
/// were submitted to an open pool of `size` workers and shutdown began, the
/// channel holds each task once, in submission order, and then exactly `size`
/// terminate markers, so that every task leaves the channel before any worker
/// is told to stop, and each worker is told once.
pub proof fn lemma_drain_before_terminate<T>(tasks: Seq<T>, size: nat)
    ensures
        ({
            let q = task_messages(tasks) + terminates::<T>(size);
            &&& q.len() == tasks.len() + size
            &&& forall|k: int| 0 <= k < tasks.len() ==> q[k] == Message::Task(tasks[k])
            &&& forall|k: int| tasks.len() <= k < q.len() ==> q[k] is Terminate
            &&& forall|i: int, j: int|
                0 <= i < j < q.len() && q[j] is Task ==> q[i] is Task
        }),
{
    let q = task_messages(tasks) + terminates::<T>(size);
    assert forall|i: int, j: int| 0 <= i < j < q.len() && q[j] is Task implies q[i] is Task by {
        assert(j < tasks.len());
    }
}

} // verus!
