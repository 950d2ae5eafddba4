//! The dispatch channel's queue: first in, first out, holding tasks and
//! terminate markers.
use std::collections::VecDeque;
use vstd::prelude::*;

verus! {

/// One element of the dispatch channel.
pub enum Message<T> {
    /// A unit of work for exactly one worker.
    Task(T),
    /// Tells exactly one worker to stop.
    Terminate,
}

impl<T> Message<T> {
    /// Whether this message is a terminate marker.
    pub fn is_terminate(&self) -> (r: bool)
        ensures
            r == (*self is Terminate),
    {
        match self {
            Message::Task(_) => false,
            Message::Terminate => true,
        }
    }
}

/// `n` terminate markers in a row.
pub open spec fn terminates<T>(n: nat) -> Seq<Message<T>> {
    Seq::new(n, |i: int| Message::Terminate)
}

/// The messages that `tasks` become when they are submitted in order.
pub open spec fn task_messages<T>(tasks: Seq<T>) -> Seq<Message<T>> {
    tasks.map_values(|t: T| Message::Task(t))
}

/// An unbounded FIFO queue of messages. Its view is the sequence of waiting
/// messages, the oldest first.
pub struct DispatchQueue<T> {
    items: VecDeque<Message<T>>,
}

impl<T> View for DispatchQueue<T> {
    type V = Seq<Message<T>>;

    closed spec fn view(&self) -> Seq<Message<T>> {
        self.items@
    }
}

impl<T> DispatchQueue<T> {
    /// An empty queue.
    pub fn new() -> (q: DispatchQueue<T>)
        ensures
            q@ == Seq::<Message<T>>::empty(),
    {
        DispatchQueue { items: VecDeque::new() }
    }

    /// Appends `msg` behind every message already waiting.
    pub fn send(&mut self, msg: Message<T>)
        ensures
            final(self)@ == old(self)@.push(msg),
    {
        self.items.push_back(msg);
    }

    /// Takes the oldest waiting message, or `None` when nothing waits.
    pub fn receive(&mut self) -> (r: Option<Message<T>>)
        ensures
            old(self)@.len() == 0 ==> r is None && final(self)@ == old(self)@,
            old(self)@.len() > 0 ==> r == Some(old(self)@[0]) && final(self)@ == old(
                self,
            )@.drop_first(),
    {
        self.items.pop_front()
    }

    /// The number of waiting messages.
    pub fn len(&self) -> (r: usize)
        ensures
            r == self@.len(),
    {
        self.items.len()
    }

    /// Whether no message waits.
    pub fn is_empty(&self) -> (r: bool)
        ensures
            r == (self@.len() == 0),
    {
        self.items.len() == 0
    }
}

/// Dispatch is first in, first out: on a non-empty queue, sending a message
/// and then receiving one gives the message that was oldest before the send,
/// and leaves the rest in their order with the new message last.
pub proof fn lemma_receive_after_send<T>(q: Seq<Message<T>>, msg: Message<T>)
    requires
        q.len() > 0,
    ensures
        q.push(msg)[0] == q[0],
        q.push(msg).drop_first() == q.drop_first().push(msg),
{
    assert(q.push(msg).drop_first() =~= q.drop_first().push(msg));
}

/// Submitting tasks one by one to an empty queue leaves it holding exactly
/// their task messages, in submission order: one more submission adds its
/// task message last.
pub proof fn lemma_submit_extends<T>(tasks: Seq<T>, t: T)
    ensures
        task_messages(Seq::<T>::empty()) == Seq::<Message<T>>::empty(),
        task_messages(tasks.push(t)) == task_messages(tasks).push(Message::Task(t)),
{
    assert(task_messages(Seq::<T>::empty()) =~= Seq::<Message<T>>::empty());
    assert(task_messages(tasks.push(t)) =~= task_messages(tasks).push(Message::Task(t)));
}

/// Receiving from a queue that holds `tasks` as task messages hands them out
/// one by one in the order in which they were submitted.
pub proof fn lemma_tasks_leave_in_order<T>(tasks: Seq<T>, k: int)
    requires
        0 <= k < tasks.len(),
    ensures
        task_messages(tasks).subrange(k, tasks.len() as int)[0] == Message::Task(tasks[k]),
        task_messages(tasks).subrange(k, tasks.len() as int).drop_first() == task_messages(
            tasks,
        ).subrange(k + 1, tasks.len() as int),
{
    assert(task_messages(tasks).subrange(k, tasks.len() as int).drop_first() =~= task_messages(
        tasks,
    ).subrange(k + 1, tasks.len() as int));
}

} // verus!
