//! Workers: a stable id with a thread slot, and the decision a worker makes
//! each time it holds the queue lock.
use crate::queue::{JobQueue, Received};
use vstd::prelude::*;

verus! {

/// What a worker does after one turn at the queue.
///
/// `Run` and `Wait` keep the worker running; `Exit` is the terminal
/// shutting-down state: the queue is closed and drained, and it never
/// reopens, so the worker's loop ends and its thread becomes joinable.
pub enum Action<J> {
    /// Release the lock, then run this job to completion.
    Run(J),
    /// Nothing is pending yet: wait for a submission or for the close.
    Wait,
    /// Leave the dispatch loop.
    Exit,
}

/// The relation between the queue before a turn, the action taken, and the
/// queue after it.
pub open spec fn dispatches<J>(q: JobQueue<J>, a: Action<J>, post: JobQueue<J>) -> bool {
    exists|r: Received<J>|
        #![trigger q.receive_spec(r, post)]
        q.receive_spec(r, post) && a == action_for(r)
}

/// The action a worker takes on what the queue handed it.
pub open spec fn action_for<J>(r: Received<J>) -> Action<J> {
    match r {
        Received::Job(j) => Action::Run(j),
        Received::Empty => Action::Wait,
        Received::Closed => Action::Exit,
    }
}

/// One turn of a worker's dispatch loop, made while holding the queue lock:
/// take the next job if there is one, wait while the queue is open and
/// empty, exit once it is closed and drained.
///
/// The job is handed back rather than run here, so that the lock is never
/// held while a job executes.
pub fn dispatch<J>(queue: &mut JobQueue<J>) -> (a: Action<J>)
    requires
        old(queue).wf(),
    ensures
        final(queue).wf(),
        dispatches(*old(queue), a, *final(queue)),
        a is Exit ==> final(queue).is_drained(),
        a is Exit ==> final(queue).delivered() == final(queue).submitted(),
{
    let r = queue.receive();
    match r {
        Received::Job(j) => Action::Run(j),
        Received::Empty => Action::Wait,
        Received::Closed => Action::Exit,
    }
}

/// A worker as the pool records it: its id and, until it is taken for
/// joining, the handle of its thread.
pub struct Worker<H> {
    id: usize,
    thread: Option<H>,
}

impl<H> Worker<H> {
    /// The worker's id, fixed for its lifetime.
    pub closed spec fn spec_id(&self) -> usize {
        self.id
    }

    /// The thread handle the worker holds, if any.
    pub closed spec fn slot(&self) -> Option<H> {
        self.thread
    }

    /// A worker with the given id and no thread yet.
    pub fn new(id: usize) -> (w: Self)
        ensures
            w.spec_id() == id,
            w.slot() is None,
    {
        Worker { id, thread: None }
    }

    /// The worker's id.
    pub fn id(&self) -> (r: usize)
        ensures
            r == self.spec_id(),
    {
        self.id
    }

    /// Whether the worker still holds a thread handle.
    pub fn has_thread(&self) -> (r: bool)
        ensures
            r == self.slot() is Some,
    {
        self.thread.is_some()
    }

    /// Stores `thread` in the slot; returns what the slot held before.
    pub fn attach(&mut self, thread: H) -> (prev: Option<H>)
        ensures
            prev == old(self).slot(),
            final(self).slot() == Some(thread),
            final(self).spec_id() == old(self).spec_id(),
    {
        let prev = self.thread.take();
        self.thread = Some(thread);
        prev
    }

    /// Moves the thread handle out, leaving the slot empty; a second call
    /// yields `None`.
    pub fn take_thread(&mut self) -> (r: Option<H>)
        ensures
            r == old(self).slot(),
            final(self).slot() is None,
            final(self).spec_id() == old(self).spec_id(),
    {
        self.thread.take()
    }
}

} // verus!
