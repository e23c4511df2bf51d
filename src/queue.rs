//! The job queue: an unbounded FIFO hand-off from submitters to workers,
//! closed once to signal shutdown.
use std::collections::VecDeque;
use vstd::prelude::*;

verus! {

/// What one attempt to take a job from the queue yields.
pub enum Received<J> {
    /// The job at the head of the queue, now owned by the caller.
    Job(J),
    /// The queue is open and holds nothing: the caller waits.
    Empty,
    /// The queue is closed and drained: nothing will ever arrive.
    Closed,
}

/// An unbounded FIFO of jobs with a one-way open/closed switch.
///
/// Besides the pending jobs it keeps, as ghost state, the history of every
/// job ever accepted and every job ever handed out, so that no job is lost
/// or handed out twice.
pub struct JobQueue<J> {
    pending: VecDeque<J>,
    open: bool,
    submitted: Ghost<Seq<J>>,
    delivered: Ghost<Seq<J>>,
}

impl<J> JobQueue<J> {
    /// Jobs accepted and not yet handed out, oldest first.
    pub closed spec fn pending(&self) -> Seq<J> {
        self.pending@
    }

    /// Whether the queue still accepts jobs.
    pub closed spec fn accepts(&self) -> bool {
        self.open
    }

    /// Every job ever accepted, in order of submission.
    pub closed spec fn submitted(&self) -> Seq<J> {
        self.submitted@
    }

    /// Every job ever handed out, in order of delivery.
    pub closed spec fn delivered(&self) -> Seq<J> {
        self.delivered@
    }

    /// Accepted jobs are exactly those handed out followed by those pending.
    pub open spec fn wf(&self) -> bool {
        self.submitted() == self.delivered() + self.pending()
    }

    /// Closed, with nothing left to hand out.
    pub open spec fn is_drained(&self) -> bool {
        !self.accepts() && self.pending().len() == 0
    }

    /// A fresh queue: open, empty, with no history.
    pub open spec fn is_fresh(&self) -> bool {
        &&& self.wf()
        &&& self.accepts()
        &&& self.pending() == Seq::<J>::empty()
        &&& self.submitted() == Seq::<J>::empty()
        &&& self.delivered() == Seq::<J>::empty()
    }

    /// The same abstract state as `other`.
    pub open spec fn same_as(&self, other: Self) -> bool {
        &&& self.accepts() == other.accepts()
        &&& self.pending() == other.pending()
        &&& self.submitted() == other.submitted()
        &&& self.delivered() == other.delivered()
    }

    /// The state after `submit(job)` on `self`, and what the call returns.
    pub open spec fn submit_spec(&self, job: J, r: Result<(), J>, post: Self) -> bool {
        if self.accepts() {
            &&& r == Ok::<(), J>(())
            &&& post.accepts()
            &&& post.pending() == self.pending().push(job)
            &&& post.submitted() == self.submitted().push(job)
            &&& post.delivered() == self.delivered()
        } else {
            &&& r == Err::<(), J>(job)
            &&& post.same_as(*self)
        }
    }

    /// The state after `receive()` on `self`, and what the call returns.
    pub open spec fn receive_spec(&self, r: Received<J>, post: Self) -> bool {
        if self.pending().len() > 0 {
            &&& r == Received::Job(self.pending()[0])
            &&& post.accepts() == self.accepts()
            &&& post.pending() == self.pending().drop_first()
            &&& post.submitted() == self.submitted()
            &&& post.delivered() == self.delivered().push(self.pending()[0])
        } else if self.accepts() {
            &&& r == Received::<J>::Empty
            &&& post.same_as(*self)
        } else {
            &&& r == Received::<J>::Closed
            &&& post.same_as(*self)
        }
    }

    /// Makes an open, empty queue.
    pub fn new() -> (q: Self)
        ensures
            q.is_fresh(),
    {
        JobQueue {
            pending: VecDeque::new(),
            open: true,
            submitted: Ghost(Seq::empty()),
            delivered: Ghost(Seq::empty()),
        }
    }

    /// Whether the queue still accepts jobs.
    pub fn is_open(&self) -> (r: bool)
        ensures
            r == self.accepts(),
    {
        self.open
    }

    /// The number of jobs waiting to be handed out.
    pub fn len(&self) -> (r: usize)
        ensures
            r == self.pending().len(),
    {
        self.pending.len()
    }

    /// Appends `job` at the tail; hands it back when the queue is closed.
    pub fn submit(&mut self, job: J) -> (r: Result<(), J>)
        requires
            old(self).wf(),
        ensures
            final(self).wf(),
            old(self).submit_spec(job, r, *final(self)),
    {
        if self.open {
            self.pending.push_back(job);
            self.submitted = Ghost(self.submitted@.push(job));
            proof {
                assert(self.submitted@ =~= self.delivered@ + self.pending@);
            }
            Ok(())
        } else {
            Err(job)
        }
    }

    /// Takes the job at the head; reports `Empty` while the queue is open
    /// and holds nothing, and `Closed` once it is closed and drained.
    pub fn receive(&mut self) -> (r: Received<J>)
        requires
            old(self).wf(),
        ensures
            final(self).wf(),
            old(self).receive_spec(r, *final(self)),
    {
        match self.pending.pop_front() {
            Some(job) => {
                proof {
                    let old_pending = old(self).pending@;
                    self.delivered@ = self.delivered@.push(job);
                    assert(old_pending.drop_first() =~= self.pending@);
                    assert(self.submitted@ =~= self.delivered@ + self.pending@);
                }
                Received::Job(job)
            },
            None => {
                if self.open {
                    Received::Empty
                } else {
                    Received::Closed
                }
            },
        }
    }

    /// Closes the queue, which stays closed; returns whether it was open.
    pub fn close(&mut self) -> (was_open: bool)
        requires
            old(self).wf(),
        ensures
            final(self).wf(),
            was_open == old(self).accepts(),
            !final(self).accepts(),
            final(self).pending() == old(self).pending(),
            final(self).submitted() == old(self).submitted(),
            final(self).delivered() == old(self).delivered(),
    {
        let was_open = self.open;
        self.open = false;
        was_open
    }
}

/// Jobs leave the queue in the order they entered it: what has been handed
/// out is a prefix of what was submitted, and what is pending is the rest.
pub proof fn lemma_delivered_in_submission_order<J>(q: JobQueue<J>)
    requires
        q.wf(),
    ensures
        q.delivered().len() <= q.submitted().len(),
        q.delivered() == q.submitted().subrange(0, q.delivered().len() as int),
        q.pending() == q.submitted().subrange(q.delivered().len() as int, q.submitted().len() as int),
{
    assert(q.delivered() =~= q.submitted().subrange(0, q.delivered().len() as int));
    assert(q.pending() =~= q.submitted().subrange(
        q.delivered().len() as int,
        q.submitted().len() as int,
    ));
}

/// Once the queue is closed and drained, every job ever submitted has been
/// handed out, each exactly as many times as it was submitted.
pub proof fn lemma_drained_queue_delivered_every_job_once<J>(q: JobQueue<J>)
    requires
        q.wf(),
        q.is_drained(),
    ensures
        q.delivered() == q.submitted(),
        forall|j: J| #[trigger] q.delivered().to_multiset().count(j) == q.submitted().to_multiset().count(j),
{
    assert(q.delivered() + q.pending() =~= q.delivered());
}

} // verus!
