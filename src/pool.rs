//! The pool: a fixed roster of workers sharing one job queue.
use crate::queue::JobQueue;
use crate::worker::{dispatch, dispatches, Action, Worker};
use vstd::prelude::*;

verus! {

/// Why a pool could not be built.
#[derive(Debug, Clone, Copy, PartialEq, Eq, Structural)]
pub enum PoolError {
    /// A pool needs at least one worker.
    ZeroSize,
}

/// The state of a pool of workers that the runtime guards with one lock:
/// the job queue and the roster of workers, numbered `0..size` in
/// construction order.
///
/// The runtime spawns one thread per worker and attaches its handle; each
/// thread then takes turns at the queue through [`ThreadPool::fetch`].
pub struct ThreadPool<J, H> {
    queue: JobQueue<J>,
    workers: Vec<Worker<H>>,
}

impl<J, H> ThreadPool<J, H> {
    /// The job queue.
    pub closed spec fn queue(&self) -> JobQueue<J> {
        self.queue
    }

    /// The roster, in construction order.
    pub closed spec fn roster(&self) -> Seq<Worker<H>> {
        self.workers@
    }

    /// The number of workers.
    pub open spec fn size_spec(&self) -> nat {
        self.roster().len()
    }

    /// The thread handle held by the worker at `i`, if any.
    pub open spec fn thread_at(&self, i: int) -> Option<H> {
        self.roster()[i].slot()
    }

    /// At least one worker, ids matching positions, a well-formed queue.
    pub open spec fn wf(&self) -> bool {
        &&& self.size_spec() > 0
        &&& forall|i: int| 0 <= i < self.size_spec() ==> #[trigger] self.roster()[i].spec_id() == i
        &&& self.queue().wf()
    }

    /// A pool just built with `size` workers: no thread attached yet, the
    /// queue open and empty.
    pub open spec fn is_fresh(&self, size: nat) -> bool {
        &&& self.wf()
        &&& self.size_spec() == size
        &&& forall|i: int| 0 <= i < size ==> #[trigger] self.thread_at(i) is None
        &&& self.queue().is_fresh()
    }

    /// Same roster, and a queue in the same abstract state.
    pub open spec fn same_as(&self, other: Self) -> bool {
        &&& self.roster() == other.roster()
        &&& self.queue().same_as(other.queue())
    }

    /// The pool after `shutdown()` on `self`, and the handles it returned:
    /// the queue closed with its contents kept, every handle moved out in
    /// construction order, ids unchanged.
    pub open spec fn shutdown_spec(&self, handles: Seq<Option<H>>, post: Self) -> bool {
        &&& post.wf()
        &&& !post.queue().accepts()
        &&& post.queue().pending() == self.queue().pending()
        &&& post.queue().submitted() == self.queue().submitted()
        &&& post.queue().delivered() == self.queue().delivered()
        &&& post.size_spec() == self.size_spec()
        &&& handles.len() == self.size_spec()
        &&& forall|i: int|
            0 <= i < self.size_spec() ==> {
                &&& #[trigger] handles[i] == self.thread_at(i)
                &&& post.thread_at(i) is None
                &&& post.roster()[i].spec_id() == self.roster()[i].spec_id()
            }
    }

    /// Builds a pool of `size` workers with ids `0..size`, no thread
    /// attached yet, and an open, empty queue.
    pub fn new(size: usize) -> (p: Self)
        requires
            size > 0,
        ensures
            p.is_fresh(size as nat),
    {
        let mut workers: Vec<Worker<H>> = Vec::with_capacity(size);
        let mut id: usize = 0;
        while id < size
            invariant
                id <= size,
                workers@.len() == id,
                forall|i: int|
                    0 <= i < id ==> (#[trigger] workers@[i]).spec_id() == i && workers@[i].slot() is None,
            decreases size - id,
        {
            workers.push(Worker::new(id));
            id = id + 1;
        }
        ThreadPool { queue: JobQueue::new(), workers }
    }

    /// Builds a pool of `size` workers; fails when `size` is zero.
    pub fn try_new(size: usize) -> (r: Result<Self, PoolError>)
        ensures
            size == 0 <==> r is Err,
            r matches Err(e) ==> e == PoolError::ZeroSize,
            r matches Ok(p) ==> p.is_fresh(size as nat),
    {
        if size == 0 {
            Err(PoolError::ZeroSize)
        } else {
            Ok(ThreadPool::new(size))
        }
    }

    /// The number of workers.
    pub fn size(&self) -> (r: usize)
        ensures
            r == self.size_spec(),
    {
        self.workers.len()
    }

    /// Whether the pool still accepts jobs.
    pub fn is_open(&self) -> (r: bool)
        ensures
            r == self.queue().accepts(),
    {
        self.queue.is_open()
    }

    /// The number of jobs waiting for a worker.
    pub fn pending_len(&self) -> (r: usize)
        ensures
            r == self.queue().pending().len(),
    {
        self.queue.len()
    }

    /// The id of the worker at position `i`.
    pub fn worker_id(&self, i: usize) -> (r: usize)
        requires
            i < self.size_spec(),
        ensures
            r == self.roster()[i as int].spec_id(),
    {
        self.workers[i].id()
    }

    /// Whether the worker with id `id` holds a thread handle.
    pub fn has_thread(&self, id: usize) -> (r: bool)
        requires
            id < self.size_spec(),
        ensures
            r == self.thread_at(id as int) is Some,
    {
        self.workers[id].has_thread()
    }

    /// Hands the worker with id `id` its thread handle; returns the handle
    /// it held before, if any.
    pub fn attach(&mut self, id: usize, thread: H) -> (prev: Option<H>)
        requires
            old(self).wf(),
            id < old(self).size_spec(),
        ensures
            final(self).wf(),
            prev == old(self).thread_at(id as int),
            final(self).queue() == old(self).queue(),
            final(self).size_spec() == old(self).size_spec(),
            final(self).thread_at(id as int) == Some(thread),
            forall|i: int|
                0 <= i < old(self).size_spec() && i != id ==> #[trigger] final(self).roster()[i]
                    == old(self).roster()[i],
    {
        self.workers[id].attach(thread)
    }

    /// Submits a job: it joins the tail of the queue while the pool is
    /// open, and is handed back once the pool has been shut down.
    pub fn execute(&mut self, job: J) -> (r: Result<(), J>)
        requires
            old(self).wf(),
        ensures
            final(self).wf(),
            final(self).roster() == old(self).roster(),
            old(self).queue().submit_spec(job, r, final(self).queue()),
    {
        self.queue.submit(job)
    }

    /// One turn of a worker at the queue (see [`dispatch`]).
    pub fn fetch(&mut self) -> (a: Action<J>)
        requires
            old(self).wf(),
        ensures
            final(self).wf(),
            final(self).roster() == old(self).roster(),
            dispatches(old(self).queue(), a, final(self).queue()),
            a is Exit ==> final(self).queue().is_drained(),
            a is Exit ==> final(self).queue().delivered() == final(self).queue().submitted(),
    {
        dispatch(&mut self.queue)
    }

    /// Closes the queue, so that every waiting worker sees the close, and
    /// moves every thread handle out in construction order, for joining.
    /// On a pool already shut down it closes nothing and returns no handle.
    pub fn shutdown(&mut self) -> (handles: Vec<Option<H>>)
        requires
            old(self).wf(),
        ensures
            old(self).shutdown_spec(handles@, *final(self)),
    {
        self.queue.close();
        let n = self.workers.len();
        let mut handles: Vec<Option<H>> = Vec::with_capacity(n);
        let mut i: usize = 0;
        while i < n
            invariant
                self.wf(),
                n == self.workers@.len(),
                n == old(self).workers@.len(),
                i <= n,
                handles@.len() == i,
                !self.queue.accepts(),
                self.queue.pending() == old(self).queue.pending(),
                self.queue.submitted() == old(self).queue.submitted(),
                self.queue.delivered() == old(self).queue.delivered(),
                forall|k: int| 0 <= k < n ==> #[trigger] self.workers@[k].spec_id() == old(self).workers@[k].spec_id(),
                forall|k: int| 0 <= k < i ==> #[trigger] handles@[k] == old(self).workers@[k].slot(),
                forall|k: int| 0 <= k < i ==> (#[trigger] self.workers@[k]).slot() is None,
                forall|k: int| i <= k < n ==> (#[trigger] self.workers@[k]).slot() == old(self).workers@[k].slot(),
            decreases n - i,
        {
            let h = self.workers[i].take_thread();
            handles.push(h);
            i = i + 1;
        }
        handles
    }
}

/// Before any job is submitted, every worker of a new pool that takes a
/// turn at the queue waits, and leaves the queue as it found it.
pub proof fn lemma_fresh_pool_workers_wait<J, H>(
    p: ThreadPool<J, H>,
    size: nat,
    a: Action<J>,
    post: JobQueue<J>,
)
    requires
        p.is_fresh(size),
        dispatches(p.queue(), a, post),
    ensures
        a is Wait,
        post.same_as(p.queue()),
{
}

/// Shutting the pool down wakes every worker for good: no turn at the queue
/// waits any more; a worker exits exactly when nothing is pending, and then
/// every job ever submitted has been handed out; and no job is accepted.
pub proof fn lemma_shutdown_drains_workers<J, H>(
    p: ThreadPool<J, H>,
    handles: Seq<Option<H>>,
    post: ThreadPool<J, H>,
    a: Action<J>,
    q: JobQueue<J>,
    job: J,
    r: Result<(), J>,
    q2: JobQueue<J>,
)
    requires
        p.wf(),
        p.shutdown_spec(handles, post),
        dispatches(post.queue(), a, q),
        post.queue().submit_spec(job, r, q2),
    ensures
        !(a is Wait),
        a is Exit <==> post.queue().pending().len() == 0,
        a is Exit ==> q.delivered() == q.submitted(),
        a matches Action::Run(j) ==> j == post.queue().pending()[0],
        r == Err::<(), J>(job),
{
}

/// Shutting down twice is safe: the second time no handle comes out and the
/// pool keeps its state.
pub proof fn lemma_second_shutdown_is_noop<J, H>(
    p0: ThreadPool<J, H>,
    h1: Seq<Option<H>>,
    p1: ThreadPool<J, H>,
    h2: Seq<Option<H>>,
    p2: ThreadPool<J, H>,
)
    requires
        p0.wf(),
        p0.shutdown_spec(h1, p1),
        p1.shutdown_spec(h2, p2),
    ensures
        h2.len() == p0.size_spec(),
        forall|i: int| 0 <= i < h2.len() ==> #[trigger] h2[i] is None,
        p2.size_spec() == p1.size_spec(),
        forall|i: int|
            0 <= i < p2.size_spec() ==> #[trigger] p2.roster()[i].spec_id() == p1.roster()[i].spec_id(),
        p2.queue().same_as(p1.queue()),
{
    assert forall|i: int| 0 <= i < h2.len() implies #[trigger] h2[i] is None by {
        assert(h1[i] == p0.thread_at(i));
    }
}

} // verus!
