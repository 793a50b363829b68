//! The bounded, ordered queue between the producers and the worker.

use crate::job::Job;
use std::collections::VecDeque;
use vstd::prelude::*;

verus! {

/// The capacity of a queue where none is configured.
pub const DEFAULT_CAPACITY: usize = 100;

/// What a queue is, in contracts: the jobs it holds, oldest first, its fixed
/// capacity, and whether it has been closed.
pub struct QueueView {
    pub jobs: Seq<Job>,
    pub capacity: nat,
    pub closed: bool,
}

impl QueueView {
    /// The queue can take one more job.
    pub open spec fn accepts(self) -> bool {
        !self.closed && self.jobs.len() < self.capacity
    }

    /// The queue is open and holds as many jobs as it may.
    pub open spec fn full(self) -> bool {
        !self.closed && self.jobs.len() >= self.capacity
    }

    /// The queue after it has accepted `job`.
    pub open spec fn with(self, job: Job) -> QueueView {
        QueueView { jobs: self.jobs.push(job), ..self }
    }

    /// The queue after its oldest job has left.
    pub open spec fn without_oldest(self) -> QueueView {
        QueueView { jobs: self.jobs.subrange(1, self.jobs.len() as int), ..self }
    }

    /// The queue after it has been closed.
    pub open spec fn shut(self) -> QueueView {
        QueueView { closed: true, ..self }
    }

    /// The queue after an attempt to enqueue `job`: it grows where it
    /// accepts, and is unchanged where it is full or closed.
    pub open spec fn after_enqueue(self, job: Job) -> QueueView {
        if self.accepts() {
            self.with(job)
        } else {
            self
        }
    }

    /// The queue after an attempt to dequeue.
    pub open spec fn after_dequeue(self) -> QueueView {
        if self.jobs.len() > 0 {
            self.without_oldest()
        } else {
            self
        }
    }

    /// The queue after each of `jobs` has been offered to it in order.
    pub open spec fn after_enqueue_all(self, jobs: Seq<Job>) -> QueueView
        decreases jobs.len(),
    {
        if jobs.len() == 0 {
            self
        } else {
            self.after_enqueue_all(jobs.drop_last()).after_enqueue(jobs.last())
        }
    }

    /// The jobs that `n` dequeues hand out, in the order they come.
    pub open spec fn drained(self, n: nat) -> Seq<Job>
        decreases n,
    {
        if n == 0 || self.jobs.len() == 0 {
            Seq::empty()
        } else {
            seq![self.jobs[0]] + self.without_oldest().drained((n - 1) as nat)
        }
    }
}

/// The answer to an attempt to enqueue.
pub enum Enqueued {
    /// The job is in the queue.
    Accepted,
    /// The queue is at capacity: the job comes back, to be offered again
    /// once a slot is free.
    Full(Job),
    /// The queue is closed: the job comes back.
    Closed(Job),
}

/// The answer to an attempt to dequeue.
pub enum Dequeued {
    /// The oldest job.
    Job(Job),
    /// Nothing is queued, but producers may still come.
    Empty,
    /// Nothing is queued and the queue is closed: nothing will ever come.
    Closed,
}

/// A bounded FIFO queue of jobs.
pub struct DispatchQueue {
    jobs: VecDeque<Job>,
    capacity: usize,
    closed: bool,
}

impl View for DispatchQueue {
    type V = QueueView;

    closed spec fn view(&self) -> QueueView {
        QueueView { jobs: self.jobs@, capacity: self.capacity as nat, closed: self.closed }
    }
}

impl DispatchQueue {
    /// The capacity is positive and never exceeded. Every queue that this
    /// module hands out is well formed, and every method keeps it so.
    pub open spec fn well_formed(&self) -> bool {
        0 < self@.capacity && self@.jobs.len() <= self@.capacity
    }

    /// An open, empty queue of the given capacity; none of capacity zero.
    pub fn new(capacity: usize) -> (r: Option<DispatchQueue>)
        ensures
            capacity == 0 ==> r is None,
            capacity > 0 ==> (r matches Some(queue) && queue.well_formed() && queue@ == (QueueView {
                jobs: Seq::empty(),
                capacity: capacity as nat,
                closed: false,
            })),
    {
        if capacity == 0 {
            None
        } else {
            Some(DispatchQueue { jobs: VecDeque::new(), capacity, closed: false })
        }
    }

    /// An open, empty queue of [`DEFAULT_CAPACITY`].
    pub fn with_default_capacity() -> (queue: DispatchQueue)
        ensures
            queue.well_formed(),
            queue@ == (QueueView {
                jobs: Seq::empty(),
                capacity: DEFAULT_CAPACITY as nat,
                closed: false,
            }),
    {
        DispatchQueue { jobs: VecDeque::new(), capacity: DEFAULT_CAPACITY, closed: false }
    }

    pub fn len(&self) -> (n: usize)
        ensures
            n == self@.jobs.len(),
    {
        self.jobs.len()
    }

    pub fn capacity(&self) -> (n: usize)
        ensures
            n == self@.capacity,
    {
        self.capacity
    }

    pub fn is_closed(&self) -> (closed: bool)
        ensures
            closed == self@.closed,
    {
        self.closed
    }

    pub fn is_full(&self) -> (full: bool)
        ensures
            full == (self@.jobs.len() >= self@.capacity),
    {
        self.jobs.len() >= self.capacity
    }

    /// Offers `job` to the queue. An open queue with a free slot takes it at
    /// the back. A full or closed queue is left as it was and hands the job
    /// back: it is never dropped.
    pub fn enqueue(&mut self, job: Job) -> (r: Enqueued)
        requires
            old(self).well_formed(),
        ensures
            final(self).well_formed(),
            final(self)@ == old(self)@.after_enqueue(job),
            old(self)@.accepts() ==> r is Accepted,
            old(self)@.full() ==> r == Enqueued::Full(job),
            old(self)@.closed ==> r == Enqueued::Closed(job),
    {
        if self.closed {
            Enqueued::Closed(job)
        } else if self.jobs.len() >= self.capacity {
            Enqueued::Full(job)
        } else {
            self.jobs.push_back(job);
            Enqueued::Accepted
        }
    }

    /// Takes the oldest job. Jobs that were accepted before the queue was
    /// closed still come out; only a closed and empty queue answers `Closed`.
    pub fn dequeue(&mut self) -> (r: Dequeued)
        requires
            old(self).well_formed(),
        ensures
            final(self).well_formed(),
            final(self)@ == old(self)@.after_dequeue(),
            old(self)@.jobs.len() > 0 ==> r == Dequeued::Job(old(self)@.jobs[0]),
            old(self)@.jobs.len() == 0 && !old(self)@.closed ==> r is Empty,
            old(self)@.jobs.len() == 0 && old(self)@.closed ==> r is Closed,
    {
        match self.jobs.pop_front() {
            Some(job) => Dequeued::Job(job),
            None => if self.closed {
                Dequeued::Closed
            } else {
                Dequeued::Empty
            },
        }
    }

    /// Closes the queue: the jobs it holds stay, and no other is accepted.
    pub fn close(&mut self)
        requires
            old(self).well_formed(),
        ensures
            final(self).well_formed(),
            final(self)@ == old(self)@.shut(),
    {
        self.closed = true;
    }
}

/// Dequeues hand the jobs out from the front: `n` of them give the first
/// `n` jobs of the queue, or all of them where it holds fewer.
pub proof fn lemma_drained_is_prefix(queue: QueueView, n: nat)
    ensures
        queue.drained(n) == queue.jobs.subrange(
            0,
            if n <= queue.jobs.len() {
                n as int
            } else {
                queue.jobs.len() as int
            },
        ),
    decreases n,
{
    if n == 0 || queue.jobs.len() == 0 {
        assert(queue.drained(n) =~= queue.jobs.subrange(0, 0));
    } else {
        let rest = queue.without_oldest();
        lemma_drained_is_prefix(rest, (n - 1) as nat);
        let k: int = if n <= queue.jobs.len() {
            n as int
        } else {
            queue.jobs.len() as int
        };
        assert(queue.drained(n) =~= queue.jobs.subrange(0, k));
    }
}

/// An open queue with room for all of `jobs` accepts each of them, at the
/// back and in the order offered.
pub proof fn lemma_accepts_in_order(queue: QueueView, jobs: Seq<Job>)
    requires
        !queue.closed,
        queue.jobs.len() + jobs.len() <= queue.capacity,
    ensures
        queue.after_enqueue_all(jobs) == (QueueView { jobs: queue.jobs + jobs, ..queue }),
    decreases jobs.len(),
{
    if jobs.len() == 0 {
        assert(queue.jobs + jobs =~= queue.jobs);
    } else {
        lemma_accepts_in_order(queue, jobs.drop_last());
        assert(queue.jobs + jobs =~= (queue.jobs + jobs.drop_last()).push(jobs.last()));
    }
}

/// First in, first out: the jobs that an open queue with room accepts come
/// out after those it already held, in the order in which they were
/// accepted. So of two jobs, the one submitted first is handed to the
/// worker first.
pub proof fn lemma_first_in_first_out(queue: QueueView, jobs: Seq<Job>)
    requires
        !queue.closed,
        queue.jobs.len() + jobs.len() <= queue.capacity,
    ensures
        queue.after_enqueue_all(jobs).drained(queue.jobs.len() + jobs.len()) == queue.jobs
            + jobs,
        forall|i: int|
            0 <= i < jobs.len() ==> queue.after_enqueue_all(jobs).drained(
                queue.jobs.len() + jobs.len(),
            )[queue.jobs.len() + i] == #[trigger] jobs[i],
{
    lemma_accepts_in_order(queue, jobs);
    let filled = queue.after_enqueue_all(jobs);
    lemma_drained_is_prefix(filled, queue.jobs.len() + jobs.len());
    assert(filled.jobs.subrange(0, filled.jobs.len() as int) =~= filled.jobs);
}

/// Backpressure: a queue filled to capacity takes nothing more and loses
/// nothing, whatever is offered; as soon as one job has left, it accepts
/// the next offer at the back.
pub proof fn lemma_backpressure(queue: QueueView, job: Job)
    requires
        queue.capacity > 0,
        queue.full(),
        queue.jobs.len() == queue.capacity,
    ensures
        !queue.accepts(),
        queue.after_enqueue(job) == queue,
        queue.after_dequeue().accepts(),
        queue.after_dequeue().after_enqueue(job).jobs == queue.jobs.subrange(
            1,
            queue.jobs.len() as int,
        ).push(job),
{
}

/// A closed queue accepts nothing, and still hands out what it holds.
pub proof fn lemma_closed_queue_drains(queue: QueueView, job: Job)
    requires
        queue.closed,
    ensures
        queue.after_enqueue(job) == queue,
        queue.drained(queue.jobs.len()) == queue.jobs,
{
    lemma_drained_is_prefix(queue, queue.jobs.len());
    assert(queue.jobs.subrange(0, queue.jobs.len() as int) =~= queue.jobs);
}

} // verus!
