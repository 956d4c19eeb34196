use vstd::prelude::*;

use std::collections::VecDeque;

verus! {

/// The queue of jobs waiting for a worker, shared by all workers of a pool. Jobs are claimed
/// in the order they were submitted; a claim removes the job it returns, so no job is handed
/// out twice and none is lost.
pub struct JobQueue<T> {
    pending: VecDeque<T>,
    submitted: Ghost<Seq<T>>,
    claimed: Ghost<Seq<T>>,
}

impl<T> JobQueue<T> {
    /// The jobs waiting, oldest first.
    pub closed spec fn pending(&self) -> Seq<T> {
        self.pending@
    }

    /// Every job submitted so far, in order.
    pub closed spec fn submitted(&self) -> Seq<T> {
        self.submitted@
    }

    /// Every job claimed so far, in order.
    pub closed spec fn claimed(&self) -> Seq<T> {
        self.claimed@
    }

    /// The jobs submitted are those claimed, followed by those still waiting.
    pub open spec fn wf(&self) -> bool {
        self.submitted() == self.claimed() + self.pending()
    }

    /// An empty queue.
    pub fn new() -> (r: JobQueue<T>)
        ensures
            r.wf(),
            r.pending() == Seq::<T>::empty(),
            r.submitted() == Seq::<T>::empty(),
            r.claimed() == Seq::<T>::empty(),
    {
        let r = JobQueue { pending: VecDeque::new(), submitted: Ghost(Seq::empty()), claimed: Ghost(Seq::empty()) };
        assert(r.claimed() + r.pending() =~= Seq::<T>::empty());
        r
    }

    /// An empty queue with room for `capacity` jobs before it grows.
    pub fn with_capacity(capacity: usize) -> (r: JobQueue<T>)
        ensures
            r.wf(),
            r.pending() == Seq::<T>::empty(),
            r.submitted() == Seq::<T>::empty(),
            r.claimed() == Seq::<T>::empty(),
    {
        let r = JobQueue {
            pending: VecDeque::with_capacity(capacity),
            submitted: Ghost(Seq::empty()),
            claimed: Ghost(Seq::empty()),
        };
        assert(r.claimed() + r.pending() =~= Seq::<T>::empty());
        r
    }

    /// Places a job at the back of the queue.
    pub fn submit(&mut self, job: T)
        requires
            old(self).wf(),
        ensures
            final(self).wf(),
            final(self).pending() == old(self).pending().push(job),
            final(self).submitted() == old(self).submitted().push(job),
            final(self).claimed() == old(self).claimed(),
    {
        let ghost j = job;
        self.pending.push_back(job);
        self.submitted = Ghost(self.submitted@.push(j));
        assert(self.claimed() + self.pending() =~= old(self).claimed() + old(self).pending() + seq![j]);
    }

    /// Removes and returns the oldest waiting job, if any.
    pub fn claim(&mut self) -> (r: Option<T>)
        requires
            old(self).wf(),
        ensures
            final(self).wf(),
            final(self).submitted() == old(self).submitted(),
            old(self).pending().len() == 0 ==> r is None && final(self).pending() == old(self).pending()
                && final(self).claimed() == old(self).claimed(),
            old(self).pending().len() > 0 ==> r == Some(old(self).pending()[0]) && final(self).pending()
                == old(self).pending().drop_first() && final(self).claimed() == old(self).claimed().push(
                old(self).pending()[0],
            ),
    {
        let r = self.pending.pop_front();
        match r {
            Some(job) => {
                let ghost j = job;
                self.claimed = Ghost(self.claimed@.push(j));
                assert(self.claimed() + self.pending() =~= old(self).claimed() + old(self).pending());
                Some(job)
            },
            None => None,
        }
    }

    /// The number of jobs waiting.
    pub fn len(&self) -> (r: usize)
        ensures
            r == self.pending().len(),
    {
        self.pending.len()
    }

    /// Whether no job is waiting.
    pub fn is_empty(&self) -> (r: bool)
        ensures
            r == (self.pending().len() == 0),
    {
        self.pending.len() == 0
    }
}

/// Once no job is waiting, the jobs claimed are exactly the jobs submitted, one claim each, in
/// the order of submission.
pub proof fn lemma_drained_queue_claimed_each_once<T>(q: JobQueue<T>)
    requires
        q.wf(),
        q.pending().len() == 0,
    ensures
        q.claimed() == q.submitted(),
{
    assert(q.claimed() + q.pending() =~= q.claimed());
}

/// However submissions and claims interleave, each claim hands out the job at the next
/// position of the submission order: the `i`-th job claimed is the `i`-th job submitted.
pub proof fn lemma_claims_follow_submissions<T>(q: JobQueue<T>, i: int)
    requires
        q.wf(),
        0 <= i < q.claimed().len(),
    ensures
        q.claimed()[i] == q.submitted()[i],
{
}

} // verus!
