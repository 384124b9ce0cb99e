use std::collections::VecDeque;
use vstd::prelude::*;

verus! {

/// One unit carried through the dispatch queue: a job to run once, or the
/// sentinel that tells the worker receiving it to stop.
pub enum Envelope<J> {
    Job(J),
    Terminate,
}

/// How many jobs a sequence of envelopes carries.
pub open spec fn job_count<J>(s: Seq<Envelope<J>>) -> nat
    decreases s.len(),
{
    if s.len() == 0 {
        0
    } else {
        job_count(s.drop_last()) + if s.last() is Job { 1nat } else { 0nat }
    }
}

/// How many termination sentinels a sequence of envelopes carries.
pub open spec fn terminate_count<J>(s: Seq<Envelope<J>>) -> nat
    decreases s.len(),
{
    if s.len() == 0 {
        0
    } else {
        terminate_count(s.drop_last()) + if s.last() is Terminate { 1nat } else { 0nat }
    }
}

/// `n` termination sentinels.
pub open spec fn terminations<J>(n: nat) -> Seq<Envelope<J>> {
    Seq::new(n, |i: int| Envelope::Terminate)
}

/// The queue between submitters and workers: unbounded and first in, first
/// out. Besides what is waiting, it records in ghost state every envelope ever
/// sent and every envelope ever claimed, in order.
pub struct DispatchQueue<J> {
    pending: VecDeque<Envelope<J>>,
    sent: Ghost<Seq<Envelope<J>>>,
    claimed: Ghost<Seq<Envelope<J>>>,
}

impl<J> View for DispatchQueue<J> {
    type V = Seq<Envelope<J>>;

    /// The envelopes waiting to be claimed, oldest first.
    closed spec fn view(&self) -> Seq<Envelope<J>> {
        self.pending@
    }
}

impl<J> DispatchQueue<J> {
    /// Every envelope ever sent, in the order of sending.
    pub closed spec fn sent(&self) -> Seq<Envelope<J>> {
        self.sent@
    }

    /// Every envelope ever claimed, in the order of claiming.
    pub closed spec fn claimed(&self) -> Seq<Envelope<J>> {
        self.claimed@
    }

    /// What has been sent is what has been claimed followed by what waits.
    pub open spec fn wf(&self) -> bool {
        self.sent() == self.claimed() + self@
    }

    /// An empty queue with no history.
    pub fn new() -> (q: Self)
        ensures
            q.wf(),
            q@ == Seq::<Envelope<J>>::empty(),
            q.sent() == Seq::<Envelope<J>>::empty(),
            q.claimed() == Seq::<Envelope<J>>::empty(),
    {
        DispatchQueue { pending: VecDeque::new(), sent: Ghost(Seq::empty()), claimed: Ghost(Seq::empty()) }
    }

    /// Enqueues `e` behind everything already waiting. Never blocks, never fails.
    pub fn send(&mut self, e: Envelope<J>)
        requires
            old(self).wf(),
        ensures
            final(self).wf(),
            final(self)@ == old(self)@.push(e),
            final(self).sent() == old(self).sent().push(e),
            final(self).claimed() == old(self).claimed(),
    {
        proof {
            self.sent@ = self.sent@.push(e);
        }
        self.pending.push_back(e);
        assert(self.sent@ =~= self.claimed@ + self.pending@);
    }

    /// Removes and returns the oldest waiting envelope, or `None` when none waits.
    pub fn claim(&mut self) -> (r: Option<Envelope<J>>)
        requires
            old(self).wf(),
        ensures
            final(self).wf(),
            final(self).sent() == old(self).sent(),
            old(self)@.len() == 0 ==> r is None && final(self)@ == old(self)@ && final(self).claimed()
                == old(self).claimed(),
            old(self)@.len() > 0 ==> r == Some(old(self)@[0]) && final(self)@ == old(self)@.drop_first()
                && final(self).claimed() == old(self).claimed().push(old(self)@[0]),
    {
        let r = self.pending.pop_front();
        match r {
            Some(e) => {
                proof {
                    self.claimed@ = self.claimed@.push(e);
                }
                assert(self.sent@ =~= self.claimed@ + self.pending@);
                Some(e)
            },
            None => None,
        }
    }

    /// The number of envelopes waiting.
    pub fn len(&self) -> (n: usize)
        ensures
            n == self@.len(),
    {
        self.pending.len()
    }

    /// Whether no envelope waits.
    pub fn is_empty(&self) -> (b: bool)
        ensures
            b == (self@.len() == 0),
    {
        self.pending.len() == 0
    }
}

/// The job count of two sequences put together is the sum of their counts.
pub proof fn lemma_job_count_concat<J>(a: Seq<Envelope<J>>, b: Seq<Envelope<J>>)
    ensures
        job_count(a + b) == job_count(a) + job_count(b),
    decreases b.len(),
{
    if b.len() > 0 {
        lemma_job_count_concat(a, b.drop_last());
        assert((a + b).drop_last() =~= a + b.drop_last());
    } else {
        assert(a + b =~= a);
    }
}

/// The sentinel count of two sequences put together is the sum of their counts.
pub proof fn lemma_terminate_count_concat<J>(a: Seq<Envelope<J>>, b: Seq<Envelope<J>>)
    ensures
        terminate_count(a + b) == terminate_count(a) + terminate_count(b),
    decreases b.len(),
{
    if b.len() > 0 {
        lemma_terminate_count_concat(a, b.drop_last());
        assert((a + b).drop_last() =~= a + b.drop_last());
    } else {
        assert(a + b =~= a);
    }
}

/// `n` sentinels count as `n`.
pub proof fn lemma_terminations_count<J>(n: nat)
    ensures
        terminate_count(terminations::<J>(n)) == n,
    decreases n,
{
    if n > 0 {
        lemma_terminations_count::<J>((n - 1) as nat);
        assert(terminations::<J>(n).drop_last() =~= terminations::<J>((n - 1) as nat));
    }
}

/// Dispatch is first in, first out, and no envelope is delivered twice or
/// lost: what has been claimed is exactly the oldest part of what was sent, and
/// once nothing waits, every envelope sent has been claimed exactly once.
pub proof fn lemma_each_envelope_claimed_once<J>(q: &DispatchQueue<J>)
    requires
        q.wf(),
    ensures
        q.claimed() == q.sent().take(q.claimed().len() as int),
        q@ == q.sent().skip(q.claimed().len() as int),
        q@.len() == 0 ==> q.claimed() == q.sent(),
{
    assert(q.claimed() =~= q.sent().take(q.claimed().len() as int));
    assert(q@ =~= q.sent().skip(q.claimed().len() as int));
    if q@.len() == 0 {
        assert(q.claimed() =~= q.sent());
    }
}

/// No job is lost or run twice: the jobs sent are the jobs claimed plus the
/// jobs waiting, so once the queue is drained, as many jobs have been handed
/// to workers as were submitted, whoever submitted them.
pub proof fn lemma_jobs_claimed_equal_jobs_sent<J>(q: &DispatchQueue<J>)
    requires
        q.wf(),
    ensures
        job_count(q.sent()) == job_count(q.claimed()) + job_count(q@),
        q@.len() == 0 ==> job_count(q.claimed()) == job_count(q.sent()),
{
    lemma_job_count_concat(q.claimed(), q@);
    if q@.len() == 0 {
        assert(job_count(q@) == 0);
    }
}

} // verus!
