use crate::dispatch::{DispatchQueue, Envelope, terminations, terminate_count};
use vstd::prelude::*;
use vstd::set_lib::{set_int_range, lemma_int_range, lemma_len_subset, lemma_subset_equality};

verus! {

/// One worker as the pool sees it: its number and, until shutdown takes it,
/// the handle of the thread that runs its loop.
pub struct Worker<H> {
    id: usize,
    thread: Option<H>,
}

/// The pool's side of a fixed set of workers: it starts them, tells them all
/// to stop, and hands out each thread handle exactly once for joining.
pub struct Pool<H> {
    workers: Vec<Worker<H>>,
}

impl<H> Pool<H> {
    /// The number of workers, fixed at construction.
    pub closed spec fn spec_size(&self) -> nat {
        self.workers@.len()
    }

    /// The thread handle that worker `i` still holds, if any.
    pub closed spec fn thread(&self, i: int) -> Option<H> {
        self.workers@[i].thread
    }

    /// At least one worker, and worker `i` is numbered `i`.
    pub closed spec fn wf(&self) -> bool {
        &&& self.workers@.len() >= 1
        &&& forall|i: int| 0 <= i < self.workers@.len() ==> #[trigger] self.workers@[i].id == i
    }

    /// Starts `size` workers, numbered from 0, by calling `spawn` once with
    /// each number; worker `i` keeps the handle that `spawn(i)` returned.
    /// A pool of no workers is refused: `None`, and `spawn` is never called.
    pub fn try_new<F: Fn(usize) -> H>(size: usize, spawn: F) -> (r: Option<Self>)
        requires
            forall|i: usize| i < size ==> #[trigger] spawn.requires((i,)),
        ensures
            r is None <==> size == 0,
            r matches Some(p) ==> {
                &&& p.wf()
                &&& p.spec_size() == size
                &&& forall|i: int|
                    0 <= i < size ==> (#[trigger] p.thread(i) is Some && spawn.ensures(
                        (i as usize,),
                        p.thread(i)->0,
                    ))
            },
    {
        if size == 0 {
            return None;
        }
        let mut workers: Vec<Worker<H>> = Vec::with_capacity(size);
        let mut id: usize = 0;
        while id < size
            invariant
                id <= size,
                workers@.len() == id,
                forall|i: usize| i < size ==> #[trigger] spawn.requires((i,)),
                forall|i: int| 0 <= i < id ==> #[trigger] workers@[i].id == i,
                forall|i: int|
                    0 <= i < id ==> (#[trigger] workers@[i].thread is Some && spawn.ensures(
                        (i as usize,),
                        workers@[i].thread->0,
                    )),
            decreases size - id,
        {
            let handle = spawn(id);
            workers.push(Worker { id, thread: Some(handle) });
            id = id + 1;
        }
        Some(Pool { workers })
    }

    /// The number of workers.
    pub fn size(&self) -> (n: usize)
        ensures
            n == self.spec_size(),
    {
        self.workers.len()
    }

    /// Begins shutdown: sends one termination sentinel per worker, behind
    /// whatever already waits in `queue`.
    pub fn terminate_all<J>(&self, queue: &mut DispatchQueue<J>)
        requires
            old(queue).wf(),
        ensures
            final(queue).wf(),
            final(queue)@ == old(queue)@ + terminations(self.spec_size()),
            final(queue).sent() == old(queue).sent() + terminations(self.spec_size()),
            final(queue).claimed() == old(queue).claimed(),
    {
        let n = self.workers.len();
        let mut k: usize = 0;
        while k < n
            invariant
                n == self.spec_size(),
                k <= n,
                queue.wf(),
                queue@ == old(queue)@ + terminations::<J>(k as nat),
                queue.sent() == old(queue).sent() + terminations::<J>(k as nat),
                queue.claimed() == old(queue).claimed(),
            decreases n - k,
        {
            queue.send(Envelope::Terminate);
            k = k + 1;
            assert(terminations::<J>((k - 1) as nat).push(Envelope::Terminate) =~= terminations::<J>(
                k as nat,
            ));
            assert(queue@ =~= old(queue)@ + terminations::<J>(k as nat));
            assert(queue.sent() =~= old(queue).sent() + terminations::<J>(k as nat));
        }
    }

    /// Moves the thread handle out of worker `i`, leaving nothing behind, so
    /// that no thread is joined twice.
    pub fn take_thread(&mut self, i: usize) -> (r: Option<H>)
        requires
            old(self).wf(),
            i < old(self).spec_size(),
        ensures
            final(self).wf(),
            final(self).spec_size() == old(self).spec_size(),
            r == old(self).thread(i as int),
            final(self).thread(i as int) is None,
            forall|j: int|
                0 <= j < old(self).spec_size() && j != i ==> #[trigger] final(self).thread(j)
                    == old(self).thread(j),
    {
        let mut w = self.workers.remove(i);
        let r = w.thread.take();
        self.workers.insert(i, w);
        assert(forall|j: int| 0 <= j < i ==> self.workers@[j] == old(self).workers@[j]);
        assert(forall|j: int| i < j < self.workers@.len() ==> self.workers@[j] == old(self).workers@[j]);
        r
    }
}

/// The workers that have claimed a termination sentinel among the first `n`
/// claims, where claim `i` took envelope `claimed[i]` and was made by worker
/// `owners[i]`.
pub open spec fn stopped_workers<J>(claimed: Seq<Envelope<J>>, owners: Seq<int>, n: int) -> Set<int> {
    Set::new(|w: int| exists|i: int| 0 <= i < n && owners[i] == w && #[trigger] claimed[i] is Terminate)
}

/// What the worker loops guarantee of the claims: each is made by one of the
/// `k` workers, and a worker claims nothing after a termination sentinel
/// (`WorkerLoop::claim_next` needs an idle worker, and a sentinel leaves its
/// worker stopped for good).
pub open spec fn claims_follow_worker_loops<J>(claimed: Seq<Envelope<J>>, owners: Seq<int>, k: nat) -> bool {
    &&& owners.len() == claimed.len()
    &&& forall|i: int| 0 <= i < owners.len() ==> 0 <= #[trigger] owners[i] < k
    &&& forall|i: int, j: int|
        #![trigger owners[i], owners[j]]
        0 <= i < j < claimed.len() && owners[i] == owners[j] ==> !(claimed[i] is Terminate)
}

proof fn lemma_stopped_count<J>(claimed: Seq<Envelope<J>>, owners: Seq<int>, k: nat, n: int)
    requires
        claims_follow_worker_loops(claimed, owners, k),
        0 <= n <= claimed.len(),
    ensures
        stopped_workers(claimed, owners, n).finite(),
        stopped_workers(claimed, owners, n).subset_of(set_int_range(0, k as int)),
        stopped_workers(claimed, owners, n).len() == terminate_count(claimed.take(n)),
    decreases n,
{
    lemma_int_range(0, k as int);
    let s = stopped_workers(claimed, owners, n);
    if n == 0 {
        assert(s =~= Set::empty());
        assert(claimed.take(0) =~= Seq::<Envelope<J>>::empty());
    } else {
        lemma_stopped_count(claimed, owners, k, n - 1);
        let prev = stopped_workers(claimed, owners, n - 1);
        assert(claimed.take(n).drop_last() =~= claimed.take(n - 1));
        if claimed[n - 1] is Terminate {
            assert(!prev.contains(owners[n - 1])) by {
                if prev.contains(owners[n - 1]) {
                    let i = choose|i: int|
                        0 <= i < n - 1 && owners[i] == owners[n - 1] && #[trigger] claimed[i] is Terminate;
                    assert(owners[i] == owners[n - 1]);
                }
            }
            assert(s =~= prev.insert(owners[n - 1]));
        } else {
            assert(s =~= prev);
        }
    }
}

/// Shutdown stops every worker: when the last envelopes sent are the `k`
/// termination sentinels of `terminate_all` (nothing is submitted once
/// shutdown has begun) and everything sent has been claimed, each of the `k`
/// workers has claimed one sentinel, so every worker loop has ended, whichever
/// worker took which sentinel.
pub proof fn lemma_shutdown_stops_every_worker<J>(
    q: &DispatchQueue<J>,
    before: Seq<Envelope<J>>,
    owners: Seq<int>,
    k: nat,
)
    requires
        q.wf(),
        q@.len() == 0,
        q.sent() == before + terminations(k),
        claims_follow_worker_loops(q.claimed(), owners, k),
    ensures
        forall|w: int| 0 <= w < k ==> #[trigger] stopped_workers(q.claimed(), owners, q.claimed().len() as int).contains(w),
{
    crate::dispatch::lemma_each_envelope_claimed_once(q);
    let c = q.claimed();
    let n = c.len() as int;
    lemma_stopped_count(c, owners, k, n);
    assert(c.take(n) =~= c);
    crate::dispatch::lemma_terminate_count_concat(before, terminations(k));
    crate::dispatch::lemma_terminations_count::<J>(k);
    lemma_int_range(0, k as int);
    let s = stopped_workers(c, owners, n);
    lemma_len_subset(s, set_int_range(0, k as int));
    lemma_subset_equality(s, set_int_range(0, k as int));
}

} // verus!
