use crate::dispatch::{DispatchQueue, Envelope};
use vstd::prelude::*;

verus! {

/// Where a worker's loop stands.
#[derive(PartialEq, Eq, Structural, Clone, Copy, Debug)]
pub enum Phase {
    /// Between jobs; about to ask for the next envelope.
    Idle,
    /// Holding the dispatch lock while taking the next envelope.
    Claiming,
    /// Running a claimed job, with the dispatch lock released.
    Executing,
    /// Told to stop; the loop has ended for good.
    Terminated,
}

/// What the thread running a worker's loop has to do next.
pub enum Action<J> {
    /// Run this job on the worker's own thread, then report back.
    Run(J),
    /// Leave the loop, so that the thread finishes and can be joined.
    Exit,
}

/// The phase a claiming worker moves to on receiving `e`.
pub open spec fn phase_on<J>(e: Envelope<J>) -> Phase {
    match e {
        Envelope::Job(_) => Phase::Executing,
        Envelope::Terminate => Phase::Terminated,
    }
}

/// Whether a worker in phase `p` holds the dispatch lock. It holds it only
/// while it claims, never while a job runs.
pub open spec fn holds_dispatch_lock(p: Phase) -> bool {
    p == Phase::Claiming
}

/// No worker in `phases` holds the dispatch lock.
pub open spec fn lock_free(phases: Seq<Phase>) -> bool {
    forall|i: int| 0 <= i < phases.len() ==> !holds_dispatch_lock(#[trigger] phases[i])
}

/// At most one worker in `phases` holds the dispatch lock.
pub open spec fn lock_exclusive(phases: Seq<Phase>) -> bool {
    forall|i: int, j: int|
        0 <= i < phases.len() && 0 <= j < phases.len() && holds_dispatch_lock(#[trigger] phases[i])
            && holds_dispatch_lock(#[trigger] phases[j]) ==> i == j
}

/// Claiming is serialised, running is not. From any state in which no worker
/// holds the dispatch lock, two idle workers `a` and `b` can claim the jobs
/// `ja` and `jb` one after the other, with the lock held by at most one worker
/// at every step, and end up running both jobs at the same time. The steps
/// are those of `begin_claim` and `on_envelope`.
pub proof fn lemma_jobs_run_concurrently<J>(phases: Seq<Phase>, a: int, b: int, ja: J, jb: J)
    requires
        lock_free(phases),
        0 <= a < phases.len(),
        0 <= b < phases.len(),
        a != b,
        phases[a] == Phase::Idle,
        phases[b] == Phase::Idle,
    ensures
        ({
            let s1 = phases.update(a, Phase::Claiming);
            let s2 = s1.update(a, phase_on(Envelope::Job(ja)));
            let s3 = s2.update(b, Phase::Claiming);
            let s4 = s3.update(b, phase_on(Envelope::Job(jb)));
            &&& lock_exclusive(s1)
            &&& lock_free(s2)
            &&& lock_exclusive(s3)
            &&& lock_free(s4)
            &&& s4[a] == Phase::Executing
            &&& s4[b] == Phase::Executing
        }),
{
    let s1 = phases.update(a, Phase::Claiming);
    let s2 = s1.update(a, phase_on(Envelope::Job(ja)));
    let s3 = s2.update(b, Phase::Claiming);
    let s4 = s3.update(b, phase_on(Envelope::Job(jb)));
    assert(lock_exclusive(s1)) by {
        assert forall|i: int, j: int|
            0 <= i < s1.len() && 0 <= j < s1.len() && holds_dispatch_lock(#[trigger] s1[i])
                && holds_dispatch_lock(#[trigger] s1[j]) implies i == j by {
            if i != a {
                assert(s1[i] == phases[i]);
            }
            if j != a {
                assert(s1[j] == phases[j]);
            }
        }
    }
    assert(lock_free(s2)) by {
        assert forall|i: int| 0 <= i < s2.len() implies !holds_dispatch_lock(#[trigger] s2[i]) by {
            if i != a {
                assert(s2[i] == phases[i]);
            }
        }
    }
    assert(lock_exclusive(s3)) by {
        assert forall|i: int, j: int|
            0 <= i < s3.len() && 0 <= j < s3.len() && holds_dispatch_lock(#[trigger] s3[i])
                && holds_dispatch_lock(#[trigger] s3[j]) implies i == j by {
            if i != b {
                assert(s3[i] == s2[i]);
            }
            if j != b {
                assert(s3[j] == s2[j]);
            }
        }
    }
    assert(lock_free(s4)) by {
        assert forall|i: int| 0 <= i < s4.len() implies !holds_dispatch_lock(#[trigger] s4[i]) by {
            if i != b {
                assert(s4[i] == s2[i]);
            }
        }
    }
}

/// The decisions of one worker's loop: claim, then run the job or stop.
/// The thread that owns it performs each action and reports what happened.
pub struct WorkerLoop {
    id: usize,
    phase: Phase,
}

impl WorkerLoop {
    pub closed spec fn spec_id(&self) -> usize {
        self.id
    }

    pub closed spec fn spec_phase(&self) -> Phase {
        self.phase
    }

    /// A fresh, idle loop for the worker numbered `id`.
    pub fn new(id: usize) -> (w: Self)
        ensures
            w.spec_id() == id,
            w.spec_phase() == Phase::Idle,
    {
        WorkerLoop { id, phase: Phase::Idle }
    }

    pub fn id(&self) -> (r: usize)
        ensures
            r == self.spec_id(),
    {
        self.id
    }

    pub fn phase(&self) -> (r: Phase)
        ensures
            r == self.spec_phase(),
    {
        self.phase
    }

    /// The worker takes the dispatch lock to claim its next envelope.
    pub fn begin_claim(&mut self)
        requires
            old(self).spec_phase() == Phase::Idle,
        ensures
            final(self).spec_id() == old(self).spec_id(),
            final(self).spec_phase() == Phase::Claiming,
    {
        self.phase = Phase::Claiming;
    }

    /// The worker has claimed `e` and released the lock: a job is handed back
    /// to be run, a termination sentinel ends the loop.
    pub fn on_envelope<J>(&mut self, e: Envelope<J>) -> (a: Action<J>)
        requires
            old(self).spec_phase() == Phase::Claiming,
        ensures
            final(self).spec_id() == old(self).spec_id(),
            final(self).spec_phase() == phase_on(e),
            !holds_dispatch_lock(final(self).spec_phase()),
            match e {
                Envelope::Job(j) => a == Action::Run(j),
                Envelope::Terminate => a is Exit,
            },
    {
        match e {
            Envelope::Job(j) => {
                self.phase = Phase::Executing;
                Action::Run(j)
            },
            Envelope::Terminate => {
                self.phase = Phase::Terminated;
                Action::Exit
            },
        }
    }

    /// One claim, made while the caller holds the dispatch lock: an idle
    /// worker takes the oldest waiting envelope from `queue` and learns what
    /// to do with it. When nothing waits it stays idle, takes nothing, and
    /// the caller waits for work before asking again. A worker that has
    /// stopped is not idle, so it never claims again.
    pub fn claim_next<J>(&mut self, queue: &mut DispatchQueue<J>) -> (r: Option<Action<J>>)
        requires
            old(self).spec_phase() == Phase::Idle,
            old(queue).wf(),
        ensures
            final(self).spec_id() == old(self).spec_id(),
            final(queue).wf(),
            final(queue).sent() == old(queue).sent(),
            old(queue)@.len() == 0 ==> {
                &&& r is None
                &&& final(self).spec_phase() == Phase::Idle
                &&& final(queue)@ == old(queue)@
                &&& final(queue).claimed() == old(queue).claimed()
            },
            old(queue)@.len() > 0 ==> {
                let e = old(queue)@[0];
                &&& final(queue)@ == old(queue)@.drop_first()
                &&& final(queue).claimed() == old(queue).claimed().push(e)
                &&& final(self).spec_phase() == phase_on(e)
                &&& match e {
                    Envelope::Job(j) => r == Some(Action::Run(j)),
                    Envelope::Terminate => r matches Some(Action::Exit),
                }
            },
    {
        self.begin_claim();
        match queue.claim() {
            Some(e) => Some(self.on_envelope(e)),
            None => {
                self.phase = Phase::Idle;
                None
            },
        }
    }

    /// The job handed out last has returned; the worker is idle again.
    pub fn finish_job(&mut self)
        requires
            old(self).spec_phase() == Phase::Executing,
        ensures
            final(self).spec_id() == old(self).spec_id(),
            final(self).spec_phase() == Phase::Idle,
    {
        self.phase = Phase::Idle;
    }

    /// Whether the loop has ended.
    pub fn is_terminated(&self) -> (r: bool)
        ensures
            r == (self.spec_phase() == Phase::Terminated),
    {
        self.phase == Phase::Terminated
    }
}

} // verus!
