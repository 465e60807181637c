use vstd::prelude::*;

verus! {

/// How many crawls of the session-based platform may fetch at once.
pub const FETCH_PERMITS: usize = 3;

/// Where one crawl job stands. A job holds a fetch permit exactly while it
/// is `Fetching`; resolution is not gated.
#[derive(Clone, Copy, Debug, PartialEq, Eq, Structural)]
pub enum JobPhase {
    Queued,
    Resolving,
    AwaitingPermit,
    Fetching,
    Completed,
    Failed,
}

pub open spec fn count_fetching(phases: Seq<JobPhase>) -> nat
    decreases phases.len(),
{
    if phases.len() == 0 {
        0
    } else {
        count_fetching(phases.drop_last()) + if phases.last() == JobPhase::Fetching {
            1nat
        } else {
            0nat
        }
    }
}

pub open spec fn is_terminal(p: JobPhase) -> bool {
    p == JobPhase::Completed || p == JobPhase::Failed
}

/// The jobs of one batch and the permit pool they share.
pub struct JobBoard {
    capacity: usize,
    phases: Vec<JobPhase>,
    fetching: usize,
}

impl JobBoard {
    pub closed spec fn capacity(&self) -> nat {
        self.capacity as nat
    }

    pub closed spec fn phases(&self) -> Seq<JobPhase> {
        self.phases@
    }

    /// The permit pool is never overdrawn: at most `capacity` jobs fetch.
    pub closed spec fn wf(&self) -> bool {
        &&& self.fetching == count_fetching(self.phases@)
        &&& self.fetching <= self.capacity
    }

    /// A board of `jobs` queued jobs sharing `capacity` permits.
    pub fn new(jobs: usize, capacity: usize) -> (r: Self)
        ensures
            r.wf(),
            r.capacity() == capacity,
            r.phases() == Seq::new(jobs as nat, |i: int| JobPhase::Queued),
    {
        let mut phases: Vec<JobPhase> = Vec::new();
        let mut i: usize = 0;
        while i < jobs
            invariant
                i <= jobs,
                phases@ == Seq::new(i as nat, |k: int| JobPhase::Queued),
                count_fetching(phases@) == 0,
            decreases jobs - i,
        {
            proof {
                assert(phases@.push(JobPhase::Queued).drop_last() =~= phases@);
            }
            phases.push(JobPhase::Queued);
            i = i + 1;
            proof {
                assert(phases@ =~= Seq::new(i as nat, |k: int| JobPhase::Queued));
            }
        }
        JobBoard { capacity, phases, fetching: 0 }
    }

    pub fn phase(&self, job: usize) -> (r: JobPhase)
        requires
            job < self.phases().len(),
        ensures
            r == self.phases()[job as int],
    {
        self.phases[job]
    }

    /// Free permits.
    pub fn available(&self) -> (r: usize)
        requires
            self.wf(),
        ensures
            r == self.capacity() - count_fetching(self.phases()),
    {
        self.capacity - self.fetching
    }

    /// Moves a job to `phase` without touching permits.
    fn set_phase(&mut self, job: usize, phase: JobPhase)
        requires
            job < old(self).phases().len(),
            old(self).fetching == count_fetching(old(self).phases()),
            old(self).phases()[job as int] != JobPhase::Fetching,
            phase != JobPhase::Fetching,
        ensures
            final(self).phases() == old(self).phases().update(job as int, phase),
            final(self).fetching == old(self).fetching,
            final(self).capacity == old(self).capacity,
            count_fetching(final(self).phases()) == count_fetching(old(self).phases()),
    {
        proof {
            lemma_count_update(self.phases@, job as int, phase);
        }
        self.phases.set(job, phase);
    }

    /// A queued job starts resolving its target.
    pub fn start_resolving(&mut self, job: usize)
        requires
            old(self).wf(),
            job < old(self).phases().len(),
            old(self).phases()[job as int] == JobPhase::Queued,
        ensures
            final(self).wf(),
            final(self).capacity() == old(self).capacity(),
            final(self).phases() == old(self).phases().update(job as int, JobPhase::Resolving),
            final(self).phases() == board_step(
                old(self).phases(),
                old(self).capacity(),
                BoardOp::StartResolving(job),
            ),
    {
        self.set_phase(job, JobPhase::Resolving);
    }

    /// A job whose peer is known waits for a permit.
    pub fn await_permit(&mut self, job: usize)
        requires
            old(self).wf(),
            job < old(self).phases().len(),
            old(self).phases()[job as int] == JobPhase::Queued || old(self).phases()[job as int]
                == JobPhase::Resolving,
        ensures
            final(self).wf(),
            final(self).capacity() == old(self).capacity(),
            final(self).phases() == old(self).phases().update(job as int, JobPhase::AwaitingPermit),
            final(self).phases() == board_step(
                old(self).phases(),
                old(self).capacity(),
                BoardOp::AwaitPermit(job),
            ),
    {
        self.set_phase(job, JobPhase::AwaitingPermit);
    }

    /// Grants a waiting job a permit if one is free; the job then fetches.
    pub fn try_begin_fetch(&mut self, job: usize) -> (granted: bool)
        requires
            old(self).wf(),
            job < old(self).phases().len(),
            old(self).phases()[job as int] == JobPhase::AwaitingPermit,
        ensures
            final(self).wf(),
            final(self).capacity() == old(self).capacity(),
            granted == (count_fetching(old(self).phases()) < old(self).capacity()),
            granted ==> final(self).phases() == old(self).phases().update(
                job as int,
                JobPhase::Fetching,
            ),
            !granted ==> final(self).phases() == old(self).phases(),
            final(self).phases() == board_step(
                old(self).phases(),
                old(self).capacity(),
                BoardOp::BeginFetch(job),
            ),
    {
        if self.fetching < self.capacity {
            proof {
                lemma_count_update(self.phases@, job as int, JobPhase::Fetching);
            }
            self.phases.set(job, JobPhase::Fetching);
            self.fetching = self.fetching + 1;
            true
        } else {
            false
        }
    }

    /// Ends a job, successfully or not; a permit it held is released, once.
    pub fn finish(&mut self, job: usize, ok: bool)
        requires
            old(self).wf(),
            job < old(self).phases().len(),
            !is_terminal(old(self).phases()[job as int]),
            ok ==> old(self).phases()[job as int] == JobPhase::Fetching,
        ensures
            final(self).wf(),
            final(self).capacity() == old(self).capacity(),
            final(self).phases() == old(self).phases().update(
                job as int,
                if ok {
                    JobPhase::Completed
                } else {
                    JobPhase::Failed
                },
            ),
            count_fetching(final(self).phases()) == count_fetching(old(self).phases()) - if old(
                self,
            ).phases()[job as int] == JobPhase::Fetching {
                1int
            } else {
                0int
            },
            final(self).phases() == board_step(
                old(self).phases(),
                old(self).capacity(),
                BoardOp::Finish(job, ok),
            ),
    {
        let next = if ok {
            JobPhase::Completed
        } else {
            JobPhase::Failed
        };
        proof {
            lemma_count_update(self.phases@, job as int, next);
        }
        if self.phases[job] == JobPhase::Fetching {
            self.fetching = self.fetching - 1;
        }
        self.phases.set(job, next);
    }
}

impl JobBoard {
    /// On a well-formed board no more jobs fetch than there are permits.
    pub proof fn lemma_within_capacity(&self)
        requires
            self.wf(),
        ensures
            count_fetching(self.phases()) <= self.capacity(),
    {
    }
}

pub proof fn lemma_count_update(phases: Seq<JobPhase>, j: int, p: JobPhase)
    requires
        0 <= j < phases.len(),
    ensures
        count_fetching(phases.update(j, p)) == count_fetching(phases) - (if phases[j]
            == JobPhase::Fetching {
            1int
        } else {
            0int
        }) + (if p == JobPhase::Fetching {
            1int
        } else {
            0int
        }),
    decreases phases.len(),
{
    let u = phases.update(j, p);
    if j == phases.len() - 1 {
        assert(u.drop_last() =~= phases.drop_last());
    } else {
        assert(u.drop_last() =~= phases.drop_last().update(j, p));
        lemma_count_update(phases.drop_last(), j, p);
    }
}

/// One step a batch's driver may take on a job.
pub enum BoardOp {
    StartResolving(usize),
    AwaitPermit(usize),
    BeginFetch(usize),
    Finish(usize, bool),
}

/// The phases and permits in use after one step; a step whose job is not in
/// the phase it needs changes nothing.
pub open spec fn board_step(
    phases: Seq<JobPhase>,
    capacity: nat,
    op: BoardOp,
) -> Seq<JobPhase> {
    match op {
        BoardOp::StartResolving(j) => if j < phases.len() && phases[j as int] == JobPhase::Queued {
            phases.update(j as int, JobPhase::Resolving)
        } else {
            phases
        },
        BoardOp::AwaitPermit(j) => if j < phases.len() && (phases[j as int] == JobPhase::Queued
            || phases[j as int] == JobPhase::Resolving) {
            phases.update(j as int, JobPhase::AwaitingPermit)
        } else {
            phases
        },
        BoardOp::BeginFetch(j) => if j < phases.len() && phases[j as int]
            == JobPhase::AwaitingPermit && count_fetching(phases) < capacity {
            phases.update(j as int, JobPhase::Fetching)
        } else {
            phases
        },
        BoardOp::Finish(j, ok) => if j < phases.len() && !is_terminal(phases[j as int]) && (ok
            ==> phases[j as int] == JobPhase::Fetching) {
            phases.update(
                j as int,
                if ok {
                    JobPhase::Completed
                } else {
                    JobPhase::Failed
                },
            )
        } else {
            phases
        },
    }
}

pub open spec fn board_run(phases: Seq<JobPhase>, capacity: nat, ops: Seq<BoardOp>) -> Seq<
    JobPhase,
>
    decreases ops.len(),
{
    if ops.len() == 0 {
        phases
    } else {
        board_step(board_run(phases, capacity, ops.drop_last()), capacity, ops.last())
    }
}

/// However many jobs a batch has and in whatever order its jobs move, no
/// more than `capacity` of them are ever fetching at once.
pub proof fn lemma_fetching_bounded(jobs: nat, capacity: nat, ops: Seq<BoardOp>)
    ensures
        count_fetching(board_run(Seq::new(jobs, |i: int| JobPhase::Queued), capacity, ops))
            <= capacity,
    decreases ops.len(),
{
    let init = Seq::new(jobs, |i: int| JobPhase::Queued);
    if ops.len() == 0 {
        lemma_count_none_fetching(init);
    } else {
        lemma_fetching_bounded(jobs, capacity, ops.drop_last());
        let prev = board_run(init, capacity, ops.drop_last());
        match ops.last() {
            BoardOp::StartResolving(j) => if j < prev.len() && prev[j as int] == JobPhase::Queued {
                lemma_count_update(prev, j as int, JobPhase::Resolving);
            },
            BoardOp::AwaitPermit(j) => if j < prev.len() {
                lemma_count_update(prev, j as int, JobPhase::AwaitingPermit);
            },
            BoardOp::BeginFetch(j) => if j < prev.len() {
                lemma_count_update(prev, j as int, JobPhase::Fetching);
            },
            BoardOp::Finish(j, ok) => if j < prev.len() {
                lemma_count_update(prev, j as int, JobPhase::Completed);
                lemma_count_update(prev, j as int, JobPhase::Failed);
            },
        }
    }
}

proof fn lemma_count_none_fetching(phases: Seq<JobPhase>)
    requires
        forall|i: int| 0 <= i < phases.len() ==> phases[i] != JobPhase::Fetching,
    ensures
        count_fetching(phases) == 0,
    decreases phases.len(),
{
    if phases.len() > 0 {
        lemma_count_none_fetching(phases.drop_last());
    }
}

} // verus!
