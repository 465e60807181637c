use vstd::prelude::*;

use crate::peer::DumpedPeer;

verus! {

/// Why one crawl job failed.
#[derive(Clone, Debug)]
pub struct JobError {
    pub target: String,
    pub reason: String,
}

impl JobError {
    pub fn new(target: String, reason: String) -> (r: Self)
        ensures
            r.target@ == target@,
            r.reason@ == reason@,
    {
        JobError { target, reason }
    }
}

pub open spec fn all_succeeded(results: Seq<Result<DumpedPeer, JobError>>) -> bool {
    forall|i: int| 0 <= i < results.len() ==> (#[trigger] results[i]) is Ok
}

/// `e` is the error of the first failed job.
pub open spec fn is_first_failure(results: Seq<Result<DumpedPeer, JobError>>, e: JobError) -> bool {
    exists|i: int|
        0 <= i < results.len() && #[trigger] results[i] == Err::<DumpedPeer, JobError>(e) && forall|
            j: int,
        | 0 <= j < i ==> (#[trigger] results[j]) is Ok
}

/// The outcome of a batch: every dump when every job succeeded, else the
/// first failure and no dump at all.
pub fn batch_outcome(results: Vec<Result<DumpedPeer, JobError>>) -> (r: Result<
    Vec<DumpedPeer>,
    JobError,
>)
    ensures
        r is Ok <==> all_succeeded(results@),
        r is Ok ==> r->Ok_0@.len() == results@.len() && forall|i: int|
            0 <= i < results@.len() ==> results@[i] == Ok::<DumpedPeer, JobError>(
                #[trigger] r->Ok_0@[i],
            ),
        r is Err ==> is_first_failure(results@, r->Err_0),
{
    let ghost all = results@;
    let mut rest = results;
    let mut out: Vec<DumpedPeer> = Vec::new();
    while rest.len() > 0
        invariant
            all == results@,
            out@.len() + rest@.len() == all.len(),
            rest@ =~= all.subrange(out@.len() as int, all.len() as int),
            forall|i: int| 0 <= i < out@.len() ==> all[i] == Ok::<DumpedPeer, JobError>(#[trigger] out@[i]),
        decreases rest@.len(),
    {
        let ghost k = out@.len() as int;
        assert(rest@[0] == all[k]);
        let first = rest.remove(0);
        assert(rest@ =~= all.subrange(k + 1, all.len() as int));
        match first {
            Ok(d) => {
                out.push(d);
            },
            Err(e) => {
                proof {
                    assert(all[k] == Err::<DumpedPeer, JobError>(e));
                    assert forall|j: int| 0 <= j < k implies (#[trigger] all[j]) is Ok by {
                        assert(all[j] == Ok::<DumpedPeer, JobError>(out@[j]));
                    }
                    assert(!((all[k]) is Ok));
                    assert(is_first_failure(all, e));
                    assert(!all_succeeded(all));
                }
                return Err(e);
            },
        }
    }
    proof {
        assert forall|i: int| 0 <= i < all.len() implies (#[trigger] all[i]) is Ok by {
            assert(all[i] == Ok::<DumpedPeer, JobError>(out@[i]));
        }
    }
    Ok(out)
}

/// A batch in which any job failed yields no dump at all, so nothing of it
/// is written; the failure reported is that of the first failed job.
pub proof fn lemma_fail_fast(results: Seq<Result<DumpedPeer, JobError>>, k: int)
    requires
        0 <= k < results.len(),
        results[k] is Err,
    ensures
        !all_succeeded(results),
{
}

} // verus!
