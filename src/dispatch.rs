//! Fan-out of notices to sinks, and fan-in of the delivery outcomes.
//!
//! Every (notice, sink) pair is one job that succeeds or fails on its own;
//! the caller runs the jobs concurrently and reports one outcome per job.
use vstd::prelude::*;

use crate::cycle::CyclePlan;

verus! {

/// One delivery: notice number `notice` to sink number `handler`.
#[derive(Clone, Copy, Debug, PartialEq, Eq, Structural)]
pub struct Job {
    pub notice: usize,
    pub handler: usize,
}

/// The jobs split by outcome, each part in job order.
#[derive(Debug)]
pub struct DispatchReport {
    pub delivered: Vec<Job>,
    pub failed: Vec<Job>,
}

/// How a cycle ended: the deliveries by outcome, and the snapshot to store.
#[derive(Debug)]
pub struct CycleOutcome {
    pub report: DispatchReport,
    pub snapshot: Option<Vec<u64>>,
}

/// The jobs whose outcome is `ok`, in order.
pub open spec fn with_outcome(jobs: Seq<Job>, outcomes: Seq<bool>, ok: bool) -> Seq<Job>
    decreases jobs.len(),
{
    if jobs.len() == 0 || outcomes.len() == 0 {
        Seq::empty()
    } else {
        let rest = with_outcome(jobs.drop_last(), outcomes.drop_last(), ok);
        if outcomes.last() == ok {
            rest.push(jobs.last())
        } else {
            rest
        }
    }
}

/// Every pair of a notice below `n_notices` and a sink below `n_handlers`,
/// grouped by notice.
pub fn fanout(n_notices: usize, n_handlers: usize) -> (r: Vec<Job>)
    requires
        n_notices * n_handlers <= usize::MAX,
    ensures
        r@.len() == n_notices * n_handlers,
        forall|k: int|
            0 <= k < r@.len() ==> r@[k].notice < n_notices && r@[k].handler < n_handlers
                && #[trigger] r@[k].notice * n_handlers + r@[k].handler == k,
        forall|i: int, h: int|
            0 <= i < n_notices && 0 <= h < n_handlers ==> #[trigger] r@[i * n_handlers + h] == (Job {
                notice: i as usize,
                handler: h as usize,
            }),
{
    let mut r: Vec<Job> = Vec::new();
    let mut i: usize = 0;
    while i < n_notices
        invariant
            0 <= i <= n_notices,
            n_notices * n_handlers <= usize::MAX,
            r@.len() == i * n_handlers,
            forall|k: int|
                0 <= k < r@.len() ==> r@[k].notice < i && r@[k].handler < n_handlers
                    && #[trigger] r@[k].notice * n_handlers + r@[k].handler == k,
            forall|a: int, h: int|
                0 <= a < i && 0 <= h < n_handlers ==> #[trigger] r@[a * n_handlers + h] == (Job {
                    notice: a as usize,
                    handler: h as usize,
                }),
        decreases n_notices - i,
    {
        let mut h: usize = 0;
        while h < n_handlers
            invariant
                0 <= i < n_notices,
                0 <= h <= n_handlers,
                n_notices * n_handlers <= usize::MAX,
                r@.len() == i * n_handlers + h,
                forall|k: int|
                    0 <= k < r@.len() ==> r@[k].notice <= i && r@[k].handler < n_handlers
                        && #[trigger] r@[k].notice * n_handlers + r@[k].handler == k,
                forall|a: int, b: int|
                    0 <= a < i && 0 <= b < n_handlers ==> #[trigger] r@[a * n_handlers + b] == (Job {
                        notice: a as usize,
                        handler: b as usize,
                    }),
                forall|b: int| 0 <= b < h ==> #[trigger] r@[i * n_handlers + b] == (Job {
                    notice: i as usize,
                    handler: b as usize,
                }),
            decreases n_handlers - h,
        {
            proof {
                assert(i * n_handlers + h < n_notices * n_handlers) by (nonlinear_arith)
                    requires
                        i < n_notices,
                        h < n_handlers,
                ;
            }
            let ghost old_r = r@;
            r.push(Job { notice: i, handler: h });
            assert forall|a: int, b: int|
                0 <= a < i && 0 <= b < n_handlers implies #[trigger] r@[a * n_handlers + b] == (Job {
                    notice: a as usize,
                    handler: b as usize,
                }) by {
                assert(a * n_handlers + b < i * n_handlers) by (nonlinear_arith)
                    requires
                        a < i,
                        b < n_handlers,
                ;
                assert(r@[a * n_handlers + b] == old_r[a * n_handlers + b]);
            }
            h = h + 1;
        }
        assert((i + 1) * n_handlers == i * n_handlers + n_handlers) by (nonlinear_arith);
        assert forall|a: int, b: int|
            0 <= a < i + 1 && 0 <= b < n_handlers implies #[trigger] r@[a * n_handlers + b] == (Job {
                notice: a as usize,
                handler: b as usize,
            }) by {
            if a == i {
            }
        }
        i = i + 1;
    }
    r
}

/// Fan-out hands each (notice, sink) pair out exactly once: no two jobs are equal.
pub proof fn lemma_fanout_exactly_once(jobs: Seq<Job>, n_notices: usize, n_handlers: usize)
    requires
        jobs.len() == n_notices * n_handlers,
        forall|k: int|
            0 <= k < jobs.len() ==> jobs[k].notice < n_notices && jobs[k].handler < n_handlers
                && #[trigger] jobs[k].notice * n_handlers + jobs[k].handler == k,
    ensures
        jobs.no_duplicates(),
{
    assert forall|j: int, k: int| 0 <= j < jobs.len() && 0 <= k < jobs.len() && j != k implies jobs[j]
        != jobs[k] by {
        assert(jobs[j].notice * n_handlers + jobs[j].handler == j);
        assert(jobs[k].notice * n_handlers + jobs[k].handler == k);
    }
}

/// Splits the jobs by their outcomes; `outcomes[k]` says whether job `k` was delivered.
pub fn fan_in(jobs: &Vec<Job>, outcomes: &Vec<bool>) -> (r: DispatchReport)
    requires
        jobs@.len() == outcomes@.len(),
    ensures
        r.delivered@ == with_outcome(jobs@, outcomes@, true),
        r.failed@ == with_outcome(jobs@, outcomes@, false),
{
    let mut delivered: Vec<Job> = Vec::new();
    let mut failed: Vec<Job> = Vec::new();
    let mut i: usize = 0;
    while i < jobs.len()
        invariant
            0 <= i <= jobs@.len(),
            jobs@.len() == outcomes@.len(),
            delivered@ == with_outcome(
                jobs@.subrange(0, i as int),
                outcomes@.subrange(0, i as int),
                true,
            ),
            failed@ == with_outcome(
                jobs@.subrange(0, i as int),
                outcomes@.subrange(0, i as int),
                false,
            ),
        decreases jobs@.len() - i,
    {
        let ghost js = jobs@.subrange(0, i + 1);
        let ghost os = outcomes@.subrange(0, i + 1);
        assert(js.drop_last() =~= jobs@.subrange(0, i as int));
        assert(os.drop_last() =~= outcomes@.subrange(0, i as int));
        if outcomes[i] {
            delivered.push(jobs[i]);
        } else {
            failed.push(jobs[i]);
        }
        i = i + 1;
    }
    assert(jobs@.subrange(0, jobs@.len() as int) =~= jobs@);
    assert(outcomes@.subrange(0, outcomes@.len() as int) =~= outcomes@);
    DispatchReport { delivered, failed }
}

/// Each job is reported under its own outcome, whatever the outcomes of the
/// other jobs: a failure for one notice keeps no other delivery from being
/// reported.
pub proof fn lemma_isolation(jobs: Seq<Job>, outcomes: Seq<bool>, k: int)
    requires
        jobs.len() == outcomes.len(),
        0 <= k < jobs.len(),
    ensures
        with_outcome(jobs, outcomes, outcomes[k]).contains(jobs[k]),
    decreases jobs.len(),
{
    let rest = with_outcome(jobs.drop_last(), outcomes.drop_last(), outcomes[k]);
    if k == jobs.len() - 1 {
        assert(with_outcome(jobs, outcomes, outcomes[k]) == rest.push(jobs.last()));
        assert(rest.push(jobs.last())[rest.len() as int] == jobs[k]);
    } else {
        lemma_isolation(jobs.drop_last(), outcomes.drop_last(), k);
        assert(jobs.drop_last()[k] == jobs[k]);
        let i = choose|i: int| 0 <= i < rest.len() && rest[i] == jobs[k];
        if outcomes.last() == outcomes[k] {
            assert(rest.push(jobs.last())[i] == jobs[k]);
        }
    }
}


/// Closes a cycle once every job has reported: the snapshot to store is the
/// one the plan fixed, whatever the deliveries came to.
pub fn finish_cycle(plan: CyclePlan, jobs: &Vec<Job>, outcomes: &Vec<bool>) -> (r: CycleOutcome)
    requires
        jobs@.len() == outcomes@.len(),
    ensures
        r.snapshot == plan.snapshot,
        r.report.delivered@ == with_outcome(jobs@, outcomes@, true),
        r.report.failed@ == with_outcome(jobs@, outcomes@, false),
{
    CycleOutcome { report: fan_in(jobs, outcomes), snapshot: plan.snapshot }
}

} // verus!
