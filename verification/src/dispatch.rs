//! Dispatch policy for running the batch: choose a concurrency level and an
//! execution mode, and reconcile what the engine reports.
//!
//! Parallel mode treats an engine error as a hard batch failure with no
//! partial results; sequential mode skips a failing transaction and keeps
//! the results of the others, in input order.

use vstd::prelude::*;

verus! {

/// How the batch is run.
#[derive(Clone, Copy, Debug, PartialEq, Eq, Structural)]
pub enum ExecutionMode {
    /// Fan the batch out across workers; all-or-nothing.
    Parallel,
    /// Run strictly in input order, committing each transaction before the
    /// next; best-effort.
    Sequential,
}

/// What the engine reports for one executed transaction.
#[derive(Clone, Debug, PartialEq, Eq)]
pub enum ExecutionResult {
    /// The transaction ran to completion.
    Success { gas_used: u64, output: Vec<u8> },
    /// The transaction reverted, consuming gas.
    Revert { gas_used: u64, output: Vec<u8> },
    /// The transaction halted on an invalid operation.
    Halt { gas_used: u64 },
}

/// An error reported by the execution engine.
#[derive(Clone, Debug, PartialEq, Eq)]
pub struct EngineError {
    /// The engine's description of the failure.
    pub message: String,
}

/// What one dispatch call yields: per-transaction results, or a hard batch
/// error with no partial results.
#[derive(Clone, Debug)]
pub enum ExecutionOutcome {
    /// Results of the transactions that executed, in input order.
    Results(Vec<ExecutionResult>),
    /// The batch failed as a whole.
    Failed(EngineError),
}

/// A resolved invocation of the execution engine.
#[derive(Clone, Copy, Debug, PartialEq, Eq, Structural)]
pub struct DispatchPlan {
    /// Whether the parallel entry point is invoked.
    pub parallel: bool,
    /// Worker count handed to the engine.
    pub concurrency: usize,
}

/// Decide how the engine is invoked: parallel mode requests the host's
/// available parallelism, falling back to one worker where it cannot be
/// determined; sequential mode always runs on one worker.
pub fn plan_dispatch(mode: ExecutionMode, available_parallelism: Option<usize>) -> (r: DispatchPlan)
    requires
        available_parallelism matches Some(n) ==> n >= 1,
    ensures
        r.parallel == (mode == ExecutionMode::Parallel),
        mode == ExecutionMode::Sequential ==> r.concurrency == 1,
        mode == ExecutionMode::Parallel ==> r.concurrency == (match available_parallelism {
            Some(n) => n as int,
            None => 1,
        }),
        r.concurrency >= 1,
{
    match mode {
        ExecutionMode::Sequential => DispatchPlan { parallel: false, concurrency: 1 },
        ExecutionMode::Parallel => {
            let concurrency: usize = match available_parallelism {
                Some(n) => n,
                None => 1,
            };
            DispatchPlan { parallel: true, concurrency }
        },
    }
}

/// The successful results among a run of per-transaction reports, in order;
/// failed transactions are simply absent.
pub open spec fn ok_results(s: Seq<Result<ExecutionResult, EngineError>>) -> Seq<ExecutionResult>
    decreases s.len(),
{
    if s.len() == 0 {
        Seq::empty()
    } else {
        match s.last() {
            Ok(x) => ok_results(s.drop_last()).push(x),
            Err(_) => ok_results(s.drop_last()),
        }
    }
}

/// Reconcile a parallel run: the engine's results are passed through, and an
/// engine error fails the whole batch with no partial results.
pub fn reconcile_parallel(report: Result<Vec<ExecutionResult>, EngineError>) -> (r:
    ExecutionOutcome)
    ensures
        report matches Ok(v) ==> (r matches ExecutionOutcome::Results(rv) && rv == v),
        report matches Err(e) ==> (r matches ExecutionOutcome::Failed(e2) && e2 == e),
{
    match report {
        Ok(v) => ExecutionOutcome::Results(v),
        Err(e) => ExecutionOutcome::Failed(e),
    }
}

/// Reconcile a sequential run from its per-transaction reports: a failing
/// transaction is skipped, not reported, and never fails the batch; the
/// remaining results keep their input order.
pub fn reconcile_sequential(reports: Vec<Result<ExecutionResult, EngineError>>) -> (r:
    ExecutionOutcome)
    ensures
        r matches ExecutionOutcome::Results(rv) && rv@ == ok_results(reports@),
{
    let mut rest = reports;
    let ghost orig = rest@;
    let mut results: Vec<ExecutionResult> = Vec::new();
    let mut i: usize = 0;
    let _n: usize = rest.len();
    while rest.len() > 0
        invariant
            orig == reports@,
            orig.len() <= usize::MAX,
            i + rest@.len() == orig.len(),
            rest@ == orig.subrange(i as int, orig.len() as int),
            results@ == ok_results(orig.subrange(0, i as int)),
        decreases rest@.len(),
    {
        let head = rest.remove(0);
        proof {
            assert(orig.subrange(0, i + 1).drop_last() =~= orig.subrange(0, i as int));
            assert(orig.subrange(0, i + 1).last() == orig[i as int]);
        }
        match head {
            Ok(x) => {
                results.push(x);
            },
            Err(_) => {
            },
        }
        i = i + 1;
        proof {
            assert(rest@ =~= orig.subrange(i as int, orig.len() as int));
        }
    }
    proof {
        assert(orig.subrange(0, orig.len() as int) =~= orig);
    }
    ExecutionOutcome::Results(results)
}

} // verus!
