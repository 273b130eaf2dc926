use pbb_poc::dispatch::{
    plan_dispatch, reconcile_parallel, reconcile_sequential, EngineError, ExecutionMode,
    ExecutionOutcome, ExecutionResult,
};

fn ok(gas: u64) -> Result<ExecutionResult, EngineError> {
    Ok(ExecutionResult::Success { gas_used: gas, output: Vec::new() })
}

fn engine_error() -> EngineError {
    EngineError { message: String::from("out of gas budget") }
}

fn results(outcome: ExecutionOutcome) -> Vec<ExecutionResult> {
    match outcome {
        ExecutionOutcome::Results(v) => v,
        ExecutionOutcome::Failed(e) => panic!("unexpected batch failure: {}", e.message),
    }
}

#[test]
fn sequential_skips_the_failing_transaction() {
    let reports = vec![ok(1), Err(engine_error()), ok(3)];
    let out = results(reconcile_sequential(reports));
    assert_eq!(out.len(), 2);
    assert_eq!(out[0], ExecutionResult::Success { gas_used: 1, output: Vec::new() });
    assert_eq!(out[1], ExecutionResult::Success { gas_used: 3, output: Vec::new() });
}

#[test]
fn parallel_failure_is_a_hard_error_with_no_results() {
    let report: Result<Vec<ExecutionResult>, EngineError> = Err(engine_error());
    match reconcile_parallel(report) {
        ExecutionOutcome::Failed(e) => assert_eq!(e.message, "out of gas budget"),
        ExecutionOutcome::Results(_) => panic!("expected a hard failure"),
    }
}

#[test]
fn parallel_success_passes_the_results_through() {
    let report = Ok(vec![
        ExecutionResult::Revert { gas_used: 5, output: vec![1] },
        ExecutionResult::Halt { gas_used: 6 },
    ]);
    let out = results(reconcile_parallel(report));
    assert_eq!(out.len(), 2);
    assert_eq!(out[0], ExecutionResult::Revert { gas_used: 5, output: vec![1] });
    assert_eq!(out[1], ExecutionResult::Halt { gas_used: 6 });
}

#[test]
fn sequential_of_all_failures_is_empty_but_not_an_error() {
    let reports = vec![Err(engine_error()), Err(engine_error())];
    let out = results(reconcile_sequential(reports));
    assert!(out.is_empty());
}

#[test]
fn parallel_plan_takes_the_available_parallelism() {
    let plan = plan_dispatch(ExecutionMode::Parallel, Some(8));
    assert!(plan.parallel);
    assert_eq!(plan.concurrency, 8);
}

#[test]
fn unknown_parallelism_falls_back_to_one_worker() {
    let plan = plan_dispatch(ExecutionMode::Parallel, None);
    assert!(plan.parallel);
    assert_eq!(plan.concurrency, 1);
}

#[test]
fn sequential_plan_runs_on_one_worker() {
    let plan = plan_dispatch(ExecutionMode::Sequential, Some(8));
    assert!(!plan.parallel);
    assert_eq!(plan.concurrency, 1);
}
