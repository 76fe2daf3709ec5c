use closures_futures::chain::{
    advance, first_stage, label, next_stage, shows_payload, ChainFailure, LogEntry, Outcome,
    Stage,
};

fn outcome_for(stage: Stage) -> Outcome {
    match stage {
        Stage::Entered | Stage::FirstStep | Stage::LastStep => Outcome::Nothing,
        Stage::Greeting => Outcome::Text(String::from("Hello from rt.block_on()")),
        Stage::DynFuture => Outcome::Number(1337),
        _ => Outcome::Number(42),
    }
}

#[test]
fn chain_runs_all_stages_in_order() {
    let mut stage = Some(first_stage());
    let mut log: Vec<LogEntry> = Vec::new();
    let mut stages: Vec<Stage> = Vec::new();
    while let Some(s) = stage {
        stages.push(s);
        let t = advance(s, outcome_for(s)).unwrap();
        log.push(t.entry);
        stage = t.next;
    }
    assert_eq!(
        stages,
        vec![
            Stage::Entered,
            Stage::FirstStep,
            Stage::Greeting,
            Stage::ImplFuture,
            Stage::DynFuture,
            Stage::FutureResult,
            Stage::FutureResultDynError,
            Stage::DelayedFuture,
            Stage::WaitASec,
            Stage::LastStep,
        ]
    );
    let labels: Vec<&str> = log.iter().map(|e| e.label).collect();
    assert_eq!(
        labels,
        vec![
            "in returns_future_chain()",
            "in first then",
            "future::ready()",
            "returns_impl_future_i32()",
            "returns_dyn_future_i32()",
            "returns_future_result().unwrap()",
            "returns_future_result_dyn_error().unwrap()",
            "returns_delayed_future()",
            "wait_a_sec(future::ready(42))",
            "in last then",
        ]
    );
    assert_eq!(log[2].outcome, Outcome::Text(String::from("Hello from rt.block_on()")));
    assert_eq!(log[4].outcome, Outcome::Number(1337));
    assert_eq!(log[9].outcome, Outcome::Nothing);
}

#[test]
fn last_stage_completes_without_payload() {
    assert_eq!(next_stage(Stage::LastStep), None);
    assert!(!shows_payload(Stage::LastStep));
    let t = advance(Stage::LastStep, Outcome::Nothing).unwrap();
    assert_eq!(t.next, None);
    assert_eq!(t.entry, LogEntry { label: "in last then", outcome: Outcome::Nothing });
}

#[test]
fn next_stage_steps_forward() {
    assert_eq!(first_stage(), Stage::Entered);
    assert_eq!(next_stage(Stage::Entered), Some(Stage::FirstStep));
    assert_eq!(next_stage(Stage::Greeting), Some(Stage::ImplFuture));
    assert_eq!(next_stage(Stage::WaitASec), Some(Stage::LastStep));
}

#[test]
fn payload_shown_only_for_valued_stages() {
    assert!(!shows_payload(Stage::Entered));
    assert!(!shows_payload(Stage::FirstStep));
    assert!(shows_payload(Stage::Greeting));
    assert!(shows_payload(Stage::ImplFuture));
    assert!(shows_payload(Stage::WaitASec));
}

#[test]
fn labels_name_the_producers() {
    assert_eq!(label(Stage::ImplFuture), "returns_impl_future_i32()");
    assert_eq!(label(Stage::DelayedFuture), "returns_delayed_future()");
}

#[test]
fn failed_result_stops_the_chain() {
    assert_eq!(
        advance(Stage::FutureResult, Outcome::Failed),
        Err(ChainFailure { stage: Stage::FutureResult })
    );
    assert_eq!(
        advance(Stage::FutureResultDynError, Outcome::Failed),
        Err(ChainFailure { stage: Stage::FutureResultDynError })
    );
}

#[test]
fn advance_keeps_the_outcome() {
    let t = advance(Stage::DynFuture, Outcome::Number(42)).unwrap();
    assert_eq!(t.entry.label, "returns_dyn_future_i32()");
    assert_eq!(t.entry.outcome, Outcome::Number(42));
    assert_eq!(t.next, Some(Stage::FutureResult));
}
