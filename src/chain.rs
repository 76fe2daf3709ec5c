//! The chained sequence of producers, as a state machine.
//!
//! The caller runs each stage (it awaits the stage's producer, if any) and
//! hands back what the stage resolved to; `advance` answers with the log
//! entry for it and the stage to run next. The sequence ends after
//! `Stage::LastStep`, which resolves to nothing.
use vstd::prelude::*;

verus! {

/// A stage of the chained sequence, in the order in which the stages run.
#[derive(Clone, Copy, Debug, PartialEq, Eq, Structural)]
pub enum Stage {
    /// The chain has been entered.
    Entered,
    /// The first continuation runs.
    FirstStep,
    /// A ready future with the greeting text.
    Greeting,
    /// `returns_impl_future_i32`.
    ImplFuture,
    /// `returns_dyn_future_i32`.
    DynFuture,
    /// `returns_future_result`, unwrapped.
    FutureResult,
    /// `returns_future_result_dyn_error`, unwrapped.
    FutureResultDynError,
    /// `returns_delayed_future`.
    DelayedFuture,
    /// `wait_a_sec` around a ready future.
    WaitASec,
    /// The last continuation runs; the chain completes with no value.
    LastStep,
}

/// What a stage resolved to.
#[derive(Clone, Debug, PartialEq, Eq)]
pub enum Outcome {
    /// No value.
    Nothing,
    /// A text.
    Text(String),
    /// A number.
    Number(i32),
    /// A result that held an error.
    Failed,
}

/// One line of the chain's log: what ran, and what it resolved to.
#[derive(Clone, Debug, PartialEq, Eq)]
pub struct LogEntry {
    pub label: &'static str,
    pub outcome: Outcome,
}

/// The log entry of a stage, and the stage to run after it (`None` once the chain is complete).
#[derive(Clone, Debug, PartialEq, Eq)]
pub struct Transition {
    pub entry: LogEntry,
    pub next: Option<Stage>,
}

/// A stage whose result held an error: the chain cannot go on.
#[derive(Clone, Copy, Debug, PartialEq, Eq, Structural)]
pub struct ChainFailure {
    pub stage: Stage,
}

/// The position of a stage in the sequence, from `0`.
pub open spec fn stage_index(s: Stage) -> nat {
    match s {
        Stage::Entered => 0,
        Stage::FirstStep => 1,
        Stage::Greeting => 2,
        Stage::ImplFuture => 3,
        Stage::DynFuture => 4,
        Stage::FutureResult => 5,
        Stage::FutureResultDynError => 6,
        Stage::DelayedFuture => 7,
        Stage::WaitASec => 8,
        Stage::LastStep => 9,
    }
}

/// The stage after `s`, if any.
pub open spec fn spec_next(s: Stage) -> Option<Stage> {
    match s {
        Stage::Entered => Some(Stage::FirstStep),
        Stage::FirstStep => Some(Stage::Greeting),
        Stage::Greeting => Some(Stage::ImplFuture),
        Stage::ImplFuture => Some(Stage::DynFuture),
        Stage::DynFuture => Some(Stage::FutureResult),
        Stage::FutureResult => Some(Stage::FutureResultDynError),
        Stage::FutureResultDynError => Some(Stage::DelayedFuture),
        Stage::DelayedFuture => Some(Stage::WaitASec),
        Stage::WaitASec => Some(Stage::LastStep),
        Stage::LastStep => None,
    }
}

/// Whether the stage resolves to a value that its log entry shows.
pub open spec fn has_payload(s: Stage) -> bool {
    !(s is Entered || s is FirstStep || s is LastStep)
}

/// The stages that run from `s` on, in order.
pub open spec fn trace_from(s: Stage) -> Seq<Stage>
    decreases 9 - stage_index(s),
{
    match spec_next(s) {
        Some(n) => if stage_index(n) > stage_index(s) {
            seq![s] + trace_from(n)
        } else {
            seq![s]
        },
        None => seq![s],
    }
}

/// The label under which a stage is logged.
pub open spec fn spec_label(s: Stage) -> Seq<char> {
    match s {
        Stage::Entered => "in returns_future_chain()"@,
        Stage::FirstStep => "in first then"@,
        Stage::Greeting => "future::ready()"@,
        Stage::ImplFuture => "returns_impl_future_i32()"@,
        Stage::DynFuture => "returns_dyn_future_i32()"@,
        Stage::FutureResult => "returns_future_result().unwrap()"@,
        Stage::FutureResultDynError => "returns_future_result_dyn_error().unwrap()"@,
        Stage::DelayedFuture => "returns_delayed_future()"@,
        Stage::WaitASec => "wait_a_sec(future::ready(42))"@,
        Stage::LastStep => "in last then"@,
    }
}

/// The stage the chain starts with.
pub fn first_stage() -> (r: Stage)
    ensures
        r == Stage::Entered,
        stage_index(r) == 0,
{
    Stage::Entered
}

/// The stage after `s`, or `None` after the last one.
pub fn next_stage(s: Stage) -> (r: Option<Stage>)
    ensures
        r == spec_next(s),
{
    match s {
        Stage::Entered => Some(Stage::FirstStep),
        Stage::FirstStep => Some(Stage::Greeting),
        Stage::Greeting => Some(Stage::ImplFuture),
        Stage::ImplFuture => Some(Stage::DynFuture),
        Stage::DynFuture => Some(Stage::FutureResult),
        Stage::FutureResult => Some(Stage::FutureResultDynError),
        Stage::FutureResultDynError => Some(Stage::DelayedFuture),
        Stage::DelayedFuture => Some(Stage::WaitASec),
        Stage::WaitASec => Some(Stage::LastStep),
        Stage::LastStep => None,
    }
}

/// The label under which `s` is logged.
pub fn label(s: Stage) -> (r: &'static str)
    ensures
        r@ == spec_label(s),
{
    match s {
        Stage::Entered => "in returns_future_chain()",
        Stage::FirstStep => "in first then",
        Stage::Greeting => "future::ready()",
        Stage::ImplFuture => "returns_impl_future_i32()",
        Stage::DynFuture => "returns_dyn_future_i32()",
        Stage::FutureResult => "returns_future_result().unwrap()",
        Stage::FutureResultDynError => "returns_future_result_dyn_error().unwrap()",
        Stage::DelayedFuture => "returns_delayed_future()",
        Stage::WaitASec => "wait_a_sec(future::ready(42))",
        Stage::LastStep => "in last then",
    }
}

/// Whether the log entry of `s` shows what it resolved to.
pub fn shows_payload(s: Stage) -> (r: bool)
    ensures
        r == has_payload(s),
{
    match s {
        Stage::Entered | Stage::FirstStep | Stage::LastStep => false,
        _ => true,
    }
}

/// Takes what stage `s` resolved to: the log entry for it and the next stage,
/// or a failure where an unwrapped result held an error.
pub fn advance(s: Stage, outcome: Outcome) -> (r: Result<Transition, ChainFailure>)
    ensures
        r is Err <==> outcome is Failed,
        r is Err ==> r->Err_0.stage == s,
        r is Ok ==> r->Ok_0.entry.label@ == spec_label(s) && r->Ok_0.entry.outcome == outcome
            && r->Ok_0.next == spec_next(s),
{
    if let Outcome::Failed = outcome {
        return Err(ChainFailure { stage: s });
    }
    Ok(Transition { entry: LogEntry { label: label(s), outcome }, next: next_stage(s) })
}

/// The chain, started at its first stage, runs each stage once and in this
/// order: entry, first step, greeting, the ready value, the randomly chosen
/// value, the two unwrapped results, the delayed value, the forwarded value
/// and the last step. The last stage has no successor and resolves to nothing.
pub proof fn lemma_chain_order()
    ensures
        trace_from(Stage::Entered) == seq![
            Stage::Entered,
            Stage::FirstStep,
            Stage::Greeting,
            Stage::ImplFuture,
            Stage::DynFuture,
            Stage::FutureResult,
            Stage::FutureResultDynError,
            Stage::DelayedFuture,
            Stage::WaitASec,
            Stage::LastStep,
        ],
        spec_next(Stage::LastStep) is None,
        !has_payload(Stage::LastStep),
        forall|s: Stage| #[trigger] spec_next(s) is Some
            ==> stage_index(spec_next(s)->Some_0) == stage_index(s) + 1,
{
    reveal_with_fuel(trace_from, 11);
    assert(trace_from(Stage::Entered) =~= seq![
        Stage::Entered,
        Stage::FirstStep,
        Stage::Greeting,
        Stage::ImplFuture,
        Stage::DynFuture,
        Stage::FutureResult,
        Stage::FutureResultDynError,
        Stage::DelayedFuture,
        Stage::WaitASec,
        Stage::LastStep,
    ]);
}

} // verus!
