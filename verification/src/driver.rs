use crate::errors::AppError;
use crate::text::join2;
use crate::tools::{observation_of, observation_text};
use vstd::prelude::*;

verus! {

/// Where one completion stands. `rounds` counts the rounds of tool calls
/// that were carried out.
#[derive(Clone, Debug)]
pub enum DriverState {
    /// The model was asked and has not answered yet.
    AwaitingModel { rounds: usize },
    /// The model asked for `calls` tool calls, which have not begun.
    ToolRequested { rounds: usize, calls: usize },
    /// The tool calls are being carried out.
    ToolExecuting { rounds: usize, calls: usize },
    /// The completion is over.
    Completed,
}

/// What happened since the last step.
pub enum DriverEvent {
    /// The model answered with text alone.
    ModelAnswered(String),
    /// The model asked for `calls` tool calls; `text` is what it said
    /// besides.
    ModelRequested { calls: usize, text: String },
    /// The tool calls that the model asked for have begun.
    ToolsStarted,
    /// The tool calls ended, each with a reply or an error.
    ToolsFinished(Vec<Result<String, AppError>>),
    /// The model provider could not be reached.
    ProviderFailed(String),
}

/// What is to be done next.
#[derive(Debug)]
pub enum DriverAction {
    /// Carry out the tool calls that the model asked for.
    StartTools(usize),
    /// Wait for the tool calls to end.
    AwaitTools,
    /// Give the model these observations, one for each tool call, and ask it
    /// again.
    AskModel(Vec<String>),
    /// The completion ended with this transcript.
    Finish(String),
    /// The completion failed with this error.
    Abort(AppError),
    /// The event does not belong to the state: nothing is done.
    Ignore,
}

/// The words that introduce the provider's failure in the error.
pub open spec fn failure_heading() -> Seq<char> {
    "Agent execution failed: "@
}

/// The rounds that a state counts; none once the completion is over.
pub open spec fn rounds_of(state: DriverState) -> nat {
    match state {
        DriverState::AwaitingModel { rounds } => rounds as nat,
        DriverState::ToolRequested { rounds, .. } => rounds as nat,
        DriverState::ToolExecuting { rounds, .. } => rounds as nat,
        DriverState::Completed => 0,
    }
}

/// A state is valid under a round limit if it counts no more rounds than
/// the limit, and fewer while a round is under way.
pub open spec fn valid_state(state: DriverState, limit: nat) -> bool {
    match state {
        DriverState::AwaitingModel { rounds } => rounds <= limit,
        DriverState::ToolRequested { rounds, .. } => rounds < limit,
        DriverState::ToolExecuting { rounds, .. } => rounds < limit,
        DriverState::Completed => true,
    }
}

/// Whether `observations` tells the model of `results`: one observation for
/// each result, in order, a failed call as a text too.
pub open spec fn observes(observations: Seq<String>, results: Seq<Result<String, AppError>>) -> bool {
    &&& observations.len() == results.len()
    &&& forall|i: int|
        0 <= i < results.len() ==> (#[trigger] observations[i])@ == observation_text(results[i])
}

/// The step relation of a completion under the round limit `limit`.
///
/// While the model is awaited: a text ends the completion with that text as
/// the transcript; a request for tool calls begins a round, unless it asks
/// for none or the limit is reached, in which case the completion ends with
/// the text that came with the request; a provider failure ends it with an
/// error of the provider's kind. A requested round begins when the tools
/// start, and ends when they finish: the model is then asked again with one
/// observation for each call, and the round is counted. Any other event is
/// ignored and leaves the state as it is.
pub open spec fn is_step(
    state: DriverState,
    event: DriverEvent,
    limit: nat,
    next: DriverState,
    action: DriverAction,
) -> bool {
    match (state, event) {
        (DriverState::AwaitingModel { .. }, DriverEvent::ModelAnswered(text)) => {
            &&& next is Completed
            &&& action matches DriverAction::Finish(transcript)
            &&& transcript@ == text@
        },
        (DriverState::AwaitingModel { rounds }, DriverEvent::ModelRequested { calls, text }) => {
            if calls > 0 && rounds < limit {
                &&& next == (DriverState::ToolRequested { rounds, calls })
                &&& action == DriverAction::StartTools(calls)
            } else {
                &&& next is Completed
                &&& action matches DriverAction::Finish(transcript)
                &&& transcript@ == text@
            }
        },
        (DriverState::AwaitingModel { .. }, DriverEvent::ProviderFailed(why)) => {
            &&& next is Completed
            &&& action matches DriverAction::Abort(AppError::AIError(cause))
            &&& cause@ == failure_heading() + why@
        },
        (DriverState::ToolRequested { rounds, calls }, DriverEvent::ToolsStarted) => {
            &&& next == (DriverState::ToolExecuting { rounds, calls })
            &&& action is AwaitTools
        },
        (DriverState::ToolExecuting { rounds, .. }, DriverEvent::ToolsFinished(results)) => {
            &&& next == (DriverState::AwaitingModel { rounds: (rounds + 1) as usize })
            &&& action matches DriverAction::AskModel(observations)
            &&& observes(observations@, results@)
        },
        _ => next == state && action is Ignore,
    }
}

/// Whether the state is valid under the round limit.
pub fn is_valid(state: &DriverState, limit: usize) -> (r: bool)
    ensures
        r == valid_state(*state, limit as nat),
{
    match state {
        DriverState::AwaitingModel { rounds } => *rounds <= limit,
        DriverState::ToolRequested { rounds, .. } => *rounds < limit,
        DriverState::ToolExecuting { rounds, .. } => *rounds < limit,
        DriverState::Completed => true,
    }
}

/// Where a completion begins: the model was asked, and no round was run.
pub fn start() -> (r: DriverState)
    ensures
        r == (DriverState::AwaitingModel { rounds: 0 }),
        forall|limit: nat| valid_state(r, limit),
{
    DriverState::AwaitingModel { rounds: 0 }
}

/// The observations for the results of a round of tool calls.
pub fn observations_of(results: Vec<Result<String, AppError>>) -> (r: Vec<String>)
    ensures
        observes(r@, results@),
{
    let ghost all = results@;
    let mut stack: Vec<Result<String, AppError>> = crate::sequence::reversed(results);
    let mut out: Vec<String> = Vec::new();
    while stack.len() > 0
        invariant
            out@.len() + stack@.len() == all.len(),
            forall|j: int| 0 <= j < stack@.len() ==> stack@[j] == all[all.len() - 1 - j],
            observes(out@, all.take(out@.len() as int)),
        decreases stack.len(),
    {
        let ghost before = out@;
        let result: Result<String, AppError> = stack.pop().unwrap();
        out.push(observation_of(result));
        assert forall|i: int| 0 <= i < out@.len() implies (#[trigger] out@[i])@
            == observation_text(all.take(out@.len() as int)[i]) by {
            if i < before.len() {
                assert(out@[i] == before[i]);
                assert(all.take(before.len() as int)[i] == all[i]);
            }
        }
    }
    assert(all.take(all.len() as int) =~= all);
    out
}

/// Takes one step of a completion: from the state and what happened to the
/// next state and what is to be done.
pub fn advance(state: DriverState, event: DriverEvent, limit: usize) -> (r: (
    DriverState,
    DriverAction,
))
    requires
        valid_state(state, limit as nat),
    ensures
        is_step(state, event, limit as nat, r.0, r.1),
        valid_state(r.0, limit as nat),
{
    match (state, event) {
        (DriverState::AwaitingModel { .. }, DriverEvent::ModelAnswered(text)) => (
            DriverState::Completed,
            DriverAction::Finish(text),
        ),
        (DriverState::AwaitingModel { rounds }, DriverEvent::ModelRequested { calls, text }) => {
            if calls > 0 && rounds < limit {
                (DriverState::ToolRequested { rounds, calls }, DriverAction::StartTools(calls))
            } else {
                (DriverState::Completed, DriverAction::Finish(text))
            }
        },
        (DriverState::AwaitingModel { .. }, DriverEvent::ProviderFailed(why)) => (
            DriverState::Completed,
            DriverAction::Abort(
                AppError::AIError(join2("Agent execution failed: ", why.as_str())),
            ),
        ),
        (DriverState::ToolRequested { rounds, calls }, DriverEvent::ToolsStarted) => (
            DriverState::ToolExecuting { rounds, calls },
            DriverAction::AwaitTools,
        ),
        (DriverState::ToolExecuting { rounds, .. }, DriverEvent::ToolsFinished(results)) => (
            DriverState::AwaitingModel { rounds: rounds + 1 },
            DriverAction::AskModel(observations_of(results)),
        ),
        (state, _) => (state, DriverAction::Ignore),
    }
}

/// A completion fails only because the model provider could not be reached:
/// no result of a tool call, failed or not, makes a step abort.
pub proof fn lemma_only_provider_failure_aborts(
    state: DriverState,
    event: DriverEvent,
    limit: nat,
    next: DriverState,
    action: DriverAction,
)
    requires
        is_step(state, event, limit, next, action),
        action is Abort,
    ensures
        state is AwaitingModel,
        event is ProviderFailed,
        action matches DriverAction::Abort(e) && e is AIError,
{
}

/// Once a completion is over, no event changes it or asks for anything.
pub proof fn lemma_completed_stays(
    event: DriverEvent,
    limit: nat,
    next: DriverState,
    action: DriverAction,
)
    requires
        is_step(DriverState::Completed, event, limit, next, action),
    ensures
        next is Completed,
        action is Ignore,
{
}

/// No step begins a round of tool calls once the limit is reached, and each
/// step counts at most one round more.
pub proof fn lemma_rounds_bounded(
    state: DriverState,
    event: DriverEvent,
    limit: nat,
    next: DriverState,
    action: DriverAction,
)
    requires
        valid_state(state, limit),
        limit <= usize::MAX,
        is_step(state, event, limit, next, action),
    ensures
        valid_state(next, limit),
        rounds_of(next) <= rounds_of(state) + 1,
        action is StartTools ==> rounds_of(state) < limit,
{
}

} // verus!
