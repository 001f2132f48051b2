//! Pipeline orchestrator: the state machine that sequences unpack,
//! enforcement, invocation and cleanup, and keeps the cleanup guarantee
//! under errors and cancellation.
//!
//! The host drives the machine: it feeds `step` an event — a stage's
//! completion, or the cancellation signal — performs whatever action the
//! machine hands back, and feeds in the next event.  All decisions live
//! here; the host only does the filesystem and process work.
//!
//! The guarantee: once the unpack stage has produced a sandbox directory,
//! every run that terminates issues exactly one cleanup of that directory;
//! a run that never learned a sandbox path issues none.

use vstd::prelude::*;

verus! {

/// How a terminated run ended.
#[derive(Debug, Clone, Copy, PartialEq, Eq, Structural)]
pub enum RunOutcome {
    Success,
    Failure,
    Cancelled,
}

/// Where the pipeline stands.
#[derive(Debug, Clone)]
pub enum PipelineState {
    /// Nothing has run yet.
    Start,
    /// The unpack stage is materialising the sandbox.
    Unpacking,
    /// The sandbox exists; the enforcer is being applied.
    Enforcing { sandbox: String },
    /// The artifact is running inside the sandbox.
    Invoking { sandbox: String },
    /// The run is over; the sandbox is being removed.
    CleaningUp { sandbox: String, outcome: RunOutcome },
    /// Terminated.  `sandbox` records the directory this run created and
    /// cleaned, if it ever created one.
    Done { outcome: RunOutcome, sandbox: Option<String> },
}

/// What the host reports back to the machine.
#[derive(Debug, Clone)]
pub enum PipelineEvent {
    /// Begin the run.
    Launch,
    /// Unpack produced the sandbox directory.
    UnpackSucceeded { sandbox: String },
    /// Unpack failed; no sandbox path is known.
    UnpackFailed,
    /// The enforcer was applied.
    EnforceSucceeded,
    /// The enforcer failed fatally.
    EnforceFailed,
    /// The artifact ran to completion.
    InvokeSucceeded,
    /// The artifact failed.
    InvokeFailed,
    /// The sandbox directory was removed.
    CleanupDone,
    /// The cancellation signal fired.
    Cancelled,
}

/// What the host must do next.
#[derive(Debug, Clone)]
pub enum PipelineAction {
    /// Materialise the sandbox from the bundle.
    RunUnpack,
    /// Apply the sandbox enforcer to this directory.
    RunEnforce { sandbox: String },
    /// Invoke the artifact inside this directory.
    RunInvoke { sandbox: String },
    /// Remove this directory recursively.
    RunCleanup { sandbox: String },
}

/// The model of a pipeline state.
pub enum StateModel {
    Start,
    Unpacking,
    Enforcing { sandbox: Seq<char> },
    Invoking { sandbox: Seq<char> },
    CleaningUp { sandbox: Seq<char>, outcome: RunOutcome },
    Done { outcome: RunOutcome, sandbox: Option<Seq<char>> },
}

/// The model of a pipeline event.
pub enum EventModel {
    Launch,
    UnpackSucceeded { sandbox: Seq<char> },
    UnpackFailed,
    EnforceSucceeded,
    EnforceFailed,
    InvokeSucceeded,
    InvokeFailed,
    CleanupDone,
    Cancelled,
}

/// The model of a pipeline action.
pub enum ActionModel {
    RunUnpack,
    RunEnforce { sandbox: Seq<char> },
    RunInvoke { sandbox: Seq<char> },
    RunCleanup { sandbox: Seq<char> },
}

impl View for PipelineState {
    type V = StateModel;

    open spec fn view(&self) -> StateModel {
        match self {
            PipelineState::Start => StateModel::Start,
            PipelineState::Unpacking => StateModel::Unpacking,
            PipelineState::Enforcing { sandbox } => StateModel::Enforcing { sandbox: sandbox@ },
            PipelineState::Invoking { sandbox } => StateModel::Invoking { sandbox: sandbox@ },
            PipelineState::CleaningUp { sandbox, outcome } => StateModel::CleaningUp {
                sandbox: sandbox@,
                outcome: *outcome,
            },
            PipelineState::Done { outcome, sandbox } => StateModel::Done {
                outcome: *outcome,
                sandbox: match sandbox {
                    Some(s) => Some(s@),
                    None => None,
                },
            },
        }
    }
}

impl View for PipelineEvent {
    type V = EventModel;

    open spec fn view(&self) -> EventModel {
        match self {
            PipelineEvent::Launch => EventModel::Launch,
            PipelineEvent::UnpackSucceeded { sandbox } => EventModel::UnpackSucceeded {
                sandbox: sandbox@,
            },
            PipelineEvent::UnpackFailed => EventModel::UnpackFailed,
            PipelineEvent::EnforceSucceeded => EventModel::EnforceSucceeded,
            PipelineEvent::EnforceFailed => EventModel::EnforceFailed,
            PipelineEvent::InvokeSucceeded => EventModel::InvokeSucceeded,
            PipelineEvent::InvokeFailed => EventModel::InvokeFailed,
            PipelineEvent::CleanupDone => EventModel::CleanupDone,
            PipelineEvent::Cancelled => EventModel::Cancelled,
        }
    }
}

impl View for PipelineAction {
    type V = ActionModel;

    open spec fn view(&self) -> ActionModel {
        match self {
            PipelineAction::RunUnpack => ActionModel::RunUnpack,
            PipelineAction::RunEnforce { sandbox } => ActionModel::RunEnforce {
                sandbox: sandbox@,
            },
            PipelineAction::RunInvoke { sandbox } => ActionModel::RunInvoke { sandbox: sandbox@ },
            PipelineAction::RunCleanup { sandbox } => ActionModel::RunCleanup {
                sandbox: sandbox@,
            },
        }
    }
}

/// The transition relation.  Stages run strictly in order; an error after
/// the sandbox exists, and cancellation in any such stage, divert into
/// cleanup; an error or cancellation before any sandbox path is known
/// terminates at once, with cleanup skipped.  An event that does not
/// belong to the current stage changes nothing.
pub open spec fn spec_step(s: StateModel, e: EventModel) -> (StateModel, Option<ActionModel>) {
    match (s, e) {
        (StateModel::Start, EventModel::Launch) => (
            StateModel::Unpacking,
            Some(ActionModel::RunUnpack),
        ),
        (StateModel::Start, EventModel::Cancelled) => (
            StateModel::Done { outcome: RunOutcome::Cancelled, sandbox: None },
            None,
        ),
        (StateModel::Unpacking, EventModel::UnpackSucceeded { sandbox }) => (
            StateModel::Enforcing { sandbox },
            Some(ActionModel::RunEnforce { sandbox }),
        ),
        (StateModel::Unpacking, EventModel::UnpackFailed) => (
            StateModel::Done { outcome: RunOutcome::Failure, sandbox: None },
            None,
        ),
        (StateModel::Unpacking, EventModel::Cancelled) => (
            StateModel::Done { outcome: RunOutcome::Cancelled, sandbox: None },
            None,
        ),
        (StateModel::Enforcing { sandbox }, EventModel::EnforceSucceeded) => (
            StateModel::Invoking { sandbox },
            Some(ActionModel::RunInvoke { sandbox }),
        ),
        (StateModel::Enforcing { sandbox }, EventModel::EnforceFailed) => (
            StateModel::CleaningUp { sandbox, outcome: RunOutcome::Failure },
            Some(ActionModel::RunCleanup { sandbox }),
        ),
        (StateModel::Enforcing { sandbox }, EventModel::Cancelled) => (
            StateModel::CleaningUp { sandbox, outcome: RunOutcome::Cancelled },
            Some(ActionModel::RunCleanup { sandbox }),
        ),
        (StateModel::Invoking { sandbox }, EventModel::InvokeSucceeded) => (
            StateModel::CleaningUp { sandbox, outcome: RunOutcome::Success },
            Some(ActionModel::RunCleanup { sandbox }),
        ),
        (StateModel::Invoking { sandbox }, EventModel::InvokeFailed) => (
            StateModel::CleaningUp { sandbox, outcome: RunOutcome::Failure },
            Some(ActionModel::RunCleanup { sandbox }),
        ),
        (StateModel::Invoking { sandbox }, EventModel::Cancelled) => (
            StateModel::CleaningUp { sandbox, outcome: RunOutcome::Cancelled },
            Some(ActionModel::RunCleanup { sandbox }),
        ),
        (StateModel::CleaningUp { sandbox, outcome }, EventModel::CleanupDone) => (
            StateModel::Done { outcome, sandbox: Some(sandbox) },
            None,
        ),
        (_, _) => (s, None),
    }
}

/// One step of the machine, computed.
pub fn step(state: PipelineState, event: PipelineEvent) -> (r: (
    PipelineState,
    Option<PipelineAction>,
))
    ensures
        r.0@ == spec_step(state@, event@).0,
        (match r.1 {
            Some(a) => spec_step(state@, event@).1 == Some(a@),
            None => spec_step(state@, event@).1 is None,
        }),
{
    match (state, event) {
        (PipelineState::Start, PipelineEvent::Launch) => (
            PipelineState::Unpacking,
            Some(PipelineAction::RunUnpack),
        ),
        (PipelineState::Start, PipelineEvent::Cancelled) => (
            PipelineState::Done { outcome: RunOutcome::Cancelled, sandbox: None },
            None,
        ),
        (PipelineState::Unpacking, PipelineEvent::UnpackSucceeded { sandbox }) => {
            let again: String = sandbox.clone();
            (
                PipelineState::Enforcing { sandbox },
                Some(PipelineAction::RunEnforce { sandbox: again }),
            )
        },
        (PipelineState::Unpacking, PipelineEvent::UnpackFailed) => (
            PipelineState::Done { outcome: RunOutcome::Failure, sandbox: None },
            None,
        ),
        (PipelineState::Unpacking, PipelineEvent::Cancelled) => (
            PipelineState::Done { outcome: RunOutcome::Cancelled, sandbox: None },
            None,
        ),
        (PipelineState::Enforcing { sandbox }, PipelineEvent::EnforceSucceeded) => {
            let again: String = sandbox.clone();
            (
                PipelineState::Invoking { sandbox },
                Some(PipelineAction::RunInvoke { sandbox: again }),
            )
        },
        (PipelineState::Enforcing { sandbox }, PipelineEvent::EnforceFailed) => {
            let again: String = sandbox.clone();
            (
                PipelineState::CleaningUp { sandbox, outcome: RunOutcome::Failure },
                Some(PipelineAction::RunCleanup { sandbox: again }),
            )
        },
        (PipelineState::Enforcing { sandbox }, PipelineEvent::Cancelled) => {
            let again: String = sandbox.clone();
            (
                PipelineState::CleaningUp { sandbox, outcome: RunOutcome::Cancelled },
                Some(PipelineAction::RunCleanup { sandbox: again }),
            )
        },
        (PipelineState::Invoking { sandbox }, PipelineEvent::InvokeSucceeded) => {
            let again: String = sandbox.clone();
            (
                PipelineState::CleaningUp { sandbox, outcome: RunOutcome::Success },
                Some(PipelineAction::RunCleanup { sandbox: again }),
            )
        },
        (PipelineState::Invoking { sandbox }, PipelineEvent::InvokeFailed) => {
            let again: String = sandbox.clone();
            (
                PipelineState::CleaningUp { sandbox, outcome: RunOutcome::Failure },
                Some(PipelineAction::RunCleanup { sandbox: again }),
            )
        },
        (PipelineState::Invoking { sandbox }, PipelineEvent::Cancelled) => {
            let again: String = sandbox.clone();
            (
                PipelineState::CleaningUp { sandbox, outcome: RunOutcome::Cancelled },
                Some(PipelineAction::RunCleanup { sandbox: again }),
            )
        },
        (PipelineState::CleaningUp { sandbox, outcome }, PipelineEvent::CleanupDone) => (
            PipelineState::Done { outcome, sandbox: Some(sandbox) },
            None,
        ),
        (s, _) => (s, None),
    }
}

/// The state a run of the machine ends in after consuming `events` from
/// the start.
pub open spec fn final_state(events: Seq<EventModel>) -> StateModel
    decreases events.len(),
{
    if events.len() == 0 {
        StateModel::Start
    } else {
        spec_step(final_state(events.drop_last()), events.last()).0
    }
}

/// Every action the machine hands out while consuming `events`, in order.
pub open spec fn emitted_actions(events: Seq<EventModel>) -> Seq<ActionModel>
    decreases events.len(),
{
    if events.len() == 0 {
        Seq::empty()
    } else {
        let prev = emitted_actions(events.drop_last());
        match spec_step(final_state(events.drop_last()), events.last()).1 {
            Some(a) => prev.push(a),
            None => prev,
        }
    }
}

/// The cleanup actions among a list of actions, in order.
pub open spec fn cleanups(acts: Seq<ActionModel>) -> Seq<ActionModel>
    decreases acts.len(),
{
    if acts.len() == 0 {
        Seq::empty()
    } else {
        let rest = cleanups(acts.drop_last());
        if acts.last() is RunCleanup {
            rest.push(acts.last())
        } else {
            rest
        }
    }
}

proof fn lemma_cleanups_push(acts: Seq<ActionModel>, a: ActionModel)
    ensures
        a is RunCleanup ==> cleanups(acts.push(a)) == cleanups(acts).push(a),
        !(a is RunCleanup) ==> cleanups(acts.push(a)) == cleanups(acts),
{
    assert(acts.push(a).drop_last() =~= acts);
    assert(acts.push(a).last() == a);
}

/// What each state says about the cleanups issued so far: none before the
/// cleanup stage, exactly the one for the live sandbox during and after
/// it, none at all for a run that never had a sandbox.
pub open spec fn cleanup_record(s: StateModel, acts: Seq<ActionModel>) -> bool {
    match s {
        StateModel::Start => cleanups(acts).len() == 0,
        StateModel::Unpacking => cleanups(acts).len() == 0,
        StateModel::Enforcing { .. } => cleanups(acts).len() == 0,
        StateModel::Invoking { .. } => cleanups(acts).len() == 0,
        StateModel::CleaningUp { sandbox, .. } => cleanups(acts) == seq![
            ActionModel::RunCleanup { sandbox },
        ],
        StateModel::Done { sandbox: Some(p), .. } => cleanups(acts) == seq![
            ActionModel::RunCleanup { sandbox: p },
        ],
        StateModel::Done { sandbox: None, .. } => cleanups(acts).len() == 0,
    }
}

/// Law: cleanup runs exactly once.  Whatever events drive the machine —
/// success, failure or cancellation at any stage — the actions it has
/// issued always stand in the relation `cleanup_record` to its state: a
/// terminated run that created a sandbox has issued exactly one cleanup,
/// of exactly that directory, and a run that never created one has issued
/// none.
pub proof fn lemma_cleanup_exactly_once(events: Seq<EventModel>)
    ensures
        cleanup_record(final_state(events), emitted_actions(events)),
    decreases events.len(),
{
    if events.len() == 0 {
    } else {
        let prefix = events.drop_last();
        let e = events.last();
        lemma_cleanup_exactly_once(prefix);
        let s = final_state(prefix);
        let acts = emitted_actions(prefix);
        match spec_step(s, e).1 {
            Some(a) => {
                lemma_cleanups_push(acts, a);
                if a is RunCleanup {
                    assert(cleanups(acts).len() == 0);
                    assert(cleanups(acts) =~= Seq::<ActionModel>::empty());
                    assert(cleanups(acts.push(a)) =~= seq![a]);
                }
            },
            None => {},
        }
    }
}

} // verus!
