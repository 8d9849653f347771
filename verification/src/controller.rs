//! The reconciliation controller: the decision core of one attempt and the
//! single-flight discipline across attempts.
//!
//! One attempt runs fetch, decide, apply. The surrounding program does the
//! fetching and applying; [`decide`] is the step between, a pure function of
//! the snapshot and the power state. [`Controller`] serializes attempts: at
//! most one is in flight at a time, and any number of triggers arriving
//! while one is in flight collapse into exactly one follow-up attempt that
//! uses the latest trigger.

use crate::display_config::{build_apply, spec_build_error, spec_is_apply_for, ApplyConfig, State};
use crate::selector::{
    builtin_current_mode_id, select_mode, spec_builtin_current_id, spec_select_mode, SelectionError,
};
use vstd::prelude::*;

verus! {

/// What sets a reconciliation attempt off: a power-source change, which
/// carries the new power state, or a screen wake, which carries none (the
/// power state must be queried afresh before deciding).
#[derive(Clone, Copy, PartialEq, Eq, Structural, Debug)]
pub enum Trigger {
    PowerChanged { on_battery: bool },
    ScreenWake,
}

/// What the controller reacts to: a trigger arriving, or the in-flight
/// attempt finishing (however it ended - applied, no-op, or any failure;
/// all attempt-level failures are recoverable and end the attempt alike).
#[derive(Clone, Copy, PartialEq, Eq, Structural, Debug)]
pub enum ReconcilerEvent {
    TriggerArrived(Trigger),
    AttemptDone,
}

/// What the surrounding program must do next: start an attempt for the
/// given trigger, or nothing.
#[derive(Clone, Copy, PartialEq, Eq, Structural, Debug)]
pub enum Action {
    Start(Trigger),
    Wait,
}

/// The controller's whole state: idle, or one attempt in flight together
/// with the coalesced follow-up trigger, if any arrived meanwhile.
#[derive(Clone, Copy, Debug)]
pub enum ControllerState {
    Idle,
    Busy { pending: Option<Trigger> },
}

/// A raw notification from the power/idle event source, as the surrounding
/// program reads it off its subscriptions.
#[derive(Clone, Copy, PartialEq, Eq, Structural, Debug)]
pub enum SourceSignal {
    PowerChanged { on_battery: bool },
    ScreenWake,
    /// A subscription stream ended. Without an event source there is
    /// nothing left to reconcile on.
    StreamClosed,
}

/// The one condition the controller cannot recover from: it must be
/// surfaced to the process boundary, not swallowed like attempt failures.
#[derive(Clone, Copy, PartialEq, Eq, Structural, Debug)]
pub enum FatalError {
    EventSourceClosed,
}

/// The controller's transition function: what state follows the event, and
/// what the surrounding program must do. A trigger arriving while idle
/// starts an attempt at once; one arriving while busy replaces any pending
/// follow-up trigger; a finished attempt starts the follow-up, if one is
/// pending.
pub open spec fn spec_step(s: ControllerState, event: ReconcilerEvent) -> (
    ControllerState,
    Action,
) {
    match event {
        ReconcilerEvent::TriggerArrived(t) => match s {
            ControllerState::Idle => (
                ControllerState::Busy { pending: None },
                Action::Start(t),
            ),
            ControllerState::Busy { pending: _ } => (
                ControllerState::Busy { pending: Some(t) },
                Action::Wait,
            ),
        },
        ReconcilerEvent::AttemptDone => match s {
            ControllerState::Idle => (ControllerState::Idle, Action::Wait),
            ControllerState::Busy { pending: None } => (ControllerState::Idle, Action::Wait),
            ControllerState::Busy { pending: Some(t) } => (
                ControllerState::Busy { pending: None },
                Action::Start(t),
            ),
        },
    }
}

/// The state after a run of triggers has arrived, one event each.
pub open spec fn spec_run_triggers(s: ControllerState, ts: Seq<Trigger>) -> ControllerState
    decreases ts.len(),
{
    if ts.len() == 0 {
        s
    } else {
        spec_run_triggers(spec_step(s, ReconcilerEvent::TriggerArrived(ts[0])).0, ts.drop_first())
    }
}

/// How many attempts a run of arriving triggers starts.
pub open spec fn spec_starts_during(s: ControllerState, ts: Seq<Trigger>) -> nat
    decreases ts.len(),
{
    if ts.len() == 0 {
        0
    } else {
        let stepped = spec_step(s, ReconcilerEvent::TriggerArrived(ts[0]));
        (if stepped.1 is Start {
            1nat
        } else {
            0nat
        }) + spec_starts_during(stepped.0, ts.drop_first())
    }
}

/// Single-flight: any number of triggers arriving while one attempt is in
/// flight start nothing themselves, leave exactly the latest one pending,
/// and when the in-flight attempt finishes exactly one follow-up attempt is
/// started, for that latest trigger.
pub proof fn lemma_single_flight(pending: Option<Trigger>, ts: Seq<Trigger>)
    requires
        ts.len() > 0,
    ensures
        spec_starts_during(ControllerState::Busy { pending }, ts) == 0,
        spec_run_triggers(ControllerState::Busy { pending }, ts) == (ControllerState::Busy {
            pending: Some(ts.last()),
        }),
        spec_step(
            spec_run_triggers(ControllerState::Busy { pending }, ts),
            ReconcilerEvent::AttemptDone,
        ) == (ControllerState::Busy { pending: None }, Action::Start(ts.last())),
    decreases ts.len(),
{
    let s1 = spec_step(
        ControllerState::Busy { pending },
        ReconcilerEvent::TriggerArrived(ts[0]),
    ).0;
    if ts.len() == 1 {
        assert(ts.drop_first().len() == 0);
        assert(spec_run_triggers(s1, ts.drop_first()) == s1);
        assert(spec_starts_during(s1, ts.drop_first()) == 0);
        assert(ts.last() == ts[0]);
    } else {
        lemma_single_flight(Some(ts[0]), ts.drop_first());
        assert(ts.drop_first().last() == ts.last());
    }
}

/// The serialized owner of the reconciliation state. The surrounding
/// program must route every event through one value of this type (a
/// dedicated task or a lock), so that the single-flight discipline holds
/// process-wide.
pub struct Controller {
    pub state: ControllerState,
}

impl Controller {
    /// A controller with nothing in flight.
    pub fn new() -> (c: Controller)
        ensures
            c.state is Idle,
    {
        Controller { state: ControllerState::Idle }
    }

    /// Feeds one event through the transition function and returns what the
    /// surrounding program must do.
    pub fn handle(&mut self, event: ReconcilerEvent) -> (a: Action)
        ensures
            ({
                let stepped = spec_step(old(self).state, event);
                final(self).state == stepped.0 && a == stepped.1
            }),
    {
        let (next, action): (ControllerState, Action) = match event {
            ReconcilerEvent::TriggerArrived(t) => match self.state {
                ControllerState::Idle => (
                    ControllerState::Busy { pending: None },
                    Action::Start(t),
                ),
                ControllerState::Busy { pending: _ } => (
                    ControllerState::Busy { pending: Some(t) },
                    Action::Wait,
                ),
            },
            ReconcilerEvent::AttemptDone => match self.state {
                ControllerState::Idle => (ControllerState::Idle, Action::Wait),
                ControllerState::Busy { pending: None } => (
                    ControllerState::Idle,
                    Action::Wait,
                ),
                ControllerState::Busy { pending: Some(t) } => (
                    ControllerState::Busy { pending: None },
                    Action::Start(t),
                ),
            },
        };
        self.state = next;
        action
    }
}

/// Sorts a raw notification from the event source: power and wake signals
/// become triggers; a closed stream is the one fatal condition and must end
/// the process with a non-zero status.
pub fn classify_signal(signal: SourceSignal) -> (r: Result<Trigger, FatalError>)
    ensures
        signal matches SourceSignal::PowerChanged { on_battery } ==> r == Ok::<Trigger, FatalError>(
            Trigger::PowerChanged { on_battery },
        ),
        signal is ScreenWake ==> r == Ok::<Trigger, FatalError>(Trigger::ScreenWake),
        signal is StreamClosed ==> r == Err::<Trigger, FatalError>(FatalError::EventSourceClosed),
{
    match signal {
        SourceSignal::PowerChanged { on_battery } => Ok(Trigger::PowerChanged { on_battery }),
        SourceSignal::ScreenWake => Ok(Trigger::ScreenWake),
        SourceSignal::StreamClosed => Err(FatalError::EventSourceClosed),
    }
}

/// What one attempt decided: nothing to do, a request to submit, or the
/// reason the snapshot supports no apply. A skipped attempt is logged and
/// dropped; the next trigger reconciles against fresh state.
pub enum Decision {
    NoChange,
    Apply(ApplyConfig),
    Skip(SelectionError),
}

/// Whether selection on the snapshot picks the mode that is already
/// current, so that the attempt must end without building or submitting
/// anything.
pub open spec fn spec_is_noop(state: State, on_battery: bool) -> bool {
    spec_select_mode(state, on_battery) matches Ok(id) && spec_builtin_current_id(state) == Some(id)
}

/// Whether selection on the snapshot picks a mode other than the current
/// one, so that the attempt must build and submit a request.
pub open spec fn spec_wants_apply(state: State, on_battery: bool) -> bool {
    spec_select_mode(state, on_battery) matches Ok(id) && spec_builtin_current_id(state) != Some(id)
}

/// The deciding step of one attempt: select a mode for the fetched
/// snapshot, end the attempt when it is the current one (the common case,
/// which must not issue a call), and otherwise build the apply request.
pub fn decide(state: &State, on_battery: bool) -> (d: Decision)
    ensures
        (d is NoChange) == spec_is_noop(*state, on_battery),
        (d is Apply) == (spec_wants_apply(*state, on_battery) && spec_build_error(*state) is None),
        d matches Decision::Apply(cfg) ==> spec_select_mode(*state, on_battery) matches Ok(id)
            && spec_is_apply_for(cfg, *state, id),
        d matches Decision::Skip(e) ==> spec_select_mode(*state, on_battery) == Err::<
            Seq<char>,
            SelectionError,
        >(e) || (spec_wants_apply(*state, on_battery) && spec_build_error(*state) == Some(e)),
{
    let id = match select_mode(state, on_battery) {
        Err(e) => {
            return Decision::Skip(e);
        },
        Ok(id) => id,
    };
    let current = match builtin_current_mode_id(state) {
        Some(c) => c,
        None => {
            // Unreachable: a successful selection found a current mode.
            return Decision::Skip(SelectionError::NoCurrentMode);
        },
    };
    if id == current {
        Decision::NoChange
    } else {
        match build_apply(state, &id) {
            Ok(cfg) => Decision::Apply(cfg),
            Err(e) => Decision::Skip(e),
        }
    }
}

/// No-op stability: when selection picks the mode that is already current,
/// no apply is wanted - by the contract of [`decide`], the attempt then
/// decides to do nothing, builds no request and submits none.
pub proof fn lemma_noop_stability(state: State, on_battery: bool)
    requires
        spec_is_noop(state, on_battery),
    ensures
        !spec_wants_apply(state, on_battery),
{
}

} // verus!
