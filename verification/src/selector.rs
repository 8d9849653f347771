//! The mode selector: given a snapshot and the power state, pick the mode
//! the built-in monitor should run.
//!
//! The policy considers exactly the modes sharing the current mode's
//! resolution and prefers the lowest refresh rate on battery, the highest
//! on mains power, ties broken by first-encountered order. The current mode
//! itself is always a candidate, so selection on a well-formed snapshot
//! cannot come up empty.

use crate::display_config::State;
use crate::physical_monitor::{
    lemma_best_candidate_upto, lemma_first_current_upto, spec_first_builtin, spec_first_current,
    spec_is_candidate, spec_selected_idx, Mode,
};
use vstd::prelude::*;

verus! {

/// Why a reconciliation attempt cannot proceed on a snapshot. All of these
/// abort the attempt only; the process keeps running.
#[derive(Clone, Copy, PartialEq, Eq, Structural, Debug)]
pub enum SelectionError {
    /// The snapshot has no built-in monitor.
    NoBuiltinMonitor,
    /// A needed monitor has no mode flagged current (a malformed snapshot).
    NoCurrentMode,
    /// The built-in monitor's connector is placed in no logical monitor.
    OrphanConnector,
}

/// The id the selector returns for the given snapshot and power state, or
/// the error it reports.
pub open spec fn spec_select_mode(state: State, on_battery: bool) -> Result<
    Seq<char>,
    SelectionError,
> {
    match spec_first_builtin(state.physical_monitors@) {
        None => Err(SelectionError::NoBuiltinMonitor),
        Some(p) => {
            let modes = state.physical_monitors@[p].modes@;
            match spec_selected_idx(modes, on_battery) {
                Some(b) => Ok(modes[b].id@),
                None => Err(SelectionError::NoCurrentMode),
            }
        },
    }
}

/// The id of the built-in monitor's current mode, or nothing when the
/// snapshot has no built-in monitor or no mode of it is flagged current.
pub open spec fn spec_builtin_current_id(state: State) -> Option<Seq<char>> {
    match spec_first_builtin(state.physical_monitors@) {
        None => None,
        Some(p) => {
            let modes = state.physical_monitors@[p].modes@;
            match spec_first_current(modes) {
                None => None,
                Some(c) => Some(modes[c].id@),
            }
        },
    }
}

/// Picks the mode the built-in monitor should run: the candidate at the
/// current resolution with the minimum refresh rate on battery, the maximum
/// on mains power. Pure; total over any snapshot, reporting the reason when
/// no mode can be picked.
pub fn select_mode(state: &State, on_battery: bool) -> (r: Result<String, SelectionError>)
    ensures
        r matches Ok(id) ==> spec_select_mode(*state, on_battery) == Ok::<
            Seq<char>,
            SelectionError,
        >(id@),
        r matches Err(e) ==> spec_select_mode(*state, on_battery) == Err::<
            Seq<char>,
            SelectionError,
        >(e),
{
    match state.get_builtin_physical_monitor() {
        None => Err(SelectionError::NoBuiltinMonitor),
        Some(pm) => match pm.get_alternate_mode(on_battery) {
            None => Err(SelectionError::NoCurrentMode),
            Some(m) => Ok(m.id.clone()),
        },
    }
}

/// The id of the built-in monitor's current mode, as `spec_builtin_current_id`
/// names it.
pub fn builtin_current_mode_id(state: &State) -> (r: Option<String>)
    ensures
        (r is Some) == (spec_builtin_current_id(*state) is Some),
        r matches Some(id) ==> spec_builtin_current_id(*state) == Some(id@),
{
    match state.get_builtin_physical_monitor() {
        None => None,
        Some(pm) => match pm.get_current_mode() {
            None => None,
            Some(m) => Some(m.id.clone()),
        },
    }
}

/// Idempotence: selecting twice on the same snapshot and power state yields
/// the same outcome, because the outcome is a function of the two alone.
pub proof fn lemma_select_mode_idempotent(
    state: State,
    on_battery: bool,
    r1: Result<Seq<char>, SelectionError>,
    r2: Result<Seq<char>, SelectionError>,
)
    requires
        r1 == spec_select_mode(state, on_battery),
        r2 == spec_select_mode(state, on_battery),
    ensures
        r1 == r2,
{
}

/// Policy correctness: whenever some mode is flagged current, selection
/// succeeds, the selected mode is a candidate at the current resolution,
/// and among those candidates it has the minimum refresh rate on battery
/// and the maximum on mains power.
pub proof fn lemma_selector_policy(modes: Seq<Mode>, c: int, on_battery: bool)
    requires
        spec_first_current(modes) == Some(c),
    ensures
        spec_selected_idx(modes, on_battery) matches Some(b) && 0 <= b < modes.len()
            && spec_is_candidate(modes[b], modes[c].width, modes[c].height) && (forall|j: int|
            0 <= j < modes.len() && #[trigger] spec_is_candidate(
                modes[j],
                modes[c].width,
                modes[c].height,
            ) ==> if on_battery {
                modes[b].refresh_millihertz <= modes[j].refresh_millihertz
            } else {
                modes[b].refresh_millihertz >= modes[j].refresh_millihertz
            }),
{
    lemma_first_current_upto(modes, modes.len() as int);
    lemma_best_candidate_upto(modes, modes[c].width, modes[c].height, on_battery, modes.len() as int);
    assert(spec_is_candidate(modes[c], modes[c].width, modes[c].height));
}

} // verus!
