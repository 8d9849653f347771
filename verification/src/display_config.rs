//! Snapshots of the display configuration and the apply requests built from
//! them.
//!
//! A [`State`] is an atomic snapshot fetched from the configuration service,
//! versioned by an opaque `serial`. An [`ApplyConfig`] is a write request
//! that names the complete desired logical layout and carries the serial of
//! the snapshot it was derived from; the service rejects it when its own
//! serial has advanced since (stale-state rejection).
//!
//! The builder swaps the built-in monitor's mode and carries every other
//! logical monitor forward unchanged, each member keeping its current mode.

use crate::logical_monitor::{LogicalMonitor, Transform};
use crate::physical_monitor::{spec_first_builtin, spec_first_current, Monitor, PhysicalMonitor};
use crate::selector::SelectionError;
use vstd::prelude::*;

verus! {

/// How the service is asked to apply a configuration: check it only, apply
/// until the session ends, or persist it.
#[derive(Clone, Copy, PartialEq, Eq, Structural, Debug)]
pub enum Method {
    Verify,
    Temporary,
    Persistent,
}

/// One (connector, mode) assignment inside an apply request. The
/// per-monitor properties the service accepts are decoded into named
/// optional fields; the builder leaves them all unset.
#[derive(PartialEq, Eq, Debug)]
pub struct ApplyMonitor {
    pub connector: String,
    pub mode_id: String,
    /// The one documented per-monitor property; unset means "leave as is".
    pub enable_underscanning: Option<bool>,
}

/// One logical-monitor placement inside an apply request.
#[derive(PartialEq, Eq, Debug)]
pub struct ApplyLogicalMonitor {
    pub x: i32,
    pub y: i32,
    /// Rendering scale, in thousandths (1.0 is 1_000).
    pub scale_milli: u32,
    pub transform: Transform,
    pub primary: bool,
    pub monitors: Vec<ApplyMonitor>,
}

/// The global properties of a snapshot, decoded into named optional fields.
/// An absent `layout_mode` means the mode cannot be changed.
pub struct StateProperties {
    pub layout_mode: Option<u32>,
    pub supports_changing_layout_mode: bool,
    pub global_scale_required: bool,
}

/// An atomic snapshot of the display topology: a monotonic serial, the
/// physical monitors with their modes, the logical layout, and the global
/// properties. A snapshot is never mutated; a new one must be fetched to
/// see updated topology.
pub struct State {
    pub serial: u32,
    pub physical_monitors: Vec<PhysicalMonitor>,
    pub logical_monitors: Vec<LogicalMonitor>,
    pub properties: StateProperties,
}

/// A write request for the configuration service, constructed fresh per
/// reconciliation attempt from one snapshot.
#[derive(PartialEq, Eq, Debug)]
pub struct ApplyConfig {
    pub serial: u32,
    pub method: Method,
    pub logical_monitors: Vec<ApplyLogicalMonitor>,
    /// The one documented request-level property; unset means "keep the
    /// layout mode as it is".
    pub layout_mode: Option<u32>,
}

/// Whether the placement displays the given connector.
pub open spec fn spec_lm_has_connector(lm: LogicalMonitor, connector: Seq<char>) -> bool {
    exists|j: int| 0 <= j < lm.monitors@.len() && lm.monitors@[j].connector@ == connector
}

/// Index of the first placement among the first `n` that displays the given
/// connector, if any.
pub open spec fn spec_first_lm_with_upto(
    lms: Seq<LogicalMonitor>,
    connector: Seq<char>,
    n: int,
) -> Option<int>
    decreases n,
{
    if n <= 0 {
        None
    } else {
        match spec_first_lm_with_upto(lms, connector, n - 1) {
            Some(i) => Some(i),
            None => if spec_lm_has_connector(lms[n - 1], connector) {
                Some(n - 1)
            } else {
                None
            },
        }
    }
}

/// Index of the first placement that displays the given connector, if any.
pub open spec fn spec_first_lm_with(lms: Seq<LogicalMonitor>, connector: Seq<char>) -> Option<
    int,
> {
    spec_first_lm_with_upto(lms, connector, lms.len() as int)
}

/// Index of the first physical monitor among the first `n` with the given
/// connector name, if any.
pub open spec fn spec_first_pm_with_upto(
    pms: Seq<PhysicalMonitor>,
    connector: Seq<char>,
    n: int,
) -> Option<int>
    decreases n,
{
    if n <= 0 {
        None
    } else {
        match spec_first_pm_with_upto(pms, connector, n - 1) {
            Some(i) => Some(i),
            None => if pms[n - 1].monitor.connector@ == connector {
                Some(n - 1)
            } else {
                None
            },
        }
    }
}

/// Index of the first physical monitor with the given connector name.
pub open spec fn spec_first_pm_with(pms: Seq<PhysicalMonitor>, connector: Seq<char>) -> Option<
    int,
> {
    spec_first_pm_with_upto(pms, connector, pms.len() as int)
}

/// The id of the current mode of the monitor on the given connector, or
/// nothing when the connector names no monitor or none of its modes is
/// flagged current.
pub open spec fn spec_current_mode_id(state: State, connector: Seq<char>) -> Option<Seq<char>> {
    match spec_first_pm_with(state.physical_monitors@, connector) {
        None => None,
        Some(p) => {
            let pm = state.physical_monitors@[p];
            match spec_first_current(pm.modes@) {
                None => None,
                Some(c) => Some(pm.modes@[c].id@),
            }
        },
    }
}

/// The built request entry replicates the source placement verbatim and
/// displays exactly one (connector, mode) pair, with no per-monitor
/// property set.
pub open spec fn spec_retargets(
    out: ApplyLogicalMonitor,
    src: LogicalMonitor,
    connector: Seq<char>,
    mode_id: Seq<char>,
) -> bool {
    &&& out.x == src.x
    &&& out.y == src.y
    &&& out.scale_milli == src.scale_milli
    &&& out.transform == src.transform
    &&& out.primary == src.primary
    &&& out.monitors@.len() == 1
    &&& out.monitors@[0].connector@ == connector
    &&& out.monitors@[0].mode_id@ == mode_id
    &&& out.monitors@[0].enable_underscanning is None
}

/// An untouched member keeps its connector and is assigned that
/// connector's current mode, with no per-monitor property set.
pub open spec fn spec_member_carried(out_m: ApplyMonitor, src_m: Monitor, state: State) -> bool {
    &&& out_m.connector@ == src_m.connector@
    &&& Some(out_m.mode_id@) == spec_current_mode_id(state, src_m.connector@)
    &&& out_m.enable_underscanning is None
}

/// The built request entry replicates the source placement verbatim and
/// carries each of its members forward at that member's current mode.
pub open spec fn spec_carries_forward(
    out: ApplyLogicalMonitor,
    src: LogicalMonitor,
    state: State,
) -> bool {
    &&& out.x == src.x
    &&& out.y == src.y
    &&& out.scale_milli == src.scale_milli
    &&& out.transform == src.transform
    &&& out.primary == src.primary
    &&& out.monitors@.len() == src.monitors@.len()
    &&& forall|j: int|
        0 <= j < src.monitors@.len() ==> #[trigger] spec_member_carried(
            out.monitors@[j],
            src.monitors@[j],
            state,
        )
}

/// Every member of every untouched placement (all but the one at index `t`)
/// has a current mode to carry forward.
pub open spec fn spec_carry_all_ok(state: State, t: int) -> bool {
    forall|i: int, j: int|
        0 <= i < state.logical_monitors@.len() && i != t && 0 <= j
            < state.logical_monitors@[i].monitors@.len() ==> spec_current_mode_id(
            state,
            #[trigger] state.logical_monitors@[i].monitors@[j].connector@,
        ) is Some
}

/// Why building an apply request from this snapshot fails, if it does:
/// no built-in monitor; the built-in monitor's connector placed in no
/// logical monitor; or a member of an untouched placement without a
/// current mode (a malformed snapshot).
pub open spec fn spec_build_error(state: State) -> Option<SelectionError> {
    match spec_first_builtin(state.physical_monitors@) {
        None => Some(SelectionError::NoBuiltinMonitor),
        Some(p) => {
            let connector = state.physical_monitors@[p].monitor.connector@;
            match spec_first_lm_with(state.logical_monitors@, connector) {
                None => Some(SelectionError::OrphanConnector),
                Some(t) => if spec_carry_all_ok(state, t) {
                    None
                } else {
                    Some(SelectionError::NoCurrentMode)
                },
            }
        },
    }
}

/// What a built request says: it carries the snapshot's serial unchanged,
/// asks for a temporary apply, sets no request property, and names one
/// entry per logical monitor of the snapshot - the placement of the
/// built-in monitor retargeted to the new mode, every other placement
/// carried forward unchanged.
pub open spec fn spec_is_apply_for(cfg: ApplyConfig, state: State, new_mode_id: Seq<char>) -> bool {
    &&& cfg.serial == state.serial
    &&& cfg.method == Method::Temporary
    &&& cfg.layout_mode is None
    &&& cfg.logical_monitors@.len() == state.logical_monitors@.len()
    &&& spec_first_builtin(state.physical_monitors@) matches Some(p) && ({
        let connector = state.physical_monitors@[p].monitor.connector@;
        spec_first_lm_with(state.logical_monitors@, connector) matches Some(t) && {
            &&& spec_retargets(
                cfg.logical_monitors@[t],
                state.logical_monitors@[t],
                connector,
                new_mode_id,
            )
            &&& forall|i: int|
                0 <= i < state.logical_monitors@.len() && i != t
                    ==> #[trigger] spec_carries_forward(
                    cfg.logical_monitors@[i],
                    state.logical_monitors@[i],
                    state,
                )
        }
    })
}

impl LogicalMonitor {
    /// Whether this placement displays the given connector.
    pub fn displays_connector(&self, connector: &String) -> (r: bool)
        ensures
            r == spec_lm_has_connector(*self, connector@),
    {
        let mut j: usize = 0;
        while j < self.monitors.len()
            invariant
                j <= self.monitors@.len(),
                forall|q: int| 0 <= q < j ==> self.monitors@[q].connector@ != connector@,
            decreases self.monitors@.len() - j,
        {
            if self.monitors[j].connector == *connector {
                return true;
            }
            j = j + 1;
        }
        false
    }
}

impl State {
    /// The first built-in physical monitor of the snapshot, or nothing when
    /// the device reports none.
    pub fn get_builtin_physical_monitor(&self) -> (r: Option<&PhysicalMonitor>)
        ensures
            (r is Some) == (spec_first_builtin(self.physical_monitors@) is Some),
            r matches Some(pm) ==> spec_first_builtin(self.physical_monitors@) matches Some(i)
                && *pm == self.physical_monitors@[i],
    {
        match builtin_index(self) {
            Some(p) => Some(&self.physical_monitors[p]),
            None => None,
        }
    }

    /// The first logical monitor displaying the given connector, or nothing
    /// when the connector is placed nowhere.
    pub fn get_logical_monitor(&self, connector: &String) -> (r: Option<&LogicalMonitor>)
        ensures
            (r is Some) == (spec_first_lm_with(self.logical_monitors@, connector@) is Some),
            r matches Some(lm) ==> spec_first_lm_with(self.logical_monitors@, connector@)
                matches Some(i) && *lm == self.logical_monitors@[i],
    {
        match logical_monitor_index(self, connector) {
            Some(t) => Some(&self.logical_monitors[t]),
            None => None,
        }
    }
}

/// Index of the first built-in physical monitor of the snapshot.
fn builtin_index(state: &State) -> (r: Option<usize>)
    ensures
        match r {
            Some(p) => spec_first_builtin(state.physical_monitors@) == Some(p as int) && p
                < state.physical_monitors@.len(),
            None => spec_first_builtin(state.physical_monitors@) is None,
        },
{
    let mut found: Option<usize> = None;
    let mut i: usize = 0;
    while i < state.physical_monitors.len()
        invariant
            i <= state.physical_monitors@.len(),
            match found {
                Some(k) => k < i && crate::physical_monitor::spec_first_builtin_upto(
                    state.physical_monitors@,
                    i as int,
                ) == Some(k as int),
                None => crate::physical_monitor::spec_first_builtin_upto(
                    state.physical_monitors@,
                    i as int,
                ) is None,
            },
        decreases state.physical_monitors@.len() - i,
    {
        if found.is_none() && state.physical_monitors[i].is_builtin() {
            found = Some(i);
        }
        i = i + 1;
    }
    found
}

/// Index of the first logical monitor displaying the given connector.
fn logical_monitor_index(state: &State, connector: &String) -> (r: Option<usize>)
    ensures
        match r {
            Some(t) => spec_first_lm_with(state.logical_monitors@, connector@) == Some(t as int)
                && t < state.logical_monitors@.len(),
            None => spec_first_lm_with(state.logical_monitors@, connector@) is None,
        },
{
    let mut found: Option<usize> = None;
    let mut i: usize = 0;
    while i < state.logical_monitors.len()
        invariant
            i <= state.logical_monitors@.len(),
            match found {
                Some(k) => k < i && spec_first_lm_with_upto(
                    state.logical_monitors@,
                    connector@,
                    i as int,
                ) == Some(k as int),
                None => spec_first_lm_with_upto(
                    state.logical_monitors@,
                    connector@,
                    i as int,
                ) is None,
            },
        decreases state.logical_monitors@.len() - i,
    {
        if found.is_none() && state.logical_monitors[i].displays_connector(connector) {
            found = Some(i);
        }
        i = i + 1;
    }
    found
}

/// Index of the first physical monitor with the given connector name.
fn physical_monitor_index(state: &State, connector: &String) -> (r: Option<usize>)
    ensures
        match r {
            Some(p) => spec_first_pm_with(state.physical_monitors@, connector@) == Some(p as int)
                && p < state.physical_monitors@.len(),
            None => spec_first_pm_with(state.physical_monitors@, connector@) is None,
        },
{
    let mut found: Option<usize> = None;
    let mut i: usize = 0;
    while i < state.physical_monitors.len()
        invariant
            i <= state.physical_monitors@.len(),
            match found {
                Some(k) => k < i && spec_first_pm_with_upto(
                    state.physical_monitors@,
                    connector@,
                    i as int,
                ) == Some(k as int),
                None => spec_first_pm_with_upto(
                    state.physical_monitors@,
                    connector@,
                    i as int,
                ) is None,
            },
        decreases state.physical_monitors@.len() - i,
    {
        if found.is_none() && state.physical_monitors[i].monitor.connector == *connector {
            found = Some(i);
        }
        i = i + 1;
    }
    found
}

/// The id of the current mode of the monitor on the given connector.
fn current_mode_id_for_connector(state: &State, connector: &String) -> (r: Option<String>)
    ensures
        (r is Some) == (spec_current_mode_id(*state, connector@) is Some),
        r matches Some(id) ==> spec_current_mode_id(*state, connector@) == Some(id@),
{
    match physical_monitor_index(state, connector) {
        None => None,
        Some(p) => match state.physical_monitors[p].get_current_mode() {
            None => None,
            Some(m) => Some(m.id.clone()),
        },
    }
}

impl ApplyLogicalMonitor {
    /// The request entry that retargets the given placement: position,
    /// scale, orientation and primary flag are copied verbatim, and the
    /// member list is replaced by the single (connector, mode) pair.
    pub fn from(logical_monitor: &LogicalMonitor, connector: String, new_mode_id: String) -> (r:
        Self)
        ensures
            spec_retargets(r, *logical_monitor, connector@, new_mode_id@),
    {
        Self {
            x: logical_monitor.x,
            y: logical_monitor.y,
            scale_milli: logical_monitor.scale_milli,
            transform: logical_monitor.transform,
            primary: logical_monitor.primary,
            monitors: vec![
                ApplyMonitor {
                    connector: connector,
                    mode_id: new_mode_id,
                    enable_underscanning: None,
                },
            ],
        }
    }
}

/// Builds the apply request that moves the built-in monitor to the given
/// mode: the placement displaying the built-in monitor is retargeted, every
/// other placement is carried forward unchanged, and the snapshot's serial
/// is copied into the request. Fails exactly as `spec_build_error` says.
pub fn build_apply(state: &State, new_mode_id: &String) -> (r: Result<ApplyConfig, SelectionError>)
    ensures
        r matches Ok(cfg) ==> spec_build_error(*state) is None && spec_is_apply_for(
            cfg,
            *state,
            new_mode_id@,
        ),
        r matches Err(e) ==> spec_build_error(*state) == Some(e),
{
    let p = match builtin_index(state) {
        Some(p) => p,
        None => {
            return Err(SelectionError::NoBuiltinMonitor);
        },
    };
    let connector = state.physical_monitors[p].get_connector();
    let t = match logical_monitor_index(state, &connector) {
        Some(t) => t,
        None => {
            return Err(SelectionError::OrphanConnector);
        },
    };
    let mut entries: Vec<ApplyLogicalMonitor> = Vec::new();
    let mut i: usize = 0;
    while i < state.logical_monitors.len()
        invariant
            i <= state.logical_monitors@.len(),
            t < state.logical_monitors@.len(),
            entries@.len() == i,
            spec_first_builtin(state.physical_monitors@) == Some(p as int),
            p < state.physical_monitors@.len(),
            connector@ == state.physical_monitors@[p as int].monitor.connector@,
            spec_first_lm_with(state.logical_monitors@, connector@) == Some(t as int),
            t < i ==> spec_retargets(
                entries@[t as int],
                state.logical_monitors@[t as int],
                connector@,
                new_mode_id@,
            ),
            forall|k: int|
                0 <= k < i && k != t ==> #[trigger] spec_carries_forward(
                    entries@[k],
                    state.logical_monitors@[k],
                    *state,
                ),
        decreases state.logical_monitors@.len() - i,
    {
        if i == t {
            entries.push(
                ApplyLogicalMonitor::from(
                    &state.logical_monitors[i],
                    connector.clone(),
                    new_mode_id.clone(),
                ),
            );
        } else {
            let src = &state.logical_monitors[i];
            let mut members: Vec<ApplyMonitor> = Vec::new();
            let mut j: usize = 0;
            while j < src.monitors.len()
                invariant
                    j <= src.monitors@.len(),
                    members@.len() == j,
                    i < state.logical_monitors@.len(),
                    i != t,
                    t < state.logical_monitors@.len(),
                    p < state.physical_monitors@.len(),
                    spec_first_builtin(state.physical_monitors@) == Some(p as int),
                    connector@ == state.physical_monitors@[p as int].monitor.connector@,
                    spec_first_lm_with(state.logical_monitors@, connector@) == Some(t as int),
                    *src == state.logical_monitors@[i as int],
                    forall|q: int|
                        0 <= q < j ==> #[trigger] spec_member_carried(
                            members@[q],
                            src.monitors@[q],
                            *state,
                        ),
                decreases src.monitors@.len() - j,
            {
                match current_mode_id_for_connector(state, &src.monitors[j].connector) {
                    None => {
                        proof {
                            assert(spec_current_mode_id(
                                *state,
                                state.logical_monitors@[i as int].monitors@[j as int].connector@,
                            ) is None);
                            assert(!spec_carry_all_ok(*state, t as int));
                        }
                        return Err(SelectionError::NoCurrentMode);
                    },
                    Some(mode_id) => {
                        members.push(
                            ApplyMonitor {
                                connector: src.monitors[j].connector.clone(),
                                mode_id,
                                enable_underscanning: None,
                            },
                        );
                    },
                }
                j = j + 1;
            }
            entries.push(
                ApplyLogicalMonitor {
                    x: src.x,
                    y: src.y,
                    scale_milli: src.scale_milli,
                    transform: src.transform,
                    primary: src.primary,
                    monitors: members,
                },
            );
        }
        i = i + 1;
    }
    proof {
        assert forall|a: int, b: int|
            0 <= a < state.logical_monitors@.len() && a != t && 0 <= b
                < state.logical_monitors@[a].monitors@.len() implies spec_current_mode_id(
            *state,
            #[trigger] state.logical_monitors@[a].monitors@[b].connector@,
        ) is Some by {
            assert(spec_carries_forward(entries@[a], state.logical_monitors@[a], *state));
            assert(spec_member_carried(
                entries@[a].monitors@[b],
                state.logical_monitors@[a].monitors@[b],
                *state,
            ));
        }
    }
    Ok(
        ApplyConfig {
            serial: state.serial,
            method: Method::Temporary,
            logical_monitors: entries,
            layout_mode: None,
        },
    )
}

impl ApplyConfig {
    /// The apply request for the given snapshot and mode. The caller must
    /// have checked that the snapshot can be built from; `build_apply`
    /// reports the reason when it cannot.
    pub fn from(state: State, new_mode_id: String) -> (r: Self)
        requires
            spec_build_error(state) is None,
        ensures
            spec_is_apply_for(r, state, new_mode_id@),
    {
        match build_apply(&state, &new_mode_id) {
            Ok(cfg) => cfg,
            Err(_) => vstd::pervasive::unreached(),
        }
    }
}

} // verus!
