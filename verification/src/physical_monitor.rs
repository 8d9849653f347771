//! The physical side of the topology model: a connector's identity, the
//! modes it offers, and the per-monitor lookups the mode selector builds on.
//!
//! Refresh rates are held in millihertz and scales in thousandths of a unit,
//! so that every comparison the policy makes is exact integer arithmetic.

use vstd::prelude::*;

verus! {

/// Identity of a physical connector, as reported by the configuration
/// service: a stable connector name (for example "eDP-1") plus hardware
/// identification strings.
pub struct Monitor {
    pub connector: String,
    pub vendor: String,
    pub product: String,
    pub serial: String,
}

/// One resolution/refresh-rate combination offered by a monitor. The id is
/// an opaque token, stable only within the snapshot it was fetched with.
/// The boolean flags are the decoded form of the service's per-mode
/// property bag; a flag the service omits decodes to `false`.
pub struct Mode {
    pub id: String,
    pub width: i32,
    pub height: i32,
    /// Refresh rate in millihertz (60 Hz is 60_000).
    pub refresh_millihertz: u32,
    /// Preferred rendering scale, in thousandths (1.0 is 1_000).
    pub preferred_scale_milli: u32,
    /// Scales the mode supports, in thousandths.
    pub supported_scales_milli: Vec<u32>,
    pub is_current: bool,
    pub is_preferred: bool,
}

/// A connector paired with the modes it offers. The `builtin` flag is the
/// decoded "is-builtin" property of the service's per-monitor bag (absent
/// decodes to `false`).
pub struct PhysicalMonitor {
    pub monitor: Monitor,
    pub modes: Vec<Mode>,
    pub builtin: bool,
}

/// Index of the first mode among the first `n` that is flagged current,
/// if any.
pub open spec fn spec_first_current_upto(modes: Seq<Mode>, n: int) -> Option<int>
    decreases n,
{
    if n <= 0 {
        None
    } else {
        match spec_first_current_upto(modes, n - 1) {
            Some(i) => Some(i),
            None => if modes[n - 1].is_current {
                Some(n - 1)
            } else {
                None
            },
        }
    }
}

/// Index of the first mode flagged current, if any.
pub open spec fn spec_first_current(modes: Seq<Mode>) -> Option<int> {
    spec_first_current_upto(modes, modes.len() as int)
}

/// Index of the first monitor among the first `n` that is built in, if any.
pub open spec fn spec_first_builtin_upto(pms: Seq<PhysicalMonitor>, n: int) -> Option<int>
    decreases n,
{
    if n <= 0 {
        None
    } else {
        match spec_first_builtin_upto(pms, n - 1) {
            Some(i) => Some(i),
            None => if pms[n - 1].builtin {
                Some(n - 1)
            } else {
                None
            },
        }
    }
}

/// Index of the first built-in monitor, if any.
pub open spec fn spec_first_builtin(pms: Seq<PhysicalMonitor>) -> Option<int> {
    spec_first_builtin_upto(pms, pms.len() as int)
}

/// A mode competes for selection exactly when it has the given resolution.
pub open spec fn spec_is_candidate(m: Mode, width: i32, height: i32) -> bool {
    m.width == width && m.height == height
}

/// The policy's preference order: on battery a strictly lower refresh rate
/// wins, on mains power a strictly higher one.
pub open spec fn spec_better(a: Mode, b: Mode, on_battery: bool) -> bool {
    if on_battery {
        a.refresh_millihertz < b.refresh_millihertz
    } else {
        a.refresh_millihertz > b.refresh_millihertz
    }
}

/// Index of the winning candidate among the first `n` modes: the candidate
/// with the minimum (on battery) or maximum (on mains) refresh rate, ties
/// broken by first-encountered order.
pub open spec fn spec_best_candidate_upto(
    modes: Seq<Mode>,
    width: i32,
    height: i32,
    on_battery: bool,
    n: int,
) -> Option<int>
    decreases n,
{
    if n <= 0 {
        None
    } else {
        let prev = spec_best_candidate_upto(modes, width, height, on_battery, n - 1);
        if spec_is_candidate(modes[n - 1], width, height) {
            match prev {
                None => Some(n - 1),
                Some(b) => if spec_better(modes[n - 1], modes[b], on_battery) {
                    Some(n - 1)
                } else {
                    Some(b)
                },
            }
        } else {
            prev
        }
    }
}

/// Index of the winning candidate at the given resolution, if any.
pub open spec fn spec_best_candidate(
    modes: Seq<Mode>,
    width: i32,
    height: i32,
    on_battery: bool,
) -> Option<int> {
    spec_best_candidate_upto(modes, width, height, on_battery, modes.len() as int)
}

/// Index of the mode the selector picks: the winning candidate at the
/// current mode's resolution, or nothing when no mode is flagged current.
pub open spec fn spec_selected_idx(modes: Seq<Mode>, on_battery: bool) -> Option<int> {
    match spec_first_current(modes) {
        None => None,
        Some(c) => spec_best_candidate(modes, modes[c].width, modes[c].height, on_battery),
    }
}

/// What `spec_first_current_upto` finds is in range, is flagged current,
/// and nothing before it is; when it finds nothing, nothing is flagged.
pub proof fn lemma_first_current_upto(modes: Seq<Mode>, n: int)
    requires
        0 <= n <= modes.len(),
    ensures
        match spec_first_current_upto(modes, n) {
            Some(i) => 0 <= i < n && modes[i].is_current && (forall|j: int|
                0 <= j < i ==> !modes[j].is_current),
            None => forall|j: int| 0 <= j < n ==> !modes[j].is_current,
        },
    decreases n,
{
    if n > 0 {
        lemma_first_current_upto(modes, n - 1);
    }
}

/// The winning candidate among the first `n` modes is a candidate, no
/// candidate in range beats it, and every earlier candidate is strictly
/// worse (so ties go to the first encountered); when there is no winner,
/// there is no candidate in range at all.
pub proof fn lemma_best_candidate_upto(
    modes: Seq<Mode>,
    width: i32,
    height: i32,
    on_battery: bool,
    n: int,
)
    requires
        0 <= n <= modes.len(),
    ensures
        match spec_best_candidate_upto(modes, width, height, on_battery, n) {
            Some(b) => 0 <= b < n && spec_is_candidate(modes[b], width, height) && (forall|j: int|
                0 <= j < n && #[trigger] spec_is_candidate(modes[j], width, height)
                    ==> !spec_better(modes[j], modes[b], on_battery)) && (forall|j: int|
                0 <= j < b && #[trigger] spec_is_candidate(modes[j], width, height)
                    ==> spec_better(modes[b], modes[j], on_battery)),
            None => forall|j: int|
                0 <= j < n ==> !(#[trigger] spec_is_candidate(modes[j], width, height)),
        },
    decreases n,
{
    if n > 0 {
        lemma_best_candidate_upto(modes, width, height, on_battery, n - 1);
    }
}

/// A snapshot is well formed only if at most one mode of a monitor is
/// flagged current.
pub open spec fn spec_unique_current(modes: Seq<Mode>) -> bool {
    forall|i: int, j: int|
        0 <= i < modes.len() && 0 <= j < modes.len() && modes[i].is_current
            && modes[j].is_current ==> i == j
}

/// In a well-formed snapshot the first mode flagged current is the only
/// one, so any mode flagged current is the one the lookup finds.
pub proof fn lemma_unique_current_is_found(modes: Seq<Mode>, k: int)
    requires
        spec_unique_current(modes),
        0 <= k < modes.len(),
        modes[k].is_current,
    ensures
        spec_first_current(modes) == Some(k),
{
    lemma_first_current_upto(modes, modes.len() as int);
    match spec_first_current(modes) {
        Some(i) => {
            assert(i == k);
        },
        None => {
            assert(!modes[k].is_current);
        },
    }
}

impl PhysicalMonitor {
    /// Whether this monitor is the device's integrated panel.
    pub fn is_builtin(&self) -> (r: bool)
        ensures
            r == self.builtin,
    {
        self.builtin
    }

    /// The first mode flagged current, or nothing when the snapshot is
    /// malformed and no mode carries the flag.
    pub fn get_current_mode(&self) -> (r: Option<&Mode>)
        ensures
            (r is Some) == (spec_first_current(self.modes@) is Some),
            r matches Some(m) ==> spec_first_current(self.modes@) matches Some(c) && *m
                == self.modes@[c],
    {
        let mut found: Option<usize> = None;
        let mut i: usize = 0;
        while i < self.modes.len()
            invariant
                i <= self.modes@.len(),
                match found {
                    Some(k) => k < i && spec_first_current_upto(self.modes@, i as int) == Some(
                        k as int,
                    ),
                    None => spec_first_current_upto(self.modes@, i as int) is None,
                },
            decreases self.modes@.len() - i,
        {
            if found.is_none() && self.modes[i].is_current {
                found = Some(i);
            }
            i = i + 1;
        }
        match found {
            Some(k) => Some(&self.modes[k]),
            None => None,
        }
    }

    /// The mode the policy prefers among those sharing the current mode's
    /// resolution: lowest refresh rate on battery, highest on mains power,
    /// ties broken by first-encountered order. Nothing is returned exactly
    /// when no mode is flagged current.
    pub fn get_alternate_mode(&self, on_battery: bool) -> (r: Option<&Mode>)
        ensures
            (r is Some) == (spec_first_current(self.modes@) is Some),
            r matches Some(m) ==> spec_selected_idx(self.modes@, on_battery) matches Some(b) && *m
                == self.modes@[b],
    {
        let cur = match self.get_current_mode() {
            Some(c) => c,
            None => {
                return None;
            },
        };
        let width = cur.width;
        let height = cur.height;
        let mut best: Option<usize> = None;
        let mut i: usize = 0;
        while i < self.modes.len()
            invariant
                i <= self.modes@.len(),
                match best {
                    Some(k) => k < i && spec_best_candidate_upto(
                        self.modes@,
                        width,
                        height,
                        on_battery,
                        i as int,
                    ) == Some(k as int),
                    None => spec_best_candidate_upto(
                        self.modes@,
                        width,
                        height,
                        on_battery,
                        i as int,
                    ) is None,
                },
            decreases self.modes@.len() - i,
        {
            let m = &self.modes[i];
            if m.width == width && m.height == height {
                match best {
                    None => {
                        best = Some(i);
                    },
                    Some(b) => {
                        let wins = if on_battery {
                            m.refresh_millihertz < self.modes[b].refresh_millihertz
                        } else {
                            m.refresh_millihertz > self.modes[b].refresh_millihertz
                        };
                        if wins {
                            best = Some(i);
                        }
                    },
                }
            }
            i = i + 1;
        }
        match best {
            Some(b) => Some(&self.modes[b]),
            None => {
                proof {
                    let c = spec_first_current(self.modes@)->Some_0;
                    lemma_best_candidate_upto(
                        self.modes@,
                        width,
                        height,
                        on_battery,
                        self.modes@.len() as int,
                    );
                    lemma_first_current_upto(self.modes@, self.modes@.len() as int);
                    assert(spec_is_candidate(self.modes@[c], width, height));
                }
                None
            },
        }
    }

    /// The connector name of this monitor.
    pub fn get_connector(&self) -> (r: String)
        ensures
            r@ == self.monitor.connector@,
    {
        self.monitor.connector.clone()
    }
}

} // verus!
