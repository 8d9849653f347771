use refresh_reconciler::display_config::{
    build_apply, ApplyConfig, Method, State, StateProperties,
};
use refresh_reconciler::logical_monitor::{LogicalMonitor, Transform};
use refresh_reconciler::physical_monitor::{Mode, Monitor, PhysicalMonitor};
use refresh_reconciler::selector::{builtin_current_mode_id, select_mode, SelectionError};

fn mode(id: &str, width: i32, height: i32, millihertz: u32, current: bool) -> Mode {
    Mode {
        id: id.to_string(),
        width,
        height,
        refresh_millihertz: millihertz,
        preferred_scale_milli: 1000,
        supported_scales_milli: vec![1000, 2000],
        is_current: current,
        is_preferred: false,
    }
}

fn monitor(connector: &str) -> Monitor {
    Monitor {
        connector: connector.to_string(),
        vendor: "ACME".to_string(),
        product: "Panel".to_string(),
        serial: "0x1234".to_string(),
    }
}

fn physical(connector: &str, modes: Vec<Mode>, builtin: bool) -> PhysicalMonitor {
    PhysicalMonitor {
        monitor: monitor(connector),
        modes,
        builtin,
    }
}

fn logical(x: i32, y: i32, primary: bool, connectors: &[&str]) -> LogicalMonitor {
    LogicalMonitor {
        x,
        y,
        scale_milli: 1000,
        transform: Transform::Normal,
        primary,
        monitors: connectors.iter().map(|c| monitor(c)).collect(),
    }
}

fn state(physical_monitors: Vec<PhysicalMonitor>, logical_monitors: Vec<LogicalMonitor>) -> State {
    State {
        serial: 7,
        physical_monitors,
        logical_monitors,
        properties: StateProperties {
            layout_mode: None,
            supports_changing_layout_mode: false,
            global_scale_required: false,
        },
    }
}

/// The snapshot of the reference scenario: a built-in "eDP-1" panel whose
/// current mode is 1920x1080 at 60 Hz, with a 48 Hz alternative.
fn laptop_state() -> State {
    let modes = vec![
        mode("m60", 1920, 1080, 60_000, true),
        mode("m48", 1920, 1080, 48_000, false),
    ];
    state(
        vec![physical("eDP-1", modes, true)],
        vec![logical(0, 0, true, &["eDP-1"])],
    )
}

#[test]
fn select_battery_picks_lowest_refresh() {
    let s = laptop_state();
    assert_eq!(select_mode(&s, true), Ok("m48".to_string()));
}

#[test]
fn select_mains_picks_highest_refresh() {
    let s = laptop_state();
    assert_eq!(select_mode(&s, false), Ok("m60".to_string()));
}

#[test]
fn select_is_idempotent() {
    let s = laptop_state();
    assert_eq!(select_mode(&s, true), select_mode(&s, true));
    assert_eq!(select_mode(&s, false), select_mode(&s, false));
}

#[test]
fn select_single_candidate_returns_current() {
    let modes = vec![mode("only", 1920, 1080, 60_000, true)];
    let s = state(
        vec![physical("eDP-1", modes, true)],
        vec![logical(0, 0, true, &["eDP-1"])],
    );
    assert_eq!(select_mode(&s, true), Ok("only".to_string()));
    assert_eq!(select_mode(&s, false), Ok("only".to_string()));
}

#[test]
fn select_ignores_other_resolutions() {
    // A 30 Hz mode exists, but at another resolution: not a candidate.
    let modes = vec![
        mode("m60", 1920, 1080, 60_000, true),
        mode("m30-small", 1280, 720, 30_000, false),
        mode("m48", 1920, 1080, 48_000, false),
        mode("m144-small", 1280, 720, 144_000, false),
    ];
    let s = state(
        vec![physical("eDP-1", modes, true)],
        vec![logical(0, 0, true, &["eDP-1"])],
    );
    assert_eq!(select_mode(&s, true), Ok("m48".to_string()));
    assert_eq!(select_mode(&s, false), Ok("m60".to_string()));
}

#[test]
fn select_tie_prefers_first_encountered() {
    let modes = vec![
        mode("first48", 1920, 1080, 48_000, false),
        mode("m60", 1920, 1080, 60_000, true),
        mode("second48", 1920, 1080, 48_000, false),
    ];
    let s = state(
        vec![physical("eDP-1", modes, true)],
        vec![logical(0, 0, true, &["eDP-1"])],
    );
    assert_eq!(select_mode(&s, true), Ok("first48".to_string()));
}

#[test]
fn select_skips_non_builtin_monitors() {
    let external = physical(
        "HDMI-1",
        vec![mode("x30", 1920, 1080, 30_000, true)],
        false,
    );
    let builtin = physical(
        "eDP-1",
        vec![
            mode("m60", 1920, 1080, 60_000, true),
            mode("m48", 1920, 1080, 48_000, false),
        ],
        true,
    );
    let s = state(
        vec![external, builtin],
        vec![logical(0, 0, true, &["HDMI-1", "eDP-1"])],
    );
    assert_eq!(select_mode(&s, true), Ok("m48".to_string()));
}

#[test]
fn select_without_builtin_monitor_fails() {
    let modes = vec![mode("m60", 1920, 1080, 60_000, true)];
    let s = state(
        vec![physical("HDMI-1", modes, false)],
        vec![logical(0, 0, true, &["HDMI-1"])],
    );
    assert_eq!(select_mode(&s, true), Err(SelectionError::NoBuiltinMonitor));
}

#[test]
fn select_without_current_mode_fails() {
    let modes = vec![
        mode("m60", 1920, 1080, 60_000, false),
        mode("m48", 1920, 1080, 48_000, false),
    ];
    let s = state(
        vec![physical("eDP-1", modes, true)],
        vec![logical(0, 0, true, &["eDP-1"])],
    );
    assert_eq!(select_mode(&s, true), Err(SelectionError::NoCurrentMode));
}

#[test]
fn current_mode_id_reports_the_flagged_mode() {
    let s = laptop_state();
    assert_eq!(builtin_current_mode_id(&s), Some("m60".to_string()));
}

#[test]
fn build_retargets_builtin_monitor() {
    let s = laptop_state();
    let cfg = build_apply(&s, &"m48".to_string()).unwrap();
    assert_eq!(cfg.serial, 7);
    assert_eq!(cfg.method, Method::Temporary);
    assert_eq!(cfg.layout_mode, None);
    assert_eq!(cfg.logical_monitors.len(), 1);
    let entry = &cfg.logical_monitors[0];
    assert_eq!(entry.monitors.len(), 1);
    assert_eq!(entry.monitors[0].connector, "eDP-1".to_string());
    assert_eq!(entry.monitors[0].mode_id, "m48".to_string());
    assert_eq!(entry.monitors[0].enable_underscanning, None);
}

#[test]
fn build_preserves_layout_fields() {
    let modes = vec![
        mode("m60", 1920, 1080, 60_000, true),
        mode("m48", 1920, 1080, 48_000, false),
    ];
    let source = LogicalMonitor {
        x: 340,
        y: -80,
        scale_milli: 1500,
        transform: Transform::Rotate270,
        primary: true,
        monitors: vec![monitor("eDP-1")],
    };
    let s = state(vec![physical("eDP-1", modes, true)], vec![source]);
    let cfg = build_apply(&s, &"m48".to_string()).unwrap();
    let entry = &cfg.logical_monitors[0];
    assert_eq!(entry.x, 340);
    assert_eq!(entry.y, -80);
    assert_eq!(entry.scale_milli, 1500);
    assert_eq!(entry.transform, Transform::Rotate270);
    assert!(entry.primary);
    // Only the mode assignment differs from the source placement.
    assert_eq!(entry.monitors[0].mode_id, "m48".to_string());
}

#[test]
fn build_copies_serial_unchanged() {
    let mut s = laptop_state();
    s.serial = 424_242;
    let cfg = build_apply(&s, &"m48".to_string()).unwrap();
    assert_eq!(cfg.serial, 424_242);
}

#[test]
fn build_carries_other_logical_monitors_forward() {
    let builtin = physical(
        "eDP-1",
        vec![
            mode("m60", 1920, 1080, 60_000, true),
            mode("m48", 1920, 1080, 48_000, false),
        ],
        true,
    );
    let external = physical(
        "HDMI-1",
        vec![mode("h144", 2560, 1440, 144_000, true)],
        false,
    );
    let panel_lm = logical(0, 0, true, &["eDP-1"]);
    let external_lm = LogicalMonitor {
        x: 1920,
        y: 40,
        scale_milli: 2000,
        transform: Transform::Flipped,
        primary: false,
        monitors: vec![monitor("HDMI-1")],
    };
    let s = state(vec![builtin, external], vec![panel_lm, external_lm]);
    let cfg = build_apply(&s, &"m48".to_string()).unwrap();
    assert_eq!(cfg.logical_monitors.len(), 2);
    let touched = &cfg.logical_monitors[0];
    assert_eq!(touched.monitors[0].connector, "eDP-1".to_string());
    assert_eq!(touched.monitors[0].mode_id, "m48".to_string());
    let carried = &cfg.logical_monitors[1];
    assert_eq!(carried.x, 1920);
    assert_eq!(carried.y, 40);
    assert_eq!(carried.scale_milli, 2000);
    assert_eq!(carried.transform, Transform::Flipped);
    assert!(!carried.primary);
    assert_eq!(carried.monitors.len(), 1);
    assert_eq!(carried.monitors[0].connector, "HDMI-1".to_string());
    assert_eq!(carried.monitors[0].mode_id, "h144".to_string());
}

#[test]
fn build_without_builtin_monitor_fails() {
    let modes = vec![mode("m60", 1920, 1080, 60_000, true)];
    let s = state(
        vec![physical("HDMI-1", modes, false)],
        vec![logical(0, 0, true, &["HDMI-1"])],
    );
    assert_eq!(
        build_apply(&s, &"m60".to_string()),
        Err(SelectionError::NoBuiltinMonitor)
    );
}

#[test]
fn build_orphan_connector_fails() {
    // The built-in panel is placed in no logical monitor.
    let builtin = physical(
        "eDP-1",
        vec![mode("m60", 1920, 1080, 60_000, true)],
        true,
    );
    let s = state(vec![builtin], vec![logical(0, 0, true, &["HDMI-1"])]);
    assert_eq!(
        build_apply(&s, &"m60".to_string()),
        Err(SelectionError::OrphanConnector)
    );
}

#[test]
fn build_fails_when_a_carried_member_has_no_current_mode() {
    let builtin = physical(
        "eDP-1",
        vec![
            mode("m60", 1920, 1080, 60_000, true),
            mode("m48", 1920, 1080, 48_000, false),
        ],
        true,
    );
    // The external monitor has no mode flagged current: malformed snapshot.
    let external = physical(
        "HDMI-1",
        vec![mode("h144", 2560, 1440, 144_000, false)],
        false,
    );
    let s = state(
        vec![builtin, external],
        vec![logical(0, 0, true, &["eDP-1"]), logical(1920, 0, false, &["HDMI-1"])],
    );
    assert_eq!(
        build_apply(&s, &"m48".to_string()),
        Err(SelectionError::NoCurrentMode)
    );
}

#[test]
fn apply_config_from_matches_build_apply() {
    let s = laptop_state();
    let built = build_apply(&s, &"m48".to_string()).unwrap();
    let cfg = ApplyConfig::from(s, "m48".to_string());
    assert_eq!(cfg.serial, built.serial);
    assert_eq!(cfg.method, built.method);
    assert_eq!(cfg.logical_monitors.len(), built.logical_monitors.len());
    assert_eq!(
        cfg.logical_monitors[0].monitors[0].mode_id,
        built.logical_monitors[0].monitors[0].mode_id
    );
}

#[test]
fn lookups_report_presence() {
    let s = laptop_state();
    let pm = s.get_builtin_physical_monitor().unwrap();
    assert!(pm.is_builtin());
    assert_eq!(pm.get_connector(), "eDP-1".to_string());
    assert_eq!(pm.get_current_mode().unwrap().id, "m60".to_string());
    assert_eq!(pm.get_alternate_mode(true).unwrap().id, "m48".to_string());
    assert_eq!(pm.get_alternate_mode(false).unwrap().id, "m60".to_string());
    let lm = s.get_logical_monitor(&"eDP-1".to_string()).unwrap();
    assert!(lm.displays_connector(&"eDP-1".to_string()));
    assert!(!lm.displays_connector(&"HDMI-1".to_string()));
    assert!(s.get_logical_monitor(&"HDMI-1".to_string()).is_none());
}
