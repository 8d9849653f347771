use refresh_reconciler::controller::{
    classify_signal, decide, Action, Controller, ControllerState, Decision, FatalError,
    ReconcilerEvent, SourceSignal, Trigger,
};
use refresh_reconciler::display_config::{State, StateProperties};
use refresh_reconciler::logical_monitor::{LogicalMonitor, Transform};
use refresh_reconciler::physical_monitor::{Mode, Monitor, PhysicalMonitor};
use refresh_reconciler::selector::SelectionError;

fn mode(id: &str, millihertz: u32, current: bool) -> Mode {
    Mode {
        id: id.to_string(),
        width: 1920,
        height: 1080,
        refresh_millihertz: millihertz,
        preferred_scale_milli: 1000,
        supported_scales_milli: vec![1000],
        is_current: current,
        is_preferred: false,
    }
}

fn laptop_state() -> State {
    let pm = PhysicalMonitor {
        monitor: Monitor {
            connector: "eDP-1".to_string(),
            vendor: "ACME".to_string(),
            product: "Panel".to_string(),
            serial: "0x1234".to_string(),
        },
        modes: vec![mode("m60", 60_000, true), mode("m48", 48_000, false)],
        builtin: true,
    };
    let lm = LogicalMonitor {
        x: 0,
        y: 0,
        scale_milli: 1000,
        transform: Transform::Normal,
        primary: true,
        monitors: vec![Monitor {
            connector: "eDP-1".to_string(),
            vendor: "ACME".to_string(),
            product: "Panel".to_string(),
            serial: "0x1234".to_string(),
        }],
    };
    State {
        serial: 7,
        physical_monitors: vec![pm],
        logical_monitors: vec![lm],
        properties: StateProperties {
            layout_mode: None,
            supports_changing_layout_mode: false,
            global_scale_required: false,
        },
    }
}

#[test]
fn decide_noop_when_selected_equals_current() {
    // On mains power the 60 Hz mode is both selected and current: the
    // attempt ends without building a request.
    let s = laptop_state();
    assert!(matches!(decide(&s, false), Decision::NoChange));
}

#[test]
fn decide_applies_when_a_lower_mode_wins() {
    let s = laptop_state();
    match decide(&s, true) {
        Decision::Apply(cfg) => {
            assert_eq!(cfg.serial, 7);
            assert_eq!(cfg.logical_monitors.len(), 1);
            assert_eq!(
                cfg.logical_monitors[0].monitors[0].mode_id,
                "m48".to_string()
            );
        }
        other => panic!("expected an apply decision, got {:?}", decision_name(&other)),
    }
}

#[test]
fn decide_skips_on_malformed_snapshot() {
    let mut s = laptop_state();
    s.physical_monitors[0].builtin = false;
    assert!(matches!(
        decide(&s, true),
        Decision::Skip(SelectionError::NoBuiltinMonitor)
    ));
}

fn decision_name(d: &Decision) -> &'static str {
    match d {
        Decision::NoChange => "NoChange",
        Decision::Apply(_) => "Apply",
        Decision::Skip(_) => "Skip",
    }
}

#[test]
fn trigger_while_idle_starts_an_attempt() {
    let mut c = Controller::new();
    let t = Trigger::PowerChanged { on_battery: true };
    assert_eq!(c.handle(ReconcilerEvent::TriggerArrived(t)), Action::Start(t));
    assert!(matches!(c.state, ControllerState::Busy { pending: None }));
}

#[test]
fn events_while_busy_coalesce_into_one_follow_up() {
    let mut c = Controller::new();
    let first = Trigger::PowerChanged { on_battery: true };
    assert_eq!(
        c.handle(ReconcilerEvent::TriggerArrived(first)),
        Action::Start(first)
    );
    // A burst of events arrives while the attempt is in flight: none
    // starts anything.
    let burst = [
        Trigger::ScreenWake,
        Trigger::PowerChanged { on_battery: false },
        Trigger::ScreenWake,
        Trigger::PowerChanged { on_battery: true },
        Trigger::ScreenWake,
    ];
    for t in burst {
        assert_eq!(c.handle(ReconcilerEvent::TriggerArrived(t)), Action::Wait);
    }
    // When the in-flight attempt finishes, exactly one follow-up starts,
    // for the latest trigger of the burst.
    assert_eq!(
        c.handle(ReconcilerEvent::AttemptDone),
        Action::Start(Trigger::ScreenWake)
    );
    // The follow-up finishing leaves the controller idle: the burst was
    // collapsed into a single attempt.
    assert_eq!(c.handle(ReconcilerEvent::AttemptDone), Action::Wait);
    assert!(matches!(c.state, ControllerState::Idle));
}

#[test]
fn failed_attempt_is_not_retried_until_next_event() {
    // A stale-serial rejection ends the attempt like any other outcome:
    // the controller goes idle and nothing is retried.
    let mut c = Controller::new();
    let t = Trigger::PowerChanged { on_battery: true };
    assert_eq!(c.handle(ReconcilerEvent::TriggerArrived(t)), Action::Start(t));
    assert_eq!(c.handle(ReconcilerEvent::AttemptDone), Action::Wait);
    assert!(matches!(c.state, ControllerState::Idle));
    // Only the next event triggers a fresh attempt.
    let u = Trigger::ScreenWake;
    assert_eq!(c.handle(ReconcilerEvent::TriggerArrived(u)), Action::Start(u));
}

#[test]
fn power_and_wake_signals_become_triggers() {
    assert_eq!(
        classify_signal(SourceSignal::PowerChanged { on_battery: true }),
        Ok(Trigger::PowerChanged { on_battery: true })
    );
    assert_eq!(
        classify_signal(SourceSignal::ScreenWake),
        Ok(Trigger::ScreenWake)
    );
}

#[test]
fn closed_stream_is_fatal() {
    assert_eq!(
        classify_signal(SourceSignal::StreamClosed),
        Err(FatalError::EventSourceClosed)
    );
}
