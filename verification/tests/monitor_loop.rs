use ed_afk_notifier::alerts::startup_alert;
use ed_afk_notifier::events::{Event, EventContent, MissionEntry};
use ed_afk_notifier::monitor::{Action, LoopInput, Monitor};

const START: i64 = 2_000_000;

fn pulled(timestamp: i64, content: EventContent) -> LoopInput {
    LoopInput::Pulled(Event { timestamp, content })
}

fn dispatched_text(action: Action) -> Option<String> {
    match action {
        Action::Dispatch(alert) => Some(alert.text),
        _ => None,
    }
}

#[test]
fn scenario_snapshot_accept_fail_fail() {
    // Snapshot([expires 5]) -> Accepted -> Failed -> Failed:
    // the counter runs 1 -> 2 -> 1 -> 0 and only the last step alerts.
    let mut monitor = Monitor::new(START);

    let entries = vec![MissionEntry {
        expires_in_seconds: 5,
    }];
    let a1 = monitor.step(&pulled(
        START - 100,
        EventContent::ActiveMissionsSnapshot { entries },
    ));
    assert!(matches!(a1, Action::Continue));
    assert_eq!(monitor.state.active_mission_count, 1);

    let a2 = monitor.step(&pulled(START + 1, EventContent::MissionAccepted));
    assert!(matches!(a2, Action::Continue));
    assert_eq!(monitor.state.active_mission_count, 2);

    let a3 = monitor.step(&pulled(START + 2, EventContent::MissionFailed));
    assert!(matches!(a3, Action::Continue));
    assert_eq!(monitor.state.active_mission_count, 1);

    let a4 = monitor.step(&pulled(START + 3, EventContent::MissionFailed));
    assert_eq!(monitor.state.active_mission_count, 0);
    assert_eq!(dispatched_text(a4).as_deref(), Some("No active missions"));
}

#[test]
fn delivery_failure_does_not_terminate_the_loop() {
    let mut monitor = Monitor::new(START);

    let a1 = monitor.step(&pulled(START + 1, EventContent::FighterDestroyed));
    assert_eq!(dispatched_text(a1).as_deref(), Some("Fighter destroyed"));

    // The dispatcher reports that delivery failed: the loop continues
    // with its state untouched.
    let a2 = monitor.step(&LoopInput::DeliveryFailed);
    assert!(matches!(a2, Action::Continue));
    assert_eq!(monitor.state.active_mission_count, 0);

    // Subsequent events are still processed.
    let a3 = monitor.step(&pulled(START + 2, EventContent::CommanderDied));
    assert_eq!(
        dispatched_text(a3).as_deref(),
        Some("Your commander has died")
    );
}

#[test]
fn stream_end_terminates_the_loop() {
    let mut monitor = Monitor::new(START);
    let action = monitor.step(&LoopInput::StreamEnded);
    assert!(matches!(action, Action::Terminate));
}

#[test]
fn monitor_discards_events_before_start() {
    let mut monitor = Monitor::new(START);
    let action = monitor.step(&pulled(
        START - 1,
        EventContent::ShieldState { shields_up: false },
    ));
    assert!(matches!(action, Action::Continue));
    assert_eq!(monitor.state.active_mission_count, 0);
}

#[test]
fn startup_alert_text() {
    assert_eq!(startup_alert().text, "ED AFK Notifier has started!");
}
