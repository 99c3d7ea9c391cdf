use kiosk_rotation::activity::{record_activity, ActivitySignal, Notification};
use kiosk_rotation::bridge::CommandBridge;
use kiosk_rotation::store::SessionStore;

#[test]
fn pointer_signal_announces_the_idle_reset_only() {
    let mut store = SessionStore::new();
    let notes = record_activity(&mut store, ActivitySignal::Pointer, 100);
    assert_eq!(notes, vec![Notification::IdleReset]);
    assert_eq!(store.last_activity(), 100);
}

#[test]
fn key_signal_announces_the_idle_reset_and_then_the_key() {
    let mut store = SessionStore::new();
    let notes = record_activity(&mut store, ActivitySignal::Key("Enter".to_string()), 100);
    assert_eq!(notes, vec![Notification::IdleReset, Notification::KeyPressed("Enter".to_string())]);
    assert_eq!(store.last_activity(), 100);
}

#[test]
fn key_signal_with_empty_identifier_is_forwarded_as_is() {
    let mut store = SessionStore::new();
    let notes = record_activity(&mut store, ActivitySignal::Key(String::new()), 100);
    assert_eq!(notes, vec![Notification::IdleReset, Notification::KeyPressed(String::new())]);
}

#[test]
fn notifications_carry_their_event_names() {
    assert_eq!(Notification::IdleReset.event_name(), "reset-timer");
    assert_eq!(Notification::KeyPressed("a".to_string()).event_name(), "keyup");
}

#[test]
fn repeated_identical_signals_are_harmless() {
    let mut store = SessionStore::new();
    record_activity(&mut store, ActivitySignal::Pointer, 100);
    record_activity(&mut store, ActivitySignal::Pointer, 100);
    record_activity(&mut store, ActivitySignal::Pointer, 100);
    assert_eq!(store.last_activity(), 100);
}

#[test]
fn activity_resets_commute() {
    let mut one = CommandBridge::new(SessionStore::new());
    one.record_activity(ActivitySignal::Pointer, 1000);
    one.record_activity(ActivitySignal::Pointer, 2000);
    let mut other = CommandBridge::new(SessionStore::new());
    other.record_activity(ActivitySignal::Pointer, 2000);
    other.record_activity(ActivitySignal::Pointer, 1000);
    assert_eq!(one.store().last_activity(), 2000);
    assert_eq!(other.store().last_activity(), 2000);
}

#[test]
fn activity_does_not_touch_rotation() {
    let mut bridge = CommandBridge::new(SessionStore::new());
    bridge.initialize_session(vec!["https://a.test".to_string()], false);
    let plan = bridge.navigate("https://a.test".to_string(), 5000, true).unwrap();
    bridge.conclude_navigation(plan, kiosk_rotation::display::HostOutcome::Completed, 1000).unwrap();
    bridge.record_activity(ActivitySignal::Pointer, 3000);
    bridge.record_activity(ActivitySignal::Key("x".to_string()), 3500);
    assert_eq!(bridge.rotation_deadline(), 5000);
    assert_eq!(bridge.store().activated_at(), 1000);
    assert_eq!(bridge.store().active_destination(), Some("https://a.test".to_string()));
    assert_eq!(bridge.store().last_activity(), 3500);
    assert_eq!(bridge.query_overlay_model(3000).progress_percent, 50);
}
