use yubi_tray_rs::monitor::{
    color_components, dispatch, notification_text, DispatchOutcome, IconColor, MonitorState,
    UiEvent,
};

fn poll(state: &mut MonitorState, info: Option<&str>) -> DispatchOutcome {
    dispatch(state, UiEvent::Poll(info.map(|s| s.to_string())))
}

#[test]
fn first_poll_never_notifies() {
    let mut s = MonitorState::new(true);
    assert_eq!(poll(&mut s, Some("YubiKey 5\nID: 1050:0407")).notify, None);

    let mut s = MonitorState::new(true);
    assert_eq!(poll(&mut s, None).notify, None);
}

#[test]
fn connect_edge_notifies_once_when_enabled() {
    let mut s = MonitorState::new(true);
    assert_eq!(poll(&mut s, None).notify, None);
    let o = poll(&mut s, Some("YubiKey 5"));
    assert_eq!(o.notify, Some(true));
    // The edge is consumed: the next identical poll is silent.
    assert_eq!(poll(&mut s, Some("YubiKey 5")).notify, None);
}

#[test]
fn connect_edge_is_silent_when_disabled() {
    let mut s = MonitorState::new(false);
    assert_eq!(poll(&mut s, None).notify, None);
    assert_eq!(poll(&mut s, Some("YubiKey 5")).notify, None);
}

#[test]
fn disconnect_edge_notifies_when_enabled() {
    let mut s = MonitorState::new(true);
    assert_eq!(poll(&mut s, Some("YubiKey 5")).notify, None);
    assert_eq!(poll(&mut s, None).notify, Some(false));
}

#[test]
fn repeated_identical_polls_never_notify() {
    let mut s = MonitorState::new(true);
    assert_eq!(poll(&mut s, None).notify, None);
    for _ in 0..50 {
        assert_eq!(poll(&mut s, None).notify, None);
    }
    assert_eq!(poll(&mut s, Some("YubiKey 5")).notify, Some(true));
    for _ in 0..50 {
        assert_eq!(poll(&mut s, Some("YubiKey 5")).notify, None);
    }
}

#[test]
fn poll_sequence_none_none_some() {
    let mut s = MonitorState::new(true);
    assert_eq!(poll(&mut s, None).notify, None);
    assert_eq!(poll(&mut s, None).notify, None);
    let o = poll(&mut s, Some("YubiKey 5"));
    assert_eq!(o.notify, Some(true));
}

#[test]
fn poll_updates_indicator() {
    let mut s = MonitorState::new(true);
    let o = poll(&mut s, Some("YubiKey 5\nID: 1050:0407"));
    let ind = o.indicator.unwrap();
    assert!(matches!(ind.color, IconColor::Green));
    assert_eq!(ind.tooltip, "YubiKey 5\nID: 1050:0407");

    let o = poll(&mut s, None);
    let ind = o.indicator.unwrap();
    assert!(matches!(ind.color, IconColor::Red));
    assert_eq!(ind.tooltip, "Connect a YubiKey");
}

#[test]
fn poll_records_connection_state() {
    let mut s = MonitorState::new(true);
    assert_eq!(s.previous, None);
    poll(&mut s, Some("YubiKey 5"));
    assert_eq!(s.previous, Some(true));
    poll(&mut s, None);
    assert_eq!(s.previous, Some(false));
}

#[test]
fn toggle_flips_persists_and_reflects() {
    let mut s = MonitorState::new(false);
    let o = dispatch(&mut s, UiEvent::MenuToggle);
    assert!(s.notifications_enabled);
    assert_eq!(o.persist, Some(true));
    assert_eq!(o.set_checked, Some(true));
    assert!(!o.exit);
    assert_eq!(o.notify, None);
    assert!(o.indicator.is_none());

    let o = dispatch(&mut s, UiEvent::MenuToggle);
    assert!(!s.notifications_enabled);
    assert_eq!(o.persist, Some(false));
    assert_eq!(o.set_checked, Some(false));
}

#[test]
fn exit_event_only_exits() {
    let mut s = MonitorState::new(true);
    let o = dispatch(&mut s, UiEvent::MenuExit);
    assert!(o.exit);
    assert_eq!(o.persist, None);
    assert_eq!(o.set_checked, None);
    assert_eq!(o.notify, None);
    assert!(o.indicator.is_none());
    assert_eq!(s.previous, None);
    assert!(s.notifications_enabled);
}

#[test]
fn tray_event_is_a_reserved_hook() {
    let mut s = MonitorState::new(true);
    let o = dispatch(&mut s, UiEvent::Tray);
    assert!(!o.exit);
    assert_eq!(o.persist, None);
    assert_eq!(o.set_checked, None);
    assert_eq!(o.notify, None);
    assert!(o.indicator.is_none());
    assert_eq!(s.previous, None);
    assert!(s.notifications_enabled);
}

#[test]
fn notification_messages_are_fixed() {
    assert_eq!(notification_text(true), "YubiKey has been connected");
    assert_eq!(notification_text(false), "YubiKey has been disconnected");
}

#[test]
fn indicator_colours() {
    assert_eq!(color_components(&IconColor::Green), (0, 255, 0));
    assert_eq!(color_components(&IconColor::Red), (255, 0, 0));
}
