//! The event-dispatch state machine of the monitor.
//!
//! The surrounding program runs the cooperative event loop: each tick it
//! drains at most one tray event, one menu event and one scan result, and
//! hands whatever it drained here as a [`UiEvent`]. [`dispatch`] decides
//! everything — when the loop exits, when the flag is flipped, persisted and
//! reflected on the menu, when a notification fires and with which message,
//! and which colour and tooltip the indicator shows — and the program only
//! carries the decisions out.
//!
//! Connection transitions follow the two-state machine with an unknown
//! initial state: a notification fires only on a change from a previously
//! known state, and only while notifications are enabled.
use vstd::prelude::*;

verus! {

/// The dispatcher's own state: the last known connection state (`None`
/// before the first scan result) and the notifications flag.
pub struct MonitorState {
    pub previous: Option<bool>,
    pub notifications_enabled: bool,
}

/// One drained event: a tray event (a reserved hook, ignored), the exit
/// menu action, the notifications toggle, or a scan result carrying the
/// device description when one was found.
pub enum UiEvent {
    Tray,
    MenuExit,
    MenuToggle,
    Poll(Option<String>),
}

/// The indicator colour: green while a device is connected, red otherwise.
pub enum IconColor {
    Red,
    Green,
}

/// The indicator after a scan result: its colour and its tooltip text.
pub struct IndicatorUpdate {
    pub color: IconColor,
    pub tooltip: String,
}

/// What the surrounding program must carry out after one dispatch step.
pub struct DispatchOutcome {
    /// Leave the event loop now.
    pub exit: bool,
    /// Persist this flag value to the config store.
    pub persist: Option<bool>,
    /// Reflect this checked state on the toggle menu item.
    pub set_checked: Option<bool>,
    /// Show the notification for a connection (`true`) or a disconnection
    /// (`false`).
    pub notify: Option<bool>,
    /// Repaint the indicator.
    pub indicator: Option<IndicatorUpdate>,
}

/// Whether a notification fires, and for which direction, when a scan
/// result with connection state `connected` arrives: only on a change from
/// a previously known state, and only while notifications are enabled.
pub open spec fn spec_notify(previous: Option<bool>, enabled: bool, connected: bool) -> Option<
    bool,
> {
    if previous matches Some(was) && was != connected && enabled {
        Some(connected)
    } else {
        None
    }
}

/// The dispatcher state after a scan result with connection state
/// `connected`: the result becomes the known state, the flag is untouched.
pub open spec fn spec_step(s: MonitorState, connected: bool) -> MonitorState {
    MonitorState { previous: Some(connected), notifications_enabled: s.notifications_enabled }
}

/// The tooltip after a scan result: the device description while connected,
/// a fixed prompt otherwise.
pub open spec fn spec_tooltip(info: Option<String>) -> Seq<char> {
    match info {
        Some(desc) => desc@,
        None => "Connect a YubiKey"@,
    }
}

/// How many notifications a run of successive scan results fires, starting
/// from the given state.
pub open spec fn spec_run_notifications(s: MonitorState, polls: Seq<bool>) -> nat
    decreases polls.len(),
{
    if polls.len() == 0 {
        0
    } else {
        (if spec_notify(s.previous, s.notifications_enabled, polls.first()) is Some {
            1nat
        } else {
            0nat
        }) + spec_run_notifications(spec_step(s, polls.first()), polls.drop_first())
    }
}

impl MonitorState {
    /// The state at startup: no scan result seen yet, the flag as loaded
    /// from the config store.
    pub fn new(notifications_enabled: bool) -> (s: MonitorState)
        ensures
            s.previous is None,
            s.notifications_enabled == notifications_enabled,
    {
        MonitorState { previous: None, notifications_enabled }
    }
}

/// The message shown for a transition: one fixed line per direction.
pub fn notification_text(connected: bool) -> (s: &'static str)
    ensures
        connected ==> s@ == "YubiKey has been connected"@,
        !connected ==> s@ == "YubiKey has been disconnected"@,
{
    if connected {
        "YubiKey has been connected"
    } else {
        "YubiKey has been disconnected"
    }
}

/// The red and green colour components of the indicator disc.
pub fn color_components(color: &IconColor) -> (rgb: (u8, u8, u8))
    ensures
        color is Green ==> rgb == (0u8, 255u8, 0u8),
        color is Red ==> rgb == (255u8, 0u8, 0u8),
{
    match color {
        IconColor::Green => (0, 255, 0),
        IconColor::Red => (255, 0, 0),
    }
}

/// One step of the event dispatcher. A tray event is a reserved hook and
/// does nothing; the exit action only ends the loop; the toggle flips the
/// flag and has it persisted and reflected on the menu item; a scan result
/// fires a notification exactly on an enabled change from a known state,
/// makes the result the known state, and repaints the indicator.
pub fn dispatch(state: &mut MonitorState, event: UiEvent) -> (o: DispatchOutcome)
    ensures
        match event {
            UiEvent::Tray => {
                &&& *final(state) == *old(state)
                &&& !o.exit
                &&& o.persist is None
                &&& o.set_checked is None
                &&& o.notify is None
                &&& o.indicator is None
            },
            UiEvent::MenuExit => {
                &&& *final(state) == *old(state)
                &&& o.exit
                &&& o.persist is None
                &&& o.set_checked is None
                &&& o.notify is None
                &&& o.indicator is None
            },
            UiEvent::MenuToggle => {
                &&& final(state).notifications_enabled == !old(state).notifications_enabled
                &&& final(state).previous == old(state).previous
                &&& !o.exit
                &&& o.persist == Some(!old(state).notifications_enabled)
                &&& o.set_checked == Some(!old(state).notifications_enabled)
                &&& o.notify is None
                &&& o.indicator is None
            },
            UiEvent::Poll(info) => {
                &&& *final(state) == spec_step(*old(state), info is Some)
                &&& !o.exit
                &&& o.persist is None
                &&& o.set_checked is None
                &&& o.notify == spec_notify(
                    old(state).previous,
                    old(state).notifications_enabled,
                    info is Some,
                )
                &&& o.indicator matches Some(ind)
                &&& ind.color == (if info is Some {
                    IconColor::Green
                } else {
                    IconColor::Red
                })
                &&& ind.tooltip@ == spec_tooltip(info)
            },
        },
{
    match event {
        UiEvent::Tray => DispatchOutcome {
            exit: false,
            persist: None,
            set_checked: None,
            notify: None,
            indicator: None,
        },
        UiEvent::MenuExit => DispatchOutcome {
            exit: true,
            persist: None,
            set_checked: None,
            notify: None,
            indicator: None,
        },
        UiEvent::MenuToggle => {
            let enabled = !state.notifications_enabled;
            state.notifications_enabled = enabled;
            DispatchOutcome {
                exit: false,
                persist: Some(enabled),
                set_checked: Some(enabled),
                notify: None,
                indicator: None,
            }
        },
        UiEvent::Poll(info) => {
            let connected = info.is_some();
            let notify: Option<bool> = match state.previous {
                Some(was) => if was != connected && state.notifications_enabled {
                    Some(connected)
                } else {
                    None
                },
                None => None,
            };
            state.previous = Some(connected);
            let indicator = match info {
                Some(desc) => IndicatorUpdate { color: IconColor::Green, tooltip: desc },
                None => IndicatorUpdate {
                    color: IconColor::Red,
                    tooltip: prompt_tooltip(),
                },
            };
            DispatchOutcome {
                exit: false,
                persist: None,
                set_checked: None,
                notify,
                indicator: Some(indicator),
            }
        },
    }
}

fn prompt_tooltip() -> (s: String)
    ensures
        s@ == "Connect a YubiKey"@,
{
    String::from_str("Connect a YubiKey")
}

/// The very first scan result never fires a notification, whatever it is
/// and whether notifications are enabled: there is no known state to differ
/// from.
pub proof fn lemma_first_poll_silent(enabled: bool, connected: bool)
    ensures
        spec_notify(None, enabled, connected) is None,
{
}

/// A change from known-disconnected to connected fires exactly one
/// connection notification while notifications are enabled, and none while
/// they are disabled. The same holds of the opposite change, with the
/// disconnection notification.
pub proof fn lemma_transition_notifies(s: MonitorState, connected: bool)
    requires
        s.previous == Some(!connected),
    ensures
        s.notifications_enabled ==> spec_notify(
            s.previous,
            s.notifications_enabled,
            connected,
        ) == Some(connected),
        s.notifications_enabled ==> spec_run_notifications(s, seq![connected]) == 1,
        !s.notifications_enabled ==> spec_notify(
            s.previous,
            s.notifications_enabled,
            connected,
        ) is None,
        !s.notifications_enabled ==> spec_run_notifications(s, seq![connected]) == 0,
{
    assert(seq![connected].drop_first() =~= Seq::<bool>::empty());
    reveal_with_fuel(spec_run_notifications, 2);
}

/// Scan results that keep reporting the known state never fire a
/// notification, however many arrive in a row.
pub proof fn lemma_no_change_is_silent(s: MonitorState, polls: Seq<bool>, connected: bool)
    requires
        s.previous == Some(connected),
        forall|i: int| 0 <= i < polls.len() ==> polls[i] == connected,
    ensures
        spec_run_notifications(s, polls) == 0,
    decreases polls.len(),
{
    if polls.len() > 0 {
        assert(polls.first() == connected);
        assert(spec_step(s, connected).previous == Some(connected));
        lemma_no_change_is_silent(spec_step(s, polls.first()), polls.drop_first(), connected);
    }
}

} // verus!
