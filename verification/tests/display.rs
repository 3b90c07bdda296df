use wayland_osd::display::{
    get_volume_icon, handle_message, Content, DisplayState, Icon, Progress, Shown, Surface,
    TimerToken, HIDE_AFTER_SECS,
};
use wayland_osd::message::{Message, MessageError, OsdMessage};

fn record(kind: &str) -> OsdMessage {
    OsdMessage {
        message_type: kind.to_string(),
        value: None,
        max_value: None,
        text: None,
        muted: None,
        device_name: None,
    }
}

fn volume(value: i32, max: i32, muted: bool) -> OsdMessage {
    OsdMessage { value: Some(value), max_value: Some(max), muted: Some(muted), ..record("volume") }
}

fn text(text: &str) -> OsdMessage {
    OsdMessage { text: Some(text.to_string()), ..record("text") }
}

#[test]
fn inactivity_window_is_three_seconds() {
    assert_eq!(HIDE_AFTER_SECS, 3);
}

#[test]
fn volume_icon_thresholds() {
    assert_eq!(get_volume_icon(0, false), Icon::VolumeLow);
    assert_eq!(get_volume_icon(-5, false), Icon::VolumeLow);
    assert_eq!(get_volume_icon(33, false), Icon::VolumeLow);
    assert_eq!(get_volume_icon(34, false), Icon::VolumeMedium);
    assert_eq!(get_volume_icon(66, false), Icon::VolumeMedium);
    assert_eq!(get_volume_icon(67, false), Icon::VolumeHigh);
    assert_eq!(get_volume_icon(100, false), Icon::VolumeHigh);
    assert_eq!(get_volume_icon(101, false), Icon::VolumeOveramplified);
    assert_eq!(get_volume_icon(i32::MAX, false), Icon::VolumeOveramplified);
}

#[test]
fn muted_icon_wins_over_level() {
    for value in [-1, 0, 33, 34, 66, 67, 100, 101, 150] {
        assert_eq!(get_volume_icon(value, true), Icon::VolumeMuted);
    }
}

#[test]
fn new_state_is_idle() {
    let state = DisplayState::new();
    assert_eq!(state, DisplayState::Idle);
    assert!(!state.is_visible());
    assert_eq!(state.timer(), None);
}

#[test]
fn scenario_volume_then_text_then_idle() {
    let mut state = DisplayState::new();

    let shown = handle_message(&mut state, volume(45, 100, false)).unwrap();
    assert_eq!(shown.cancel, None);
    assert_eq!(shown.surface.progress, Some(Progress { value: 45, max: 100 }));
    assert_eq!(shown.surface.icon, Some(Icon::VolumeMedium));
    assert_eq!(state.timer_armed(TimerToken(1)), None);
    assert_eq!(
        state,
        DisplayState::Visible {
            content: Content::Volume { value: 45, max: 100, muted: false, device: None },
            timer: Some(TimerToken(1)),
        }
    );

    let shown = handle_message(&mut state, text("Muted")).unwrap();
    assert_eq!(shown.cancel, Some(TimerToken(1)));
    assert_eq!(shown.surface.label, Some("Muted".to_string()));
    assert_eq!(state.timer(), None);
    assert_eq!(state.timer_armed(TimerToken(2)), None);
    assert_eq!(
        state,
        DisplayState::Visible {
            content: Content::Text { text: "Muted".to_string() },
            timer: Some(TimerToken(2)),
        }
    );

    assert!(state.timer_fired(TimerToken(2)));
    assert_eq!(state, DisplayState::Idle);
    assert!(!state.is_visible());
}

#[test]
fn same_message_twice_leaves_one_timer() {
    let mut state = DisplayState::new();
    let first = handle_message(&mut state, volume(45, 100, false)).unwrap();
    assert_eq!(first.cancel, None);
    assert_eq!(state.timer_armed(TimerToken(10)), None);
    let second = handle_message(&mut state, volume(45, 100, false)).unwrap();
    assert_eq!(second.cancel, Some(TimerToken(10)));
    assert_eq!(second.surface, first.surface);
    assert_eq!(state.timer_armed(TimerToken(11)), None);
    assert_eq!(state.timer(), Some(TimerToken(11)));
    assert!(state.is_visible());

    assert!(!state.timer_fired(TimerToken(10)));
    assert!(state.is_visible());
    assert!(state.timer_fired(TimerToken(11)));
    assert!(!state.is_visible());
    assert!(!state.timer_fired(TimerToken(11)));
    assert_eq!(state, DisplayState::Idle);
}

#[test]
fn stale_timer_changes_nothing() {
    let mut state = DisplayState::new();
    assert!(!state.timer_fired(TimerToken(3)));
    assert_eq!(state, DisplayState::Idle);
    handle_message(&mut state, text("a")).unwrap();
    assert!(!state.timer_fired(TimerToken(3)));
    assert!(state.is_visible());
    state.timer_armed(TimerToken(4));
    let before = state.clone();
    assert!(!state.timer_fired(TimerToken(3)));
    assert_eq!(state, before);
}

#[test]
fn timer_for_an_idle_surface_is_handed_back() {
    let mut state = DisplayState::new();
    assert_eq!(state.timer_armed(TimerToken(5)), Some(TimerToken(5)));
    assert_eq!(state, DisplayState::Idle);
}

#[test]
fn second_timer_displaces_the_first() {
    let mut state = DisplayState::new();
    handle_message(&mut state, text("a")).unwrap();
    assert_eq!(state.timer_armed(TimerToken(1)), None);
    assert_eq!(state.timer_armed(TimerToken(2)), Some(TimerToken(1)));
    assert_eq!(state.timer(), Some(TimerToken(2)));
}

#[test]
fn malformed_record_between_two_messages() {
    let mut with = DisplayState::new();
    handle_message(&mut with, volume(10, 100, false)).unwrap();
    with.timer_armed(TimerToken(1));
    let seen = with.clone();
    assert_eq!(handle_message(&mut with, record("volume")), Err(MessageError::Malformed));
    assert_eq!(with, seen);
    let shown = handle_message(&mut with, text("after")).unwrap();
    assert_eq!(shown.cancel, Some(TimerToken(1)));

    let mut without = DisplayState::new();
    handle_message(&mut without, volume(10, 100, false)).unwrap();
    without.timer_armed(TimerToken(1));
    handle_message(&mut without, text("after")).unwrap();
    assert_eq!(with, without);
}

#[test]
fn volume_needs_value_and_maximum() {
    let mut state = DisplayState::new();
    let no_max = OsdMessage { value: Some(5), ..record("volume") };
    let no_value = OsdMessage { max_value: Some(5), ..record("volume") };
    assert_eq!(handle_message(&mut state, no_max), Err(MessageError::Malformed));
    assert_eq!(handle_message(&mut state, no_value), Err(MessageError::Malformed));
    assert_eq!(handle_message(&mut state, record("brightness")), Err(MessageError::Malformed));
    assert_eq!(handle_message(&mut state, record("text")), Err(MessageError::Malformed));
    assert_eq!(state, DisplayState::Idle);
}

#[test]
fn unknown_kind_is_reported_and_ignored() {
    let mut state = DisplayState::new();
    handle_message(&mut state, text("shown")).unwrap();
    state.timer_armed(TimerToken(9));
    let before = state.clone();
    let odd = OsdMessage { value: Some(1), max_value: Some(2), ..record("contrast") };
    assert_eq!(handle_message(&mut state, odd), Err(MessageError::UnknownKind));
    assert_eq!(handle_message(&mut state, record("")), Err(MessageError::UnknownKind));
    assert_eq!(handle_message(&mut state, record("Volume")), Err(MessageError::UnknownKind));
    assert_eq!(state, before);
}

#[test]
fn raw_message_is_of_no_kind() {
    let mut state = DisplayState::new();
    let raw = Message::Raw { json: "{\"type\":\"text\",\"text\":\"x\"}".to_string() };
    assert_eq!(state.show(raw), Err(MessageError::UnknownKind));
    assert_eq!(state, DisplayState::Idle);
}

#[test]
fn absent_mute_counts_as_unmuted() {
    let mut state = DisplayState::new();
    let msg = OsdMessage { value: Some(80), max_value: Some(100), ..record("volume") };
    let shown = handle_message(&mut state, msg).unwrap();
    assert_eq!(shown.surface.icon, Some(Icon::VolumeHigh));
    assert_eq!(
        state,
        DisplayState::Visible {
            content: Content::Volume { value: 80, max: 100, muted: false, device: None },
            timer: None,
        }
    );
}

#[test]
fn volume_surface() {
    let content = Content::Volume {
        value: 120,
        max: 150,
        muted: false,
        device: Some("Speakers".to_string()),
    };
    assert_eq!(
        content.render(),
        Surface {
            progress: Some(Progress { value: 120, max: 150 }),
            marker: Some(150),
            overamplified: true,
            icon: Some(Icon::VolumeOveramplified),
            device: Some("Speakers".to_string()),
            label: None,
        }
    );
    let plain = Content::Volume { value: 100, max: 100, muted: true, device: None };
    assert_eq!(
        plain.render(),
        Surface {
            progress: Some(Progress { value: 100, max: 100 }),
            marker: None,
            overamplified: false,
            icon: Some(Icon::VolumeMuted),
            device: None,
            label: None,
        }
    );
}

#[test]
fn brightness_surface() {
    let content = Content::Brightness { value: 130, max: 200 };
    assert_eq!(
        content.render(),
        Surface {
            progress: Some(Progress { value: 130, max: 200 }),
            marker: None,
            overamplified: false,
            icon: Some(Icon::Brightness),
            device: None,
            label: None,
        }
    );
}

#[test]
fn text_surface() {
    let content = Content::Text { text: "Caps Lock".to_string() };
    assert_eq!(
        content.render(),
        Surface {
            progress: None,
            marker: None,
            overamplified: false,
            icon: None,
            device: None,
            label: Some("Caps Lock".to_string()),
        }
    );
}

#[test]
fn show_names_the_timer_to_drop() {
    let mut state = DisplayState::new();
    let shown: Shown = state.show(Message::Brightness { value: 1, max: 2 }).unwrap();
    assert_eq!(shown.cancel, None);
    state.timer_armed(TimerToken(77));
    let shown = state.show(Message::Brightness { value: 2, max: 2 }).unwrap();
    assert_eq!(shown.cancel, Some(TimerToken(77)));
    assert_eq!(state.timer(), None);
}

#[test]
fn fields_that_the_kind_does_not_use_are_ignored() {
    let msg = OsdMessage {
        message_type: "text".to_string(),
        value: Some(1),
        max_value: None,
        text: Some("t".to_string()),
        muted: Some(true),
        device_name: Some("d".to_string()),
    };
    assert_eq!(msg.into_message(), Ok(Message::Text { text: "t".to_string() }));
    let msg = OsdMessage {
        message_type: "brightness".to_string(),
        value: Some(1),
        max_value: Some(2),
        text: Some("t".to_string()),
        muted: Some(true),
        device_name: Some("d".to_string()),
    };
    assert_eq!(msg.into_message(), Ok(Message::Brightness { value: 1, max: 2 }));
    let msg = OsdMessage {
        message_type: "volume".to_string(),
        value: Some(1),
        max_value: Some(2),
        text: Some("t".to_string()),
        muted: Some(true),
        device_name: Some("d".to_string()),
    };
    assert_eq!(
        msg.into_message(),
        Ok(Message::Volume { value: 1, max: 2, muted: true, device: Some("d".to_string()) })
    );
}
