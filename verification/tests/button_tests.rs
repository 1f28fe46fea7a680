use scale_core::button::{Button, ButtonEvent, ButtonEventHandle, LONG_PRESS_MS};

fn collect_events(button: &mut Button, level: bool, times: &[u64]) -> Vec<ButtonEvent> {
    let mut events = Vec::new();
    for &now in times {
        if let Some(event) = button.tick(level, now) {
            events.push(event);
        }
    }
    events
}

#[test]
fn rise_confirms_once_and_resets_history() {
    let mut button = Button {
        inverted: false,
        history: 0b0000_0000_0011_1111,
        down_time: None,
        next_long_time: None,
    };
    assert!(button.button_rose());
    assert_eq!(button.history, 0xFFFF);
    assert!(!button.button_rose());
    assert_eq!(button.history, 0xFFFF);
}

#[test]
fn fall_confirms_once_and_resets_history() {
    let mut button = Button {
        inverted: false,
        history: 0b1111_0000_0000_0000,
        down_time: None,
        next_long_time: None,
    };
    assert!(button.button_fell());
    assert_eq!(button.history, 0x0000);
    assert!(!button.button_fell());
    assert_eq!(button.history, 0x0000);
}

#[test]
fn masked_middle_band_is_ignored() {
    // Bits in the excluded transition band do not block confirmation.
    let mut button = Button {
        inverted: false,
        history: 0b0000_1010_1011_1111,
        down_time: None,
        next_long_time: None,
    };
    assert!(button.button_rose());
    assert_eq!(button.history, 0xFFFF);
}

#[test]
fn inverted_button_maps_rise_to_up_and_fall_to_down() {
    let mut button = Button {
        inverted: true,
        history: 0b0000_0000_0011_1111,
        down_time: None,
        next_long_time: None,
    };
    assert!(button.button_up());
    assert_eq!(button.history, 0xFFFF);

    let mut button = Button {
        inverted: true,
        history: 0b1111_0000_0000_0000,
        down_time: None,
        next_long_time: None,
    };
    assert!(button.button_down());
    assert_eq!(button.history, 0x0000);
}

#[test]
fn plain_button_maps_rise_to_down_and_fall_to_up() {
    let mut button = Button {
        inverted: false,
        history: 0b0000_0000_0011_1111,
        down_time: None,
        next_long_time: None,
    };
    assert!(button.button_down());
    assert_eq!(button.history, 0xFFFF);

    let mut button = Button {
        inverted: false,
        history: 0b1111_0000_0000_0000,
        down_time: None,
        next_long_time: None,
    };
    assert!(button.button_up());
    assert_eq!(button.history, 0x0000);
}

#[test]
fn update_shifts_newest_sample_into_low_bit() {
    let mut button = Button { inverted: false, history: 0, down_time: None, next_long_time: None };
    button.button_update(true);
    button.button_update(true);
    button.button_update(false);
    assert_eq!(button.history, 0b110);
}

#[test]
fn held_press_emits_down_then_held_exactly_once() {
    let mut button = Button::new(true);
    let mut events = Vec::new();
    // Pin pulled low (pressed on an inverted button) and kept there.
    events.extend(collect_events(&mut button, false, &[0, 10, 20, 30, 40, 50]));
    assert_eq!(events, vec![ButtonEvent::Down]);
    assert_eq!(button.down_time, Some(50));
    assert_eq!(button.next_long_time, Some(50 + LONG_PRESS_MS));
    // Still held, threshold not yet reached.
    events.extend(collect_events(&mut button, false, &[60, 1000, 3049]));
    assert_eq!(events, vec![ButtonEvent::Down]);
    // Threshold reached: one Held, and never a second.
    events.extend(collect_events(&mut button, false, &[3050, 3060, 9000]));
    assert_eq!(events, vec![ButtonEvent::Down, ButtonEvent::Held]);
}

#[test]
fn early_release_emits_down_then_up_without_held() {
    let mut button = Button::new(true);
    let mut events = Vec::new();
    events.extend(collect_events(&mut button, false, &[0, 10, 20, 30, 40, 50]));
    assert_eq!(events, vec![ButtonEvent::Down]);
    // Released (pin back high) well before the long-press threshold.
    events.extend(collect_events(&mut button, true, &[60, 70, 80, 90, 100, 110]));
    assert_eq!(events, vec![ButtonEvent::Down, ButtonEvent::Up]);
    assert_eq!(button.down_time, None);
    assert_eq!(button.next_long_time, None);
    // Nothing more fires while the button stays released, even past the
    // threshold of the closed press.
    events.extend(collect_events(&mut button, true, &[3500, 4000]));
    assert_eq!(events, vec![ButtonEvent::Down, ButtonEvent::Up]);
}

#[test]
fn get_event_returns_queued_events_oldest_first() {
    let (tx, rx) = std::sync::mpsc::channel();
    let handle = ButtonEventHandle::new(rx);
    tx.send(ButtonEvent::Down).unwrap();
    tx.send(ButtonEvent::Up).unwrap();
    assert_eq!(handle.get_event(), Some(ButtonEvent::Down));
    assert_eq!(handle.get_event(), Some(ButtonEvent::Up));
    assert_eq!(handle.get_event(), None);
}

#[test]
fn wait_for_event_discards_non_matching_events() {
    let (tx, rx) = std::sync::mpsc::channel();
    let handle = ButtonEventHandle::new(rx);
    tx.send(ButtonEvent::Up).unwrap();
    tx.send(ButtonEvent::Held).unwrap();
    tx.send(ButtonEvent::Down).unwrap();
    tx.send(ButtonEvent::Up).unwrap();
    handle.wait_for_event(ButtonEvent::Down);
    // Everything up to and including the awaited Down was consumed.
    assert_eq!(handle.get_event(), Some(ButtonEvent::Up));
    assert_eq!(handle.get_event(), None);
}

#[test]
fn wait_for_event_returns_when_producer_is_gone() {
    let (tx, rx) = std::sync::mpsc::channel();
    let handle = ButtonEventHandle::new(rx);
    tx.send(ButtonEvent::Up).unwrap();
    drop(tx);
    // Must not block forever: the channel closes after the last event.
    handle.wait_for_event(ButtonEvent::Down);
    assert_eq!(handle.get_event(), None);
}

#[test]
fn clear_events_discards_everything_queued() {
    let (tx, rx) = std::sync::mpsc::channel();
    let handle = ButtonEventHandle::new(rx);
    tx.send(ButtonEvent::Down).unwrap();
    tx.send(ButtonEvent::Held).unwrap();
    tx.send(ButtonEvent::Up).unwrap();
    handle.clear_events();
    assert_eq!(handle.get_event(), None);
    // The channel itself stays usable.
    tx.send(ButtonEvent::Down).unwrap();
    assert_eq!(handle.get_event(), Some(ButtonEvent::Down));
}
