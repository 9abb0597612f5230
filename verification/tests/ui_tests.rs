use dungeon_dice::ui::{ui_message_tick, AddUiMessageEvent, UiMessage};

#[test]
fn default_message_is_the_placeholder() {
    let m = UiMessage::default();
    assert_eq!(m.message.as_str(), "A heap of raw iron.");
    assert_eq!(m.duration_ms, 2_000);
    assert_eq!(m.life_time_ms, 0);
    assert!(!m.added_to_tree);
}

#[test]
fn with_message_replaces_only_the_text() {
    let text = String::from("You rolled a 5!");
    let m = UiMessage::default().with_message(&text);
    assert_eq!(m.message.as_str(), "You rolled a 5!");
    assert_eq!(m.duration_ms, 2_000);
    assert!(!m.added_to_tree);
}

#[test]
fn lifetime_only_accumulates_once_added() {
    let mut m = UiMessage::default();
    assert!(!ui_message_tick(&mut m, 1_000));
    assert_eq!(m.life_time_ms, 0);

    m.added_to_tree = true;
    assert!(!ui_message_tick(&mut m, 1_000));
    assert_eq!(m.life_time_ms, 1_000);
    assert!(ui_message_tick(&mut m, 1_000));
    assert_eq!(m.life_time_ms, 2_000);
}

#[test]
fn expiry_at_exact_duration() {
    let mut m = UiMessage::default();
    m.added_to_tree = true;
    m.duration_ms = 3_000;
    assert!(!ui_message_tick(&mut m, 2_999));
    assert!(ui_message_tick(&mut m, 1));
}

#[test]
fn event_carries_text_and_duration() {
    let ev = AddUiMessageEvent {
        message: String::from("You rolled a 3!"),
        duration_ms: 3_000,
    };
    assert_eq!(ev.message.as_str(), "You rolled a 3!");
    assert_eq!(ev.duration_ms, 3_000);
}

#[test]
fn message_from_event_takes_text_and_duration() {
    let ev = AddUiMessageEvent {
        message: String::from("You rolled a 6!"),
        duration_ms: 3_000,
    };
    let m = UiMessage::from_event(&ev);
    assert_eq!(m.message.as_str(), "You rolled a 6!");
    assert_eq!(m.duration_ms, 3_000);
    assert_eq!(m.life_time_ms, 0);
    assert!(!m.added_to_tree);
}
