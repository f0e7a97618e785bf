use learn_opengl::{closes_window, KeyAction, KEY_ESCAPE};

#[test]
fn escape_press_closes() {
    assert_eq!(KEY_ESCAPE, 256);
    assert!(closes_window(KEY_ESCAPE, KeyAction::Press));
}

#[test]
fn other_events_keep_window_open() {
    assert!(!closes_window(KEY_ESCAPE, KeyAction::Release));
    assert!(!closes_window(KEY_ESCAPE, KeyAction::Repeat));
    assert!(!closes_window(32, KeyAction::Press));
    assert!(!closes_window(-1, KeyAction::Press));
}
