use dungeon_dice::windows::{window_update, WindowState};

#[test]
fn tab_unlocks_a_hidden_cursor() {
    let mut w = WindowState { cursor_visible: false, fullscreen: false };
    let a = window_update(&mut w, true, false, false);
    assert!(w.cursor_visible);
    assert!(a.release_cursor);
    assert!(!a.confine_cursor);
    assert_eq!(a.cursor_unlocked, Some(true));
    assert!(!a.exit);
}

#[test]
fn tab_relocks_a_visible_cursor() {
    let mut w = WindowState { cursor_visible: true, fullscreen: false };
    let a = window_update(&mut w, true, false, false);
    assert!(!w.cursor_visible);
    assert!(a.confine_cursor);
    assert!(!a.release_cursor);
    assert_eq!(a.cursor_unlocked, Some(false));
}

#[test]
fn escape_requests_exit() {
    let mut w = WindowState { cursor_visible: false, fullscreen: false };
    let a = window_update(&mut w, false, true, false);
    assert!(a.exit);
    assert!(!w.cursor_visible);
    assert_eq!(a.cursor_unlocked, None);
}

#[test]
fn fullscreen_toggles() {
    let mut w = WindowState { cursor_visible: false, fullscreen: false };
    window_update(&mut w, false, false, true);
    assert!(w.fullscreen);
    window_update(&mut w, false, false, true);
    assert!(!w.fullscreen);
}
