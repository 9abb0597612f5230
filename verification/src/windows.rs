//! Window and cursor handling decisions: the cursor-lock toggle, fullscreen
//! toggle, and quitting.

use vstd::prelude::*;

verus! {

/// The window state the update decisions depend on.
#[derive(Clone, Copy, PartialEq, Eq, Structural, Debug)]
pub struct WindowState {
    pub cursor_visible: bool,
    pub fullscreen: bool,
}

/// What one frame of window handling asks of the windowing layer.
#[derive(Clone, Copy, PartialEq, Eq, Structural, Debug)]
pub struct WindowActions {
    /// Confine the cursor to the window (re-locking it).
    pub confine_cursor: bool,
    /// Release the cursor and move it to the window's center.
    pub release_cursor: bool,
    /// The new unlocked-state of the player's cursor, when it changed.
    pub cursor_unlocked: Option<bool>,
    /// Quit the application.
    pub exit: bool,
}

/// One frame of window handling: Tab toggles between a hidden, confined
/// cursor with look input enabled and a visible, free cursor centered in
/// the window with look input ignored; Escape quits; the fullscreen key
/// toggles fullscreen.
pub fn window_update(
    state: &mut WindowState,
    tab_pressed: bool,
    escape_released: bool,
    fullscreen_pressed: bool,
) -> (actions: WindowActions)
    ensures
        final(state).cursor_visible == (if tab_pressed {
            !old(state).cursor_visible
        } else {
            old(state).cursor_visible
        }),
        final(state).fullscreen == (if fullscreen_pressed {
            !old(state).fullscreen
        } else {
            old(state).fullscreen
        }),
        actions.confine_cursor == (tab_pressed && old(state).cursor_visible),
        actions.release_cursor == (tab_pressed && !old(state).cursor_visible),
        actions.cursor_unlocked == (if tab_pressed {
            Option::Some(!old(state).cursor_visible)
        } else {
            Option::<bool>::None
        }),
        actions.exit == escape_released,
{
    let mut confine_cursor = false;
    let mut release_cursor = false;
    let mut cursor_unlocked: Option<bool> = None;
    if tab_pressed {
        if state.cursor_visible {
            confine_cursor = true;
            cursor_unlocked = Some(false);
        } else {
            release_cursor = true;
            cursor_unlocked = Some(true);
        }
        state.cursor_visible = !state.cursor_visible;
    }
    if fullscreen_pressed {
        state.fullscreen = !state.fullscreen;
    }
    WindowActions { confine_cursor, release_cursor, cursor_unlocked, exit: escape_released }
}

} // verus!
