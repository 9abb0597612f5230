//! Transient on-screen messages: each message lives for a fixed duration
//! once added to the UI tree, then expires and is removed.

use vstd::prelude::*;

verus! {

/// A request to display transient text for a given time.
#[derive(Clone, PartialEq, Eq, Debug)]
pub struct AddUiMessageEvent {
    pub message: String,
    pub duration_ms: u64,
}

/// A message currently on screen, with its accumulated lifetime.
#[derive(Clone, PartialEq, Eq, Debug)]
pub struct UiMessage {
    pub message: String,
    pub duration_ms: u64,
    pub life_time_ms: u64,
    pub added_to_tree: bool,
}

impl Default for UiMessage {
    /// The placeholder message, displayed for 2 seconds.
    fn default() -> (r: UiMessage)
        ensures
            r.message@ == "A heap of raw iron."@,
            r.duration_ms == 2_000,
            r.life_time_ms == 0,
            !r.added_to_tree,
    {
        UiMessage {
            message: String::from_str("A heap of raw iron."),
            duration_ms: 2_000,
            life_time_ms: 0,
            added_to_tree: false,
        }
    }
}

impl UiMessage {
    /// The on-screen message a display request creates: the request's text
    /// and duration, with no lifetime accumulated and not yet added to the
    /// UI tree.
    pub fn from_event(ev: &AddUiMessageEvent) -> (r: UiMessage)
        ensures
            r.message@ == ev.message@,
            r.duration_ms == ev.duration_ms,
            r.life_time_ms == 0,
            !r.added_to_tree,
    {
        UiMessage {
            message: String::from_str(ev.message.as_str()),
            duration_ms: ev.duration_ms,
            life_time_ms: 0,
            added_to_tree: false,
        }
    }

    /// The same message record with its text replaced.
    pub fn with_message(self, message: &String) -> (r: UiMessage)
        ensures
            r.message@ == message@,
            r.duration_ms == self.duration_ms,
            r.life_time_ms == self.life_time_ms,
            r.added_to_tree == self.added_to_tree,
    {
        UiMessage {
            message: String::from_str(message.as_str()),
            duration_ms: self.duration_ms,
            life_time_ms: self.life_time_ms,
            added_to_tree: self.added_to_tree,
        }
    }
}

/// One frame of a message's lifetime: time accumulates only once the
/// message is in the UI tree, and the message expires (is to be removed)
/// when its lifetime reaches its duration.
pub fn ui_message_tick(msg: &mut UiMessage, elapsed_ms: u64) -> (expired: bool)
    requires
        old(msg).life_time_ms + elapsed_ms <= u64::MAX,
    ensures
        final(msg).message@ == old(msg).message@,
        final(msg).duration_ms == old(msg).duration_ms,
        final(msg).added_to_tree == old(msg).added_to_tree,
        old(msg).added_to_tree ==> final(msg).life_time_ms == old(msg).life_time_ms + elapsed_ms,
        !old(msg).added_to_tree ==> final(msg).life_time_ms == old(msg).life_time_ms,
        expired == (old(msg).added_to_tree && old(msg).life_time_ms + elapsed_ms
            >= old(msg).duration_ms),
{
    if msg.added_to_tree {
        msg.life_time_ms = msg.life_time_ms + elapsed_ms;
        msg.life_time_ms >= msg.duration_ms
    } else {
        false
    }
}

} // verus!
