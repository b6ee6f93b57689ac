//! What a pop-up is made from, and what it holds.

use vstd::prelude::*;

verus! {

/// How urgent a notification is.
#[derive(Debug, Clone, Copy, PartialEq, Eq, Structural)]
pub enum Urgency {
    Low,
    Normal,
    Critical,
}

impl Default for Urgency {
    fn default() -> (u: Urgency)
        ensures
            u == Urgency::Normal,
    {
        Urgency::Normal
    }
}

/// A button of a notification.
#[derive(Debug, Clone, PartialEq, Eq)]
pub struct Action {
    pub id: String,
    pub label: String,
}

/// As much of the daemon's notification as a pop-up shows or acts on.
#[derive(Debug, Clone)]
pub struct Notification {
    pub row_id: Option<i64>,
    pub dbus_id: u32,
    pub app_name: String,
    pub summary: String,
    pub body: String,
    pub urgency: Urgency,
    pub actions: Vec<Action>,
    /// The lifetime in milliseconds that the sender asks for: 0 for never, -1 for the default.
    pub expire_timeout: i32,
}

/// A pop-up on the screen.
#[derive(Debug, Clone)]
pub struct PopupState {
    pub row_id: Option<i64>,
    pub urgency: Urgency,
    pub app_name: String,
    pub summary: String,
    pub body: String,
    pub actions: Vec<Action>,
    /// When it goes, in nanoseconds of a clock that never goes back; never where absent.
    pub expires_at: Option<u64>,
    /// Its height in pixels.
    pub height: u32,
}

} // verus!
