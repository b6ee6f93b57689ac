//! The pop-ups' configuration.

use crate::popup::model::Urgency;
use crate::text;
use vstd::prelude::*;

verus! {

/// The corner of the screen that pop-ups start from.
#[derive(Debug, Clone, Copy, PartialEq, Eq, Structural)]
pub enum Position {
    TopRight,
    TopLeft,
    BottomRight,
    BottomLeft,
}

/// The position of that name; nothing for any other name.
pub open spec fn position_named(name: Seq<char>) -> Option<Position> {
    if name == "top-right"@ {
        Some(Position::TopRight)
    } else if name == "top-left"@ {
        Some(Position::TopLeft)
    } else if name == "bottom-right"@ {
        Some(Position::BottomRight)
    } else if name == "bottom-left"@ {
        Some(Position::BottomLeft)
    } else {
        None
    }
}

impl Position {
    /// The position of that name; nothing for any other name.
    pub fn from_name(name: &str) -> (position: Option<Position>)
        ensures
            position == position_named(name@),
    {
        if text::text_eq(name, "top-right") {
            Some(Position::TopRight)
        } else if text::text_eq(name, "top-left") {
            Some(Position::TopLeft)
        } else if text::text_eq(name, "bottom-right") {
            Some(Position::BottomRight)
        } else if text::text_eq(name, "bottom-left") {
            Some(Position::BottomLeft)
        } else {
            None
        }
    }
}

/// Lifetimes of pop-ups in seconds where neither a rule nor the sender sets one; 0 for never.
#[derive(Debug, Clone)]
pub struct NotificationsConfig {
    pub default_timeout: u32,
    pub timeout_low: u32,
    pub timeout_critical: u32,
}

impl Default for NotificationsConfig {
    fn default() -> (c: NotificationsConfig)
        ensures
            c.default_timeout == 10,
            c.timeout_low == 5,
            c.timeout_critical == 0,
    {
        NotificationsConfig { default_timeout: 10, timeout_low: 5, timeout_critical: 0 }
    }
}

/// Where pop-ups are and how large.
#[derive(Debug, Clone)]
pub struct PopupConfig {
    pub position: Position,
    pub max_visible: usize,
    /// Pixels between the screen's edge and the stack.
    pub margin: u32,
    /// Pixels between two pop-ups.
    pub gap: u32,
    pub width: u32,
    /// The least height in pixels.
    pub height: u32,
    /// The height that a pop-up grows to at most.
    pub max_height: u32,
    /// Whether content is hidden while the daemon is locked.
    pub hide_content_when_locked: bool,
    pub rules: Vec<PopupRule>,
}

/// A rule on pop-ups. Every condition that is given has to hold; the first rule that
/// applies decides.
#[derive(Debug, Clone)]
pub struct PopupRule {
    pub name: String,
    pub app_name: Option<String>,
    pub summary: Option<String>,
    pub body: Option<String>,
    pub urgency: Option<Urgency>,
    /// Whether no pop-up is shown.
    pub suppress: bool,
    /// The urgency in place of the notification's.
    pub override_urgency: Option<Urgency>,
    /// The lifetime in seconds in place of the sender's and the urgency's; 0 for never.
    pub override_timeout_secs: Option<u32>,
    /// Whether content is hidden while the daemon is locked, in place of the general setting.
    pub hide_content_when_locked: Option<bool>,
}

impl Default for PopupConfig {
    fn default() -> (c: PopupConfig)
        ensures
            c.position == Position::TopRight,
            c.max_visible == 5,
            c.margin == 12,
            c.gap == 8,
            c.width == 380,
            c.height == 120,
            c.max_height == 240,
            !c.hide_content_when_locked,
            c.rules@.len() == 0,
    {
        PopupConfig {
            position: Position::TopRight,
            max_visible: 5,
            margin: 12,
            gap: 8,
            width: 380,
            height: 120,
            max_height: 240,
            hide_content_when_locked: false,
            rules: Vec::new(),
        }
    }
}

/// The pop-ups' configuration.
#[derive(Debug, Clone)]
pub struct AppConfig {
    pub notifications: NotificationsConfig,
    pub popup: PopupConfig,
}

impl Default for AppConfig {
    fn default() -> (c: AppConfig)
        ensures
            c.notifications.default_timeout == 10,
            c.notifications.timeout_low == 5,
            c.notifications.timeout_critical == 0,
            c.popup.position == Position::TopRight,
            c.popup.max_visible == 5,
            c.popup.margin == 12,
            c.popup.gap == 8,
            c.popup.width == 380,
            c.popup.height == 120,
            c.popup.max_height == 240,
            !c.popup.hide_content_when_locked,
            c.popup.rules@.len() == 0,
    {
        AppConfig { notifications: NotificationsConfig::default(), popup: PopupConfig::default() }
    }
}

} // verus!
