//! Notifications and what they are made from.

use crate::json;
use crate::json::Json;
use crate::text;
use crate::time;
use crate::time::Timestamp;
use vstd::prelude::*;

verus! {

/// How urgent a notification is.
#[derive(Debug, Clone, Copy, PartialEq, Eq, PartialOrd, Ord, Structural)]
pub enum Urgency {
    Low,
    Normal,
    Critical,
}

/// The urgency that a hint's byte stands for; any other byte stands for normal.
pub open spec fn urgency_of(val: int) -> Urgency {
    if val == 0 {
        Urgency::Low
    } else if val == 2 {
        Urgency::Critical
    } else {
        Urgency::Normal
    }
}

impl Urgency {
    /// The number of the urgency.
    pub open spec fn spec_number(self) -> u32 {
        match self {
            Urgency::Low => 0,
            Urgency::Normal => 1,
            Urgency::Critical => 2,
        }
    }

    /// The name of the urgency.
    pub open spec fn spec_name(self) -> Seq<char> {
        match self {
            Urgency::Low => "low"@,
            Urgency::Normal => "normal"@,
            Urgency::Critical => "critical"@,
        }
    }

    /// The urgency that a hint's byte stands for.
    pub fn from_u8(val: u8) -> (urgency: Urgency)
        ensures
            urgency == urgency_of(val as int),
    {
        match val {
            0 => Urgency::Low,
            1 => Urgency::Normal,
            2 => Urgency::Critical,
            _ => Urgency::Normal,
        }
    }

    /// The number of the urgency.
    pub fn as_u32(&self) -> (n: u32)
        ensures
            n == self.spec_number(),
    {
        match self {
            Urgency::Low => 0,
            Urgency::Normal => 1,
            Urgency::Critical => 2,
        }
    }

    /// The name of the urgency.
    pub fn as_str(&self) -> (name: &'static str)
        ensures
            name@ == self.spec_name(),
    {
        match self {
            Urgency::Low => "low",
            Urgency::Normal => "normal",
            Urgency::Critical => "critical",
        }
    }

    /// The urgency of that name; nothing for any other name.
    pub fn from_name(name: &str) -> (urgency: Option<Urgency>)
        ensures
            urgency == urgency_named(name@),
    {
        proof {
            urgency_names_differ();
        }
        if text::text_eq(name, "low") {
            Some(Urgency::Low)
        } else if text::text_eq(name, "normal") {
            Some(Urgency::Normal)
        } else if text::text_eq(name, "critical") {
            Some(Urgency::Critical)
        } else {
            None
        }
    }
}

/// The urgency of that name; nothing for any other name.
pub open spec fn urgency_named(name: Seq<char>) -> Option<Urgency> {
    if name == Urgency::Low.spec_name() {
        Some(Urgency::Low)
    } else if name == Urgency::Normal.spec_name() {
        Some(Urgency::Normal)
    } else if name == Urgency::Critical.spec_name() {
        Some(Urgency::Critical)
    } else {
        None
    }
}

proof fn urgency_names_differ()
    ensures
        "low"@ != "normal"@,
        "low"@ != "critical"@,
        "normal"@ != "critical"@,
{
    reveal_strlit("low");
    reveal_strlit("normal");
    reveal_strlit("critical");
    assert("low"@.len() == 3 && "normal"@.len() == 6 && "critical"@.len() == 8);
}

/// The number and the name of an urgency each lead back to it.
pub proof fn urgency_round_trip(urgency: Urgency)
    ensures
        urgency_of(urgency.spec_number() as int) == urgency,
        urgency_named(urgency.spec_name()) == Some(urgency),
{
    urgency_names_differ();
}

/// Where a notification is in its life.
#[derive(Debug, Clone, Copy, PartialEq, Eq, Structural)]
pub enum NotificationStatus {
    /// Received and not yet seen.
    Unread,
    /// Seen.
    Read,
    /// Dismissed, but kept.
    Cleared,
}

impl NotificationStatus {
    /// The name of the status.
    pub open spec fn spec_name(self) -> Seq<char> {
        match self {
            NotificationStatus::Unread => "unread"@,
            NotificationStatus::Read => "read"@,
            NotificationStatus::Cleared => "cleared"@,
        }
    }

    /// The name of the status.
    pub fn as_str(&self) -> (name: &'static str)
        ensures
            name@ == self.spec_name(),
    {
        match self {
            NotificationStatus::Unread => "unread",
            NotificationStatus::Read => "read",
            NotificationStatus::Cleared => "cleared",
        }
    }

    /// The status of that name; nothing for any other name.
    pub fn from_str(s: &str) -> (status: Option<NotificationStatus>)
        ensures
            status == status_named(s@),
    {
        if text::text_eq(s, "unread") {
            Some(NotificationStatus::Unread)
        } else if text::text_eq(s, "read") {
            Some(NotificationStatus::Read)
        } else if text::text_eq(s, "cleared") {
            Some(NotificationStatus::Cleared)
        } else {
            None
        }
    }
}

/// The status of that name; nothing for any other name.
pub open spec fn status_named(name: Seq<char>) -> Option<NotificationStatus> {
    if name == NotificationStatus::Unread.spec_name() {
        Some(NotificationStatus::Unread)
    } else if name == NotificationStatus::Read.spec_name() {
        Some(NotificationStatus::Read)
    } else if name == NotificationStatus::Cleared.spec_name() {
        Some(NotificationStatus::Cleared)
    } else {
        None
    }
}

/// The name of a status leads back to it.
pub proof fn status_round_trip(status: NotificationStatus)
    ensures
        status_named(status.spec_name()) == Some(status),
{
    reveal_strlit("unread");
    reveal_strlit("read");
    reveal_strlit("cleared");
    assert("unread"@.len() == 6 && "read"@.len() == 4 && "cleared"@.len() == 7);
}

/// Why a notification was closed.
#[derive(Debug, Clone, Copy, PartialEq, Eq, Structural)]
pub enum ClosedReason {
    Expired,
    Dismissed,
    ClosedByCall,
    Undefined,
}

/// The reason of that number; nothing for any other number.
pub open spec fn reason_of(code: int) -> Option<ClosedReason> {
    if code == 1 {
        Some(ClosedReason::Expired)
    } else if code == 2 {
        Some(ClosedReason::Dismissed)
    } else if code == 3 {
        Some(ClosedReason::ClosedByCall)
    } else if code == 4 {
        Some(ClosedReason::Undefined)
    } else {
        None
    }
}

impl ClosedReason {
    /// The number of the reason.
    pub open spec fn spec_code(self) -> u32 {
        match self {
            ClosedReason::Expired => 1,
            ClosedReason::Dismissed => 2,
            ClosedReason::ClosedByCall => 3,
            ClosedReason::Undefined => 4,
        }
    }

    /// The number of the reason.
    pub fn code(&self) -> (code: u32)
        ensures
            code == self.spec_code(),
    {
        match self {
            ClosedReason::Expired => 1,
            ClosedReason::Dismissed => 2,
            ClosedReason::ClosedByCall => 3,
            ClosedReason::Undefined => 4,
        }
    }

    /// The reason of that number; nothing for any other number.
    pub fn from_code(code: u32) -> (reason: Option<ClosedReason>)
        ensures
            reason == reason_of(code as int),
    {
        match code {
            1 => Some(ClosedReason::Expired),
            2 => Some(ClosedReason::Dismissed),
            3 => Some(ClosedReason::ClosedByCall),
            4 => Some(ClosedReason::Undefined),
            _ => None,
        }
    }
}

/// The number of a reason leads back to it.
pub proof fn reason_round_trip(reason: ClosedReason)
    ensures
        reason_of(reason.spec_code() as int) == Some(reason),
{
}

/// A button of a notification.
#[derive(Debug, Clone, PartialEq, Eq)]
pub struct Action {
    pub id: String,
    pub label: String,
}

/// The ids and labels of buttons.
pub open spec fn action_pairs(actions: Seq<Action>) -> Seq<(Seq<char>, Seq<char>)> {
    actions.map_values(|a: Action| (a.id@, a.label@))
}

/// A notification.
#[derive(Debug, Clone)]
pub struct Notification {
    /// The row that holds it, once stored.
    pub row_id: Option<i64>,
    /// Its number on the bus.
    pub dbus_id: u32,
    pub app_name: String,
    /// An icon's name or path.
    pub app_icon: String,
    pub summary: String,
    pub body: String,
    pub urgency: Urgency,
    /// Such as `im.received`.
    pub category: String,
    /// Such as `org.mozilla.firefox`.
    pub desktop_entry: String,
    pub actions: Vec<Action>,
    /// The hints of the sender, as JSON text.
    pub hints: String,
    pub status: NotificationStatus,
    /// The requested lifetime in milliseconds.
    pub expire_timeout: i32,
    pub created_at: Timestamp,
    pub updated_at: Timestamp,
    /// Why it was closed, where it was.
    pub closed_reason: Option<ClosedReason>,
}

/// What a notification holds.
#[verifier::ext_equal]
pub struct NotificationView {
    pub row_id: Option<i64>,
    pub dbus_id: u32,
    pub app_name: Seq<char>,
    pub app_icon: Seq<char>,
    pub summary: Seq<char>,
    pub body: Seq<char>,
    pub urgency: Urgency,
    pub category: Seq<char>,
    pub desktop_entry: Seq<char>,
    pub actions: Seq<(Seq<char>, Seq<char>)>,
    pub hints: Seq<char>,
    pub status: NotificationStatus,
    pub expire_timeout: i32,
    pub created_at: (int, int),
    pub updated_at: (int, int),
    pub closed_reason: Option<ClosedReason>,
}

/// Seconds and nanoseconds of a point in time.
pub open spec fn moment(time: Timestamp) -> (int, int) {
    (time.spec_secs(), time.spec_nanos())
}

impl View for Notification {
    type V = NotificationView;

    open spec fn view(&self) -> NotificationView {
        NotificationView {
            row_id: self.row_id,
            dbus_id: self.dbus_id,
            app_name: self.app_name@,
            app_icon: self.app_icon@,
            summary: self.summary@,
            body: self.body@,
            urgency: self.urgency,
            category: self.category@,
            desktop_entry: self.desktop_entry@,
            actions: action_pairs(self.actions@),
            hints: self.hints@,
            status: self.status,
            expire_timeout: self.expire_timeout,
            created_at: moment(self.created_at),
            updated_at: moment(self.updated_at),
            closed_reason: self.closed_reason,
        }
    }
}

// ---------- hints ----------

/// A hint's value, as far as it is read.
#[derive(Debug, Clone)]
pub enum HintValue {
    Byte(u8),
    Text(String),
    Other,
}

/// A hint that a sender gave.
#[derive(Debug, Clone)]
pub struct Hint {
    pub key: String,
    pub value: HintValue,
    /// The value as text.
    pub shown: String,
}

/// The value of the first hint of that name.
pub open spec fn hint_value(hints: Seq<Hint>, key: Seq<char>) -> Option<HintValue>
    decreases hints.len(),
{
    if hints.len() == 0 {
        None
    } else if hints[0].key@ == key {
        Some(hints[0].value)
    } else {
        hint_value(hints.skip(1), key)
    }
}

/// The urgency that the hints give; normal without one.
pub open spec fn hinted_urgency(hints: Seq<Hint>) -> Urgency {
    match hint_value(hints, "urgency"@) {
        Some(HintValue::Byte(b)) => urgency_of(b as int),
        _ => Urgency::Normal,
    }
}

/// The text that the hints give under that name; empty without one.
pub open spec fn hinted_text(hints: Seq<Hint>, key: Seq<char>) -> Seq<char> {
    match hint_value(hints, key) {
        Some(HintValue::Text(s)) => s@,
        _ => Seq::empty(),
    }
}

/// The hints as a JSON object of texts.
pub open spec fn hints_tree(hints: Seq<Hint>) -> json::JsonTree {
    json::JsonTree::Object(
        hints.map_values(|h: Hint| (h.key@, json::JsonTree::Text(h.shown@))),
    )
}

/// Whether no two hints have the same name.
pub open spec fn distinct_hints(hints: Seq<Hint>) -> bool {
    forall|i: int, j: int|
        0 <= i < j < hints.len() ==> (#[trigger] hints[i]).key@ != (#[trigger] hints[j]).key@
}

fn find_hint<'a>(hints: &'a Vec<Hint>, key: &str) -> (value: Option<&'a HintValue>)
    ensures
        match value {
            Some(v) => hint_value(hints@, key@) == Some(*v),
            None => hint_value(hints@, key@) is None,
        },
{
    let mut i: usize = 0;
    assert(hints@.skip(0) =~= hints@);
    while i < hints.len()
        invariant
            i <= hints@.len(),
            hint_value(hints@, key@) == hint_value(hints@.skip(i as int), key@),
        decreases hints.len() - i,
    {
        assert(hints@.skip(i as int)[0] == hints@[i as int]);
        if text::text_eq(hints[i].key.as_str(), key) {
            return Some(&hints[i].value);
        }
        assert(hints@.skip(i as int).skip(1) =~= hints@.skip(i as int + 1));
        i = i + 1;
    }
    None
}

/// The urgency that the hints give.
pub fn extract_urgency(hints: &Vec<Hint>) -> (urgency: Urgency)
    ensures
        urgency == hinted_urgency(hints@),
{
    match find_hint(hints, "urgency") {
        Some(v) => match v {
            HintValue::Byte(b) => Urgency::from_u8(*b),
            _ => Urgency::Normal,
        },
        None => Urgency::Normal,
    }
}

/// The text that the hints give under that name.
pub fn extract_string_hint(hints: &Vec<Hint>, key: &str) -> (value: String)
    ensures
        value@ == hinted_text(hints@, key@),
{
    match find_hint(hints, key) {
        Some(v) => match v {
            HintValue::Text(s) => s.clone(),
            _ => String::new(),
        },
        None => String::new(),
    }
}

/// The hints as JSON text. Where no two have the same name, parsing the text and writing
/// it again changes nothing.
pub fn hints_to_json(hints: &Vec<Hint>) -> (text: String)
    ensures
        text@ == json::json_text(json::ordered_tree(hints_tree(hints@))),
        distinct_hints(hints@) ==> json::compact(text@) == Some(text@),
        distinct_hints(hints@) ==> json::json_value(text@) is Some && json::same_fields(
            json::json_value(text@)->0,
            hints_tree(hints@),
        ),
{
    let mut fields: Vec<(String, Json)> = Vec::new();
    let mut i: usize = 0;
    while i < hints.len()
        invariant
            i <= hints@.len(),
            fields@.len() == i,
            forall|j: int|
                0 <= j < i ==> (#[trigger] fields@[j]).0@ == hints@[j].key@ && fields@[j].1.tree()
                    == json::JsonTree::Text(hints@[j].shown@),
        decreases hints.len() - i,
    {
        fields.push((hints[i].key.clone(), Json::Text(hints[i].shown.clone())));
        i = i + 1;
    }
    let object = Json::Object(fields);
    proof {
        assert(object.tree()->Object_0 =~= hints_tree(hints@)->Object_0);
    }
    json::render_json(&object)
}

/// The pairs of a list that holds ids and labels in turn; a last one alone is dropped.
pub open spec fn paired(list: Seq<String>) -> Seq<(Seq<char>, Seq<char>)> {
    Seq::new(list.len() / 2, |i: int| (list[2 * i]@, list[2 * i + 1]@))
}

/// The buttons of a list that holds ids and labels in turn.
pub fn parse_actions(actions: &Vec<String>) -> (parsed: Vec<Action>)
    ensures
        action_pairs(parsed@) == paired(actions@),
{
    let mut out: Vec<Action> = Vec::new();
    let n: usize = actions.len() / 2;
    let mut i: usize = 0;
    while i < n
        invariant
            i <= n,
            n == actions.len() / 2,
            out@.len() == i,
            forall|j: int|
                0 <= j < i ==> (#[trigger] out@[j]).id@ == actions@[2 * j]@ && out@[j].label@
                    == actions@[2 * j + 1]@,
        decreases n - i,
    {
        out.push(Action { id: actions[2 * i].clone(), label: actions[2 * i + 1].clone() });
        i = i + 1;
    }
    assert(action_pairs(out@) =~= paired(actions@));
    out
}

/// What is read of the hints of a notification: urgency, category, desktop entry and all of
/// them as JSON text. The desktop entry is looked up as `desktop-entry`, and as
/// `desktop_entry` where that hint is absent.
pub fn extract_hints(hints: &Vec<Hint>) -> (read: (Urgency, String, String, String))
    ensures
        read.0 == hinted_urgency(hints@),
        read.1@ == hinted_text(hints@, "category"@),
        read.2@ == if hint_value(hints@, "desktop-entry"@) is Some {
            hinted_text(hints@, "desktop-entry"@)
        } else {
            hinted_text(hints@, "desktop_entry"@)
        },
        read.3@ == json::json_text(json::ordered_tree(hints_tree(hints@))),
        distinct_hints(hints@) ==> json::compact(read.3@) == Some(read.3@),
{
    let urgency = extract_urgency(hints);
    let category = extract_string_hint(hints, "category");
    let desktop_entry = match find_hint(hints, "desktop-entry") {
        Some(_) => extract_string_hint(hints, "desktop-entry"),
        None => extract_string_hint(hints, "desktop_entry"),
    };
    (urgency, category, desktop_entry, hints_to_json(hints))
}

impl Notification {
    /// The notification that the bus parameters describe, received at `now`: unread, not
    /// stored, not closed.
    pub fn from_dbus_at(
        dbus_id: u32,
        app_name: String,
        app_icon: String,
        summary: String,
        body: String,
        actions: Vec<(String, String)>,
        hints: &Vec<Hint>,
        expire_timeout: i32,
        now: Timestamp,
    ) -> (notif: Notification)
        ensures
            notif@ == (NotificationView {
                row_id: None,
                dbus_id,
                app_name: app_name@,
                app_icon: app_icon@,
                summary: summary@,
                body: body@,
                urgency: hinted_urgency(hints@),
                category: hinted_text(hints@, "category"@),
                desktop_entry: if hint_value(hints@, "desktop-entry"@) is Some {
                    hinted_text(hints@, "desktop-entry"@)
                } else {
                    hinted_text(hints@, "desktop_entry"@)
                },
                actions: actions@.map_values(|a: (String, String)| (a.0@, a.1@)),
                hints: json::json_text(json::ordered_tree(hints_tree(hints@))),
                status: NotificationStatus::Unread,
                expire_timeout,
                created_at: moment(now),
                updated_at: moment(now),
                closed_reason: None,
            }),
            distinct_hints(hints@) ==> json::compact(notif.hints@) == Some(notif.hints@),
    {
        let mut buttons: Vec<Action> = Vec::new();
        let mut i: usize = 0;
        while i < actions.len()
            invariant
                i <= actions@.len(),
                buttons@.len() == i,
                forall|j: int|
                    0 <= j < i ==> (#[trigger] buttons@[j]).id@ == actions@[j].0@
                        && buttons@[j].label@ == actions@[j].1@,
            decreases actions.len() - i,
        {
            buttons.push(Action { id: actions[i].0.clone(), label: actions[i].1.clone() });
            i = i + 1;
        }
        assert(action_pairs(buttons@) =~= actions@.map_values(
            |a: (String, String)| (a.0@, a.1@),
        ));
        let (urgency, category, desktop_entry, hints_json) = extract_hints(hints);
        Notification {
            row_id: None,
            dbus_id,
            app_name,
            app_icon,
            summary,
            body,
            urgency,
            category,
            desktop_entry,
            actions: buttons,
            hints: hints_json,
            status: NotificationStatus::Unread,
            expire_timeout,
            created_at: now,
            updated_at: now,
            closed_reason: None,
        }
    }

    /// The notification that the bus parameters describe, received now.
    pub fn from_dbus(
        dbus_id: u32,
        app_name: String,
        _replaces_id: u32,
        app_icon: String,
        summary: String,
        body: String,
        actions: Vec<(String, String)>,
        hints: &Vec<Hint>,
        expire_timeout: i32,
    ) -> (notif: Notification)
        ensures
            notif@ == (NotificationView {
                row_id: None,
                dbus_id,
                app_name: app_name@,
                app_icon: app_icon@,
                summary: summary@,
                body: body@,
                urgency: hinted_urgency(hints@),
                category: hinted_text(hints@, "category"@),
                desktop_entry: if hint_value(hints@, "desktop-entry"@) is Some {
                    hinted_text(hints@, "desktop-entry"@)
                } else {
                    hinted_text(hints@, "desktop_entry"@)
                },
                actions: actions@.map_values(|a: (String, String)| (a.0@, a.1@)),
                hints: json::json_text(json::ordered_tree(hints_tree(hints@))),
                status: NotificationStatus::Unread,
                expire_timeout,
                created_at: moment(notif.created_at),
                updated_at: moment(notif.created_at),
                closed_reason: None,
            }),
            distinct_hints(hints@) ==> json::compact(notif.hints@) == Some(notif.hints@),
            time::read_from_clock(
                notif.created_at.spec_secs(),
                notif.created_at.spec_nanos(),
            ),
    {
        let now = time::utc_now();
        Notification::from_dbus_at(
            dbus_id,
            app_name,
            app_icon,
            summary,
            body,
            actions,
            hints,
            expire_timeout,
            now,
        )
    }
}

} // verus!
