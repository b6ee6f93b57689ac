//! How notifications look on a terminal.

use crate::json;
use crate::json::Json;
use crate::text;
use crate::time;
use crate::time::Timestamp;
use comfy_table::presets::UTF8_FULL_CONDENSED;
use comfy_table::{Attribute, Cell, CellAlignment, Color, ContentArrangement, Table};
use owo_colors::{OwoColorize, Stream};
use vstd::prelude::*;

verus! {

// ---------- styles ----------

/// `owo_colors::OwoColorize::bold`, as text: the text between the code for bold and the code
/// that resets all styles.
#[verifier::external_body]
fn bold(text: &str) -> (styled: String)
    ensures
        styled@ == "\x1b[1m"@ + text@ + "\x1b[0m"@,
{
    text.bold().to_string()
}

/// `owo_colors::OwoColorize::dimmed`, as text: the text between the code for dim and the code
/// that resets all styles.
#[verifier::external_body]
fn dimmed(text: &str) -> (styled: String)
    ensures
        styled@ == "\x1b[2m"@ + text@ + "\x1b[0m"@,
{
    text.dimmed().to_string()
}

/// `owo_colors::OwoColorize::yellow`, as text: the text between the code for a yellow
/// foreground and the code for the default one.
#[verifier::external_body]
fn yellow(text: &str) -> (styled: String)
    ensures
        styled@ == "\x1b[33m"@ + text@ + "\x1b[39m"@,
{
    text.yellow().to_string()
}

/// `owo_colors::OwoColorize::red`, as text: the text between the code for a red foreground
/// and the code for the default one.
#[verifier::external_body]
fn red(text: &str) -> (styled: String)
    ensures
        styled@ == "\x1b[31m"@ + text@ + "\x1b[39m"@,
{
    text.red().to_string()
}

/// `owo_colors::OwoColorize::if_supports_color` for the standard output: one of two texts.
/// Which one depends on the terminal and the environment, so that is left open.
#[verifier::external_body]
fn by_support(plain: &str, styled: &str) -> (text: String)
    ensures
        text@ == plain@ || text@ == styled@,
{
    plain.if_supports_color(Stream::Stdout, |_t| styled).to_string()
}

/// Whether that came from asking if the standard output shows colors.
pub closed spec fn told_of_color(color: bool) -> bool {
    exists|text: String| #[trigger]
        call_ensures(by_support, ("plain", "styled"), text) && color == (text@ == "styled"@)
}

/// Whether the standard output shows colors.
fn shows_color() -> (color: bool)
    ensures
        told_of_color(color),
{
    text::text_eq(by_support("plain", "styled").as_str(), "styled")
}

/// How a text stands out.
#[derive(Debug, Clone, Copy, PartialEq, Eq, Structural)]
pub enum Look {
    Plain,
    /// At the right of its column.
    Right,
    Bold,
    Dim,
    YellowBold,
    RedBold,
}

/// A text with the codes that make it look so, where colors are shown.
pub open spec fn painted(text: Seq<char>, look: Look, color: bool) -> Seq<char> {
    if color {
        match look {
            Look::Plain => text,
            Look::Right => text,
            Look::Bold => "\x1b[1m"@ + text + "\x1b[0m"@,
            Look::Dim => "\x1b[2m"@ + text + "\x1b[0m"@,
            Look::YellowBold => "\x1b[1m"@ + ("\x1b[33m"@ + text + "\x1b[39m"@) + "\x1b[0m"@,
            Look::RedBold => "\x1b[1m"@ + ("\x1b[31m"@ + text + "\x1b[39m"@) + "\x1b[0m"@,
        }
    } else {
        text
    }
}

/// A text with the codes that make it look so, where colors are shown.
pub fn paint(text: &str, look: Look, color: bool) -> (out: String)
    ensures
        out@ == painted(text@, look, color),
{
    if !color {
        return text.to_owned();
    }
    match look {
        Look::Plain => text.to_owned(),
        Look::Right => text.to_owned(),
        Look::Bold => bold(text),
        Look::Dim => dimmed(text),
        Look::YellowBold => bold(yellow(text).as_str()),
        Look::RedBold => bold(red(text).as_str()),
    }
}

/// How a status stands out.
pub open spec fn status_look(status: Seq<char>) -> Look {
    if status == "unread"@ {
        Look::YellowBold
    } else if status == "read"@ || status == "cleared"@ {
        Look::Dim
    } else {
        Look::Plain
    }
}

/// How an urgency stands out.
pub open spec fn urgency_look(urgency: Seq<char>) -> Look {
    if urgency == "critical"@ {
        Look::RedBold
    } else if urgency == "low"@ {
        Look::Dim
    } else {
        Look::Plain
    }
}

fn look_of_status(status: &str) -> (look: Look)
    ensures
        look == status_look(status@),
{
    if text::text_eq(status, "unread") {
        Look::YellowBold
    } else if text::text_eq(status, "read") || text::text_eq(status, "cleared") {
        Look::Dim
    } else {
        Look::Plain
    }
}

fn look_of_urgency(urgency: &str) -> (look: Look)
    ensures
        look == urgency_look(urgency@),
{
    if text::text_eq(urgency, "critical") {
        Look::RedBold
    } else if text::text_eq(urgency, "low") {
        Look::Dim
    } else {
        Look::Plain
    }
}

/// A status with its color.
pub fn colorize_status(status: &str, color: bool) -> (out: String)
    ensures
        out@ == painted(status@, status_look(status@), color),
{
    paint(status, look_of_status(status), color)
}

/// An urgency with its color.
pub fn colorize_urgency(urgency: &str, color: bool) -> (out: String)
    ensures
        out@ == painted(urgency@, urgency_look(urgency@), color),
{
    paint(urgency, look_of_urgency(urgency), color)
}

// ---------- truncation ----------

/// A text cut to a number of characters, the last of which is then an ellipsis.
pub open spec fn truncated(s: Seq<char>, max: nat) -> Seq<char> {
    if s.len() <= max {
        s
    } else if max <= 1 {
        seq!['…']
    } else {
        s.take(max - 1).push('…')
    }
}

/// A text cut to `max` characters, the last of which is then an ellipsis.
pub fn truncate(s: &str, max: usize) -> (out: String)
    ensures
        out@ == truncated(s@, max as nat),
{
    let chars = text::chars_of(s);
    if chars.len() <= max {
        s.to_owned()
    } else if max <= 1 {
        let mut out = String::new();
        out.push('…');
        assert(out@ =~= seq!['…']);
        out
    } else {
        let mut out = text::text_of(&chars, 0, max - 1);
        assert(out@ =~= s@.take(max - 1));
        out.push('…');
        out
    }
}

/// A truncated text has at most as many characters as asked for, or is the ellipsis alone;
/// one that fits is unchanged, and truncating again changes nothing.
pub proof fn truncation_is_bounded(s: Seq<char>, max: nat)
    ensures
        truncated(s, max).len() <= max || truncated(s, max) == seq!['…'],
        s.len() <= max ==> truncated(s, max) == s,
        truncated(truncated(s, max), max) == truncated(s, max),
{
}

// ---------- details ----------

/// The width that a label with its colon is filled up to.
pub const LABEL_WIDTH: usize = 10;

/// That many spaces.
pub open spec fn spaces(n: nat) -> Seq<char> {
    Seq::new(n, |i: int| ' ')
}

/// A label: bold, with a colon, filled up with spaces.
pub open spec fn label_said(label: Seq<char>, color: bool) -> Seq<char> {
    let with_colon = label.push(':');
    painted(with_colon, Look::Bold, color) + spaces(
        if with_colon.len() < LABEL_WIDTH {
            (LABEL_WIDTH - with_colon.len()) as nat
        } else {
            0
        },
    )
}

/// A line with a label and a value.
pub open spec fn field_said(label: Seq<char>, value: Seq<char>, color: bool) -> Seq<char> {
    label_said(label, color) + " "@ + value + "\n"@
}

/// A line with a label and a value, where there is one.
pub open spec fn some_field(label: Seq<char>, value: Option<Seq<char>>, color: bool) -> Seq<char> {
    match value {
        Some(v) => field_said(label, v, color),
        None => Seq::empty(),
    }
}

/// A text, unless it is empty.
pub open spec fn nonempty(value: Option<Seq<char>>) -> Option<Seq<char>> {
    match value {
        Some(v) => if v.len() == 0 {
            None
        } else {
            Some(v)
        },
        None => None,
    }
}

fn push_label(out: &mut String, label: &str, color: bool)
    ensures
        final(out)@ == old(out)@ + label_said(label@, color),
{
    let mut with_colon = label.to_owned();
    with_colon.push(':');
    let styled = paint(with_colon.as_str(), Look::Bold, color);
    let len: usize = text::chars_of(with_colon.as_str()).len();
    let pad: usize = if len < LABEL_WIDTH {
        LABEL_WIDTH - len
    } else {
        0
    };
    out.append(styled.as_str());
    let ghost before = out@;
    let mut i: usize = 0;
    assert(before + spaces(0) =~= before);
    while i < pad
        invariant
            i <= pad,
            out@ == before + spaces(i as nat),
        decreases pad - i,
    {
        out.push(' ');
        i = i + 1;
        assert(out@ =~= before + spaces(i as nat));
    }
    assert(out@ =~= old(out)@ + label_said(label@, color));
}

fn push_field(out: &mut String, label: &str, value: &str, color: bool)
    ensures
        final(out)@ == old(out)@ + field_said(label@, value@, color),
{
    push_label(out, label, color);
    out.append(" ");
    out.append(value);
    out.append("\n");
    assert(out@ =~= old(out)@ + field_said(label@, value@, color));
}

/// The view of an optional text.
pub open spec fn seen(value: Option<&str>) -> Option<Seq<char>> {
    match value {
        Some(v) => Some(v@),
        None => None,
    }
}

fn push_some(out: &mut String, label: &str, value: Option<&str>, color: bool)
    ensures
        final(out)@ == old(out)@ + some_field(label@, seen(value), color),
{
    match value {
        Some(v) => {
            push_field(out, label, v, color);
        },
        None => {
            assert(out@ =~= old(out)@ + some_field(label@, None, color));
        },
    }
}

fn push_nonempty(out: &mut String, label: &str, value: Option<&str>, color: bool)
    ensures
        final(out)@ == old(out)@ + some_field(label@, nonempty(seen(value)), color),
{
    match value {
        Some(v) => {
            if v.is_empty() {
                push_some(out, label, None, color);
            } else {
                push_field(out, label, v, color);
            }
        },
        None => {
            push_some(out, label, None, color);
        },
    }
}

/// The line of an action: its key and its label; nothing where it lacks one of them.
pub open spec fn action_line(action: json::JsonTree) -> Seq<char> {
    match (action.get_text("id"@), action.get_text("label"@)) {
        (Some(id), Some(label)) => "  • "@ + id + " — "@ + label + "\n"@,
        _ => Seq::empty(),
    }
}

/// The lines of all actions.
pub open spec fn action_lines(actions: Seq<json::JsonTree>) -> Seq<char>
    decreases actions.len(),
{
    if actions.len() == 0 {
        Seq::empty()
    } else {
        action_lines(actions.drop_last()) + action_line(actions.last())
    }
}

/// The actions under their label; nothing where there are none.
pub open spec fn actions_said(actions: Option<Seq<json::JsonTree>>, color: bool) -> Seq<char> {
    match actions {
        Some(items) => if action_lines(items).len() == 0 {
            Seq::empty()
        } else {
            label_said("Actions"@, color) + "\n"@ + action_lines(items)
        },
        None => Seq::empty(),
    }
}

fn push_action(out: &mut String, action: &Json)
    ensures
        final(out)@ == old(out)@ + action_line(action.tree()),
{
    match (action.get_text("id"), action.get_text("label")) {
        (Some(id), Some(label)) => {
            out.append("  • ");
            out.append(id);
            out.append(" — ");
            out.append(label);
            out.append("\n");
            assert(out@ =~= old(out)@ + action_line(action.tree()));
        },
        _ => {
            assert(out@ =~= old(out)@ + action_line(action.tree()));
        },
    }
}

fn push_actions(out: &mut String, actions: Option<&Vec<Json>>, color: bool)
    ensures
        final(out)@ == old(out)@ + actions_said(
            match actions {
                Some(items) => Some(json::trees(items@)),
                None => None,
            },
            color,
        ),
{
    match actions {
        Some(items) => {
            let ghost all = json::trees(items@);
            let mut lines = String::new();
            let mut i: usize = 0;
            while i < items.len()
                invariant
                    i <= items@.len(),
                    all == json::trees(items@),
                    lines@ == action_lines(all.take(i as int)),
                decreases items.len() - i,
            {
                assert(all.take(i as int + 1).drop_last() =~= all.take(i as int));
                assert(all.take(i as int + 1).last() == items@[i as int].tree());
                push_action(&mut lines, &items[i]);
                i = i + 1;
            }
            assert(all.take(items@.len() as int) =~= all);
            if !lines.as_str().is_empty() {
                push_label(out, "Actions", color);
                out.append("\n");
                out.append(lines.as_str());
            }
            assert(out@ =~= old(out)@ + actions_said(Some(all), color));
        },
        None => {
            assert(out@ =~= old(out)@ + actions_said(None, color));
        },
    }
}

/// The number of a field, as text.
pub open spec fn number_said(n: Option<int>) -> Option<Seq<char>> {
    match n {
        Some(v) => Some(text::signed_decimal(v)),
        None => None,
    }
}

/// What a notification says: its number, its sender and its text.
pub open spec fn content_said(n: json::JsonTree, color: bool) -> Seq<char> {
    some_field("ID"@, number_said(n.get_i64("row_id"@)), color) + some_field(
        "App"@,
        nonempty(n.get_text("app_name"@)),
        color,
    ) + some_field("Summary"@, n.get_text("summary"@), color) + some_field(
        "Body"@,
        nonempty(n.get_text("body"@)),
        color,
    )
}

/// What a notification is like: its urgency, its status, where it belongs.
pub open spec fn nature_said(n: json::JsonTree, color: bool) -> Seq<char> {
    some_field(
        "Urgency"@,
        match n.get_text("urgency"@) {
            Some(u) => Some(painted(u, urgency_look(u), color)),
            None => None,
        },
        color,
    ) + some_field(
        "Status"@,
        match n.get_text("status"@) {
            Some(s) => Some(painted(s, status_look(s), color)),
            None => None,
        },
        color,
    ) + some_field("Category"@, nonempty(n.get_text("category"@)), color) + some_field(
        "Desktop"@,
        nonempty(n.get_text("desktop_entry"@)),
        color,
    )
}

/// What became of a notification: its times, its number on the bus, why it was closed.
pub open spec fn history_said(n: json::JsonTree, color: bool) -> Seq<char> {
    some_field("Created"@, n.get_text("created_at"@), color) + some_field(
        "Updated"@,
        n.get_text("updated_at"@),
        color,
    ) + some_field("D-Bus ID"@, number_said(n.get_u64("dbus_id"@)), color) + some_field(
        "Closed"@,
        n.get_text("closed_reason"@),
        color,
    )
}

/// What is told of a notification, a line for each thing that is known of it.
pub open spec fn detail_said(n: json::JsonTree, color: bool) -> Seq<char> {
    content_said(n, color) + nature_said(n, color) + actions_said(n.get_array("actions"@), color)
        + history_said(n, color)
}

fn content_text(notif: &Json, color: bool) -> (out: String)
    ensures
        out@ == content_said(notif.tree(), color),
{
    let mut out = String::new();
    match notif.get_i64("row_id") {
        Some(n) => {
            push_some(&mut out, "ID", Some(text::signed_text(n).as_str()), color);
        },
        None => {
            push_some(&mut out, "ID", None, color);
        },
    }
    assert(out@ =~= some_field("ID"@, number_said(notif.tree().get_i64("row_id"@)), color));
    push_nonempty(&mut out, "App", notif.get_text("app_name"), color);
    push_some(&mut out, "Summary", notif.get_text("summary"), color);
    push_nonempty(&mut out, "Body", notif.get_text("body"), color);
    out
}

fn nature_text(notif: &Json, color: bool) -> (out: String)
    ensures
        out@ == nature_said(notif.tree(), color),
{
    let mut out = String::new();
    match notif.get_text("urgency") {
        Some(u) => {
            push_some(&mut out, "Urgency", Some(colorize_urgency(u, color).as_str()), color);
        },
        None => {
            push_some(&mut out, "Urgency", None, color);
        },
    }
    assert(out@ =~= some_field(
        "Urgency"@,
        match notif.tree().get_text("urgency"@) {
            Some(u) => Some(painted(u, urgency_look(u), color)),
            None => None,
        },
        color,
    ));
    match notif.get_text("status") {
        Some(s) => {
            push_some(&mut out, "Status", Some(colorize_status(s, color).as_str()), color);
        },
        None => {
            push_some(&mut out, "Status", None, color);
        },
    }
    push_nonempty(&mut out, "Category", notif.get_text("category"), color);
    push_nonempty(&mut out, "Desktop", notif.get_text("desktop_entry"), color);
    out
}

fn history_text(notif: &Json, color: bool) -> (out: String)
    ensures
        out@ == history_said(notif.tree(), color),
{
    let mut out = String::new();
    push_some(&mut out, "Created", notif.get_text("created_at"), color);
    assert(out@ =~= some_field("Created"@, notif.tree().get_text("created_at"@), color));
    push_some(&mut out, "Updated", notif.get_text("updated_at"), color);
    match notif.get_u64("dbus_id") {
        Some(n) => {
            push_some(&mut out, "D-Bus ID", Some(text::decimal_text(n).as_str()), color);
        },
        None => {
            push_some(&mut out, "D-Bus ID", None, color);
        },
    }
    push_some(&mut out, "Closed", notif.get_text("closed_reason"), color);
    out
}

/// What is told of a notification.
pub fn detail_text(notif: &Json, color: bool) -> (out: String)
    ensures
        out@ == detail_said(notif.tree(), color),
{
    let mut out = content_text(notif, color);
    out.append(nature_text(notif, color).as_str());
    push_actions(&mut out, notif.get_array("actions"), color);
    out.append(history_text(notif, color).as_str());
    out
}

/// What `olha show` says of the daemon's answer. An answer that is not JSON is said as it is.
pub open spec fn shown(reply: Seq<char>, color: bool) -> Seq<char> {
    match json::json_value(reply) {
        Some(json::JsonTree::Null) => "Notification not found.\n"@,
        Some(tree) => detail_said(tree, color),
        None => reply,
    }
}

/// What `olha show` says of the daemon's answer, with or without colors.
pub fn show_text(reply: &str, color: bool) -> (out: String)
    ensures
        out@ == shown(reply@, color),
{
    match json::parse_json(reply) {
        Some(notif) => match &notif {
            Json::Null => "Notification not found.\n".to_owned(),
            _ => detail_text(&notif, color),
        },
        None => reply.to_owned(),
    }
}

/// What `olha show` says of the daemon's answer; with colors where the terminal shows them.
pub fn format_notification_detail(json_str: &str) -> (out: String)
    ensures
        exists|color: bool| told_of_color(color) && out@ == #[trigger] shown(json_str@, color),
{
    show_text(json_str, shows_color())
}

// ---------- times ----------

/// A point in time for a reader at `now`, from what the wall clock shows at both: the time of
/// day for today, with the day of the week for the last seven days, with the day of the month
/// for this year, the whole date otherwise. Where the wall clock shows nothing, the text that
/// stands for the time is left as it is.
pub open spec fn stamp(
    iso: Seq<char>,
    time: (int, int),
    wall: Option<i64>,
    now: (int, int),
    now_wall: Option<i64>,
) -> Seq<char> {
    match (wall, now_wall) {
        (Some(w), Some(v)) => {
            let days = time::days_between(time.0, time.1, now.0, now.1);
            if w as int / 86_400 == v as int / 86_400 {
                time::clock(w as int)
            } else if 0 <= days < 7 {
                time::weekday(w as int) + " "@ + time::clock(w as int)
            } else if time::calendar_year(w as int) == time::calendar_year(v as int) {
                time::strftime_text(w as int, "%b %d %H:%M"@)
            } else {
                time::strftime_text(w as int, "%Y-%m-%d %H:%M"@)
            }
        },
        _ => iso,
    }
}

fn same_day(a: i64, b: i64) -> (same: bool)
    requires
        time::valid_time(a as int, 0),
        time::valid_time(b as int, 0),
    ensures
        same == (a as int / 86_400 == b as int / 86_400),
{
    // Shifted by whole days, so that nothing is negative.
    let x: u64 = (a + 8_334_601_228_800) as u64;
    let y: u64 = (b + 8_334_601_228_800) as u64;
    x / 86_400 == y / 86_400
}

/// A point in time for a reader at `now`, from what the wall clock shows at both.
pub fn stamp_text(
    iso: &str,
    time: &Timestamp,
    wall: Option<i64>,
    now: &Timestamp,
    now_wall: Option<i64>,
) -> (out: String)
    requires
        wall is Some ==> time::valid_time(wall->0 as int, 0),
        now_wall is Some ==> time::valid_time(now_wall->0 as int, 0),
    ensures
        out@ == stamp(
            iso@,
            (time.spec_secs(), time.spec_nanos()),
            wall,
            (now.spec_secs(), now.spec_nanos()),
            now_wall,
        ),
{
    match (wall, now_wall) {
        (Some(w), Some(v)) => {
            if same_day(w, v) {
                return time::strftime(w, "%H:%M");
            }
            let days: i64 = time.days_until(now);
            if days >= 0 && days < 7 {
                time::strftime(w, "%a %H:%M")
            } else if time::year_of(w) == time::year_of(v) {
                time::strftime(w, "%b %d %H:%M")
            } else {
                time::strftime(w, "%Y-%m-%d %H:%M")
            }
        },
        _ => iso.to_owned(),
    }
}

/// Whether that may stand for a time in a list: the text itself where it is no time; otherwise
/// what a reader at the time of a reading of the clock, in the machine's time zone, would see.
pub open spec fn may_stand_for(iso: Seq<char>, out: Seq<char>) -> bool {
    match time::relaxed_time(iso) {
        Some(t) => exists|wall: Option<i64>, now: (int, int), now_wall: Option<i64>|
            #![trigger stamp(iso, t, wall, now, now_wall)]
            {
                &&& time::may_show(t.0, wall)
                &&& time::shown_locally(t.0, t.1, wall)
                &&& time::read_from_clock(now.0, now.1)
                &&& time::may_show(now.0, now_wall)
                &&& time::shown_locally(now.0, now.1, now_wall)
                &&& out == stamp(iso, t, wall, now, now_wall)
            },
        None => out == iso,
    }
}

/// A time for a reader at this moment, in the machine's time zone.
pub fn format_timestamp(iso: &str) -> (out: String)
    ensures
        may_stand_for(iso@, out@),
{
    match Timestamp::parse_relaxed(iso) {
        Some(t) => {
            let wall = t.wall_clock();
            let now = time::utc_now();
            let now_wall = now.wall_clock();
            let out = stamp_text(iso, &t, wall, &now, now_wall);
            proof {
                let read = time::relaxed_time(iso@)->0;
                let moment = (now.spec_secs(), now.spec_nanos());
                assert(time::may_show(moment.0, now_wall));
                assert(out@ == stamp(iso@, read, wall, moment, now_wall));
            }
            out
        },
        None => iso.to_owned(),
    }
}

// ---------- the table ----------

/// A cell of a table.
#[derive(Debug, PartialEq, Eq)]
pub struct TableCell {
    pub text: String,
    pub look: Look,
}

impl View for TableCell {
    type V = (Seq<char>, Look);

    open spec fn view(&self) -> (Seq<char>, Look) {
        (self.text@, self.look)
    }
}

/// What the cells of a row hold.
pub open spec fn cells(row: Seq<TableCell>) -> Seq<(Seq<char>, Look)> {
    row.map_values(|c: TableCell| c@)
}

/// What the cells of each row hold.
pub open spec fn grid(rows: Seq<Vec<TableCell>>) -> Seq<Seq<(Seq<char>, Look)>> {
    rows.map_values(|r: Vec<TableCell>| cells(r@))
}

/// `comfy_table::Cell`, a cell as the table takes it.
#[verifier::external_type_specification]
#[verifier::external_body]
pub struct ExCell(comfy_table::Cell);

/// The text of a `comfy_table::Cell` and how it stands out.
pub uninterp spec fn cell_look(cell: comfy_table::Cell) -> (Seq<char>, Look);

/// `comfy_table::Cell::new`, with its alignment, color and attribute.
#[verifier::external_body]
fn make_cell(cell: &TableCell) -> (made: comfy_table::Cell)
    ensures
        cell_look(made) == cell@,
{
    let made = Cell::new(&cell.text);
    match cell.look {
        Look::Plain => made,
        Look::Right => made.set_alignment(CellAlignment::Right),
        Look::Bold => made.add_attribute(Attribute::Bold),
        Look::Dim => made.add_attribute(Attribute::Dim),
        Look::YellowBold => made.fg(Color::Yellow).add_attribute(Attribute::Bold),
        Look::RedBold => made.fg(Color::Red).add_attribute(Attribute::Bold),
    }
}

/// What the cells of a row for the table hold.
pub open spec fn looks(row: Seq<comfy_table::Cell>) -> Seq<(Seq<char>, Look)> {
    row.map_values(|c: comfy_table::Cell| cell_look(c))
}

/// What the cells of each row for the table hold.
pub open spec fn looks_of_rows(rows: Seq<Vec<comfy_table::Cell>>) -> Seq<Seq<(Seq<char>, Look)>> {
    rows.map_values(|r: Vec<comfy_table::Cell>| looks(r@))
}

fn make_row(row: &Vec<TableCell>) -> (made: Vec<comfy_table::Cell>)
    ensures
        looks(made@) == cells(row@),
{
    let mut made: Vec<comfy_table::Cell> = Vec::new();
    let mut i: usize = 0;
    while i < row.len()
        invariant
            i <= row@.len(),
            made@.len() == i,
            forall|j: int| 0 <= j < i ==> cell_look(#[trigger] made@[j]) == row@[j]@,
        decreases row.len() - i,
    {
        made.push(make_cell(&row[i]));
        i = i + 1;
    }
    assert(looks(made@) =~= cells(row@));
    made
}

fn make_rows(rows: &Vec<Vec<TableCell>>) -> (made: Vec<Vec<comfy_table::Cell>>)
    ensures
        looks_of_rows(made@) == grid(rows@),
{
    let mut made: Vec<Vec<comfy_table::Cell>> = Vec::new();
    let mut i: usize = 0;
    while i < rows.len()
        invariant
            i <= rows@.len(),
            made@.len() == i,
            forall|j: int| 0 <= j < i ==> looks((#[trigger] made@[j])@) == cells(rows@[j]@),
        decreases rows.len() - i,
    {
        made.push(make_row(&rows[i]));
        i = i + 1;
    }
    assert(looks_of_rows(made@) =~= grid(rows@));
    made
}

/// The text of a table, by `comfy_table`: its header, its rows, the width that it is fitted to,
/// if any, and its style, if it has one: with the codes for colors or without them.
pub uninterp spec fn drawn_table(
    header: Seq<(Seq<char>, Look)>,
    rows: Seq<Seq<(Seq<char>, Look)>>,
    width: Option<u16>,
    style: Option<bool>,
) -> Seq<char>;

/// `comfy_table::Table` with the preset `UTF8_FULL_CONDENSED` and a dynamic arrangement, as
/// text. It is a function of the cells, the width and the style. Whether a styled table has the
/// codes for colors depends on the environment, so that is left open.
#[verifier::external_body]
fn draw_table(
    header: Vec<comfy_table::Cell>,
    rows: Vec<Vec<comfy_table::Cell>>,
    width: Option<u16>,
    styled: bool,
) -> (text: String)
    ensures
        if styled {
            ||| text@ == drawn_table(looks(header@), looks_of_rows(rows@), width, Some(true))
            ||| text@ == drawn_table(looks(header@), looks_of_rows(rows@), width, Some(false))
        } else {
            text@ == drawn_table(looks(header@), looks_of_rows(rows@), width, None)
        },
{
    let mut table = Table::new();
    table.load_preset(UTF8_FULL_CONDENSED).set_content_arrangement(ContentArrangement::Dynamic);
    table.set_header(header).add_rows(rows).force_no_tty();
    if let Some(columns) = width {
        table.set_width(columns);
    }
    if styled {
        table.enforce_styling();
    }
    table.to_string()
}

/// `comfy_table::Table::width` of a new table: the width of the terminal, if it is one.
#[verifier::external_body]
fn terminal_width() -> Option<u16> {
    Table::new().width()
}

/// `comfy_table::Table::should_style` of a new table: whether the output is a terminal.
#[verifier::external_body]
fn terminal_styles() -> bool {
    Table::new().should_style()
}

/// Whether that came from asking how wide the terminal is.
pub closed spec fn told_of_width(width: Option<u16>) -> bool {
    call_ensures(terminal_width, (), width)
}

/// Whether that came from asking if the output is a terminal that styles are for.
pub closed spec fn told_of_styles(styled: bool) -> bool {
    call_ensures(terminal_styles, (), styled)
}

fn cell_of(text: String, look: Look) -> (c: TableCell)
    ensures
        c@ == (text@, look),
{
    TableCell { text, look }
}

/// The header of the table.
pub open spec fn header_said() -> Seq<(Seq<char>, Look)> {
    seq![
        ("ID"@, Look::Bold),
        ("App"@, Look::Bold),
        ("Summary"@, Look::Bold),
        ("Status"@, Look::Bold),
        ("Urgency"@, Look::Bold),
        ("Created"@, Look::Bold),
    ]
}

fn header() -> (row: Vec<TableCell>)
    ensures
        cells(row@) == header_said(),
{
    let row: Vec<TableCell> = vec![
        cell_of("ID".to_owned(), Look::Bold),
        cell_of("App".to_owned(), Look::Bold),
        cell_of("Summary".to_owned(), Look::Bold),
        cell_of("Status".to_owned(), Look::Bold),
        cell_of("Urgency".to_owned(), Look::Bold),
        cell_of("Created".to_owned(), Look::Bold),
    ];
    assert(cells(row@) =~= header_said());
    row
}

/// The row of a notification that was created then.
pub open spec fn row_said(n: json::JsonTree, created: Seq<char>) -> Seq<(Seq<char>, Look)> {
    let status = text::or_text(n.get_text("status"@), Seq::empty());
    let urgency = text::or_text(n.get_text("urgency"@), "normal"@);
    seq![
        (text::or_text(number_said(n.get_i64("row_id"@)), "-"@), Look::Right),
        (text::or_text(n.get_text("app_name"@), Seq::empty()), Look::Plain),
        (text::or_text(n.get_text("summary"@), Seq::empty()), Look::Plain),
        (status, status_look(status)),
        (urgency, urgency_look(urgency)),
        (created, Look::Plain),
    ]
}

fn text_or(value: Option<&str>, other: &str) -> (out: String)
    ensures
        out@ == text::or_text(seen(value), other@),
{
    match value {
        Some(v) => v.to_owned(),
        None => other.to_owned(),
    }
}

fn table_row(notif: &Json, created: &str) -> (row: Vec<TableCell>)
    ensures
        cells(row@) == row_said(notif.tree(), created@),
{
    let id = match notif.get_i64("row_id") {
        Some(n) => text::signed_text(n),
        None => "-".to_owned(),
    };
    proof {
        reveal_strlit("");
        assert(""@ =~= Seq::<char>::empty());
    }
    let status = text_or(notif.get_text("status"), "");
    let urgency = text_or(notif.get_text("urgency"), "normal");
    let status_style = look_of_status(status.as_str());
    let urgency_style = look_of_urgency(urgency.as_str());
    let row: Vec<TableCell> = vec![
        cell_of(id, Look::Right),
        cell_of(text_or(notif.get_text("app_name"), ""), Look::Plain),
        cell_of(text_or(notif.get_text("summary"), ""), Look::Plain),
        cell_of(status, status_style),
        cell_of(urgency, urgency_style),
        cell_of(created.to_owned(), Look::Plain),
    ];
    assert(cells(row@) =~= row_said(notif.tree(), created@));
    row
}

/// The rows of notifications that were created then.
pub open spec fn rows_said(notifs: Seq<json::JsonTree>, created: Seq<Seq<char>>) -> Seq<
    Seq<(Seq<char>, Look)>,
> {
    Seq::new(notifs.len(), |i: int| row_said(notifs[i], created[i]))
}

/// The rows of notifications that were created then.
pub fn table_rows(notifs: &Vec<Json>, created: &Vec<String>) -> (rows: Vec<Vec<TableCell>>)
    requires
        notifs@.len() == created@.len(),
    ensures
        grid(rows@) == rows_said(json::trees(notifs@), text::texts(created@)),
{
    let mut rows: Vec<Vec<TableCell>> = Vec::new();
    let mut i: usize = 0;
    while i < notifs.len()
        invariant
            i <= notifs@.len(),
            notifs@.len() == created@.len(),
            rows@.len() == i,
            forall|j: int|
                0 <= j < i ==> cells((#[trigger] rows@[j])@) == row_said(
                    notifs@[j].tree(),
                    created@[j]@,
                ),
        decreases notifs.len() - i,
    {
        rows.push(table_row(&notifs[i], created[i].as_str()));
        i = i + 1;
    }
    assert(grid(rows@) =~= rows_said(json::trees(notifs@), text::texts(created@)));
    rows
}

/// What follows the table.
pub open spec fn count_line(n: nat) -> Seq<char> {
    "\n"@ + text::decimal(n) + " notification(s)\n"@
}

/// The table of notifications that were created then, fitted to a width, and their number
/// below it.
pub open spec fn table_said(
    notifs: Seq<json::JsonTree>,
    created: Seq<Seq<char>>,
    width: Option<u16>,
    style: Option<bool>,
) -> Seq<char> {
    drawn_table(header_said(), rows_said(notifs, created), width, style) + count_line(notifs.len())
}

/// The table of notifications that were created then, fitted to a width, and their number
/// below it. A styled one has the codes for colors or lacks them.
pub fn table_text(
    notifs: &Vec<Json>,
    created: &Vec<String>,
    width: Option<u16>,
    styled: bool,
) -> (out: String)
    requires
        notifs@.len() == created@.len(),
    ensures
        exists|style: Option<bool>|
            style is Some == styled && out@ == #[trigger] table_said(
                json::trees(notifs@),
                text::texts(created@),
                width,
                style,
            ),
{
    let header = make_row(&header());
    let rows = make_rows(&table_rows(notifs, created));
    let mut out = draw_table(header, rows, width, styled);
    let ghost table = out@;
    out.append("\n");
    out.append(text::decimal_text(notifs.len() as u64).as_str());
    out.append(" notification(s)\n");
    proof {
        let all = json::trees(notifs@);
        let times = text::texts(created@);
        assert(out@ =~= table + count_line(all.len()));
        assert(if styled {
            ||| out@ == table_said(all, times, width, Some(true))
            ||| out@ == table_said(all, times, width, Some(false))
        } else {
            out@ == table_said(all, times, width, None)
        });
    }
    out
}

/// Whether those may stand for the times at which notifications were created.
pub open spec fn may_be_created(notifs: Seq<json::JsonTree>, created: Seq<Seq<char>>) -> bool {
    &&& created.len() == notifs.len()
    &&& forall|i: int|
        0 <= i < notifs.len() ==> match (#[trigger] notifs[i]).get_text("created_at"@) {
            Some(iso) => may_stand_for(iso, created[i]),
            None => created[i].len() == 0,
        }
}

fn created_column(notifs: &Vec<Json>) -> (created: Vec<String>)
    ensures
        may_be_created(json::trees(notifs@), text::texts(created@)),
{
    let ghost all = json::trees(notifs@);
    let mut created: Vec<String> = Vec::new();
    let mut i: usize = 0;
    while i < notifs.len()
        invariant
            i <= notifs@.len(),
            all == json::trees(notifs@),
            created@.len() == i,
            forall|j: int|
                0 <= j < i ==> match (#[trigger] all[j]).get_text("created_at"@) {
                    Some(iso) => may_stand_for(iso, created@[j]@),
                    None => created@[j]@.len() == 0,
                },
        decreases notifs.len() - i,
    {
        let stamp = match notifs[i].get_text("created_at") {
            Some(iso) => format_timestamp(iso),
            None => String::new(),
        };
        assert(all[i as int] == notifs@[i as int].tree());
        created.push(stamp);
        i = i + 1;
    }
    created
}

/// Whether `olha list` may say that of the daemon's answer: the answer itself where it is no
/// JSON array, a remark where it is empty, otherwise the table of the notifications, fitted to
/// that width; a styled one has the codes for colors or lacks them.
pub open spec fn may_list(reply: Seq<char>, width: Option<u16>, styled: bool, out: Seq<char>) -> bool {
    match json::json_value(reply) {
        Some(json::JsonTree::Array(notifs)) => if notifs.len() == 0 {
            out == "No notifications.\n"@
        } else {
            exists|created: Seq<Seq<char>>, style: Option<bool>|
                {
                    &&& may_be_created(notifs, created)
                    &&& style is Some == styled
                    &&& out == #[trigger] table_said(notifs, created, width, style)
                }
        },
        _ => out == reply,
    }
}

/// What `olha list` says of the daemon's answer: a table that is fitted to a width.
pub fn list_text(reply: &str, width: Option<u16>, styled: bool) -> (out: String)
    ensures
        may_list(reply@, width, styled, out@),
{
    match json::parse_json(reply) {
        Some(parsed) => match &parsed {
            Json::Array(notifs) => {
                assert(parsed.tree()->Array_0 =~= json::trees(notifs@));
                if notifs.len() == 0 {
                    return "No notifications.\n".to_owned();
                }
                let created = created_column(notifs);
                let out = table_text(notifs, &created, width, styled);
                assert(may_be_created(json::trees(notifs@), text::texts(created@)));
                out
            },
            _ => reply.to_owned(),
        },
        None => reply.to_owned(),
    }
}

/// What `olha list` says of the daemon's answer: a table that fits the terminal.
pub fn format_notification_table(json_str: &str) -> (out: String)
    ensures
        exists|width: Option<u16>, styled: bool|
            told_of_width(width) && told_of_styles(styled) && #[trigger] may_list(
                json_str@,
                width,
                styled,
                out@,
            ),
{
    let width = terminal_width();
    let styled = terminal_styles();
    list_text(json_str, width, styled)
}

} // verus!
