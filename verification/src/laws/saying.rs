//! What the command line asks for, and what it says of the answers.

use crate::cli;
use crate::cli::{BulkAction, CountFilter, DndAction};
use crate::daemon::control;
use crate::encryption::EncryptionError;
use crate::json;
use crate::json::JsonTree;
use crate::keys;
use crate::output;
use crate::output::Look;
use crate::pattern;
use crate::queries::NotificationFilter;
use crate::report;
use crate::report::{DaemonState, EncryptionFacts, PassState, StoreState};
use crate::text;
use crate::time;
use vstd::prelude::*;

verus! {

// ---------- texts within texts ----------

/// Whether a text is a part of another.
pub open spec fn stands_in(part: Seq<char>, whole: Seq<char>) -> bool {
    exists|before: Seq<char>, after: Seq<char>| whole == #[trigger] (before + part + after)
}

proof fn itself(part: Seq<char>)
    ensures
        stands_in(part, part),
{
    assert(part =~= Seq::<char>::empty() + part + Seq::<char>::empty());
}

proof fn within(part: Seq<char>, before: Seq<char>, after: Seq<char>)
    ensures
        stands_in(part, before + part + after),
        stands_in(part, before + part),
        stands_in(part, part + after),
{
    assert(before + part =~= before + part + Seq::<char>::empty());
    assert(part + after =~= Seq::<char>::empty() + part + after);
}

proof fn still_within(part: Seq<char>, inner: Seq<char>, before: Seq<char>, after: Seq<char>)
    requires
        stands_in(part, inner),
    ensures
        stands_in(part, before + inner + after),
        stands_in(part, before + inner),
        stands_in(part, inner + after),
{
    let (b, a) = choose|b: Seq<char>, a: Seq<char>| inner == #[trigger] (b + part + a);
    assert(before + inner + after =~= (before + b) + part + (a + after));
    assert(before + inner =~= (before + b) + part + a);
    assert(inner + after =~= b + part + (a + after));
}

// ---------- requests ----------

/// The filter that the daemon reads from a request of `olha count` holds what was asked for.
pub proof fn a_count_is_filtered_as_asked(f: CountFilter, request: JsonTree, read: NotificationFilter)
    requires
        cli::asks_for(
            request,
            f.app,
            f.urgency,
            f.status,
            f.category,
            f.search,
            f.since,
            f.until,
            None,
        ),
        control::filter_reads(Some(request), read),
    ensures
        pattern::opt_text(read.app_name) == pattern::opt_text(f.app),
        pattern::opt_text(read.category) == pattern::opt_text(f.category),
        pattern::opt_text(read.search) == pattern::opt_text(f.search),
        pattern::opt_text(read.since) == pattern::opt_text(f.since),
        pattern::opt_text(read.until) == pattern::opt_text(f.until),
        f.urgency is None ==> read.urgency is None,
        f.status is None ==> read.status is None,
        read.offset is None,
{
}

/// On and off are what they say whatever was before, toggling is the other, and asking changes
/// nothing.
pub proof fn do_not_disturb_is_set_as_asked(enabled: bool)
    ensures
        cli::dnd_wanted(DndAction::On, enabled) == Some(true),
        cli::dnd_wanted(DndAction::Off, enabled) == Some(false),
        cli::dnd_wanted(DndAction::Toggle, enabled) == Some(!enabled),
        cli::dnd_wanted(DndAction::Status, enabled) is None,
{
}

// ---------- answers ----------

/// What is said of a count names both numbers, the unread before the total.
pub proof fn both_counts_are_said(reply: Seq<char>, unread: int, total: int)
    requires
        json::json_value(reply) is Some,
        json::json_value(reply)->0.get_i64("unread"@) == Some(unread),
        json::json_value(reply)->0.get_i64("total"@) == Some(total),
    ensures
        stands_in(text::signed_decimal(unread) + " unread"@, cli::count_said(reply)),
        stands_in(text::signed_decimal(total) + " total"@, cli::count_said(reply)),
{
    reveal_strlit(" unread, ");
    reveal_strlit(" unread");
    reveal_strlit(", ");
    let said = cli::count_said(reply);
    let u = text::signed_decimal(unread);
    let t = text::signed_decimal(total);
    assert(" unread, "@ =~= " unread"@ + ", "@);
    assert(said =~= "Notifications: "@ + (u + " unread"@) + (", "@ + t + " total"@));
    assert(said =~= ("Notifications: "@ + u + " unread, "@) + (t + " total"@)
        + Seq::<char>::empty());
}

/// What is said of a new notification begins with its urgency and names its application and its
/// summary, and its body where it has one.
pub proof fn an_announcement_names_its_notification(
    payload: Seq<char>,
    urgency: Seq<char>,
    app: Seq<char>,
    summary: Seq<char>,
    body: Seq<char>,
)
    requires
        json::json_value(payload) is Some,
        json::json_value(payload)->0.get_text("urgency"@) == Some(urgency),
        json::json_value(payload)->0.get_text("app_name"@) == Some(app),
        json::json_value(payload)->0.get_text("summary"@) == Some(summary),
        json::json_value(payload)->0.get_text("body"@) == Some(body),
    ensures
        stands_in("["@ + urgency + "] ["@ + app + "] "@ + summary, cli::announced(payload)),
        body.len() > 0 ==> stands_in(summary + " — "@ + body, cli::announced(payload)),
        body.len() == 0 ==> cli::announced(payload) == "["@ + urgency + "] ["@ + app + "] "@
            + summary,
{
    let head = "["@ + urgency + "] ["@ + app + "] "@ + summary;
    let said = cli::announced(payload);
    if body.len() == 0 {
        assert(said == head);
        itself(head);
    } else {
        assert(said == head + " — "@ + body);
        assert(said =~= head + (" — "@ + body));
        within(head, Seq::empty(), " — "@ + body);
        let before = "["@ + urgency + "] ["@ + app + "] "@;
        assert(said =~= before + (summary + " — "@ + body));
        within(summary + " — "@ + body, before, Seq::empty());
    }
}

/// What is said of the daemon's report has a line for each fact that the report has.
pub proof fn a_status_says_each_fact(
    reply: Seq<char>,
    status: Seq<char>,
    unread: int,
    total: int,
    path: Seq<char>,
    count: int,
)
    requires
        json::json_value(reply) is Some,
    ensures
        ({
            let report = json::json_value(reply)->0;
            let said = cli::status_said(reply);
            &&& report.get_text("status"@) == Some(status) ==> stands_in(
                "  Status: "@ + status + "\n"@,
                said,
            )
            &&& report.get_i64("unread"@) == Some(unread) ==> stands_in(
                "  Unread: "@ + text::signed_decimal(unread) + "\n"@,
                said,
            )
            &&& report.get_i64("total"@) == Some(total) ==> stands_in(
                "  Total: "@ + text::signed_decimal(total) + "\n"@,
                said,
            )
            &&& report.get_text("db_path"@) == Some(path) ==> stands_in(
                "  DB Path: "@ + path + "\n"@,
                said,
            )
            &&& report.get_i64("rules_count"@) == Some(count) ==> stands_in(
                "  Rules: "@ + text::signed_decimal(count) + "\n"@,
                said,
            )
            &&& report.get("dnd"@) matches Some(dnd) ==> dnd.get_bool("enabled"@) matches Some(on)
                ==> stands_in(
                "  DND: "@ + (if on {
                    "on"@
                } else {
                    "off"@
                }) + "\n"@,
                said,
            )
        }),
{
    let report = json::json_value(reply)->0;
    let l0 = "olhad status:\n"@;
    let l1 = cli::text_line("  Status: "@, report.get_text("status"@));
    let l2 = cli::text_line("  Version: "@, report.get_text("version"@));
    let l3 = cli::number_line("  Unread: "@, report.get_i64("unread"@));
    let l4 = cli::number_line("  Total: "@, report.get_i64("total"@));
    let l5 = cli::text_line("  DB Path: "@, report.get_text("db_path"@));
    let l6 = cli::number_line("  Rules: "@, report.get_i64("rules_count"@));
    let l7 = cli::text_line(
        "  DND: "@,
        match cli::dnd_reported(report) {
            Some(on) => Some(cli::on_off(on)),
            None => None,
        },
    );
    let said = cli::status_said(reply);
    assert(said == l0 + l1 + l2 + l3 + l4 + l5 + l6 + l7);
    parts_stand_in(seq![l0, l1, l2, l3, l4, l5, l6, l7], said);
    let parts = seq![l0, l1, l2, l3, l4, l5, l6, l7];
    eight_parts(l0, l1, l2, l3, l4, l5, l6, l7);
    assert(stands_in(parts[1], said));
    assert(stands_in(parts[3], said));
    assert(stands_in(parts[4], said));
    assert(stands_in(parts[5], said));
    assert(stands_in(parts[6], said));
    assert(stands_in(parts[7], said));
}

proof fn flat_push(list: Seq<Seq<char>>, e: Seq<char>)
    ensures
        list.push(e).flatten() == list.flatten() + e,
{
    list.push(e).lemma_flatten_and_flatten_alt_are_equivalent();
    list.lemma_flatten_and_flatten_alt_are_equivalent();
    assert(list.push(e).drop_last() =~= list);
}

proof fn eight_parts(
    a: Seq<char>,
    b: Seq<char>,
    c: Seq<char>,
    d: Seq<char>,
    e: Seq<char>,
    f: Seq<char>,
    g: Seq<char>,
    h: Seq<char>,
)
    ensures
        seq![a, b, c, d, e, f, g, h].flatten() == a + b + c + d + e + f + g + h,
{
    let none = Seq::<Seq<char>>::empty();
    assert(none.flatten() =~= Seq::<char>::empty());
    flat_push(none, a);
    flat_push(seq![a], b);
    flat_push(seq![a, b], c);
    flat_push(seq![a, b, c], d);
    flat_push(seq![a, b, c, d], e);
    flat_push(seq![a, b, c, d, e], f);
    flat_push(seq![a, b, c, d, e, f], g);
    flat_push(seq![a, b, c, d, e, f, g], h);
    assert(none.push(a) =~= seq![a]);
    assert(seq![a].push(b) =~= seq![a, b]);
    assert(seq![a, b].push(c) =~= seq![a, b, c]);
    assert(seq![a, b, c].push(d) =~= seq![a, b, c, d]);
    assert(seq![a, b, c, d].push(e) =~= seq![a, b, c, d, e]);
    assert(seq![a, b, c, d, e].push(f) =~= seq![a, b, c, d, e, f]);
    assert(seq![a, b, c, d, e, f].push(g) =~= seq![a, b, c, d, e, f, g]);
    assert(seq![a, b, c, d, e, f, g].push(h) =~= seq![a, b, c, d, e, f, g, h]);
    assert(Seq::<char>::empty() + a =~= a);
}

proof fn parts_stand_in(parts: Seq<Seq<char>>, whole: Seq<char>)
    ensures
        whole == parts.flatten() ==> forall|i: int|
            0 <= i < parts.len() ==> stands_in(#[trigger] parts[i], whole),
    decreases parts.len(),
{
    if whole == parts.flatten() && parts.len() > 0 {
        let p = parts.drop_last();
        let last = parts.last();
        parts_stand_in(p, p.flatten());
        flat_push(p, last);
        assert(parts =~= p.push(last));
        assert forall|i: int| 0 <= i < parts.len() implies stands_in(
            #[trigger] parts[i],
            whole,
        ) by {
            if i < p.len() {
                assert(p[i] == parts[i]);
                still_within(parts[i], p.flatten(), Seq::empty(), last);
            } else {
                within(last, p.flatten(), Seq::empty());
            }
        }
    }
}

// ---------- details ----------

/// A line with a label in its first column and a value in its second.
pub open spec fn two_columns(label: Seq<char>, value: Seq<char>) -> Seq<char> {
    Seq::new(
        11,
        |i: int|
            if i < label.len() {
                label[i]
            } else if i == label.len() {
                ':'
            } else {
                ' '
            },
    ) + value + seq!['\n']
}

proof fn fields_are_two_columns(label: Seq<char>, value: Seq<char>)
    requires
        label.len() < 10,
    ensures
        output::field_said(label, value, false) == two_columns(label, value),
{
    reveal_strlit(" ");
    reveal_strlit("\n");
    assert(output::field_said(label, value, false) =~= two_columns(label, value));
}

/// The content of a notification is told line by line: each of its texts beside its own label.
pub proof fn details_tell_the_content(
    n: JsonTree,
    id: int,
    app: Seq<char>,
    summary: Seq<char>,
    body: Seq<char>,
)
    ensures
        ({
            let said = output::detail_said(n, false);
            &&& n.get_i64("row_id"@) == Some(id) ==> stands_in(
                two_columns("ID"@, text::signed_decimal(id)),
                said,
            )
            &&& n.get_text("app_name"@) == Some(app) && app.len() > 0 ==> stands_in(
                two_columns("App"@, app),
                said,
            )
            &&& n.get_text("summary"@) == Some(summary) ==> stands_in(
                two_columns("Summary"@, summary),
                said,
            )
            &&& n.get_text("body"@) == Some(body) && body.len() > 0 ==> stands_in(
                two_columns("Body"@, body),
                said,
            )
        }),
{
    reveal_strlit("ID");
    reveal_strlit("App");
    reveal_strlit("Summary");
    reveal_strlit("Body");
    let empty = Seq::<char>::empty();
    let l1 = output::some_field("ID"@, output::number_said(n.get_i64("row_id"@)), false);
    let l2 = output::some_field("App"@, output::nonempty(n.get_text("app_name"@)), false);
    let l3 = output::some_field("Summary"@, n.get_text("summary"@), false);
    let l4 = output::some_field("Body"@, output::nonempty(n.get_text("body"@)), false);
    let part = output::content_said(n, false);
    assert(part == l1 + l2 + l3 + l4);
    let parts = seq![l1, l2, l3, l4, empty, empty, empty, empty];
    eight_parts(l1, l2, l3, l4, empty, empty, empty, empty);
    assert(part =~= l1 + l2 + l3 + l4 + empty + empty + empty + empty);
    parts_stand_in(parts, part);
    let rest = output::nature_said(n, false) + output::actions_said(
        n.get_array("actions"@),
        false,
    ) + output::history_said(n, false);
    assert(output::detail_said(n, false) =~= part + rest);
    assert(stands_in(parts[0], part) && stands_in(parts[1], part));
    assert(stands_in(parts[2], part) && stands_in(parts[3], part));
    still_within(l1, part, empty, rest);
    still_within(l2, part, empty, rest);
    still_within(l3, part, empty, rest);
    still_within(l4, part, empty, rest);
    fields_are_two_columns("ID"@, text::signed_decimal(id));
    fields_are_two_columns("App"@, app);
    fields_are_two_columns("Summary"@, summary);
    fields_are_two_columns("Body"@, body);
}

/// Kind, state and origin of a notification are told beside their labels.
pub proof fn details_tell_the_nature(
    n: JsonTree,
    urgency: Seq<char>,
    status: Seq<char>,
    category: Seq<char>,
    entry: Seq<char>,
)
    ensures
        ({
            let said = output::detail_said(n, false);
            &&& n.get_text("urgency"@) == Some(urgency) ==> stands_in(
                two_columns("Urgency"@, urgency),
                said,
            )
            &&& n.get_text("status"@) == Some(status) ==> stands_in(
                two_columns("Status"@, status),
                said,
            )
            &&& n.get_text("category"@) == Some(category) && category.len() > 0 ==> stands_in(
                two_columns("Category"@, category),
                said,
            )
            &&& n.get_text("desktop_entry"@) == Some(entry) && entry.len() > 0 ==> stands_in(
                two_columns("Desktop"@, entry),
                said,
            )
        }),
{
    reveal_strlit("Urgency");
    reveal_strlit("Status");
    reveal_strlit("Category");
    reveal_strlit("Desktop");
    let empty = Seq::<char>::empty();
    let l1 = output::some_field(
        "Urgency"@,
        match n.get_text("urgency"@) {
            Some(u) => Some(output::painted(u, output::urgency_look(u), false)),
            None => None,
        },
        false,
    );
    let l2 = output::some_field(
        "Status"@,
        match n.get_text("status"@) {
            Some(s) => Some(output::painted(s, output::status_look(s), false)),
            None => None,
        },
        false,
    );
    let l3 = output::some_field("Category"@, output::nonempty(n.get_text("category"@)), false);
    let l4 = output::some_field("Desktop"@, output::nonempty(n.get_text("desktop_entry"@)), false);
    let part = output::nature_said(n, false);
    assert(part == l1 + l2 + l3 + l4);
    let parts = seq![l1, l2, l3, l4, empty, empty, empty, empty];
    eight_parts(l1, l2, l3, l4, empty, empty, empty, empty);
    assert(part =~= l1 + l2 + l3 + l4 + empty + empty + empty + empty);
    parts_stand_in(parts, part);
    let before = output::content_said(n, false);
    let rest = output::actions_said(n.get_array("actions"@), false) + output::history_said(
        n,
        false,
    );
    assert(output::detail_said(n, false) =~= before + part + rest);
    assert(stands_in(parts[0], part) && stands_in(parts[1], part));
    assert(stands_in(parts[2], part) && stands_in(parts[3], part));
    still_within(l1, part, before, rest);
    still_within(l2, part, before, rest);
    still_within(l3, part, before, rest);
    still_within(l4, part, before, rest);
    fields_are_two_columns("Urgency"@, urgency);
    fields_are_two_columns("Status"@, status);
    fields_are_two_columns("Category"@, category);
    fields_are_two_columns("Desktop"@, entry);
}

/// What happened to a notification, and when, is told beside its label.
pub proof fn details_tell_the_history(
    n: JsonTree,
    created: Seq<char>,
    updated: Seq<char>,
    number: int,
    reason: Seq<char>,
)
    ensures
        ({
            let said = output::detail_said(n, false);
            &&& n.get_text("created_at"@) == Some(created) ==> stands_in(
                two_columns("Created"@, created),
                said,
            )
            &&& n.get_text("updated_at"@) == Some(updated) ==> stands_in(
                two_columns("Updated"@, updated),
                said,
            )
            &&& n.get_u64("dbus_id"@) == Some(number) ==> stands_in(
                two_columns("D-Bus ID"@, text::signed_decimal(number)),
                said,
            )
            &&& n.get_text("closed_reason"@) == Some(reason) ==> stands_in(
                two_columns("Closed"@, reason),
                said,
            )
        }),
{
    reveal_strlit("Created");
    reveal_strlit("Updated");
    reveal_strlit("D-Bus ID");
    reveal_strlit("Closed");
    let empty = Seq::<char>::empty();
    let l1 = output::some_field("Created"@, n.get_text("created_at"@), false);
    let l2 = output::some_field("Updated"@, n.get_text("updated_at"@), false);
    let l3 = output::some_field("D-Bus ID"@, output::number_said(n.get_u64("dbus_id"@)), false);
    let l4 = output::some_field("Closed"@, n.get_text("closed_reason"@), false);
    let part = output::history_said(n, false);
    assert(part == l1 + l2 + l3 + l4);
    let parts = seq![l1, l2, l3, l4, empty, empty, empty, empty];
    eight_parts(l1, l2, l3, l4, empty, empty, empty, empty);
    assert(part =~= l1 + l2 + l3 + l4 + empty + empty + empty + empty);
    parts_stand_in(parts, part);
    let before = output::content_said(n, false) + output::nature_said(n, false)
        + output::actions_said(n.get_array("actions"@), false);
    assert(output::detail_said(n, false) =~= before + part);
    assert(stands_in(parts[0], part) && stands_in(parts[1], part));
    assert(stands_in(parts[2], part) && stands_in(parts[3], part));
    still_within(l1, part, before, empty);
    still_within(l2, part, before, empty);
    still_within(l3, part, before, empty);
    still_within(l4, part, before, empty);
    fields_are_two_columns("Created"@, created);
    fields_are_two_columns("Updated"@, updated);
    fields_are_two_columns("D-Bus ID"@, text::signed_decimal(number));
    fields_are_two_columns("Closed"@, reason);
}

/// Each button is told with its id and its label.
pub proof fn details_tell_each_action(actions: Seq<JsonTree>, i: int, id: Seq<char>, label: Seq<char>)
    requires
        0 <= i < actions.len(),
        actions[i].get_text("id"@) == Some(id),
        actions[i].get_text("label"@) == Some(label),
    ensures
        stands_in("  • "@ + id + " — "@ + label + "\n"@, output::action_lines(actions)),
    decreases actions.len(),
{
    let rest = actions.drop_last();
    let line = "  • "@ + id + " — "@ + label + "\n"@;
    let last = output::action_line(actions.last());
    if i < rest.len() {
        details_tell_each_action(rest, i, id, label);
        still_within(line, output::action_lines(rest), Seq::empty(), last);
    } else {
        within(line, output::action_lines(rest), Seq::empty());
    }
}

/// Color changes no word: without it a text is as it is, and with it the text still stands there.
pub proof fn color_changes_no_word(t: Seq<char>, look: Look)
    ensures
        output::painted(t, look, false) == t,
        stands_in(t, output::painted(t, look, true)),
{
    let empty = Seq::<char>::empty();
    itself(t);
    within(t, "\x1b[1m"@, "\x1b[0m"@);
    within(t, "\x1b[2m"@, "\x1b[0m"@);
    within(t, "\x1b[33m"@, "\x1b[39m"@);
    within(t, "\x1b[31m"@, "\x1b[39m"@);
    still_within(t, "\x1b[33m"@ + t + "\x1b[39m"@, "\x1b[1m"@, "\x1b[0m"@);
    still_within(t, "\x1b[31m"@ + t + "\x1b[39m"@, "\x1b[1m"@, "\x1b[0m"@);
}

/// What is unread and what is critical stand out, each in a way of its own; what is done or low
/// stands back.
pub proof fn what_matters_stands_out()
    ensures
        output::status_look("unread"@) == Look::YellowBold,
        output::status_look("read"@) == Look::Dim,
        output::status_look("cleared"@) == Look::Dim,
        output::urgency_look("critical"@) == Look::RedBold,
        output::urgency_look("low"@) == Look::Dim,
        output::urgency_look("normal"@) == Look::Plain,
{
    reveal_strlit("unread");
    reveal_strlit("read");
    reveal_strlit("cleared");
    reveal_strlit("critical");
    reveal_strlit("low");
    reveal_strlit("normal");
    assert("unread"@.len() == 6 && "read"@.len() == 4 && "cleared"@.len() == 7);
    assert("critical"@.len() == 8 && "low"@.len() == 3 && "normal"@.len() == 6);
}

/// A text that is too long is cut to the length, with an ellipsis behind its beginning.
pub proof fn a_long_text_is_cut(s: Seq<char>, max: nat)
    requires
        1 <= max < s.len(),
    ensures
        output::truncated(s, max).len() == max,
        output::truncated(s, max).last() == '…',
        output::truncated(s, max).drop_last() == s.take(max - 1),
{
    assert(output::truncated(s, max).drop_last() =~= s.take(max - 1));
}

// ---------- times ----------

/// A time of today is told by the clock alone; one of the last seven days by the day of the week
/// and the clock; an older one by its date, with the year where it is another.
pub proof fn a_time_is_told_by_its_age(
    iso: Seq<char>,
    at: (int, int),
    wall: i64,
    now: (int, int),
    now_wall: i64,
)
    ensures
        ({
            let said = output::stamp(iso, at, Some(wall), now, Some(now_wall));
            let today = wall as int / 86_400 == now_wall as int / 86_400;
            let days = time::days_between(at.0, at.1, now.0, now.1);
            let week = days == 0 || days == 1 || days == 2 || days == 3 || days == 4 || days == 5
                || days == 6;
            let year = time::calendar_year(wall as int) == time::calendar_year(now_wall as int);
            &&& today ==> said == time::clock(wall as int)
            &&& !today && week ==> said == time::weekday(wall as int) + " "@ + time::clock(
                wall as int,
            )
            &&& !today && !week && year ==> said == time::strftime_text(
                wall as int,
                "%b %d %H:%M"@,
            )
            &&& !today && !week && !year ==> said == time::strftime_text(
                wall as int,
                "%Y-%m-%d %H:%M"@,
            )
        }),
        output::stamp(iso, at, None, now, Some(now_wall)) == iso,
        output::stamp(iso, at, Some(wall), now, None) == iso,
{
}

// ---------- the table ----------

/// A row of the table tells number, application, summary, status, urgency and time of its
/// notification, in the columns that the header names so.
pub proof fn a_row_tells_its_notification(n: JsonTree, created: Seq<char>)
    ensures
        output::header_said().len() == output::row_said(n, created).len(),
        output::header_said()[0].0 == "ID"@,
        n.get_i64("row_id"@) matches Some(id) ==> output::row_said(n, created)[0].0
            == text::signed_decimal(id),
        output::header_said()[1].0 == "App"@,
        n.get_text("app_name"@) matches Some(t) ==> output::row_said(n, created)[1].0 == t,
        output::header_said()[2].0 == "Summary"@,
        n.get_text("summary"@) matches Some(t) ==> output::row_said(n, created)[2].0 == t,
        output::header_said()[3].0 == "Status"@,
        n.get_text("status"@) matches Some(t) ==> output::row_said(n, created)[3].0 == t,
        output::header_said()[4].0 == "Urgency"@,
        n.get_text("urgency"@) matches Some(t) ==> output::row_said(n, created)[4].0 == t,
        output::header_said()[5].0 == "Created"@,
        output::row_said(n, created)[5].0 == created,
{
}

/// The table has a row for each notification, in order.
pub proof fn a_table_has_every_notification(notifs: Seq<JsonTree>, created: Seq<Seq<char>>, i: int)
    requires
        0 <= i < notifs.len(),
        notifs.len() == created.len(),
    ensures
        output::rows_said(notifs, created).len() == notifs.len(),
        output::rows_said(notifs, created)[i] == output::row_said(notifs[i], created[i]),
{
}

// ---------- changes ----------

/// What is said of a change names how many notifications it was for, or that it was for all.
pub proof fn a_change_is_said_with_its_number(action: BulkAction, n: nat)
    ensures
        stands_in(text::decimal(n), cli::bulk_said(action, n, false)),
        cli::bulk_said(action, n, true) == cli::bulk_said(action, 0, true),
{
    within(text::decimal(n), "Marked "@, " notification(s) as read"@);
    within(text::decimal(n), "Cleared "@, " notification(s)"@);
    within(text::decimal(n), "Deleted "@, " notification(s)"@);
}

// ---------- the report on encryption ----------

/// The report on encryption has a line for each fact.
pub proof fn a_report_says_each_fact(facts: EncryptionFacts)
    ensures
        ({
            let said = report::encryption_said(facts);
            &&& stands_in("config file         : "@ + facts.config_path@ + "\n"@, said)
            &&& stands_in(
                "encryption.enabled  : "@ + (if facts.enabled {
                    "true"@
                } else {
                    "false"@
                }) + "\n"@,
                said,
            )
            &&& stands_in("pass_entry          : "@ + facts.entry@ + "\n"@, said)
            &&& facts.pass matches PassState::Usable(kid) ==> stands_in(kid@, said)
            &&& facts.pass matches PassState::Unavailable(e) ==> stands_in(e@, said)
            &&& stands_in("db                  : "@ + facts.db_path@, said)
            &&& facts.store matches StoreState::Readable { key_id, plain, encrypted } ==> {
                &&& stands_in(
                    "rows (plaintext)    : "@ + text::signed_decimal(plain as int) + "\n"@,
                    said,
                )
                &&& stands_in(
                    "rows (encrypted)    : "@ + text::signed_decimal(encrypted as int) + "\n"@,
                    said,
                )
                &&& key_id matches Some(kid) ==> stands_in(kid@, said)
            }
            &&& facts.daemon matches DaemonState::Unknown(e) ==> stands_in(e@, said)
        }),
{
    reveal_strlit("\nencryption.enabled  : ");
    reveal_strlit("encryption.enabled  : ");
    reveal_strlit("\npass_entry          : ");
    reveal_strlit("pass_entry          : ");
    reveal_strlit("\nrows (encrypted)    : ");
    reveal_strlit("rows (encrypted)    : ");
    reveal_strlit("\n");
    let nl = "\n"@;
    let empty = Seq::<char>::empty();
    assert("\nencryption.enabled  : "@ =~= nl + "encryption.enabled  : "@);
    assert("\npass_entry          : "@ =~= nl + "pass_entry          : "@);
    assert("\nrows (encrypted)    : "@ =~= nl + "rows (encrypted)    : "@);
    let flag = if facts.enabled {
        "true"@
    } else {
        "false"@
    };
    let l1 = "config file         : "@ + facts.config_path@ + nl;
    let l2 = "encryption.enabled  : "@ + flag + nl;
    let l3 = "pass_entry          : "@ + facts.entry@ + nl;
    let l4 = report::pass_line(facts.pass);
    let l5 = report::store_lines(facts.db_path@, facts.store);
    let l6 = report::daemon_line(facts.daemon);
    let said = report::encryption_said(facts);
    assert(said =~= l1 + l2 + l3 + l4 + l5 + l6 + empty + empty);
    eight_parts(l1, l2, l3, l4, l5, l6, empty, empty);
    let parts = seq![l1, l2, l3, l4, l5, l6, empty, empty];
    parts_stand_in(parts, said);
    assert(stands_in(parts[0], said) && stands_in(parts[1], said) && stands_in(parts[2], said));
    assert(stands_in(parts[3], said) && stands_in(parts[4], said) && stands_in(parts[5], said));
    if let PassState::Usable(kid) = facts.pass {
        within(kid@, "pass entry          : OK (dek_kid = "@, ")\n"@);
        part_of_part(kid@, l4, said);
    }
    if let PassState::Unavailable(e) = facts.pass {
        within(e@, "pass entry          : NOT AVAILABLE ("@, ")\n"@);
        part_of_part(e@, l4, said);
    }
    if let DaemonState::Unknown(e) = facts.daemon {
        within(e@, "daemon              : probe failed ("@, ")\n"@);
        part_of_part(e@, l6, said);
    }
    store_lines_say_each_fact(facts.db_path@, facts.store);
    part_of_part("db                  : "@ + facts.db_path@, l5, said);
    if let StoreState::Readable { key_id, plain, encrypted } = facts.store {
        part_of_part("rows (plaintext)    : "@ + text::signed_decimal(plain as int) + nl, l5, said);
        part_of_part(
            "rows (encrypted)    : "@ + text::signed_decimal(encrypted as int) + nl,
            l5,
            said,
        );
        if let Some(kid) = key_id {
            part_of_part(kid@, l5, said);
        }
    }
}

proof fn part_of_part(part: Seq<char>, inner: Seq<char>, whole: Seq<char>)
    requires
        stands_in(part, inner),
        stands_in(inner, whole),
    ensures
        stands_in(part, whole),
{
    let (b, a) = choose|b: Seq<char>, a: Seq<char>| whole == #[trigger] (b + inner + a);
    still_within(part, inner, b, a);
}

proof fn store_lines_say_each_fact(db_path: Seq<char>, store: StoreState)
    ensures
        ({
            let said = report::store_lines(db_path, store);
            &&& stands_in("db                  : "@ + db_path, said)
            &&& store matches StoreState::Readable { key_id, plain, encrypted } ==> {
                &&& stands_in(
                    "rows (plaintext)    : "@ + text::signed_decimal(plain as int) + "\n"@,
                    said,
                )
                &&& stands_in(
                    "rows (encrypted)    : "@ + text::signed_decimal(encrypted as int) + "\n"@,
                    said,
                )
                &&& key_id matches Some(kid) ==> stands_in(kid@, said)
            }
        }),
{
    reveal_strlit("\nrows (encrypted)    : ");
    reveal_strlit("rows (encrypted)    : ");
    reveal_strlit("\n");
    let nl = "\n"@;
    assert("\nrows (encrypted)    : "@ =~= nl + "rows (encrypted)    : "@);
    let said = report::store_lines(db_path, store);
    let head = "db                  : "@ + db_path;
    match store {
        StoreState::Readable { key_id, plain, encrypted } => {
            let pair = report::keypair_line(key_id);
            let p = "rows (plaintext)    : "@ + text::signed_decimal(plain as int) + nl;
            let e = "rows (encrypted)    : "@ + text::signed_decimal(encrypted as int) + nl;
            assert(said =~= head + (nl + pair + p + e));
            within(head, Seq::empty(), nl + pair + p + e);
            assert(said =~= (head + nl + pair) + p + e);
            within(p, head + nl + pair, e);
            assert(said =~= (head + nl + pair + p) + e);
            within(e, head + nl + pair + p, Seq::empty());
            if let Some(kid) = key_id {
                within(kid@, "keypair             : present (key_id = "@, ")\n"@);
                assert(said =~= (head + nl) + pair + (p + e));
                still_within(kid@, pair, head + nl, p + e);
            }
        },
        StoreState::Unreadable(e) => {
            assert(said =~= head + (" (unreadable: "@ + e@ + ")\n"@));
            within(head, Seq::empty(), " (unreadable: "@ + e@ + ")\n"@);
        },
    }
}

// ---------- other answers ----------

/// An answer that is no JSON is said as it is, a notification that is not there is said not to be,
/// and an empty list is said to be empty.
pub proof fn odd_answers_are_said(
    reply: Seq<char>,
    color: bool,
    width: Option<u16>,
    styled: bool,
    out: Seq<char>,
)
    ensures
        json::json_value(reply) is None ==> output::shown(reply, color) == reply,
        json::json_value(reply) == Some(JsonTree::Null) ==> output::shown(reply, color)
            == "Notification not found.\n"@,
        json::json_value(reply) is None ==> cli::count_said(reply) == reply,
        json::json_value(reply) is None ==> cli::announced(reply) == reply,
        json::json_value(reply) == Some(JsonTree::Array(Seq::empty())) && output::may_list(
            reply,
            width,
            styled,
            out,
        ) ==> out == "No notifications.\n"@,
        json::json_value(reply) is None && output::may_list(reply, width, styled, out) ==> out
            == reply,
{
}

/// What stands under a table is the number of its notifications.
pub proof fn a_table_ends_with_its_number(
    notifs: Seq<JsonTree>,
    created: Seq<Seq<char>>,
    width: Option<u16>,
    style: Option<bool>,
)
    ensures
        stands_in(
            text::decimal(notifs.len()) + " notification(s)\n"@,
            output::table_said(notifs, created, width, style),
        ),
{
    let table = output::drawn_table(
        output::header_said(),
        output::rows_said(notifs, created),
        width,
        style,
    );
    let line = text::decimal(notifs.len()) + " notification(s)\n"@;
    assert(output::count_line(notifs.len()) =~= "\n"@ + line);
    within(line, "\n"@, Seq::empty());
    still_within(line, output::count_line(notifs.len()), table, Seq::empty());
}

/// What completes commands holds the line that the shell runs for it, in the file and in the advice.
pub proof fn completions_hold_their_line(shell: cli::CompletionShell)
    ensures
        stands_in(cli::activation(shell) + "\n"@, cli::completion_script(shell)),
        stands_in("    "@ + cli::activation(shell) + "\n"@, cli::completion_advice(shell)),
{
    let line = cli::activation(shell) + "\n"@;
    let indented = "    "@ + cli::activation(shell) + "\n"@;
    let script = cli::completion_script(shell);
    let tail = "\nThen restart your shell or source the config file.\n"@;
    match shell {
        cli::CompletionShell::Fish => {
            itself(line);
        },
        cli::CompletionShell::Zsh => {
            let head = "#compdef olha ola\n# olha completion\n"@;
            let rest = cli::ZSH_STYLE@ + "\n"@ + cli::ZSH_ALIAS@ + "\n"@;
            assert(script =~= head + line + rest);
            within(line, head, rest);
        },
        _ => {
            assert(script =~= "# olha completion\n"@ + line);
            within(line, "# olha completion\n"@, Seq::empty());
        },
    }
    let advice = cli::completion_advice(shell);
    match shell {
        cli::CompletionShell::Zsh => {
            let head = "Add the following lines to ~/.zshrc AFTER compinit:\n\n"@;
            let style = "    "@ + cli::ZSH_STYLE@ + "\n"@;
            let rest = style
                + "\nFor example:\n\n    autoload -U compinit\n    compinit\n"@ + indented + style
                + tail;
            assert(advice =~= head + indented + rest);
            within(indented, head, rest);
        },
        cli::CompletionShell::Bash => {
            within(
                indented,
                "Add the following line to ~/.bashrc AFTER any bash-completion setup:\n\n"@,
                tail,
            );
        },
        cli::CompletionShell::Fish => {
            within(
                indented,
                "Add the following line to ~/.config/fish/config.fish:\n\n"@,
                tail,
            );
        },
        cli::CompletionShell::PowerShell => {
            within(indented, "Add the following line to your PowerShell profile:\n\n"@, tail);
        },
        cli::CompletionShell::Elvish => {
            within(indented, "Add the following line to ~/.elvish/rc.elv:\n\n"@, tail);
        },
    }
}

/// What is said once keys were made names them, the entry of the password store and the store.
pub proof fn made_keys_are_said(key_id: Seq<char>, entry: Seq<char>, db_path: Seq<char>)
    ensures
        stands_in("(key_id="@ + key_id + ")"@, report::initialized(key_id, entry, db_path)),
        stands_in("'"@ + entry + "'"@, report::initialized(key_id, entry, db_path)),
        stands_in(db_path, report::initialized(key_id, entry, db_path)),
{
    reveal_strlit("Initialized encryption (key_id=");
    reveal_strlit("Initialized encryption ");
    reveal_strlit("(key_id=");
    reveal_strlit(").\n");
    reveal_strlit(")");
    reveal_strlit(".\n");
    reveal_strlit("Wrote pass entry '");
    reveal_strlit("Wrote pass entry ");
    reveal_strlit("'");
    reveal_strlit("' and meta keys to ");
    reveal_strlit(" and meta keys to ");
    let said = report::initialized(key_id, entry, db_path);
    let t1 = ".\n\nNext steps:\n"@ + "  1. Back up ~/.password-store/"@ + entry
        + ".gpg alongside your DB.\n"@
        + "  2. Run `olha encryption enable` to flip the config flag.\n"@
        + "  3. Start olhad, then `olha unlock` to read history.\n"@;
    assert("Initialized encryption (key_id="@ =~= "Initialized encryption "@ + "(key_id="@);
    assert(").\n"@ =~= ")"@ + ".\n"@);
    assert("Wrote pass entry '"@ =~= "Wrote pass entry "@ + "'"@);
    assert("' and meta keys to "@ =~= "'"@ + " and meta keys to "@);
    let a = "(key_id="@ + key_id + ")"@;
    let b = "'"@ + entry + "'"@;
    let rest_a = ".\n"@ + "Wrote pass entry "@ + b + " and meta keys to "@ + db_path + t1;
    assert(said =~= "Initialized encryption "@ + a + rest_a);
    within(a, "Initialized encryption "@, rest_a);
    let head_b = "Initialized encryption "@ + a + ".\n"@ + "Wrote pass entry "@;
    assert(said =~= head_b + b + (" and meta keys to "@ + db_path + t1));
    within(b, head_b, " and meta keys to "@ + db_path + t1);
    let head_c = head_b + b + " and meta keys to "@;
    assert(said =~= head_c + db_path + t1);
    within(db_path, head_c, t1);
}

/// What is said once the secret key was wrapped anew names the fingerprint, and both entries where
/// they differ.
pub proof fn a_rewrapped_key_is_said(old_entry: Seq<char>, new_entry: Seq<char>, kid: Seq<char>)
    ensures
        stands_in(kid, report::rewrapped(old_entry, new_entry, kid)),
        old_entry != new_entry ==> stands_in(
            old_entry + " -> "@ + new_entry,
            report::rewrapped(old_entry, new_entry, kid),
        ),
{
    let said = report::rewrapped(old_entry, new_entry, kid);
    let moved = old_entry + " -> "@ + new_entry;
    let first = if old_entry == new_entry {
        Seq::<char>::empty()
    } else {
        "Pass entry updated in config: "@ + moved + "\n"@
    };
    let head = "Re-wrapped secret under new DEK (dek_kid="@;
    assert(said =~= (first + head) + kid + ").\n"@);
    within(kid, first + head, ").\n"@);
    if old_entry != new_entry {
        let rest = "\n"@ + head + kid + ").\n"@;
        assert(said =~= "Pass entry updated in config: "@ + moved + rest);
        within(moved, "Pass entry updated in config: "@, rest);
    }
}

/// A refusal names what was asked for: the number of the notification, and the action.
pub proof fn a_refusal_names_what_was_asked_for(id: u64, key: Seq<char>)
    ensures
        stands_in(text::decimal(id as nat), control::not_found(id)),
        stands_in(text::decimal(id as nat), control::no_action(id, key)),
        stands_in("'"@ + key + "'"@, control::no_action(id, key)),
{
    reveal_strlit(" has no action '");
    reveal_strlit(" has no action ");
    reveal_strlit("'");
    let n = text::decimal(id as nat);
    within(n, "Notification "@, " not found"@);
    let quoted = "'"@ + key + "'"@;
    assert(" has no action '"@ =~= " has no action "@ + "'"@);
    assert(control::no_action(id, key) =~= "Notification "@ + n + (" has no action "@ + quoted));
    within(n, "Notification "@, " has no action "@ + quoted);
    assert(control::no_action(id, key) =~= ("Notification "@ + n + " has no action "@) + quoted);
    within(quoted, "Notification "@ + n + " has no action "@, Seq::empty());
}

// ---------- problems ----------

/// A problem with sealed content is said with what caused it: the exit code, the lengths, the version
/// or the tags.
pub proof fn a_problem_is_said_with_its_cause(e: EncryptionError)
    ensures
        ({
            let said = e.spec_message();
            &&& e matches EncryptionError::PassSpawn(m) ==> stands_in(m@, said)
            &&& e matches EncryptionError::PassExit(code) ==> stands_in(
                text::signed_decimal(code as int),
                said,
            )
            &&& e matches EncryptionError::BlobTooShort { got, min } ==> stands_in(
                text::decimal(got as nat) + " bytes, need at least "@ + text::decimal(min as nat),
                said,
            )
            &&& e matches EncryptionError::BadVersion(v) ==> stands_in(
                "0x"@ + text::hex(seq![v]),
                said,
            )
            &&& e matches EncryptionError::FieldTagMismatch { stored, expected } ==> stands_in(
                "stored 0x"@ + text::hex(seq![stored]) + ", expected 0x"@ + text::hex(
                    seq![expected],
                ),
                said,
            )
        }),
{
    let said = e.spec_message();
    let empty = Seq::<char>::empty();
    match e {
        EncryptionError::PassSpawn(m) => {
            within(m@, "pass subprocess failed: "@, empty);
        },
        EncryptionError::PassExit(code) => {
            within(
                text::signed_decimal(code as int),
                "pass show returned non-zero exit code ("@,
                "); is the entry set up? run `olha encryption init`"@,
            );
        },
        EncryptionError::BlobTooShort { got, min } => {
            let part = text::decimal(got as nat) + " bytes, need at least "@ + text::decimal(
                min as nat,
            );
            assert(said =~= "sealed blob too short ("@ + part + ")"@);
            within(part, "sealed blob too short ("@, ")"@);
        },
        EncryptionError::BadVersion(v) => {
            reveal_strlit("unknown on-disk encryption version byte: 0x");
            reveal_strlit("unknown on-disk encryption version byte: ");
            reveal_strlit("0x");
            let part = "0x"@ + text::hex(seq![v]);
            assert("unknown on-disk encryption version byte: 0x"@
                =~= "unknown on-disk encryption version byte: "@ + "0x"@);
            assert(said =~= "unknown on-disk encryption version byte: "@ + part);
            within(part, "unknown on-disk encryption version byte: "@, empty);
        },
        EncryptionError::FieldTagMismatch { stored, expected } => {
            reveal_strlit("field tag mismatch: stored 0x");
            reveal_strlit("field tag mismatch: ");
            reveal_strlit("stored 0x");
            let part = "stored 0x"@ + text::hex(seq![stored]) + ", expected 0x"@ + text::hex(
                seq![expected],
            );
            assert("field tag mismatch: stored 0x"@ =~= "field tag mismatch: "@ + "stored 0x"@);
            assert(said =~= "field tag mismatch: "@ + part);
            within(part, "field tag mismatch: "@, empty);
        },
        _ => {},
    }
}

/// What is refused while keys are managed is said with the place that it is about.
pub proof fn a_refusal_names_its_place(place: Seq<char>, stored: Option<Seq<char>>, ikm: Seq<u8>)
    ensures
        stands_in(place, keys::material_present(place)),
        stands_in("'"@ + place + "'"@, keys::entry_present(place)),
        stands_in("'"@ + place + "'"@, keys::entry_empty(place)),
        keys::decoded_meta(place, None) matches Err(m) && stands_in(place, m),
        keys::secret_behind(Seq::empty(), place, stored) == Err::<Seq<u8>, Seq<char>>(
            keys::entry_empty(place),
        ),
{
    reveal_strlit("pass entry '");
    reveal_strlit("pass entry ");
    reveal_strlit("'");
    reveal_strlit("' already exists. Pass --force to overwrite.");
    reveal_strlit(" already exists. Pass --force to overwrite.");
    reveal_strlit("' is empty");
    reveal_strlit(" is empty");
    let quoted = "'"@ + place + "'"@;
    within(
        place,
        "encryption material already present in "@,
        ". Pass --force to overwrite (will make existing encrypted rows unreadable)."@,
    );
    assert(keys::entry_present(place) =~= "pass entry "@ + quoted
        + " already exists. Pass --force to overwrite."@);
    within(quoted, "pass entry "@, " already exists. Pass --force to overwrite."@);
    assert(keys::entry_empty(place) =~= "pass entry "@ + quoted + " is empty"@);
    within(quoted, "pass entry "@, " is empty"@);
    within(place, "meta."@, " missing"@);
}

/// Different changes are said differently, and so are different states of the daemon.
pub proof fn what_differs_is_said_differently(a: BulkAction, b: BulkAction, n: nat, all: bool)
    ensures
        cli::bulk_said(a, n, all) == cli::bulk_said(b, n, all) <==> a == b,
        report::daemon_line(DaemonState::Unlocked) != report::daemon_line(DaemonState::Locked),
        report::daemon_line(DaemonState::Unlocked) != report::daemon_line(
            DaemonState::NotRunning,
        ),
        report::daemon_line(DaemonState::Locked) != report::daemon_line(DaemonState::NotRunning),
        cli::on_off(true) != cli::on_off(false),
{
    reveal_strlit("Marked all notifications as read");
    reveal_strlit("Cleared all notifications");
    reveal_strlit("Deleted all notifications");
    reveal_strlit("Marked ");
    reveal_strlit("Cleared ");
    reveal_strlit("Deleted ");
    reveal_strlit("on");
    reveal_strlit("off");
    assert("on"@.len() == 2 && "off"@.len() == 3);
    reveal_strlit("daemon              : running, unlocked\n");
    reveal_strlit("daemon              : running, locked\n");
    reveal_strlit("daemon              : not running\n");
    assert("daemon              : running, unlocked\n"@[22] == 'r');
    assert("daemon              : running, locked\n"@[22] == 'r');
    assert("daemon              : not running\n"@[22] == 'n');
    assert("daemon              : running, unlocked\n"@[31] == 'u');
    assert("daemon              : running, locked\n"@[31] == 'l');
    let first = |x: BulkAction|
        match x {
            BulkAction::MarkRead => 'M',
            BulkAction::Clear => 'C',
            BulkAction::Delete => 'D',
        };
    assert(cli::bulk_said(a, n, all)[0] == first(a));
    assert(cli::bulk_said(b, n, all)[0] == first(b));
}

// ---------- from call to call ----------

/// What is shown of a notification tells its summary and its body beside their labels.
pub proof fn a_shown_notification_tells_its_content(
    reply: &str,
    out: String,
    summary: Seq<char>,
    body: Seq<char>,
)
    requires
        call_ensures(output::show_text, (reply, false), out),
        json::json_value(reply@) is Some,
        json::json_value(reply@)->0.get_text("summary"@) == Some(summary),
        json::json_value(reply@)->0.get_text("body"@) == Some(body),
    ensures
        stands_in(two_columns("Summary"@, summary), out@),
        body.len() > 0 ==> stands_in(two_columns("Body"@, body), out@),
{
    details_tell_the_content(json::json_value(reply@)->0, 0, summary, summary, body);
}

/// A list that is not empty is told with the number of its notifications.
pub proof fn a_list_is_told_with_its_number(
    reply: &str,
    width: Option<u16>,
    styled: bool,
    out: String,
    notifs: Seq<JsonTree>,
)
    requires
        call_ensures(output::list_text, (reply, width, styled), out),
        json::json_value(reply@) == Some(JsonTree::Array(notifs)),
        notifs.len() > 0,
    ensures
        stands_in(text::decimal(notifs.len()) + " notification(s)\n"@, out@),
{
    let (created, style) = choose|created: Seq<Seq<char>>, style: Option<bool>|
        {
            &&& output::may_be_created(notifs, created)
            &&& style is Some == styled
            &&& out@ == #[trigger] output::table_said(notifs, created, width, style)
        };
    a_table_ends_with_its_number(notifs, created, width, style);
}

/// What is no time is told as it is, and a time by what the wall clock shows.
pub proof fn a_time_is_told_by_the_wall_clock(iso: &str, out: String)
    requires
        call_ensures(output::format_timestamp, (iso,), out),
    ensures
        time::relaxed_time(iso@) is None ==> out@ == iso@,
        time::relaxed_time(iso@) matches Some(t) ==> exists|
            wall: Option<i64>,
            now: (int, int),
            now_wall: Option<i64>,
        |
            {
                &&& time::shown_locally(t.0, t.1, wall)
                &&& time::read_from_clock(now.0, now.1)
                &&& time::shown_locally(now.0, now.1, now_wall)
                &&& out@ == #[trigger] output::stamp(iso@, t, wall, now, now_wall)
            },
{
}

/// What is announced while keys are managed names the numbers and the places that it is about.
pub proof fn announcements_name_what_they_are_about(
    n: i64,
    rows: usize,
    place: &str,
    wipe: String,
    downgrade: String,
    rotate: String,
    resealed: String,
    wiped: String,
    downgraded: String,
)
    requires
        call_ensures(keys::wipe_notice, (n, place), wipe),
        call_ensures(report::downgrade_notice, (n, place), downgrade),
        call_ensures(report::rotate_notice, (n,), rotate),
        call_ensures(report::resealed_text, (rows, place), resealed),
        call_ensures(report::wiped_text, (n,), wiped),
        call_ensures(report::downgraded_text, (rows,), downgraded),
    ensures
        stands_in(text::signed_decimal(n as int), wipe@),
        stands_in(place@, wipe@),
        stands_in(text::signed_decimal(n as int), downgrade@),
        stands_in(place@, downgrade@),
        stands_in(text::signed_decimal(n as int), rotate@),
        stands_in(text::decimal(rows as nat), resealed@),
        stands_in(place@, resealed@),
        stands_in(text::signed_decimal(n as int), wiped@),
        stands_in(text::decimal(rows as nat), downgraded@),
{
    let count = text::signed_decimal(n as int);
    let number = text::decimal(rows as nat);
    let w0 = "Enabling encryption will DELETE all "@;
    let w1 = " plaintext notifications currently in "@;
    assert(wipe@ =~= w0 + count + (w1 + place@ + "."@));
    within(count, w0, w1 + place@ + "."@);
    assert(wipe@ =~= (w0 + count + w1) + place@ + "."@);
    within(place@, w0 + count + w1, "."@);
    let d0 = "About to DECRYPT "@;
    let d1 = " row(s) and store them as plaintext in "@;
    assert(downgrade@ =~= d0 + count + (d1 + place@ + "."@));
    within(count, d0, d1 + place@ + "."@);
    assert(downgrade@ =~= (d0 + count + d1) + place@ + "."@);
    within(place@, d0 + count + d1, "."@);
    within(
        count,
        "About to generate a new X25519 keypair and re-seal "@,
        " encrypted row(s). Daemon must be stopped."@,
    );
    let r0 = "Re-sealed "@;
    let r1 = " row(s) under new key_id="@;
    assert(resealed@ =~= r0 + number + (r1 + place@ + "."@));
    within(number, r0, r1 + place@ + "."@);
    assert(resealed@ =~= (r0 + number + r1) + place@ + "."@);
    within(place@, r0 + number + r1, "."@);
    within(count, "Wiped "@, " plaintext rows."@);
    within(number, "Downgraded "@, " row(s) to plaintext."@);
}

/// A rule on pop-ups that is left out is said with its problem.
pub proof fn a_skipped_rule_is_said_with_its_problem(
    rule: crate::popup::config::PopupRule,
    problem: Seq<char>,
)
    ensures
        stands_in(problem, crate::popup::rules::skipped_line(rule, problem)),
        rule.name@.len() > 0 ==> stands_in(
            text::quoted(rule.name@),
            crate::popup::rules::skipped_line(rule, problem),
        ),
{
    let name = text::quoted(crate::popup::rules::rule_says(rule).name);
    let line = crate::popup::rules::skipped_line(rule, problem);
    let head = "skipping popup rule "@;
    assert(line =~= (head + name + ": "@) + problem);
    within(problem, head + name + ": "@, Seq::empty());
    assert(line =~= head + name + (": "@ + problem));
    within(name, head, ": "@ + problem);
}

} // verus!
