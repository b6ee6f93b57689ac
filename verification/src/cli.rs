//! The command line: what it asks the daemon for, and what it says of the answers.

use crate::daemon::control;
use crate::json;
use crate::json::Json;
use crate::notification;
use crate::pattern;
use crate::queries::NotificationFilter;
use crate::text;
use vstd::prelude::*;

verus! {

// ---------- requests ----------

/// What `olha list` was asked for.
pub struct ListFilter {
    pub app: Option<String>,
    pub urgency: Option<String>,
    pub status: Option<String>,
    pub category: Option<String>,
    pub search: Option<String>,
    pub since: Option<String>,
    pub until: Option<String>,
    pub limit: i64,
    pub json: bool,
}

/// What `olha count` was asked for.
pub struct CountFilter {
    pub app: Option<String>,
    pub urgency: Option<String>,
    pub status: Option<String>,
    pub category: Option<String>,
    pub search: Option<String>,
    pub since: Option<String>,
    pub until: Option<String>,
    pub json: bool,
}

proof fn request_keys_differ()
    ensures
        "app"@ != "urgency"@,
        "app"@ != "status"@,
        "app"@ != "category"@,
        "app"@ != "search"@,
        "app"@ != "since"@,
        "app"@ != "until"@,
        "app"@ != "limit"@,
        "urgency"@ != "status"@,
        "urgency"@ != "category"@,
        "urgency"@ != "search"@,
        "urgency"@ != "since"@,
        "urgency"@ != "until"@,
        "urgency"@ != "limit"@,
        "status"@ != "category"@,
        "status"@ != "search"@,
        "status"@ != "since"@,
        "status"@ != "until"@,
        "status"@ != "limit"@,
        "category"@ != "search"@,
        "category"@ != "since"@,
        "category"@ != "until"@,
        "category"@ != "limit"@,
        "search"@ != "since"@,
        "search"@ != "until"@,
        "search"@ != "limit"@,
        "since"@ != "until"@,
        "since"@ != "limit"@,
        "until"@ != "limit"@,
{
    reveal_strlit("app");
    reveal_strlit("urgency");
    reveal_strlit("status");
    reveal_strlit("category");
    reveal_strlit("search");
    reveal_strlit("since");
    reveal_strlit("until");
    reveal_strlit("limit");
    assert("app"@.len() == 3 && "urgency"@.len() == 7 && "category"@.len() == 8);
    assert("status"@.len() == 6 && "search"@.len() == 6);
    assert("since"@.len() == 5 && "until"@.len() == 5 && "limit"@.len() == 5);
    assert("status"@[1] != "search"@[1]);
    assert("since"@[0] != "until"@[0] && "since"@[0] != "limit"@[0] && "until"@[0] != "limit"@[0]);
}

/// The fields that every request for notifications has.
pub open spec fn request_fields(
    app: Option<String>,
    urgency: Option<String>,
    status: Option<String>,
    category: Option<String>,
    search: Option<String>,
    since: Option<String>,
    until: Option<String>,
) -> Seq<(Seq<char>, json::JsonTree)> {
    seq![
        ("app"@, json::text_or_null(pattern::opt_text(app))),
        ("urgency"@, json::text_or_null(pattern::opt_text(urgency))),
        ("status"@, json::text_or_null(pattern::opt_text(status))),
        ("category"@, json::text_or_null(pattern::opt_text(category))),
        ("search"@, json::text_or_null(pattern::opt_text(search))),
        ("since"@, json::text_or_null(pattern::opt_text(since))),
        ("until"@, json::text_or_null(pattern::opt_text(until))),
    ]
}

/// What `olha list` sends.
pub open spec fn list_tree(f: ListFilter) -> json::JsonTree {
    json::JsonTree::Object(
        request_fields(
            f.app,
            f.urgency,
            f.status,
            f.category,
            f.search,
            f.since,
            f.until,
        ).push(("limit"@, json::JsonTree::Number(f.limit as int))),
    )
}

/// What `olha count` sends.
pub open spec fn count_request_tree(f: CountFilter) -> json::JsonTree {
    json::JsonTree::Object(
        request_fields(f.app, f.urgency, f.status, f.category, f.search, f.since, f.until),
    )
}

fn base_fields(
    app: &Option<String>,
    urgency: &Option<String>,
    status: &Option<String>,
    category: &Option<String>,
    search: &Option<String>,
    since: &Option<String>,
    until: &Option<String>,
) -> (fields: Vec<(String, Json)>)
    ensures
        json::field_trees(fields@) == request_fields(
            *app,
            *urgency,
            *status,
            *category,
            *search,
            *since,
            *until,
        ),
{
    let fields: Vec<(String, Json)> = vec![
        json::field("app", json::opt_text_json(app)),
        json::field("urgency", json::opt_text_json(urgency)),
        json::field("status", json::opt_text_json(status)),
        json::field("category", json::opt_text_json(category)),
        json::field("search", json::opt_text_json(search)),
        json::field("since", json::opt_text_json(since)),
        json::field("until", json::opt_text_json(until)),
    ];
    assert(json::field_trees(fields@) =~= request_fields(
        *app,
        *urgency,
        *status,
        *category,
        *search,
        *since,
        *until,
    ));
    fields
}

/// Whether a request, once parsed, asks for exactly these conditions.
pub open spec fn asks_for(
    tree: json::JsonTree,
    app: Option<String>,
    urgency: Option<String>,
    status: Option<String>,
    category: Option<String>,
    search: Option<String>,
    since: Option<String>,
    until: Option<String>,
    limit: Option<int>,
) -> bool {
    &&& tree.get_text("app"@) == pattern::opt_text(app)
    &&& tree.get_text("urgency"@) == pattern::opt_text(urgency)
    &&& tree.get_text("status"@) == pattern::opt_text(status)
    &&& tree.get_text("category"@) == pattern::opt_text(category)
    &&& tree.get_text("search"@) == pattern::opt_text(search)
    &&& tree.get_text("since"@) == pattern::opt_text(since)
    &&& tree.get_text("until"@) == pattern::opt_text(until)
    &&& tree.get_i64("limit"@) == limit
}

proof fn list_tree_asks(f: ListFilter)
    ensures
        json::is_record(list_tree(f)),
        asks_for(
            list_tree(f),
            f.app,
            f.urgency,
            f.status,
            f.category,
            f.search,
            f.since,
            f.until,
            Some(f.limit as int),
        ),
{
    request_keys_differ();
    let fields = list_tree(f)->Object_0;
    assert(fields.len() == 8);
    assert forall|i: int, j: int| 0 <= i < j < fields.len() implies (#[trigger] fields[i]).0 != (
    #[trigger] fields[j]).0 by {}
    json::fields_are_found(fields, 0);
    json::fields_are_found(fields, 1);
    json::fields_are_found(fields, 2);
    json::fields_are_found(fields, 3);
    json::fields_are_found(fields, 4);
    json::fields_are_found(fields, 5);
    json::fields_are_found(fields, 6);
    json::fields_are_found(fields, 7);
}

proof fn count_tree_asks(f: CountFilter)
    ensures
        json::is_record(count_request_tree(f)),
        asks_for(
            count_request_tree(f),
            f.app,
            f.urgency,
            f.status,
            f.category,
            f.search,
            f.since,
            f.until,
            None,
        ),
{
    request_keys_differ();
    let fields = count_request_tree(f)->Object_0;
    assert(fields.len() == 7);
    assert forall|i: int, j: int| 0 <= i < j < fields.len() implies (#[trigger] fields[i]).0 != (
    #[trigger] fields[j]).0 by {}
    json::fields_are_found(fields, 0);
    json::fields_are_found(fields, 1);
    json::fields_are_found(fields, 2);
    json::fields_are_found(fields, 3);
    json::fields_are_found(fields, 4);
    json::fields_are_found(fields, 5);
    json::fields_are_found(fields, 6);
    absent_field(fields, "limit"@);
}

proof fn absent_field(fields: Seq<(Seq<char>, json::JsonTree)>, key: Seq<char>)
    requires
        forall|i: int| 0 <= i < fields.len() ==> (#[trigger] fields[i]).0 != key,
    ensures
        json::field_of(fields, key) is None,
    decreases fields.len(),
{
    if fields.len() > 0 {
        let rest = fields.skip(1);
        assert forall|i: int| 0 <= i < rest.len() implies (#[trigger] rest[i]).0 != key by {
            assert(rest[i] == fields[i + 1]);
        }
        absent_field(rest, key);
    }
}

proof fn same_fields_ask_alike(a: json::JsonTree, b: json::JsonTree, key: Seq<char>)
    requires
        json::same_fields(a, b),
    ensures
        a.get_text(key) == b.get_text(key),
        a.get_i64(key) == b.get_i64(key),
{
    assert(a.get(key) == b.get(key));
}

proof fn same_fields_ask_for(
    a: json::JsonTree,
    b: json::JsonTree,
)
    requires
        json::same_fields(a, b),
    ensures
        a.get_text("app"@) == b.get_text("app"@),
        a.get_text("urgency"@) == b.get_text("urgency"@),
        a.get_text("status"@) == b.get_text("status"@),
        a.get_text("category"@) == b.get_text("category"@),
        a.get_text("search"@) == b.get_text("search"@),
        a.get_text("since"@) == b.get_text("since"@),
        a.get_text("until"@) == b.get_text("until"@),
        a.get_i64("limit"@) == b.get_i64("limit"@),
{
    same_fields_ask_alike(a, b, "app"@);
    same_fields_ask_alike(a, b, "urgency"@);
    same_fields_ask_alike(a, b, "status"@);
    same_fields_ask_alike(a, b, "category"@);
    same_fields_ask_alike(a, b, "search"@);
    same_fields_ask_alike(a, b, "since"@);
    same_fields_ask_alike(a, b, "until"@);
    same_fields_ask_alike(a, b, "limit"@);
}

/// What `olha list` sends, as JSON text. The daemon reads from it what was asked for.
pub fn list_request(f: &ListFilter) -> (text: String)
    ensures
        text@ == json::json_text(json::ordered_tree(list_tree(*f))),
        json::json_value(text@) is Some,
        asks_for(
            json::json_value(text@)->0,
            f.app,
            f.urgency,
            f.status,
            f.category,
            f.search,
            f.since,
            f.until,
            Some(f.limit as int),
        ),
{
    let mut fields = base_fields(
        &f.app,
        &f.urgency,
        &f.status,
        &f.category,
        &f.search,
        &f.since,
        &f.until,
    );
    let ghost before = fields@;
    fields.push(json::field("limit", Json::Int(f.limit)));
    assert(json::field_trees(fields@) =~= json::field_trees(before).push(
        ("limit"@, json::JsonTree::Number(f.limit as int)),
    ));
    let request = json::object(fields);
    proof {
        list_tree_asks(*f);
    }
    let text = json::render_json(&request);
    proof {
        same_fields_ask_for(json::json_value(text@)->0, list_tree(*f));
    }
    text
}

/// What `olha count` sends, as JSON text. The daemon reads from it what was asked for.
pub fn count_request(f: &CountFilter) -> (text: String)
    ensures
        text@ == json::json_text(json::ordered_tree(count_request_tree(*f))),
        json::json_value(text@) is Some,
        asks_for(
            json::json_value(text@)->0,
            f.app,
            f.urgency,
            f.status,
            f.category,
            f.search,
            f.since,
            f.until,
            None,
        ),
{
    let fields = base_fields(
        &f.app,
        &f.urgency,
        &f.status,
        &f.category,
        &f.search,
        &f.since,
        &f.until,
    );
    let request = json::object(fields);
    proof {
        count_tree_asks(*f);
    }
    let text = json::render_json(&request);
    proof {
        same_fields_ask_for(json::json_value(text@)->0, count_request_tree(*f));
    }
    text
}

/// The filter that the daemon reads from a request of `olha list` holds what was asked for.
pub proof fn listing_is_filtered_as_asked(
    f: ListFilter,
    request: json::JsonTree,
    read: NotificationFilter,
)
    requires
        asks_for(
            request,
            f.app,
            f.urgency,
            f.status,
            f.category,
            f.search,
            f.since,
            f.until,
            Some(f.limit as int),
        ),
        control::filter_reads(Some(request), read),
    ensures
        pattern::opt_text(read.app_name) == pattern::opt_text(f.app),
        read.urgency == match f.urgency {
            Some(u) => notification::urgency_named(u@),
            None => None,
        },
        read.status == match f.status {
            Some(s) => notification::status_named(s@),
            None => None,
        },
        pattern::opt_text(read.category) == pattern::opt_text(f.category),
        pattern::opt_text(read.search) == pattern::opt_text(f.search),
        pattern::opt_text(read.since) == pattern::opt_text(f.since),
        pattern::opt_text(read.until) == pattern::opt_text(f.until),
        read.limit == Some(f.limit),
        read.offset is None,
{
}

// ---------- answers ----------

/// A number, 0 without one.
pub open spec fn or_zero(n: Option<int>) -> int {
    match n {
        Some(v) => v,
        None => 0,
    }
}

/// What `olha count` says of the daemon's answer; an answer that is not JSON is said as it is.
pub open spec fn count_said(reply: Seq<char>) -> Seq<char> {
    match json::json_value(reply) {
        Some(tree) => "Notifications: "@ + text::signed_decimal(or_zero(tree.get_i64("unread"@)))
            + " unread, "@ + text::signed_decimal(or_zero(tree.get_i64("total"@))) + " total"@,
        None => reply,
    }
}

/// What `olha count` says of the daemon's answer.
pub fn count_text(reply: &str) -> (line: String)
    ensures
        line@ == count_said(reply@),
{
    match json::parse_json(reply) {
        Some(val) => {
            let unread: i64 = match val.get_i64("unread") {
                Some(n) => n,
                None => 0,
            };
            let total: i64 = match val.get_i64("total") {
                Some(n) => n,
                None => 0,
            };
            let mut out = "Notifications: ".to_owned();
            out.append(text::signed_text(unread).as_str());
            out.append(" unread, ");
            out.append(text::signed_text(total).as_str());
            out.append(" total");
            out
        },
        None => reply.to_owned(),
    }
}

/// What `olha count` says of an answer that holds two numbers is those numbers.
pub proof fn counts_are_said_as_answered(reply: Seq<char>, unread: int, total: int)
    requires
        json::json_value(reply) is Some,
        json::json_value(reply)->0.get_i64("unread"@) == Some(unread),
        json::json_value(reply)->0.get_i64("total"@) == Some(total),
    ensures
        count_said(reply) == "Notifications: "@ + text::signed_decimal(unread) + " unread, "@
            + text::signed_decimal(total) + " total"@,
{
}

/// A line of the status report for a text, where there is one.
pub open spec fn text_line(label: Seq<char>, value: Option<Seq<char>>) -> Seq<char> {
    match value {
        Some(v) => label + v + "\n"@,
        None => Seq::empty(),
    }
}

/// A line of the status report for a number, where there is one.
pub open spec fn number_line(label: Seq<char>, value: Option<int>) -> Seq<char> {
    match value {
        Some(n) => label + text::signed_decimal(n) + "\n"@,
        None => Seq::empty(),
    }
}

/// Whether Do Not Disturb is on, by the daemon's report on itself; nothing where it does not
/// tell.
pub open spec fn dnd_reported(report: json::JsonTree) -> Option<bool> {
    match report.get("dnd"@) {
        Some(dnd) => dnd.get_bool("enabled"@),
        None => None,
    }
}

/// What is said of a switch.
pub open spec fn on_off(on: bool) -> Seq<char> {
    if on {
        "on"@
    } else {
        "off"@
    }
}

fn on_off_str(on: bool) -> (word: &'static str)
    ensures
        word@ == on_off(on),
{
    if on {
        "on"
    } else {
        "off"
    }
}

/// What `olha status` says of the daemon's answer.
pub open spec fn status_said(reply: Seq<char>) -> Seq<char> {
    match json::json_value(reply) {
        Some(tree) => "olhad status:\n"@ + text_line("  Status: "@, tree.get_text("status"@))
            + text_line("  Version: "@, tree.get_text("version"@)) + number_line(
            "  Unread: "@,
            tree.get_i64("unread"@),
        ) + number_line("  Total: "@, tree.get_i64("total"@)) + text_line(
            "  DB Path: "@,
            tree.get_text("db_path"@),
        ) + number_line("  Rules: "@, tree.get_i64("rules_count"@)) + text_line(
            "  DND: "@,
            match dnd_reported(tree) {
                Some(on) => Some(on_off(on)),
                None => None,
            },
        ),
        None => reply + "\n"@,
    }
}

fn push_text_line(out: &mut String, label: &str, value: Option<&str>)
    ensures
        final(out)@ == old(out)@ + text_line(
            label@,
            match value {
                Some(v) => Some(v@),
                None => None,
            },
        ),
{
    match value {
        Some(v) => {
            out.append(label);
            out.append(v);
            out.append("\n");
            assert(out@ =~= old(out)@ + text_line(label@, Some(v@)));
        },
        None => {
            assert(out@ =~= old(out)@ + text_line(label@, None));
        },
    }
}

fn push_number_line(out: &mut String, label: &str, value: Option<i64>)
    ensures
        final(out)@ == old(out)@ + number_line(
            label@,
            match value {
                Some(v) => Some(v as int),
                None => None,
            },
        ),
{
    match value {
        Some(v) => {
            out.append(label);
            out.append(text::signed_text(v).as_str());
            out.append("\n");
            assert(out@ =~= old(out)@ + number_line(label@, Some(v as int)));
        },
        None => {
            assert(out@ =~= old(out)@ + number_line(label@, None));
        },
    }
}

/// What `olha status` says of the daemon's answer.
pub fn status_text(reply: &str) -> (report: String)
    ensures
        report@ == status_said(reply@),
{
    match json::parse_json(reply) {
        Some(val) => {
            let mut out = "olhad status:\n".to_owned();
            push_text_line(&mut out, "  Status: ", val.get_text("status"));
            push_text_line(&mut out, "  Version: ", val.get_text("version"));
            push_number_line(&mut out, "  Unread: ", val.get_i64("unread"));
            push_number_line(&mut out, "  Total: ", val.get_i64("total"));
            push_text_line(&mut out, "  DB Path: ", val.get_text("db_path"));
            push_number_line(&mut out, "  Rules: ", val.get_i64("rules_count"));
            let dnd = match val.get("dnd") {
                Some(dnd) => dnd.get_bool("enabled"),
                None => None,
            };
            match dnd {
                Some(on) => {
                    push_text_line(&mut out, "  DND: ", Some(on_off_str(on)));
                },
                None => {
                    push_text_line(&mut out, "  DND: ", None);
                },
            }
            out
        },
        None => {
            let mut out = reply.to_owned();
            out.append("\n");
            out
        },
    }
}

/// The line that `olha subscribe` says of a notification.
pub open spec fn announced(payload: Seq<char>) -> Seq<char> {
    match json::json_value(payload) {
        Some(tree) => {
            let body = text::or_text(tree.get_text("body"@), Seq::empty());
            let head = "["@ + text::or_text(tree.get_text("urgency"@), "normal"@) + "] ["@ + text::or_text(
                tree.get_text("app_name"@),
                Seq::empty(),
            ) + "] "@ + text::or_text(tree.get_text("summary"@), Seq::empty());
            if body.len() == 0 {
                head
            } else {
                head + " — "@ + body
            }
        },
        None => payload,
    }
}

/// The line that `olha subscribe` says of a notification.
pub fn subscribe_line(payload: &str) -> (line: String)
    ensures
        line@ == announced(payload@),
{
    match json::parse_json(payload) {
        Some(val) => {
            let mut out = "[".to_owned();
            match val.get_text("urgency") {
                Some(u) => {
                    out.append(u);
                },
                None => {
                    out.append("normal");
                },
            }
            out.append("] [");
            if let Some(app) = val.get_text("app_name") {
                out.append(app);
            }
            assert(out@ =~= "["@ + text::or_text(val.tree().get_text("urgency"@), "normal"@) + "] ["@
                + text::or_text(val.tree().get_text("app_name"@), Seq::empty()));
            out.append("] ");
            let ghost before = out@;
            if let Some(summary) = val.get_text("summary") {
                out.append(summary);
            }
            assert(out@ =~= before + text::or_text(val.tree().get_text("summary"@), Seq::empty()));
            if let Some(body) = val.get_text("body") {
                if !body.is_empty() {
                    out.append(" — ");
                    out.append(body);
                }
            }
            out
        },
        None => payload.to_owned(),
    }
}

// ---------- changing notifications ----------

/// What is to be done to notifications.
#[derive(Debug, Clone, Copy, PartialEq, Eq, Structural)]
pub enum BulkAction {
    MarkRead,
    Clear,
    Delete,
}

/// Refuses where neither notifications nor all of them are named.
pub fn check_selection(ids: usize, all: bool) -> (r: Result<(), String>)
    ensures
        match r {
            Ok(_) => all || ids > 0,
            Err(e) => !all && ids == 0 && e@ == "Specify notification IDs or use --all"@,
        },
{
    if !all && ids == 0 {
        return Err("Specify notification IDs or use --all".to_owned());
    }
    Ok(())
}

/// What is said once notifications were changed.
pub open spec fn bulk_said(action: BulkAction, ids: nat, all: bool) -> Seq<char> {
    let count = text::decimal(ids);
    match action {
        BulkAction::MarkRead => if all {
            "Marked all notifications as read"@
        } else {
            "Marked "@ + count + " notification(s) as read"@
        },
        BulkAction::Clear => if all {
            "Cleared all notifications"@
        } else {
            "Cleared "@ + count + " notification(s)"@
        },
        BulkAction::Delete => if all {
            "Deleted all notifications"@
        } else {
            "Deleted "@ + count + " notification(s)"@
        },
    }
}

/// What is said once notifications were changed.
pub fn bulk_text(action: BulkAction, ids: usize, all: bool) -> (line: String)
    ensures
        line@ == bulk_said(action, ids as nat, all),
{
    if all {
        return match action {
            BulkAction::MarkRead => "Marked all notifications as read".to_owned(),
            BulkAction::Clear => "Cleared all notifications".to_owned(),
            BulkAction::Delete => "Deleted all notifications".to_owned(),
        };
    }
    let count = text::decimal_text(ids as u64);
    let mut out = match action {
        BulkAction::MarkRead => "Marked ".to_owned(),
        BulkAction::Clear => "Cleared ".to_owned(),
        BulkAction::Delete => "Deleted ".to_owned(),
    };
    out.append(count.as_str());
    match action {
        BulkAction::MarkRead => {
            out.append(" notification(s) as read");
        },
        _ => {
            out.append(" notification(s)");
        },
    }
    out
}

// ---------- Do Not Disturb ----------

/// What `olha dnd` was asked for.
#[derive(Debug, Clone, Copy, PartialEq, Eq, Structural)]
pub enum DndAction {
    Status,
    On,
    Off,
    Toggle,
}

/// What Do Not Disturb is to be set to, given what it is; nothing where it was only asked for.
pub open spec fn dnd_wanted(action: DndAction, enabled: bool) -> Option<bool> {
    match action {
        DndAction::Status => None,
        DndAction::On => Some(true),
        DndAction::Off => Some(false),
        DndAction::Toggle => Some(!enabled),
    }
}

/// What Do Not Disturb is to be set to, given what it is.
pub fn dnd_target(action: DndAction, enabled: bool) -> (target: Option<bool>)
    ensures
        target == dnd_wanted(action, enabled),
{
    match action {
        DndAction::Status => None,
        DndAction::On => Some(true),
        DndAction::Off => Some(false),
        DndAction::Toggle => Some(!enabled),
    }
}

/// Whether Do Not Disturb is on, by the daemon's answer; an answer that does not tell counts
/// as off.
pub open spec fn dnd_answered(reply: Seq<char>) -> bool {
    match json::json_value(reply) {
        Some(tree) => tree.get_bool("enabled"@) == Some(true),
        None => false,
    }
}

/// Whether Do Not Disturb is on, by the daemon's answer.
pub fn dnd_enabled(reply: &str) -> (on: bool)
    ensures
        on == dnd_answered(reply@),
{
    match json::parse_json(reply) {
        Some(val) => match val.get_bool("enabled") {
            Some(b) => b,
            None => false,
        },
        None => false,
    }
}

/// What is said of Do Not Disturb.
pub fn dnd_text(enabled: bool) -> (line: String)
    ensures
        line@ == "DND: "@ + on_off(enabled),
{
    let mut out = "DND: ".to_owned();
    out.append(on_off_str(enabled));
    out
}

/// Asking for Do Not Disturb to be switched twice leaves it as it was.
pub proof fn toggling_twice_changes_nothing(enabled: bool)
    ensures
        dnd_wanted(DndAction::Toggle, dnd_wanted(DndAction::Toggle, enabled)->0) == Some(enabled),
{
}

// ---------- errors ----------

/// Whether an error of the bus says that nobody offers the service.
pub open spec fn names_no_owner(name: Seq<char>) -> bool {
    name == "org.freedesktop.DBus.Error.ServiceUnknown"@ || name
        == "org.freedesktop.DBus.Error.NameHasNoOwner"@
}

/// Whether an error of the bus says that nobody offers the service.
pub fn is_service_unknown(name: &str) -> (r: bool)
    ensures
        r == names_no_owner(name@),
{
    text::text_eq(name, "org.freedesktop.DBus.Error.ServiceUnknown") || text::text_eq(
        name,
        "org.freedesktop.DBus.Error.NameHasNoOwner",
    )
}

/// What is said where the daemon is not running.
pub const DAEMON_NOT_RUNNING: &'static str =
    "olhad is not running. Start it with `olhad` (or via your service manager).";

// ---------- completions ----------

/// A shell that completions are for.
#[derive(Debug, Clone, Copy, PartialEq, Eq, Structural)]
pub enum CompletionShell {
    Bash,
    Zsh,
    Fish,
    PowerShell,
    Elvish,
}

/// The line that switches completions on in a shell.
pub open spec fn activation(shell: CompletionShell) -> Seq<char> {
    match shell {
        CompletionShell::Bash => "source <(COMPLETE=bash olha)"@,
        CompletionShell::Zsh => "source <(COMPLETE=zsh olha)"@,
        CompletionShell::Fish => "COMPLETE=fish olha | source"@,
        CompletionShell::PowerShell =>
        "$env:COMPLETE = \"powershell\"; olha | Out-String | Invoke-Expression"@,
        CompletionShell::Elvish => "eval (COMPLETE=elvish olha | slurp)"@,
    }
}

/// The line that keeps `zsh` from sorting completions.
pub const ZSH_STYLE: &'static str = "zstyle ':completion:*:*:olha:*:*' sort false";

fn activation_str(shell: CompletionShell) -> (line: &'static str)
    ensures
        line@ == activation(shell),
{
    match shell {
        CompletionShell::Bash => "source <(COMPLETE=bash olha)",
        CompletionShell::Zsh => "source <(COMPLETE=zsh olha)",
        CompletionShell::Fish => "COMPLETE=fish olha | source",
        CompletionShell::PowerShell =>
        "$env:COMPLETE = \"powershell\"; olha | Out-String | Invoke-Expression",
        CompletionShell::Elvish => "eval (COMPLETE=elvish olha | slurp)",
    }
}

/// The line that has `zsh` complete `ola`, for those who give `olha` that name too.
pub const ZSH_ALIAS: &'static str = "compdef ola=olha";

/// The script that switches completions on. That of `zsh` covers the name `ola` too.
pub open spec fn completion_script(shell: CompletionShell) -> Seq<char> {
    match shell {
        CompletionShell::Fish => activation(shell) + "\n"@,
        CompletionShell::Zsh => "#compdef olha ola\n# olha completion\n"@ + activation(shell) + "\n"@
            + ZSH_STYLE@ + "\n"@ + ZSH_ALIAS@ + "\n"@,
        _ => "# olha completion\n"@ + activation(shell) + "\n"@,
    }
}

/// The script that switches completions on, for a file.
pub fn completion_file(shell: CompletionShell) -> (contents: String)
    ensures
        contents@ == completion_script(shell),
{
    match shell {
        CompletionShell::Fish => {
            let mut out = activation_str(shell).to_owned();
            out.append("\n");
            out
        },
        CompletionShell::Zsh => {
            let mut out = "#compdef olha ola\n# olha completion\n".to_owned();
            out.append(activation_str(shell));
            out.append("\n");
            out.append(ZSH_STYLE);
            out.append("\n");
            out.append(ZSH_ALIAS);
            out.append("\n");
            out
        },
        _ => {
            let mut out = "# olha completion\n".to_owned();
            out.append(activation_str(shell));
            out.append("\n");
            out
        },
    }
}

/// How to switch completions on by hand.
pub open spec fn completion_advice(shell: CompletionShell) -> Seq<char> {
    let line = "    "@ + activation(shell) + "\n"@;
    let style = "    "@ + ZSH_STYLE@ + "\n"@;
    (match shell {
        CompletionShell::Zsh => "Add the following lines to ~/.zshrc AFTER compinit:\n\n"@ + line
            + style + "\nFor example:\n\n    autoload -U compinit\n    compinit\n"@ + line + style,
        CompletionShell::Bash =>
        "Add the following line to ~/.bashrc AFTER any bash-completion setup:\n\n"@ + line,
        CompletionShell::Fish =>
        "Add the following line to ~/.config/fish/config.fish:\n\n"@ + line,
        CompletionShell::PowerShell =>
        "Add the following line to your PowerShell profile:\n\n"@ + line,
        CompletionShell::Elvish => "Add the following line to ~/.elvish/rc.elv:\n\n"@ + line,
    }) + "\nThen restart your shell or source the config file.\n"@
}

fn push_indented(out: &mut String, line: &str)
    ensures
        final(out)@ == old(out)@ + ("    "@ + line@ + "\n"@),
{
    out.append("    ");
    out.append(line);
    out.append("\n");
    assert(out@ =~= old(out)@ + ("    "@ + line@ + "\n"@));
}

/// How to switch completions on by hand.
pub fn completion_instructions(shell: CompletionShell) -> (advice: String)
    ensures
        advice@ == completion_advice(shell),
{
    let line = activation_str(shell);
    let mut out = match shell {
        CompletionShell::Zsh => "Add the following lines to ~/.zshrc AFTER compinit:\n\n".to_owned(),
        CompletionShell::Bash =>
        "Add the following line to ~/.bashrc AFTER any bash-completion setup:\n\n".to_owned(),
        CompletionShell::Fish =>
        "Add the following line to ~/.config/fish/config.fish:\n\n".to_owned(),
        CompletionShell::PowerShell =>
        "Add the following line to your PowerShell profile:\n\n".to_owned(),
        CompletionShell::Elvish => "Add the following line to ~/.elvish/rc.elv:\n\n".to_owned(),
    };
    push_indented(&mut out, line);
    if let CompletionShell::Zsh = shell {
        push_indented(&mut out, ZSH_STYLE);
        out.append("\nFor example:\n\n    autoload -U compinit\n    compinit\n");
        push_indented(&mut out, line);
        push_indented(&mut out, ZSH_STYLE);
    }
    out.append("\nThen restart your shell or source the config file.\n");
    out
}

} // verus!
