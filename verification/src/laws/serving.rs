//! What the daemon answers, and what it does when it is told of an action.

use crate::crypto;
use crate::daemon::control;
use crate::daemon::control::{Launch, StatusFacts};
use crate::daemon::environment;
use crate::daemon::startup;
use crate::encryption::EncryptionState;
use crate::json;
use crate::json::JsonTree;
use crate::notification::{NotificationStatus, NotificationView, Urgency};
use crate::queries::NotificationFilter;
use crate::rules;
use crate::text;
use vstd::prelude::*;

verus! {

// ---------- requests ----------

/// Whether a field of a filter is the text that a request has under a name, and is absent where it
/// has none.
pub open spec fn is_asked(field: Option<String>, request: JsonTree, name: Seq<char>) -> bool {
    match request.get(name) {
        Some(JsonTree::Text(t)) => field is Some && field->0@ == t,
        _ => field is None,
    }
}

/// Each condition of a request is that of the filter, under its own name; what the request does not
/// say sets none, but for the limit, which is then 50.
pub proof fn a_filter_asks_what_the_request_says(request: JsonTree, f: NotificationFilter)
    requires
        control::filter_reads(Some(request), f),
    ensures
        is_asked(f.app_name, request, "app"@),
        is_asked(f.category, request, "category"@),
        is_asked(f.search, request, "search"@),
        is_asked(f.since, request, "since"@),
        is_asked(f.until, request, "until"@),
        f.urgency == Some(Urgency::Low) <==> request.get("urgency"@) == Some(
            JsonTree::Text("low"@),
        ),
        f.urgency == Some(Urgency::Normal) <==> request.get("urgency"@) == Some(
            JsonTree::Text("normal"@),
        ),
        f.urgency == Some(Urgency::Critical) <==> request.get("urgency"@) == Some(
            JsonTree::Text("critical"@),
        ),
        f.status == Some(NotificationStatus::Unread) <==> request.get("status"@) == Some(
            JsonTree::Text("unread"@),
        ),
        f.status == Some(NotificationStatus::Read) <==> request.get("status"@) == Some(
            JsonTree::Text("read"@),
        ),
        f.status == Some(NotificationStatus::Cleared) <==> request.get("status"@) == Some(
            JsonTree::Text("cleared"@),
        ),
        request.get("limit"@) matches Some(JsonTree::Number(n)) ==> i64::MIN <= n <= i64::MAX
            ==> f.limit is Some && f.limit->0 == n,
        request.get("limit"@) is None ==> f.limit == Some(50i64),
        f.offset is None,
{
    reveal_strlit("low");
    reveal_strlit("normal");
    reveal_strlit("critical");
    reveal_strlit("unread");
    reveal_strlit("read");
    reveal_strlit("cleared");
    assert("low"@.len() == 3 && "normal"@.len() == 6 && "critical"@.len() == 8);
    assert("unread"@.len() == 6 && "read"@.len() == 4 && "cleared"@.len() == 7);
}

/// A request that is no JSON asks for everything, up to the limit.
pub proof fn a_broken_request_asks_for_everything(f: NotificationFilter)
    requires
        control::filter_reads(None, f),
    ensures
        f.app_name is None,
        f.urgency is None,
        f.status is None,
        f.category is None,
        f.search is None,
        f.since is None,
        f.until is None,
        f.limit == Some(50i64),
        f.offset is None,
{
}

/// The field of a name is found among fields of other names, and no other field is taken for it.
pub proof fn a_field_is_found_by_its_name(fields: Seq<(Seq<char>, JsonTree)>, key: Seq<char>)
    ensures
        match json::field_of(fields, key) {
            Some(v) => exists|i: int|
                {
                    &&& 0 <= i < fields.len()
                    &&& #[trigger] fields[i] == (key, v)
                    &&& forall|j: int| 0 <= j < i ==> (#[trigger] fields[j]).0 != key
                },
            None => forall|i: int| 0 <= i < fields.len() ==> (#[trigger] fields[i]).0 != key,
        },
    decreases fields.len(),
{
    if fields.len() > 0 {
        if fields[0].0 == key {
            assert(fields[0] == (key, fields[0].1));
        } else {
            let rest = fields.skip(1);
            a_field_is_found_by_its_name(rest, key);
            assert forall|i: int| 0 < i < fields.len() implies #[trigger] fields[i] == rest[i
                - 1] by {}
            if let Some(v) = json::field_of(rest, key) {
                let i = choose|i: int|
                    {
                        &&& 0 <= i < rest.len()
                        &&& #[trigger] rest[i] == (key, v)
                        &&& forall|j: int| 0 <= j < i ==> (#[trigger] rest[j]).0 != key
                    };
                assert(fields[i + 1] == (key, v));
                assert forall|j: int| 0 <= j < i + 1 implies (#[trigger] fields[j]).0 != key by {
                    if j > 0 {
                        assert(rest[j - 1].0 != key);
                    }
                }
            }
        }
    }
}

// ---------- reports ----------

proof fn names_of_a_report()
    ensures
        "status"@.len() == 6,
        "version"@.len() == 7,
        "unread"@.len() == 6,
        "total"@.len() == 5,
        "db_path"@.len() == 7,
        "rules_count"@.len() == 11,
        "dnd"@.len() == 3,
        "encryption"@.len() == 10,
        "status"@[0] == 's',
        "unread"@[0] == 'u',
        "version"@[0] == 'v',
        "db_path"@[0] == 'd',
        "enabled"@.len() == 7,
        "unlocked"@.len() == 8,
        "key_id"@.len() == 6,
        "idle_until_lock_secs"@.len() == 20,
        "auto_lock_secs"@.len() == 14,
        "allow_critical"@.len() == 14,
{
    reveal_strlit("status");
    reveal_strlit("version");
    reveal_strlit("unread");
    reveal_strlit("total");
    reveal_strlit("db_path");
    reveal_strlit("rules_count");
    reveal_strlit("dnd");
    reveal_strlit("encryption");
    reveal_strlit("enabled");
    reveal_strlit("unlocked");
    reveal_strlit("key_id");
    reveal_strlit("idle_until_lock_secs");
    reveal_strlit("auto_lock_secs");
    reveal_strlit("allow_critical");
}

/// The report of the daemon has each fact under its name.
pub proof fn a_report_has_each_fact(facts: StatusFacts, state: EncryptionState, now: i64)
    ensures
        ({
            let report = control::status_tree(facts, state, now);
            &&& report.get_text("status"@) == Some("running"@)
            &&& report.get_i64("unread"@) == Some(facts.unread as int)
            &&& report.get_i64("total"@) == Some(facts.total as int)
            &&& report.get_text("db_path"@) == Some(facts.db_path@)
            &&& report.get("rules_count"@) == Some(JsonTree::Number(facts.rules_count as int))
            &&& report.get("dnd"@) == Some(control::dnd_tree(facts.dnd, facts.allow_critical))
            &&& report.get("encryption"@) == Some(control::encryption_tree(state, now))
        }),
{
    names_of_a_report();
    let fields = control::status_tree(facts, state, now)->Object_0;
    assert forall|a: int, b: int| 0 <= a < b < fields.len() implies (#[trigger] fields[a]).0 != (
    #[trigger] fields[b]).0 by {}
    json::fields_are_found(fields, 0);
    json::fields_are_found(fields, 2);
    json::fields_are_found(fields, 3);
    json::fields_are_found(fields, 4);
    json::fields_are_found(fields, 5);
    json::fields_are_found(fields, 6);
    json::fields_are_found(fields, 7);
}

/// What is told of the encryption has each fact under its name: whether there is a public key and
/// a secret one, the fingerprint, and the idle timer.
pub proof fn a_report_on_encryption_has_each_fact(state: EncryptionState, now: i64)
    ensures
        ({
            let report = control::encryption_tree(state, now);
            &&& report.get_bool("enabled"@) == Some(state.public_key is Some)
            &&& report.get_bool("unlocked"@) == Some(
                state.public_key is Some && state.secret_key is Some,
            )
            &&& state.public_key is Some ==> {
                &&& report.get_text("key_id"@) == Some(text::hex(state.key_id@))
                &&& report.get_u64("auto_lock_secs"@) == Some(state.auto_lock_secs as int)
                &&& report.get("idle_until_lock_secs"@) == match state.spec_idle_until_lock(now) {
                    Some(n) => Some(JsonTree::Number(n)),
                    None => Some(JsonTree::Null),
                }
            }
        }),
{
    names_of_a_report();
    let fields = control::encryption_tree(state, now)->Object_0;
    assert forall|a: int, b: int| 0 <= a < b < fields.len() implies (#[trigger] fields[a]).0 != (
    #[trigger] fields[b]).0 by {}
    json::fields_are_found(fields, 0);
    json::fields_are_found(fields, 1);
    if state.public_key is Some {
        json::fields_are_found(fields, 2);
        json::fields_are_found(fields, 3);
        json::fields_are_found(fields, 4);
    }
}

/// The state of Do Not Disturb and the counts have each fact under its name.
pub proof fn small_reports_have_each_fact(a: bool, b: bool, unread: i64, total: i64)
    ensures
        control::dnd_tree(a, b).get_bool("enabled"@) == Some(a),
        control::dnd_tree(a, b).get_bool("allow_critical"@) == Some(b),
        control::count_tree(unread as int, total as int).get_i64("unread"@) == Some(unread as int),
        control::count_tree(unread as int, total as int).get_i64("total"@) == Some(total as int),
{
    names_of_a_report();
    let dnd = control::dnd_tree(a, b)->Object_0;
    let count = control::count_tree(unread as int, total as int)->Object_0;
    json::fields_are_found(dnd, 0);
    json::fields_are_found(dnd, 1);
    json::fields_are_found(count, 0);
    json::fields_are_found(count, 1);
}

// ---------- actions ----------

/// Every notification has the default action, and besides exactly its buttons.
pub proof fn a_notification_has_its_buttons_and_the_default(n: NotificationView, key: Seq<char>)
    ensures
        control::has_action(n, "default"@),
        key != "default"@ ==> (control::has_action(n, key) <==> exists|i: int|
            0 <= i < n.actions.len() && (#[trigger] n.actions[i]).0 == key),
{
}

proof fn names_of_an_environment()
    ensures
        "OLHA_APP_NAME"@.len() == 13,
        "OLHA_SUMMARY"@.len() == 12,
        "OLHA_BODY"@.len() == 9,
        "OLHA_URGENCY"@.len() == 12,
        "OLHA_ACTION_KEY"@.len() == 15,
        "OLHA_DESKTOP_ENTRY"@.len() == 18,
        "OLHA_NOTIFICATION_ID"@.len() == 20,
        "OLHA_SUMMARY"@[5] == 'S',
        "OLHA_URGENCY"@[5] == 'U',
{
    reveal_strlit("OLHA_APP_NAME");
    reveal_strlit("OLHA_SUMMARY");
    reveal_strlit("OLHA_BODY");
    reveal_strlit("OLHA_URGENCY");
    reveal_strlit("OLHA_ACTION_KEY");
    reveal_strlit("OLHA_DESKTOP_ENTRY");
    reveal_strlit("OLHA_NOTIFICATION_ID");
}

proof fn pair_is_looked_up(pairs: Seq<(Seq<char>, Seq<char>)>, i: int)
    requires
        0 <= i < pairs.len(),
        forall|a: int, b: int|
            0 <= a < b < pairs.len() ==> (#[trigger] pairs[a]).0 != (#[trigger] pairs[b]).0,
    ensures
        rules::lookup(pairs, pairs[i].0) == Some(pairs[i].1),
    decreases pairs.len(),
{
    if i > 0 {
        let rest = pairs.skip(1);
        assert(rest[i - 1] == pairs[i]);
        assert forall|a: int, b: int| 0 <= a < b < rest.len() implies (#[trigger] rest[a]).0 != (
        #[trigger] rest[b]).0 by {
            assert(rest[a] == pairs[a + 1] && rest[b] == pairs[b + 1]);
        }
        pair_is_looked_up(rest, i - 1);
        assert(pairs[0].0 != pairs[i].0);
    }
}

/// A rule's command finds in its environment what its notification holds, each under its name.
pub proof fn a_command_sees_its_notification(n: NotificationView, key: Seq<char>)
    ensures
        ({
            let env = control::action_env(n, key);
            &&& rules::lookup(env, "OLHA_APP_NAME"@) == Some(n.app_name)
            &&& rules::lookup(env, "OLHA_SUMMARY"@) == Some(n.summary)
            &&& rules::lookup(env, "OLHA_BODY"@) == Some(n.body)
            &&& rules::lookup(env, "OLHA_URGENCY"@) == Some(
                match n.urgency {
                    Urgency::Low => "low"@,
                    Urgency::Normal => "normal"@,
                    Urgency::Critical => "critical"@,
                },
            )
            &&& rules::lookup(env, "OLHA_ACTION_KEY"@) == Some(key)
            &&& rules::lookup(env, "OLHA_DESKTOP_ENTRY"@) == Some(n.desktop_entry)
            &&& n.row_id matches Some(id) ==> rules::lookup(env, "OLHA_NOTIFICATION_ID"@) == Some(
                text::signed_decimal(id as int),
            )
            &&& n.row_id is None ==> rules::lookup(env, "OLHA_NOTIFICATION_ID"@) == Some(
                Seq::<char>::empty(),
            )
        }),
{
    names_of_an_environment();
    let env = control::action_env(n, key);
    assert forall|a: int, b: int| 0 <= a < b < env.len() implies (#[trigger] env[a]).0 != (
    #[trigger] env[b]).0 by {}
    pair_is_looked_up(env, 0);
    pair_is_looked_up(env, 1);
    pair_is_looked_up(env, 2);
    pair_is_looked_up(env, 3);
    pair_is_looked_up(env, 4);
    pair_is_looked_up(env, 5);
    pair_is_looked_up(env, 6);
}

/// Without a rule for it, only the default action launches anything: the application of the
/// notification's own desktop entry, where it has one.
pub proof fn without_a_rule_only_the_default_launches(
    n: NotificationView,
    key: Seq<char>,
    launch: Launch,
)
    requires
        control::launches(Seq::empty(), n, key, launch),
    ensures
        !(launch is Shell),
        launch is DesktopEntry <==> key == "default"@ && n.desktop_entry.len() > 0,
        launch matches Launch::DesktopEntry(entry) ==> entry@ == n.desktop_entry,
{
}

/// A rule that applies and has a command for the action runs that command, under its own name and
/// with the notification in its environment, whatever the desktop entry.
pub proof fn a_rules_command_runs(
    rule: rules::RuleView,
    n: NotificationView,
    key: Seq<char>,
    i: int,
    launch: Launch,
)
    requires
        rules::first_applying(seq![rule], n) is Some,
        0 <= i < rule.on_action.len(),
        rule.on_action[i].0 == key,
        forall|j: int| 0 <= j < i ==> (#[trigger] rule.on_action[j]).0 != key,
        control::launches(seq![rule], n, key, launch),
    ensures
        launch is Shell,
        launch->rule@ == rule.name,
        launch->command@ == rule.on_action[i].1,
        rules::text_pairs(launch->env@) == control::action_env(n, key),
{
    reveal_with_fuel(rules::first_applying, 2);
    looked_up_first(rule.on_action, i);
    assert(rules::first_command(seq![rule], n, key) == Some((rule.name, rule.on_action[i].1)));
}

proof fn looked_up_first(pairs: Seq<(Seq<char>, Seq<char>)>, i: int)
    requires
        0 <= i < pairs.len(),
        forall|j: int| 0 <= j < i ==> (#[trigger] pairs[j]).0 != pairs[i].0,
    ensures
        rules::lookup(pairs, pairs[i].0) == Some(pairs[i].1),
    decreases pairs.len(),
{
    if i > 0 {
        let rest = pairs.skip(1);
        assert(rest[i - 1] == pairs[i]);
        assert forall|j: int| 0 <= j < i - 1 implies (#[trigger] rest[j]).0 != rest[i - 1].0 by {
            assert(rest[j] == pairs[j + 1]);
        }
        looked_up_first(rest, i - 1);
        assert(pairs[0].0 != pairs[i].0);
    }
}

// ---------- keys ----------

/// The daemon starts with a stored public key exactly where it is the base64 of 32 bytes.
pub proof fn the_daemon_starts_with_a_whole_key(stored: Seq<char>)
    ensures
        startup::key_problem(Some(stored)) is None <==> crypto::base64_bytes(
            text::trimmed(stored),
        ) is Some && crypto::base64_bytes(text::trimmed(stored))->0.len() == 32,
        startup::key_problem(None) is Some,
{
}

// ---------- the session's environment ----------

proof fn first_char_of_sum(before: Seq<char>, c: char, after: Seq<char>)
    requires
        !before.contains(c),
    ensures
        environment::first_char(before + seq![c] + after, c) == before.len(),
    decreases before.len(),
{
    let whole = before + seq![c] + after;
    if before.len() > 0 {
        let rest = before.skip(1);
        assert(whole[0] == before[0]);
        assert(before.contains(before[0]));
        assert(whole.skip(1) =~= rest + seq![c] + after);
        assert(!rest.contains(c)) by {
            if rest.contains(c) {
                let i = choose|i: int| 0 <= i < rest.len() && rest[i] == c;
                assert(before[i + 1] == c);
            }
        }
        first_char_of_sum(rest, c, after);
    } else {
        assert(whole[0] == c);
    }
}

proof fn first_char_of_none(text: Seq<char>, c: char)
    requires
        !text.contains(c),
    ensures
        environment::first_char(text, c) == text.len(),
    decreases text.len(),
{
    if text.len() > 0 {
        let rest = text.skip(1);
        assert(text.contains(text[0]));
        assert(!rest.contains(c)) by {
            if rest.contains(c) {
                let i = choose|i: int| 0 <= i < rest.len() && rest[i] == c;
                assert(text[i + 1] == c);
            }
        }
        first_char_of_none(rest, c);
    }
}

/// A name, an equals sign and a value assign the value to the name, whatever the value holds; a line
/// without an equals sign assigns nothing.
pub proof fn an_assignment_is_read_as_written(name: Seq<char>, value: Seq<char>)
    ensures
        !name.contains('=') ==> environment::assignment(name + seq!['='] + value) == Some(
            (name, value),
        ),
        !name.contains('=') ==> environment::assignment(name) is None,
{
    if !name.contains('=') {
        let line = name + seq!['='] + value;
        first_char_of_sum(name, '=', value);
        first_char_of_none(name, '=');
        assert(line.take(name.len() as int) =~= name);
        assert(line.skip(name.len() as int + 1) =~= value);
    }
}

/// A listing is read line by line: what the first line assigns comes first, and then what the rest
/// assigns. A line feed ends a line, alone or after a carriage return.
pub proof fn a_listing_is_read_line_by_line(line: Seq<char>, rest: Seq<char>)
    requires
        !line.contains('\n'),
    ensures
        ({
            let first = |l: Seq<char>|
                match environment::assignment(l) {
                    Some(a) => seq![a],
                    None => Seq::<(Seq<char>, Seq<char>)>::empty(),
                };
            let later = environment::assignments(environment::text_lines(rest));
            &&& line.len() == 0 || line.last() != '\r' ==> environment::assignments(
                environment::text_lines(line + seq!['\n'] + rest),
            ) == first(line) + later
            &&& environment::assignments(
                environment::text_lines(line + seq!['\r', '\n'] + rest),
            ) == first(line) + later
            &&& environment::assignments(environment::text_lines(line)) == first(line)
        }),
{
    reveal_with_fuel(environment::assignments, 2);
    let later = environment::text_lines(rest);
    let plain = line + seq!['\n'] + rest;
    first_char_of_sum(line, '\n', rest);
    assert(plain.take(line.len() as int) =~= line);
    assert(plain.skip(line.len() as int + 1) =~= rest);
    let lines = environment::text_lines(plain);
    assert(lines =~= seq![environment::without_return(line)] + later);
    assert(lines.skip(1) =~= later);
    let returned = line.push('\r');
    let both = line + seq!['\r', '\n'] + rest;
    assert(!returned.contains('\n')) by {
        if returned.contains('\n') {
            let i = choose|i: int| 0 <= i < returned.len() && returned[i] == '\n';
            assert(i < line.len());
            assert(line[i] == '\n');
        }
    }
    assert(both =~= returned + seq!['\n'] + rest);
    first_char_of_sum(returned, '\n', rest);
    assert(both.take(returned.len() as int) =~= returned);
    assert(both.skip(returned.len() as int + 1) =~= rest);
    assert(environment::without_return(returned) =~= line);
    let more = environment::text_lines(both);
    assert(more =~= seq![line] + later);
    assert(more.skip(1) =~= later);
    first_char_of_none(line, '\n');
    if line.len() > 0 {
        let alone = environment::text_lines(line);
        assert(alone =~= seq![line]);
        assert(alone.skip(1) =~= Seq::<Seq<char>>::empty());
    } else {
        first_char_of_none(line, '=');
    }
}

} // verus!
