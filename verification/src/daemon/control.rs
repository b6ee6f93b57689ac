//! The service that the command line and the pop-ups talk to.

use crate::crypto;
use crate::encryption;
use crate::encryption::{Dek, EncryptionError, EncryptionState, SkBytes};
use crate::json;
use crate::json::Json;
use crate::notification;
use crate::notification::{ClosedReason, Notification, NotificationStatus, NotificationView, Urgency};
use crate::pattern;
use crate::queries::NotificationFilter;
use crate::rules;
use crate::rules::RulesEngine;
use crate::text;
use vstd::prelude::*;

verus! {

/// An error that is answered over the bus.
#[derive(Debug, PartialEq, Eq)]
pub enum BusError {
    NotSupported(String),
    AuthFailed(String),
    Failed(String),
}

impl BusError {
    /// What the error says.
    pub open spec fn says(self) -> Seq<char> {
        match self {
            BusError::NotSupported(m) => m@,
            BusError::AuthFailed(m) => m@,
            BusError::Failed(m) => m@,
        }
    }
}

// ---------- filters ----------

/// The most notifications that are listed where the request names no limit.
pub const DEFAULT_LIMIT: i64 = 50;

/// Whether a filter is the one that a request describes. A field that is absent or of another
/// type sets no condition, nor does an unknown urgency or status.
pub open spec fn filter_reads(request: Option<json::JsonTree>, f: NotificationFilter) -> bool {
    let tree = match request {
        Some(t) => t,
        None => json::JsonTree::Null,
    };
    &&& pattern::opt_text(f.app_name) == tree.get_text("app"@)
    &&& f.urgency == match tree.get_text("urgency"@) {
        Some(u) => notification::urgency_named(u),
        None => None,
    }
    &&& f.status == match tree.get_text("status"@) {
        Some(s) => notification::status_named(s),
        None => None,
    }
    &&& pattern::opt_text(f.category) == tree.get_text("category"@)
    &&& pattern::opt_text(f.search) == tree.get_text("search"@)
    &&& pattern::opt_text(f.since) == tree.get_text("since"@)
    &&& pattern::opt_text(f.until) == tree.get_text("until"@)
    &&& f.limit is Some && f.limit->0 == match tree.get_i64("limit"@) {
        Some(n) => n,
        None => DEFAULT_LIMIT as int,
    }
    &&& f.offset is None
}

fn owned(text: Option<&str>) -> (out: Option<String>)
    ensures
        pattern::opt_text(out) == match text {
            Some(t) => Some(t@),
            None => None,
        },
{
    match text {
        Some(t) => Some(t.to_owned()),
        None => None,
    }
}

/// The filter that a parsed request describes.
pub fn filter_from_json(request: &Json) -> (f: NotificationFilter)
    ensures
        filter_reads(Some(request.tree()), f),
{
    let urgency = match request.get_text("urgency") {
        Some(u) => Urgency::from_name(u),
        None => None,
    };
    let status = match request.get_text("status") {
        Some(s) => NotificationStatus::from_str(s),
        None => None,
    };
    let limit = match request.get_i64("limit") {
        Some(n) => n,
        None => DEFAULT_LIMIT,
    };
    NotificationFilter {
        app_name: owned(request.get_text("app")),
        urgency,
        status,
        category: owned(request.get_text("category")),
        search: owned(request.get_text("search")),
        since: owned(request.get_text("since")),
        until: owned(request.get_text("until")),
        limit: Some(limit),
        offset: None,
    }
}

/// The filter that a request describes; one that is not JSON describes no condition.
pub fn parse_filter(filter_json: &str) -> (f: NotificationFilter)
    ensures
        filter_reads(json::json_value(filter_json@), f),
{
    match json::parse_json(filter_json) {
        Some(request) => filter_from_json(&request),
        None => {
            let nothing = Json::Null;
            filter_from_json(&nothing)
        },
    }
}

/// The same filter for unread notifications alone.
pub fn unread_only(f: &NotificationFilter) -> (out: NotificationFilter)
    ensures
        pattern::opt_text(out.app_name) == pattern::opt_text(f.app_name),
        out.urgency == f.urgency,
        out.status == Some(NotificationStatus::Unread),
        pattern::opt_text(out.category) == pattern::opt_text(f.category),
        pattern::opt_text(out.search) == pattern::opt_text(f.search),
        pattern::opt_text(out.since) == pattern::opt_text(f.since),
        pattern::opt_text(out.until) == pattern::opt_text(f.until),
        out.limit == f.limit,
        out.offset == f.offset,
{
    NotificationFilter {
        app_name: f.app_name.clone(),
        urgency: f.urgency,
        status: Some(NotificationStatus::Unread),
        category: f.category.clone(),
        search: f.search.clone(),
        since: f.since.clone(),
        until: f.until.clone(),
        limit: f.limit,
        offset: f.offset,
    }
}

// ---------- replies ----------

/// The reply to a count.
pub open spec fn count_tree(unread: int, total: int) -> json::JsonTree {
    json::JsonTree::Object(
        seq![
            ("unread"@, json::JsonTree::Number(unread)),
            ("total"@, json::JsonTree::Number(total)),
        ],
    )
}

/// The reply to a count, as JSON text.
pub fn count_reply(unread: i64, total: i64) -> (text: String)
    ensures
        text@ == json::json_text(json::ordered_tree(count_tree(unread as int, total as int))),
        json::json_value(text@) is Some,
        json::json_value(text@)->0.get_i64("unread"@) == Some(unread as int),
        json::json_value(text@)->0.get_i64("total"@) == Some(total as int),
{
    let reply = json::object(
        vec![json::field("unread", Json::Int(unread)), json::field("total", Json::Int(total))],
    );
    proof {
        reveal_strlit("unread");
        reveal_strlit("total");
        assert("unread"@.len() == 6 && "total"@.len() == 5);
        assert(reply.tree()->Object_0 =~= count_tree(unread as int, total as int)->Object_0);
        let fields = reply.tree()->Object_0;
        assert(fields.skip(1)[0] == fields[1]);
        assert(reply.tree().get("unread"@) == Some(json::JsonTree::Number(unread as int)));
        assert(reply.tree().get("total"@) == Some(json::JsonTree::Number(total as int))) by {
            reveal_with_fuel(json::field_of, 3);
        }
    }
    json::render_json(&reply)
}

/// The state of Do Not Disturb.
pub open spec fn dnd_tree(enabled: bool, allow_critical: bool) -> json::JsonTree {
    json::JsonTree::Object(
        seq![
            ("enabled"@, json::JsonTree::Bool(enabled)),
            ("allow_critical"@, json::JsonTree::Bool(allow_critical)),
        ],
    )
}

fn dnd_json(enabled: bool, allow_critical: bool) -> (json: Json)
    ensures
        json.tree() == dnd_tree(enabled, allow_critical),
{
    let out = json::object(
        vec![
            json::field("enabled", Json::Bool(enabled)),
            json::field("allow_critical", Json::Bool(allow_critical)),
        ],
    );
    assert(out.tree()->Object_0 =~= dnd_tree(enabled, allow_critical)->Object_0);
    out
}

/// The state of Do Not Disturb, as JSON text.
pub fn dnd_reply(enabled: bool, allow_critical: bool) -> (text: String)
    ensures
        text@ == json::json_text(json::ordered_tree(dnd_tree(enabled, allow_critical))),
        json::json_value(text@) is Some,
        json::json_value(text@)->0.get_bool("enabled"@) == Some(enabled),
        json::json_value(text@)->0.get_bool("allow_critical"@) == Some(allow_critical),
{
    let reply = dnd_json(enabled, allow_critical);
    proof {
        reveal_strlit("enabled");
        reveal_strlit("allow_critical");
        assert("enabled"@.len() == 7 && "allow_critical"@.len() == 14);
        let fields = reply.tree()->Object_0;
        assert(fields.skip(1)[0] == fields[1]);
        assert(reply.tree().get("enabled"@) == Some(json::JsonTree::Bool(enabled)));
        assert(reply.tree().get("allow_critical"@) == Some(json::JsonTree::Bool(allow_critical)))
            by {
            reveal_with_fuel(json::field_of, 3);
        }
    }
    json::render_json(&reply)
}

/// What is told of the encryption: whether it is on, and where it is its key and its idle
/// timer, were it `now`.
pub open spec fn encryption_tree(state: EncryptionState, now: i64) -> json::JsonTree {
    if state.public_key is Some {
        json::JsonTree::Object(
            seq![
                ("enabled"@, json::JsonTree::Bool(true)),
                ("unlocked"@, json::JsonTree::Bool(state.secret_key is Some)),
                ("key_id"@, json::JsonTree::Text(text::hex(state.key_id@))),
                (
                    "idle_until_lock_secs"@,
                    match state.spec_idle_until_lock(now) {
                        Some(n) => json::JsonTree::Number(n),
                        None => json::JsonTree::Null,
                    },
                ),
                ("auto_lock_secs"@, json::JsonTree::Number(state.auto_lock_secs as int)),
            ],
        )
    } else {
        json::JsonTree::Object(
            seq![
                ("enabled"@, json::JsonTree::Bool(false)),
                ("unlocked"@, json::JsonTree::Bool(false)),
            ],
        )
    }
}

fn encryption_json(state: &EncryptionState, now: i64) -> (json: Json)
    ensures
        json.tree() == encryption_tree(*state, now),
{
    if state.is_enabled() {
        let idle = match state.idle_until_lock_secs_at(now) {
            Some(n) => Json::Uint(n),
            None => Json::Null,
        };
        let out = json::object(
            vec![
                json::field("enabled", Json::Bool(true)),
                json::field("unlocked", Json::Bool(state.is_unlocked())),
                json::field("key_id", Json::Text(text::hex_text(state.key_id.as_slice()))),
                json::field("idle_until_lock_secs", idle),
                json::field("auto_lock_secs", Json::Uint(state.auto_lock_secs())),
            ],
        );
        assert(out.tree()->Object_0 =~= encryption_tree(*state, now)->Object_0);
        out
    } else {
        let out = json::object(
            vec![
                json::field("enabled", Json::Bool(false)),
                json::field("unlocked", Json::Bool(false)),
            ],
        );
        assert(out.tree()->Object_0 =~= encryption_tree(*state, now)->Object_0);
        out
    }
}

/// What the daemon tells of itself.
pub struct StatusFacts {
    pub unread: i64,
    pub total: i64,
    pub db_path: String,
    pub rules_count: usize,
    pub dnd: bool,
    pub allow_critical: bool,
}

/// The report of the daemon on itself.
pub open spec fn status_tree(facts: StatusFacts, state: EncryptionState, now: i64) -> json::JsonTree {
    json::JsonTree::Object(
        seq![
            ("status"@, json::JsonTree::Text("running"@)),
            ("version"@, json::JsonTree::Text("0.1.0"@)),
            ("unread"@, json::JsonTree::Number(facts.unread as int)),
            ("total"@, json::JsonTree::Number(facts.total as int)),
            ("db_path"@, json::JsonTree::Text(facts.db_path@)),
            ("rules_count"@, json::JsonTree::Number(facts.rules_count as int)),
            ("dnd"@, dnd_tree(facts.dnd, facts.allow_critical)),
            ("encryption"@, encryption_tree(state, now)),
        ],
    )
}

/// The report of the daemon on itself at `now`.
pub fn status_json(facts: &StatusFacts, state: &EncryptionState, now: i64) -> (json: Json)
    ensures
        json.tree() == status_tree(*facts, *state, now),
{
    let out = json::object(
        vec![
            json::field("status", Json::Text("running".to_owned())),
            json::field("version", Json::Text("0.1.0".to_owned())),
            json::field("unread", Json::Int(facts.unread)),
            json::field("total", Json::Int(facts.total)),
            json::field("db_path", Json::Text(facts.db_path.clone())),
            json::field("rules_count", Json::Uint(facts.rules_count as u64)),
            json::field("dnd", dnd_json(facts.dnd, facts.allow_critical)),
            json::field("encryption", encryption_json(state, now)),
        ],
    );
    assert(out.tree()->Object_0 =~= status_tree(*facts, *state, now)->Object_0);
    out
}

/// The report of the daemon on itself at `now`, as JSON text.
pub fn status_reply(facts: &StatusFacts, state: &EncryptionState, now: i64) -> (text: String)
    ensures
        text@ == json::json_text(json::ordered_tree(status_tree(*facts, *state, now))),
{
    let report = status_json(facts, state, now);
    json::render_json(&report)
}

// ---------- actions ----------

/// A command that runs where an action is invoked.
#[derive(Debug, PartialEq, Eq)]
pub enum Launch {
    /// A rule's shell command, with what is added to its environment.
    Shell { rule: String, command: String, env: Vec<(String, String)> },
    /// The application of a desktop entry.
    DesktopEntry(String),
    Nothing,
}

/// What invoking an action does.
#[derive(Debug, PartialEq, Eq)]
pub struct InvokePlan {
    /// The notification whose application is told, and the action.
    pub invoked: (u32, String),
    /// The notification and the reason that the application is told after that.
    pub closed: (u32, u32),
    /// The row that becomes read.
    pub read_row: Option<i64>,
    pub launch: Launch,
}

/// Whether a notification has an action: one of its buttons, or the default one, which every
/// notification has.
pub open spec fn has_action(n: NotificationView, key: Seq<char>) -> bool {
    ||| key == "default"@
    ||| exists|i: int| 0 <= i < n.actions.len() && (#[trigger] n.actions[i]).0 == key
}

/// What is added to the environment of a rule's command.
pub open spec fn action_env(n: NotificationView, key: Seq<char>) -> Seq<(Seq<char>, Seq<char>)> {
    seq![
        ("OLHA_APP_NAME"@, n.app_name),
        ("OLHA_SUMMARY"@, n.summary),
        ("OLHA_BODY"@, n.body),
        ("OLHA_URGENCY"@, n.urgency.spec_name()),
        ("OLHA_ACTION_KEY"@, key),
        ("OLHA_DESKTOP_ENTRY"@, n.desktop_entry),
        (
            "OLHA_NOTIFICATION_ID"@,
            match n.row_id {
                Some(id) => text::signed_decimal(id as int),
                None => Seq::empty(),
            },
        ),
    ]
}

/// What is added to the environment of a rule's command.
pub fn env_from_notif(notif: &Notification, action_key: &str) -> (env: Vec<(String, String)>)
    ensures
        rules::text_pairs(env@) == action_env(notif@, action_key@),
{
    let number = match notif.row_id {
        Some(id) => text::signed_text(id),
        None => String::new(),
    };
    let env: Vec<(String, String)> = vec![
        ("OLHA_APP_NAME".to_owned(), notif.app_name.clone()),
        ("OLHA_SUMMARY".to_owned(), notif.summary.clone()),
        ("OLHA_BODY".to_owned(), notif.body.clone()),
        ("OLHA_URGENCY".to_owned(), notif.urgency.as_str().to_owned()),
        ("OLHA_ACTION_KEY".to_owned(), action_key.to_owned()),
        ("OLHA_DESKTOP_ENTRY".to_owned(), notif.desktop_entry.clone()),
        ("OLHA_NOTIFICATION_ID".to_owned(), number),
    ];
    assert(rules::text_pairs(env@) =~= action_env(notif@, action_key@));
    env
}

/// Whether that is what runs for an action: the command of the first rule that applies and has
/// one for it; otherwise, for the default action, the application of the desktop entry.
pub open spec fn launches(
    engine: Seq<rules::RuleView>,
    n: NotificationView,
    key: Seq<char>,
    launch: Launch,
) -> bool {
    match rules::first_command(engine, n, key) {
        Some(found) => {
            &&& launch matches Launch::Shell { rule, command, env }
            &&& rule@ == found.0
            &&& command@ == found.1
            &&& rules::text_pairs(env@) == action_env(n, key)
        },
        None => if key == "default"@ && n.desktop_entry.len() > 0 {
            launch matches Launch::DesktopEntry(entry) && entry@ == n.desktop_entry
        } else {
            launch is Nothing
        },
    }
}

/// What is answered where there is no such notification.
pub open spec fn not_found(id: u64) -> Seq<char> {
    "Notification "@ + text::decimal(id as nat) + " not found"@
}

/// What is answered where the notification has no such action.
pub open spec fn no_action(id: u64, key: Seq<char>) -> Seq<char> {
    "Notification "@ + text::decimal(id as nat) + " has no action '"@ + key + "'"@
}

fn not_found_error(id: u64) -> (e: BusError)
    ensures
        e is Failed,
        e.says() == not_found(id),
{
    let mut m = "Notification ".to_owned();
    m.append(text::decimal_text(id).as_str());
    m.append(" not found");
    BusError::Failed(m)
}

fn lists_action(notif: &Notification, key: &str) -> (r: bool)
    ensures
        r == exists|i: int|
            0 <= i < notif@.actions.len() && (#[trigger] notif@.actions[i]).0 == key@,
{
    let mut i: usize = 0;
    while i < notif.actions.len()
        invariant
            i <= notif.actions@.len(),
            forall|j: int| 0 <= j < i ==> (#[trigger] notif@.actions[j]).0 != key@,
        decreases notif.actions.len() - i,
    {
        assert(notif@.actions[i as int].0 == notif.actions@[i as int].id@);
        if text::text_eq(notif.actions[i].id.as_str(), key) {
            return true;
        }
        i = i + 1;
    }
    false
}

/// Invokes an action on the notification that was found under a number. The application is
/// told of the action and then that the notification was dismissed; its row becomes read.
pub fn invoke_action(
    id: u64,
    found: Option<&Notification>,
    action_key: &str,
    engine: &RulesEngine,
) -> (plan: Result<InvokePlan, BusError>)
    ensures
        match plan {
            Ok(p) => {
                &&& found matches Some(n)
                &&& has_action(n@, action_key@)
                &&& p.invoked.0 == n.dbus_id && p.invoked.1@ == action_key@
                &&& p.closed == (n.dbus_id, ClosedReason::Dismissed.spec_code())
                &&& p.read_row == n.row_id
                &&& launches(engine@, n@, action_key@, p.launch)
            },
            Err(e) => {
                &&& e is Failed
                &&& match found {
                    None => e.says() == not_found(id),
                    Some(n) => !has_action(n@, action_key@) && e.says() == no_action(
                        id,
                        action_key@,
                    ),
                }
            },
        },
{
    let notif = match found {
        Some(n) => n,
        None => {
            return Err(not_found_error(id));
        },
    };
    if !text::text_eq(action_key, "default") && !lists_action(notif, action_key) {
        let mut m = "Notification ".to_owned();
        m.append(text::decimal_text(id).as_str());
        m.append(" has no action '");
        m.append(action_key);
        m.append("'");
        return Err(BusError::Failed(m));
    }
    let launch = match engine.action_command(notif, action_key) {
        Some((rule, command)) => Launch::Shell {
            rule,
            command,
            env: env_from_notif(notif, action_key),
        },
        None => if text::text_eq(action_key, "default")
            && !notif.desktop_entry.as_str().is_empty() {
            Launch::DesktopEntry(notif.desktop_entry.clone())
        } else {
            Launch::Nothing
        },
    };
    Ok(
        InvokePlan {
            invoked: (notif.dbus_id, action_key.to_owned()),
            closed: (notif.dbus_id, ClosedReason::Dismissed.code()),
            read_row: notif.row_id,
            launch,
        },
    )
}

/// What dismissing a notification does.
#[derive(Debug, PartialEq, Eq)]
pub struct DismissPlan {
    /// The notification and the reason that the application is told.
    pub closed: (u32, u32),
    /// The row that becomes cleared.
    pub clear_row: Option<i64>,
}

/// Dismisses the notification that was found under a number: the application is told, and the
/// row becomes cleared. No action is invoked.
pub fn dismiss(id: u64, found: Option<&Notification>) -> (plan: Result<DismissPlan, BusError>)
    ensures
        match plan {
            Ok(p) => {
                &&& found matches Some(n)
                &&& p.closed == (n.dbus_id, ClosedReason::Dismissed.spec_code())
                &&& p.clear_row == n.row_id
            },
            Err(e) => found is None && e is Failed && e.says() == not_found(id),
        },
{
    match found {
        Some(n) => Ok(
            DismissPlan {
                closed: (n.dbus_id, ClosedReason::Dismissed.code()),
                clear_row: n.row_id,
            },
        ),
        None => Err(not_found_error(id)),
    }
}

// ---------- unlocking ----------

/// How an unlock begins.
#[derive(Debug, PartialEq, Eq)]
pub enum UnlockStart {
    /// It is refused.
    Refused(BusError),
    /// The secret key is at hand already; the idle timer was started anew.
    Done,
    /// The password store has to be asked.
    AskPass,
}

/// Begins an unlock at `now`.
pub fn begin_unlock(state: &mut EncryptionState, now: i64) -> (start: UnlockStart)
    ensures
        match start {
            UnlockStart::Refused(e) => {
                &&& old(state).public_key is None
                &&& e is NotSupported
                &&& e.says() == "encryption is disabled in config.toml"@
                &&& *final(state) == *old(state)
            },
            UnlockStart::Done => {
                &&& old(state).public_key is Some
                &&& old(state).secret_key is Some
                &&& *final(state) == (EncryptionState { last_activity: now, ..*old(state) })
            },
            UnlockStart::AskPass => {
                &&& old(state).public_key is Some
                &&& old(state).secret_key is None
                &&& *final(state) == *old(state)
            },
        },
{
    if !state.is_enabled() {
        return UnlockStart::Refused(
            BusError::NotSupported("encryption is disabled in config.toml".to_owned()),
        );
    }
    if state.is_unlocked() {
        state.record_decrypt_activity_at(now);
        return UnlockStart::Done;
    }
    UnlockStart::AskPass
}

/// The data encryption key that the answer of the password store gives.
pub fn key_from_pass(answer: Result<Vec<u8>, EncryptionError>) -> (dek: Result<Dek, BusError>)
    ensures
        match answer {
            Ok(ikm) => if ikm@.len() == 0 {
                dek matches Err(e) && e is AuthFailed && e.says() == "pass entry is empty"@
            } else {
                dek matches Ok(k) && k@ == crypto::sha256(ikm@)
            },
            Err(p) => dek matches Err(e) && e is AuthFailed && e.says() == "pass show failed: "@
                + p.spec_message(),
        },
{
    match answer {
        Ok(ikm) => {
            if ikm.len() == 0 {
                return Err(BusError::AuthFailed("pass entry is empty".to_owned()));
            }
            let dek = encryption::derive_dek(ikm.as_slice());
            let mut ikm: Vec<u8> = ikm;
            crypto::wipe_all(&mut ikm);
            Ok(dek)
        },
        Err(e) => {
            let mut m = "pass show failed: ".to_owned();
            m.append(e.message().as_str());
            Err(BusError::AuthFailed(m))
        },
    }
}

/// The secret key that the stored text holds under a data encryption key, or what is answered
/// instead.
pub open spec fn stored_secret(dek: Seq<u8>, stored: Option<Seq<char>>) -> Result<
    Seq<u8>,
    Seq<char>,
> {
    match stored {
        None => Err("no encryption material on disk — run `olha encryption init`"@),
        Some(t) => match crypto::base64_bytes(text::trimmed(t)) {
            None => Err(
                "meta.enc_wrapped_secret: bad base64: "@ + crypto::base64_error(text::trimmed(t)),
            ),
            Some(blob) => match encryption::unwrapped_sk(dek, blob) {
                Ok(sk) => Ok(sk),
                Err(_) => Err("wrapped secret could not be decrypted — wrong pass entry?"@),
            },
        },
    }
}

/// Opens the secret key that the store holds.
pub fn open_secret(dek: &Dek, stored: Option<&str>) -> (sk: Result<SkBytes, BusError>)
    ensures
        ({
            let text = match stored {
                Some(t) => Some(t@),
                None => None,
            };
            match sk {
                Ok(k) => stored_secret(dek@, text) == Ok::<Seq<u8>, Seq<char>>(k@),
                Err(e) => {
                    &&& stored_secret(dek@, text) == Err::<Seq<u8>, Seq<char>>(e.says())
                    &&& e is AuthFailed <==> text is Some && crypto::base64_bytes(
                        text::trimmed(text->0),
                    ) is Some
                    &&& !(e is NotSupported)
                },
            }
        }),
{
    let stored_text = match stored {
        Some(t) => t,
        None => {
            return Err(
                BusError::Failed(
                    "no encryption material on disk — run `olha encryption init`".to_owned(),
                ),
            );
        },
    };
    let trimmed = text::trim(stored_text);
    let blob = match crypto::base64_decode(trimmed.as_str()) {
        Ok(b) => b,
        Err(e) => {
            let mut m = "meta.enc_wrapped_secret: bad base64: ".to_owned();
            m.append(e.as_str());
            return Err(BusError::Failed(m));
        },
    };
    match encryption::unwrap_sk(dek, blob.as_slice()) {
        Ok(sk) => Ok(sk),
        Err(_) => Err(
            BusError::AuthFailed(
                "wrapped secret could not be decrypted — wrong pass entry?".to_owned(),
            ),
        ),
    }
}

/// Ends an unlock at `now` with what the store holds: on success the secret key is at hand and
/// subscribers are told; otherwise the state is as it was. The data encryption key is wiped.
pub fn finish_unlock(
    state: &mut EncryptionState,
    dek: Dek,
    stored: Option<&str>,
    now: i64,
) -> (done: Result<(), BusError>)
    ensures
        ({
            let text = match stored {
                Some(t) => Some(t@),
                None => None,
            };
            match done {
                Ok(_) => {
                    &&& stored_secret(dek@, text) is Ok
                    &&& final(state).secret_key is Some
                    &&& final(state).secret_key->0@ == stored_secret(dek@, text)->Ok_0
                    &&& final(state).last_activity == now
                    &&& final(state).public_key == old(state).public_key
                    &&& final(state).key_id == old(state).key_id
                    &&& final(state).auto_lock_secs == old(state).auto_lock_secs
                },
                Err(e) => {
                    &&& stored_secret(dek@, text) == Err::<Seq<u8>, Seq<char>>(e.says())
                    &&& e is AuthFailed <==> text is Some && crypto::base64_bytes(
                        text::trimmed(text->0),
                    ) is Some
                    &&& !(e is NotSupported)
                    &&& *final(state) == *old(state)
                },
            }
        }),
{
    let mut dek: Dek = dek;
    let opened = open_secret(&dek, stored);
    crypto::wipe(&mut dek);
    match opened {
        Ok(sk) => {
            state.unlock_at(sk, now);
            let mut sk: SkBytes = sk;
            crypto::wipe(&mut sk);
            Ok(())
        },
        Err(e) => Err(e),
    }
}

/// Takes note of a read at `now`: where something was decrypted for it, the idle timer starts anew.
pub fn after_read(state: &mut EncryptionState, decrypted: bool, now: i64)
    ensures
        *final(state) == if decrypted {
            EncryptionState { last_activity: now, ..*old(state) }
        } else {
            *old(state)
        },
{
    if decrypted {
        state.record_decrypt_activity_at(now);
    }
}

/// Locks the daemon where it is due at `now`. Says whether subscribers are to be told.
pub fn auto_lock_step(state: &mut EncryptionState, now: i64) -> (locked: bool)
    ensures
        locked == old(state).spec_should_auto_lock(now),
        locked ==> final(state).secret_key is None && final(state).public_key
            == old(state).public_key && final(state).key_id == old(state).key_id
            && final(state).auto_lock_secs == old(state).auto_lock_secs
            && final(state).last_activity == old(state).last_activity,
        !locked ==> *final(state) == *old(state),
{
    if !state.should_auto_lock_at(now) {
        return false;
    }
    state.lock()
}

} // verus!
