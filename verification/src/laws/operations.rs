//! What the daemon and the command line do, from call to call.

use crate::cli;
use crate::cli::ListFilter;
use crate::config;
use crate::config::NotificationRule;
use crate::crypto;
use crate::daemon::control;
use crate::daemon::control::{BusError, DismissPlan, InvokePlan, Launch, UnlockStart};
use crate::daemon::notifications;
use crate::daemon::notifications::{
    ClosePlan, NotificationsDaemonInner, NotifyOutcome, NotifyRequest,
};
use crate::daemon::startup;
use crate::encryption;
use crate::encryption::{
    Dek, EncMode, EncryptionError, EncryptionState, FieldTag, PassPoll, PassStep, PublicKey, SkBytes,
};
use crate::keys;
use crate::keys::{DisablePlan, Downgrade, Rewrapped, Rotation, SealedRow};
use crate::laws::deciding;
use crate::laws::keys as key_laws;
use crate::laws::storing;
use crate::notification;
use crate::notification::{ClosedReason, Notification, NotificationStatus, Urgency};
use crate::pattern;
use crate::queries;
use crate::queries::{Answer, NotificationFilter};
use crate::report;
use crate::rules;
use crate::rules::{RuleAction, RuleResult, RulesEngine};
use crate::settings;
use crate::store;
use crate::store::{DbError, NewRow, ReadRow, StoredRow};
use crate::text;
use crate::time::Timestamp;
use vstd::prelude::*;

verus! {

// ---------- rules ----------

/// Whether one of the conditions that a rule sets is not met by a notification's own field.
pub open spec fn misses_a_condition(rule: NotificationRule, n: Notification) -> bool {
    ||| deciding::unmet(rule.app_name, n.app_name@)
    ||| deciding::unmet(rule.summary, n.summary@)
    ||| deciding::unmet(rule.body, n.body@)
    ||| deciding::unmet(rule.category, n.category@)
    ||| rule.urgency is Some && rule.urgency->0@ == "low"@ && !(n.urgency is Low)
    ||| rule.urgency is Some && rule.urgency->0@ == "normal"@ && !(n.urgency is Normal)
    ||| rule.urgency is Some && rule.urgency->0@ == "critical"@ && !(n.urgency is Critical)
}

proof fn a_missed_condition_is_unmet(rule: NotificationRule, n: Notification)
    requires
        misses_a_condition(rule, n),
    ensures
        deciding::unmet(rule.app_name, n.app_name@) || deciding::unmet(rule.summary, n.summary@)
            || deciding::unmet(rule.body, n.body@) || deciding::unmet(rule.category, n.category@)
            || (rule.urgency is Some && rule.urgency->0@ != n.urgency.spec_name()),
{
    deciding::urgencies_are_told_apart(n.urgency, Urgency::Low);
    deciding::urgencies_are_told_apart(n.urgency, Urgency::Normal);
    deciding::urgencies_are_told_apart(n.urgency, Urgency::Critical);
}

/// A rule that misses a condition decides nothing and runs nothing.
pub proof fn a_rule_needs_every_condition(
    list: Vec<NotificationRule>,
    engine: RulesEngine,
    n: Notification,
    result: RuleResult,
    key: &str,
    command: Option<(String, String)>,
)
    requires
        call_ensures(RulesEngine::new, (&list,), Ok(engine)),
        call_ensures(RulesEngine::evaluate, (&engine, &n), result),
        call_ensures(RulesEngine::action_command, (&engine, &n, key), command),
        list@.len() == 1,
        misses_a_condition(list@[0], n),
    ensures
        result.action is None,
        result.matching_rule is None,
        command is None,
{
    assert(list@ =~= seq![list@[0]]);
    a_missed_condition_is_unmet(list@[0], n);
    deciding::one_unmet_condition_keeps_a_rule_off(list@[0], n@);
    assert(rules::first_command(rules::usable_rules(seq![list@[0]]), n@, key@) is None);
}

/// A rule whose conditions are all met decides, under its own name and with the action that it is
/// configured with.
pub proof fn a_rule_whose_conditions_are_met_decides(
    list: Vec<NotificationRule>,
    engine: RulesEngine,
    n: Notification,
    result: RuleResult,
)
    requires
        call_ensures(RulesEngine::new, (&list,), Ok(engine)),
        call_ensures(RulesEngine::evaluate, (&engine, &n), result),
        list@.len() == 1,
        list@[0].action@ == "clear"@ || list@[0].action@ == "ignore"@ || list@[0].action@
            == "none"@,
        deciding::met(list@[0].app_name, n.app_name@),
        deciding::met(list@[0].summary, n.summary@),
        deciding::met(list@[0].body, n.body@),
        deciding::met(list@[0].category, n.category@),
        list@[0].urgency is None,
    ensures
        result.matching_rule is Some,
        result.matching_rule->0@ == list@[0].name@,
        result.action == Some(RuleAction::Clear) <==> list@[0].action@ == "clear"@,
        result.action == Some(RuleAction::Ignore) <==> list@[0].action@ == "ignore"@,
        result.action == Some(RuleAction::Keep) <==> list@[0].action@ == "none"@,
{
    assert(list@ =~= seq![list@[0]]);
    deciding::all_met_conditions_make_a_rule_decide(list@[0], n@);
}

// ---------- requests of applications ----------

/// What is stored of a request is what the application asked for.
pub proof fn a_request_is_stored_as_asked(
    inner: &mut NotificationsDaemonInner,
    engine: RulesEngine,
    req: NotifyRequest,
    now: Timestamp,
    out: NotifyOutcome,
)
    requires
        call_ensures(notifications::notify, (inner, &engine, req, now), out),
    ensures
        out.id == if req.replaces_id != 0 {
            req.replaces_id
        } else {
            old(inner).next()
        },
        final(inner).active() == old(inner).active().insert(out.id),
        out.store matches Some(n) ==> {
            &&& n.dbus_id == out.id
            &&& n.app_name@ == req.app_name@
            &&& n.app_icon@ == req.app_icon@
            &&& n.summary@ == req.summary@
            &&& n.body@ == req.body@
            &&& n.expire_timeout == req.expire_timeout
            &&& n.created_at == now
            &&& n.updated_at == now
            &&& n.actions@.len() == req.actions@.len() / 2
            &&& n.urgency is Low <==> notification::hint_value(req.hints@, "urgency"@) == Some(
                notification::HintValue::Byte(0),
            )
            &&& n.urgency is Critical <==> notification::hint_value(req.hints@, "urgency"@)
                == Some(notification::HintValue::Byte(2))
        },
        engine@.len() == 0 ==> out.store is Some && out.store->0.status is Unread,
{
    deciding::a_request_is_stored_with_its_hints(req, out.id, now);
}

/// A rule that ignores keeps what it is for out of the store, one that clears has it stored as
/// cleared, and every other notification is stored as unread.
pub proof fn a_rule_decides_what_is_stored(
    inner: &mut NotificationsDaemonInner,
    engine: RulesEngine,
    req: NotifyRequest,
    now: Timestamp,
    out: NotifyOutcome,
)
    requires
        call_ensures(notifications::notify, (inner, &engine, req, now), out),
    ensures
        ({
            let rule = rules::first_applying(
                engine@,
                notifications::requested(req, out.id, now),
            );
            &&& out.store is None <==> rule is Some && rule->0.action == RuleAction::Ignore
            &&& out.store matches Some(n) ==> (n.status is Cleared <==> rule is Some
                && rule->0.action == RuleAction::Clear)
            &&& out.store matches Some(n) ==> (n.status is Unread <==> !(n.status is Cleared))
            &&& out.matching_rule is Some <==> rule is Some
        }),
{
}

/// Do Not Disturb is the only thing that keeps a stored notification from being announced, and a
/// critical one goes through it where that is allowed.
pub proof fn only_do_not_disturb_keeps_quiet(
    dnd: bool,
    urgency: Urgency,
    allow_critical: bool,
    r: bool,
)
    requires
        call_ensures(notifications::announces, (dnd, urgency, allow_critical), r),
    ensures
        !dnd ==> r,
        dnd && !(urgency is Critical) ==> !r,
        dnd && !allow_critical ==> !r,
        urgency is Critical && allow_critical ==> r,
{
}

/// An application that closes its notification is told that it was closed by a call, and the row of
/// that notification is cleared.
pub proof fn closing_tells_the_application(
    inner: &mut NotificationsDaemonInner,
    id: u32,
    found: Option<&Notification>,
    plan: ClosePlan,
)
    requires
        call_ensures(notifications::close_notification, (inner, id, found), plan),
    ensures
        plan.signal == (id, 3u32),
        found is None ==> plan.clear_row is None,
        found matches Some(n) ==> plan.clear_row == n.row_id,
        !final(inner).active().contains(id),
        forall|other: u32|
            other != id ==> (#[trigger] final(inner).active().contains(other) <==> old(
                inner,
            ).active().contains(other)),
{
}

// ---------- actions ----------

/// A dismissal tells the application of that notification that it was dismissed, and clears its row.
pub proof fn dismissing_tells_the_application(
    id: u64,
    found: Option<&Notification>,
    plan: Result<DismissPlan, BusError>,
)
    requires
        call_ensures(control::dismiss, (id, found), plan),
    ensures
        plan is Ok <==> found is Some,
        plan matches Ok(p) ==> found matches Some(n) ==> p.closed == (n.dbus_id, 2u32)
            && p.clear_row == n.row_id,
{
}

/// An action that a notification has is told to its application with its key; then the application is
/// told that it was dismissed, and its row becomes read. Other actions are refused.
pub proof fn invoking_tells_the_application(
    id: u64,
    found: Option<&Notification>,
    key: &str,
    engine: RulesEngine,
    plan: Result<InvokePlan, BusError>,
)
    requires
        call_ensures(control::invoke_action, (id, found, key, &engine), plan),
    ensures
        found is None ==> plan is Err,
        found matches Some(n) ==> {
            &&& plan is Ok <==> key@ == "default"@ || exists|i: int|
                0 <= i < n.actions@.len() && (#[trigger] n.actions@[i]).id@ == key@
            &&& plan matches Ok(p) ==> {
                &&& p.invoked.0 == n.dbus_id
                &&& p.invoked.1@ == key@
                &&& p.closed == (n.dbus_id, 2u32)
                &&& p.read_row == n.row_id
            }
            &&& plan matches Ok(p) ==> engine@.len() == 0 ==> !(p.launch is Shell)
            &&& plan matches Ok(p) ==> p.launch matches Launch::DesktopEntry(entry) ==> key@
                == "default"@ && entry@ == n.desktop_entry@
        },
{
    if let Some(n) = found {
        let pairs = n@.actions;
        assert(pairs.len() == n.actions@.len());
        assert forall|i: int| 0 <= i < pairs.len() implies #[trigger] pairs[i].0
            == n.actions@[i].id@ by {}
        if exists|i: int| 0 <= i < n.actions@.len() && (#[trigger] n.actions@[i]).id@ == key@ {
            let i = choose|i: int|
                0 <= i < n.actions@.len() && (#[trigger] n.actions@[i]).id@ == key@;
            assert(pairs[i].0 == key@);
        }
        if exists|i: int| 0 <= i < pairs.len() && (#[trigger] pairs[i]).0 == key@ {
            let i = choose|i: int| 0 <= i < pairs.len() && (#[trigger] pairs[i]).0 == key@;
            assert(n.actions@[i].id@ == key@);
        }
    }
}

// ---------- what the command line asks for ----------

/// What `olha list` asks for is what the daemon looks for.
pub proof fn a_listing_looks_for_what_was_asked(
    f: ListFilter,
    request: String,
    sent: &str,
    read: NotificationFilter,
)
    requires
        call_ensures(cli::list_request, (&f,), request),
        sent@ == request@,
        call_ensures(control::parse_filter, (sent,), read),
    ensures
        pattern::opt_text(read.app_name) == pattern::opt_text(f.app),
        pattern::opt_text(read.category) == pattern::opt_text(f.category),
        pattern::opt_text(read.search) == pattern::opt_text(f.search),
        pattern::opt_text(read.since) == pattern::opt_text(f.since),
        pattern::opt_text(read.until) == pattern::opt_text(f.until),
        f.urgency is Some && f.urgency->0@ == "low"@ ==> read.urgency == Some(Urgency::Low),
        f.urgency is Some && f.urgency->0@ == "normal"@ ==> read.urgency == Some(
            Urgency::Normal,
        ),
        f.urgency is Some && f.urgency->0@ == "critical"@ ==> read.urgency == Some(
            Urgency::Critical,
        ),
        f.urgency is None ==> read.urgency is None,
        f.status is Some && f.status->0@ == "unread"@ ==> read.status == Some(
            NotificationStatus::Unread,
        ),
        f.status is Some && f.status->0@ == "read"@ ==> read.status == Some(
            NotificationStatus::Read,
        ),
        f.status is Some && f.status->0@ == "cleared"@ ==> read.status == Some(
            NotificationStatus::Cleared,
        ),
        f.status is None ==> read.status is None,
        read.limit == Some(f.limit),
        read.offset is None,
{
    notification::urgency_round_trip(Urgency::Low);
    notification::urgency_round_trip(Urgency::Normal);
    notification::urgency_round_trip(Urgency::Critical);
    notification::status_round_trip(NotificationStatus::Unread);
    notification::status_round_trip(NotificationStatus::Read);
    notification::status_round_trip(NotificationStatus::Cleared);
}

/// The same filter for unread notifications differs in nothing else.
pub proof fn unread_only_changes_the_status_alone(f: NotificationFilter, out: NotificationFilter)
    requires
        call_ensures(control::unread_only, (&f,), out),
    ensures
        out.status == Some(NotificationStatus::Unread),
        pattern::opt_text(out.app_name) == pattern::opt_text(f.app_name),
        out.urgency == f.urgency,
        pattern::opt_text(out.category) == pattern::opt_text(f.category),
        pattern::opt_text(out.search) == pattern::opt_text(f.search),
        pattern::opt_text(out.since) == pattern::opt_text(f.since),
        pattern::opt_text(out.until) == pattern::opt_text(f.until),
        out.limit == f.limit,
        out.offset == f.offset,
{
}

// ---------- the store ----------

/// A search with the secret key at hand answers with every notification that has the text in its
/// summary or its body, whatever the case.
pub proof fn a_search_finds_summaries_and_bodies(
    rows: Vec<StoredRow>,
    f: NotificationFilter,
    mode: EncMode,
    now: Timestamp,
    a: Answer,
    i: int,
)
    requires
        call_ensures(queries::query_notifications, (&rows, &f, &mode, now), a),
        mode is Unlocked,
        f.search is Some,
        f.limit is None,
        f.offset is None,
        0 <= i < rows@.len(),
    ensures
        ({
            let n = store::read_row(rows@[i], mode, notification::moment(now));
            storing::stands_in(f.search->0@, n.summary) || storing::stands_in(
                f.search->0@,
                n.body,
            ) <==> queries::views(a.notifications@).contains(n)
        }),
{
    let moment = notification::moment(now);
    let n = store::read_row(rows@[i], mode, moment);
    storing::a_search_looks_at_summary_and_body(rows@, f, mode, moment, n);
}

/// Every notification that a search answers with has the text in its summary or in its body.
pub proof fn a_hit_has_the_text(
    rows: Vec<StoredRow>,
    f: NotificationFilter,
    mode: EncMode,
    now: Timestamp,
    a: Answer,
    k: int,
)
    requires
        call_ensures(queries::query_notifications, (&rows, &f, &mode, now), a),
        mode is Unlocked,
        f.search is Some,
        f.limit is None,
        f.offset is None,
        0 <= k < a.notifications@.len(),
    ensures
        storing::stands_in(f.search->0@, a.notifications@[k].summary@) || storing::stands_in(
            f.search->0@,
            a.notifications@[k].body@,
        ),
{
    let moment = notification::moment(now);
    let found = queries::views(a.notifications@);
    let hit = found[k];
    assert(hit == a.notifications@[k]@);
    assert(found.contains(hit));
    storing::a_search_looks_at_summary_and_body(rows@, f, mode, moment, hit);
}

/// What was stored in plain text is read back in every mode.
pub proof fn what_was_stored_plain_is_read_back(
    notif: Notification,
    mode: EncMode,
    stored_at: Timestamp,
    row: NewRow,
    id: i64,
    reading: EncMode,
    later: Timestamp,
    read: ReadRow,
)
    requires
        call_ensures(store::encode, (&notif, &mode, stored_at), Ok(row)),
        mode is Plaintext,
        store::storable_times(notif@, notification::moment(stored_at)),
        call_ensures(
            store::notification_from_row,
            (&store::stored(row, id), &reading, later),
            read,
        ),
    ensures
        read.notification.summary@ == notif.summary@,
        read.notification.body@ == notif.body@,
        read.notification.app_name@ == notif.app_name@,
        read.notification.app_icon@ == notif.app_icon@,
        read.notification.urgency == notif.urgency,
        read.notification.category@ == notif.category@,
        read.notification.desktop_entry@ == notif.desktop_entry@,
        read.notification.status == notif.status,
        read.notification.dbus_id == notif.dbus_id,
        read.notification.expire_timeout == notif.expire_timeout,
        read.notification.row_id == Some(id),
        !read.decrypted,
{
    let moment = notification::moment(stored_at);
    assert(store::restores(row, reading, notif@, moment));
    storing::what_was_stored_is_read_back(
        row,
        reading,
        notif@,
        moment,
        id,
        notification::moment(later),
    );
    assert(read.notification@ == store::read_row(
        store::stored(row, id),
        reading,
        notification::moment(later),
    ));
}

/// What was stored under a public key is read back with every secret key behind it, whether or not
/// the daemon was unlocked when it was stored.
pub proof fn what_was_sealed_is_read_back(
    notif: Notification,
    mode: EncMode,
    stored_at: Timestamp,
    row: NewRow,
    id: i64,
    pk: PublicKey,
    key_id: [u8; 4],
    sk: SkBytes,
    later: Timestamp,
    read: ReadRow,
)
    requires
        call_ensures(store::encode, (&notif, &mode, stored_at), Ok(row)),
        mode matches EncMode::Locked { pk: p, key_id: i } ==> p == pk && i == key_id,
        mode matches EncMode::Unlocked { pk: p, key_id: i, sk: s } ==> p == pk && i == key_id,
        !(mode is Plaintext),
        pk.bytes@ == crypto::x25519_public(sk@),
        store::storable_times(notif@, notification::moment(stored_at)),
        call_ensures(
            store::notification_from_row,
            (&store::stored(row, id), &EncMode::Unlocked { pk, key_id, sk }, later),
            read,
        ),
    ensures
        read.notification.summary@ == notif.summary@,
        read.notification.body@ == notif.body@,
        read.notification.app_name@ == notif.app_name@,
        read.notification.app_icon@ == notif.app_icon@,
        read.notification.urgency == notif.urgency,
        read.notification.status == notif.status,
        read.notification.row_id == Some(id),
        row.summary@.len() == 0,
        row.body@.len() == 0,
        row.hints@.len() == 0,
{
    let moment = notification::moment(stored_at);
    let reading = EncMode::Unlocked { pk, key_id, sk };
    assert(mode.spec_pk() == Some(pk));
    assert(mode.spec_key_id() == Some(key_id));
    assert(mode.spec_pk()->0.bytes@ == crypto::x25519_public(sk@));
    assert(store::restores(row, reading, notif@, moment));
    storing::what_was_stored_is_read_back(
        row,
        reading,
        notif@,
        moment,
        id,
        notification::moment(later),
    );
    assert(read.notification@ == store::read_row(
        store::stored(row, id),
        reading,
        notification::moment(later),
    ));
}

/// A locked daemon reads nothing of a sealed row's content.
pub proof fn a_locked_daemon_reads_no_content(
    row: StoredRow,
    pk: PublicKey,
    key_id: [u8; 4],
    now: Timestamp,
    read: ReadRow,
)
    requires
        row.enc_version == 1,
        call_ensures(
            store::notification_from_row,
            (&row, &EncMode::Locked { pk, key_id }, now),
            read,
        ),
    ensures
        read.notification.summary@ == "[encrypted]"@,
        read.notification.body@ == "[encrypted]"@,
        read.notification.hints@ == "{}"@,
        !read.decrypted,
{
    assert(read.notification@.summary == read.notification.summary@);
}

// ---------- sealing ----------

/// A sealed field opens to what was sealed, with every secret key behind the public key it was
/// sealed under, and under no other tag.
pub proof fn what_was_sealed_opens(
    pk: PublicKey,
    tag: FieldTag,
    plaintext: &[u8],
    blob: Vec<u8>,
    sk: SkBytes,
    as_read: &[u8],
    other: FieldTag,
    opened: Result<Vec<u8>, EncryptionError>,
)
    requires
        call_ensures(encryption::seal_field, (&pk, tag, plaintext), Ok(blob)),
        pk.bytes@ == crypto::x25519_public(sk@),
        as_read@ == blob@,
        call_ensures(encryption::open_field, (&sk, &pk, other, as_read), opened),
    ensures
        other == tag ==> opened is Ok && opened->Ok_0@ == plaintext@,
        other != tag ==> opened is Err,
        blob@.len() == plaintext@.len() + 74,
{
    assert(crypto::x25519_public(sk@) == pk.bytes@);
    assert(encryption::opened_field(sk@, pk.bytes@, tag, blob@) == Ok::<
        Seq<u8>,
        EncryptionError,
    >(plaintext@));
    if other != tag {
        encryption::field_tag_byte_is_injective(tag, other);
    }
}

/// A wrapped secret key unwraps under the key that it was wrapped under.
pub proof fn what_was_wrapped_unwraps(
    dek: Dek,
    sk: SkBytes,
    blob: Vec<u8>,
    as_read: &[u8],
    unwrapped: Result<SkBytes, EncryptionError>,
)
    requires
        call_ensures(encryption::wrap_sk, (&dek, &sk), Ok(blob)),
        as_read@ == blob@,
        call_ensures(encryption::unwrap_sk, (&dek, as_read), unwrapped),
    ensures
        unwrapped is Ok,
        unwrapped->Ok_0@ == sk@,
        blob@.len() == 73,
{
}

/// `pass show` gives what it wrote, without the white space at its end; a failure is reported with
/// its exit code, and one that takes too long is ended.
pub proof fn the_password_store_is_heard_out(poll: PassPoll, step: PassStep)
    requires
        call_ensures(encryption::pass_step, (poll,), step),
    ensures
        poll matches PassPoll::Exited { success, code, output } ==> {
            &&& success ==> (step matches PassStep::Finish(Ok(out)) && out@
                == encryption::without_trailing_space(output@))
            &&& !success ==> (step matches PassStep::Finish(Err(EncryptionError::PassExit(c)))
                && c == (if code is Some {
                code->0
            } else {
                -1i32
            }))
        },
        poll matches PassPoll::Running { expired } ==> (step is Kill <==> expired) && (step is Wait
            <==> !expired),
{
}

// ---------- keys ----------

/// A rotation leaves every row as readable as it was: what a secret key behind the new public key
/// opens is what the old one opened, in the summary, the body and the hints.
pub proof fn a_rotation_keeps_every_column(
    ikm: &[u8],
    entry: &str,
    stored_secret: Option<&str>,
    stored_public: Option<&str>,
    rows: Vec<SealedRow>,
    new_sk: SkBytes,
    nonce: [u8; 24],
    r: Rotation,
    i: int,
)
    requires
        call_ensures(
            keys::rotate_key_with,
            (ikm, entry, stored_secret, stored_public, &rows, &new_sk, &nonce),
            Ok(r),
        ),
        0 <= i < rows@.len(),
    ensures
        r.public_key.bytes@ == crypto::x25519_public(new_sk@),
        r.rows@.len() == rows@.len(),
        r.rows@[i].id == rows@[i].id,
        ({
            let old_sk = keys::secret_behind(
                ikm@,
                entry@,
                keys::opt_text(stored_secret),
            )->Ok_0;
            let old_pk = keys::decoded_meta("enc_public_key"@, keys::opt_text(stored_public))->Ok_0;
            let new_pk = r.public_key.bytes@;
            let same = |tag: FieldTag, was: Option<Vec<u8>>, is: Option<Vec<u8>>|
                match was {
                    None => is is None,
                    Some(b) => is is Some && encryption::opened_field(
                        new_sk@,
                        new_pk,
                        tag,
                        is->0@,
                    ) == encryption::opened_field(old_sk, old_pk, tag, b@),
                };
            &&& same(FieldTag::Summary, rows@[i].summary, r.rows@[i].summary)
            &&& same(FieldTag::Body, rows@[i].body, r.rows@[i].body)
            &&& same(FieldTag::Hints, rows@[i].hints, r.rows@[i].hints)
        }),
{
    let old_sk = keys::secret_behind(ikm@, entry@, keys::opt_text(stored_secret))->Ok_0;
    let old_pk = keys::decoded_meta("enc_public_key"@, keys::opt_text(stored_public))->Ok_0;
    key_laws::the_new_key_opens_what_the_old_one_did(
        r,
        rows@,
        old_sk,
        old_pk,
        new_sk@,
        crypto::sha256(ikm@),
        nonce@,
        i,
        new_sk@,
    );
}

/// A secret key that was wrapped anew is found with the new entry of the password store, and is the
/// one that was found with the old one.
pub proof fn a_rewrapped_secret_is_the_same(
    old_ikm: &[u8],
    old_entry: &str,
    stored: Option<&str>,
    new_ikm: &[u8],
    new_entry: Seq<char>,
    out: Rewrapped,
)
    requires
        call_ensures(keys::rewrap, (old_ikm, old_entry, stored, new_ikm), Ok(out)),
        new_ikm@.len() > 0,
    ensures
        keys::secret_behind(new_ikm@, new_entry, Some(out.wrapped_secret@)) is Ok,
        keys::secret_behind(new_ikm@, new_entry, Some(out.wrapped_secret@)) == keys::secret_behind(
            old_ikm@,
            old_entry@,
            keys::opt_text(stored),
        ),
        out.dek_kid@ == text::hex(crypto::sha256(crypto::sha256(new_ikm@)).take(4)),
{
    let secret = keys::secret_to_rewrap(old_ikm@, old_entry@, keys::opt_text(stored))->Ok_0;
    key_laws::kept_secrets_are_found(out.wrapped_secret@, secret, new_ikm@, new_entry);
}

/// Encryption is switched off only where nothing sealed is left behind: where there are sealed rows
/// they are given back as plain text first, or it is refused.
pub proof fn nothing_sealed_is_left_behind(
    rows: i64,
    rekey: bool,
    db_path: &str,
    plan: Result<DisablePlan, String>,
)
    requires
        call_ensures(keys::plan_disable, (rows, rekey, db_path), plan),
    ensures
        rows > 0 && !rekey ==> plan is Err,
        rows > 0 && rekey ==> (plan matches Ok(p) && p is Downgrade),
        rows <= 0 ==> (plan matches Ok(p) && p is Switch),
{
}

/// Keys, and entries of the password store, are overwritten only by force; encryption is switched on
/// only with keys; and what destroys is done only on a yes.
pub proof fn nothing_is_destroyed_unasked(
    present: bool,
    force: bool,
    ikm_len: usize,
    assume_yes: bool,
    answer: Option<&str>,
    text: &str,
    material: Result<(), String>,
    entry: Result<(), String>,
    enable: Result<(), String>,
    confirmed: Result<(), String>,
)
    requires
        call_ensures(keys::check_material, (present, force, text), material),
        call_ensures(keys::check_entry, (present, force, text), entry),
        call_ensures(keys::check_enable, (ikm_len, text, present), enable),
        call_ensures(keys::check_confirmed, (assume_yes, answer), confirmed),
    ensures
        material is Ok <==> !present || force,
        entry is Ok <==> !present || force,
        enable is Ok <==> ikm_len > 0 && present,
        assume_yes ==> confirmed is Ok,
        !assume_yes && answer is None ==> confirmed is Err,
        !assume_yes && answer is Some ==> (confirmed is Ok <==> keys::is_yes(answer->0@)),
{
}

/// A yes is `y` or `yes`, in any case and with white space around it.
pub proof fn a_yes_is_a_yes(line: Seq<char>)
    ensures
        keys::is_yes(line) <==> text::ascii_lowered(text::trimmed(line)) == seq!['y']
            || text::ascii_lowered(text::trimmed(line)) == seq!['y', 'e', 's'],
{
    reveal_strlit("y");
    reveal_strlit("yes");
    assert("y"@ =~= seq!['y']);
    assert("yes"@ =~= seq!['y', 'e', 's']);
}

/// The rows before the first that cannot be opened are given back, and that one is not passed over.
pub proof fn a_downgrade_stops_at_a_broken_row(
    rows: Vec<SealedRow>,
    pk: PublicKey,
    sk: SkBytes,
    out: Downgrade,
    i: int,
)
    requires
        call_ensures(keys::downgrade_encrypted_rows_to_plaintext, (&rows, &pk, &sk), out),
        0 <= i < out.rows@.len(),
    ensures
        out.rows@.len() <= rows@.len(),
        out.problem is None <==> out.rows@.len() == rows@.len(),
        out.rows@[i].id == rows@[i].id,
        out.rows@[i].summary@ == store::opened_text(
            sk@,
            pk.bytes@,
            FieldTag::Summary,
            store::blob(rows@[i].summary),
        ),
        out.rows@[i].body@ == store::opened_text(
            sk@,
            pk.bytes@,
            FieldTag::Body,
            store::blob(rows@[i].body),
        ),
        rows@[i].hints matches Some(b) ==> encryption::opened_field(
            sk@,
            pk.bytes@,
            FieldTag::Hints,
            b@,
        ) matches Ok(bytes) && (vstd::utf8::valid_utf8(bytes) ==> out.rows@[i].hints@
            == vstd::utf8::decode_utf8(bytes)),
{
    assert(keys::is_downgrade(rows@[i], sk@, pk.bytes@, out.rows@[i]));
}

// ---------- unlocking ----------

/// An unlock is refused where there is nothing to unlock, is done where the key is at hand, and asks
/// the password store otherwise; only a finished one changes the keys.
pub proof fn an_unlock_begins_where_it_can(
    state: &mut EncryptionState,
    now: i64,
    start: UnlockStart,
)
    requires
        call_ensures(control::begin_unlock, (state, now), start),
    ensures
        start is Refused <==> old(state).public_key is None,
        start is Done <==> old(state).public_key is Some && old(state).secret_key is Some,
        start is AskPass <==> old(state).public_key is Some && old(state).secret_key is None,
        final(state).secret_key == old(state).secret_key,
        final(state).public_key == old(state).public_key,
        start is Done ==> final(state).last_activity == now,
        !(start is Done) ==> final(state).last_activity == old(state).last_activity,
{
}

/// A finished unlock has the secret key that the store holds at hand, and starts the idle timer; a
/// failed one changes nothing.
pub proof fn an_unlock_takes_the_stored_key(
    state: &mut EncryptionState,
    dek: Dek,
    stored: Option<&str>,
    now: i64,
    done: Result<(), BusError>,
)
    requires
        call_ensures(control::finish_unlock, (state, dek, stored, now), done),
    ensures
        done is Ok ==> stored is Some && final(state).secret_key is Some
            && final(state).last_activity == now && final(state).public_key == old(
            state,
        ).public_key && encryption::unwrapped_bytes(
            dek@,
            crypto::base64_bytes(text::trimmed(stored->0@))->0,
        ) == Ok::<Seq<u8>, EncryptionError>(final(state).secret_key->0@),
        done is Err ==> *final(state) == *old(state),
        stored is None ==> done is Err,
{
}

/// The daemon locks itself once as many seconds have passed since the last activity as it was told;
/// it then has no secret key, and keeps its public one.
pub proof fn an_idle_daemon_locks_itself(state: &mut EncryptionState, now: i64, locked: bool)
    requires
        call_ensures(control::auto_lock_step, (state, now), locked),
        old(state).auto_lock_secs <= i64::MAX,
    ensures
        locked <==> old(state).secret_key is Some && old(state).auto_lock_secs > 0 && now - old(
            state,
        ).last_activity >= old(state).auto_lock_secs,
        locked ==> final(state).secret_key is None && final(state).public_key == old(
            state,
        ).public_key,
        !locked ==> *final(state) == *old(state),
{
    key_laws::the_idle_timer_runs_from_the_last_activity(*old(state), now);
}

/// A read that decrypted something starts the idle timer anew, and no other read does.
pub proof fn a_read_starts_the_idle_timer(state: &mut EncryptionState, decrypted: bool, now: i64)
    requires
        call_ensures(control::after_read, (state, decrypted, now), ()),
    ensures
        final(state).last_activity == if decrypted {
            now
        } else {
            old(state).last_activity
        },
        final(state).secret_key == old(state).secret_key,
        final(state).public_key == old(state).public_key,
{
}

/// A daemon starts locked, under the public key that the store holds; without encryption it has no
/// key.
pub proof fn a_daemon_starts_locked(
    cfg: config::EncryptionConfig,
    stored: Option<&str>,
    state: Result<EncryptionState, String>,
)
    requires
        call_ensures(startup::initial_encryption, (&cfg, stored), state),
    ensures
        !cfg.enabled ==> (state matches Ok(s) && s.public_key is None && s.secret_key is None),
        cfg.enabled ==> (state is Ok <==> stored is Some && crypto::base64_bytes(
            text::trimmed(stored->0@),
        ) is Some && crypto::base64_bytes(text::trimmed(stored->0@))->0.len() == 32),
        state matches Ok(s) ==> cfg.enabled ==> s.secret_key is None && s.public_key is Some && Some(
            s.public_key->0.bytes@,
        ) == crypto::base64_bytes(text::trimmed(stored->0@)) && s.auto_lock_secs
            == cfg.auto_lock_secs,
{
}

/// Do Not Disturb is after a restart what it was before.
pub proof fn do_not_disturb_outlives_a_restart(on: bool, kept: &str, read: bool)
    requires
        call_ensures(startup::dnd_to_meta, (on,), kept),
        call_ensures(startup::dnd_from_meta, (Some(kept),), read),
    ensures
        read == on,
{
    startup::dnd_survives_a_restart(on);
}

// ---------- settings ----------

/// What is written to the configuration is read from it.
pub proof fn what_was_configured_is_read(
    doc: &str,
    enabled: bool,
    entry: &str,
    edited: String,
    as_read: &str,
    read: Result<(bool, String), String>,
)
    requires
        call_ensures(settings::set_encryption_enabled_in_config, (doc, enabled, entry), Ok(edited)),
        settings::marks_no_date(doc@),
        as_read@ == edited@,
        call_ensures(settings::read_encryption_config, (as_read,), read),
    ensures
        read matches Ok(r) && r.0 == enabled && r.1@ == entry@,
{
}

/// Retention falls back to a month, and tidying to an hour, where what is configured is no duration.
pub proof fn retention_has_its_defaults(c: config::RetentionConfig, age: u64, interval: u64)
    requires
        call_ensures(config::RetentionConfig::max_age_secs, (&c,), age),
        call_ensures(config::RetentionConfig::cleanup_interval_secs, (&c,), interval),
    ensures
        config::duration_secs(c.max_age@) is None ==> age == 30 * 24 * 60 * 60,
        config::duration_secs(c.cleanup_interval@) is None ==> interval == 60 * 60,
        config::duration_secs(c.max_age@) matches Some(s) ==> age == s,
        config::duration_secs(c.cleanup_interval@) matches Some(s) ==> interval == s,
{
}

// ---------- the daemon's keys ----------

/// A daemon that seals under a public key knows its fingerprint and starts locked; unlocking gives it
/// the secret key, locking takes it away, and neither touches the public one.
pub proof fn locking_undoes_unlocking(
    pk: PublicKey,
    auto_lock_secs: u64,
    fresh: EncryptionState,
    unlocked: &mut EncryptionState,
    sk: SkBytes,
    now: i64,
    locked: &mut EncryptionState,
    was_unlocked: bool,
)
    requires
        call_ensures(EncryptionState::with_public_key, (pk, auto_lock_secs), fresh),
        *old(unlocked) == fresh,
        call_ensures(EncryptionState::unlock_at, (unlocked, sk, now), ()),
        *old(locked) == *final(unlocked),
        call_ensures(EncryptionState::lock, (locked,), was_unlocked),
    ensures
        fresh.public_key == Some(pk),
        fresh.secret_key is None,
        fresh.key_id@ == crypto::sha256(pk.bytes@).take(4),
        fresh.auto_lock_secs == auto_lock_secs,
        final(unlocked).secret_key == Some(sk),
        final(unlocked).last_activity == now,
        final(unlocked).public_key == Some(pk),
        was_unlocked,
        final(locked).secret_key is None,
        final(locked).public_key == Some(pk),
        final(locked).key_id == fresh.key_id,
        final(locked).auto_lock_secs == auto_lock_secs,
{
}

/// A mode that is locked has no secret key, and seals under the same key as before.
pub proof fn a_locked_mode_has_no_secret(mode: &mut EncMode)
    requires
        call_ensures(EncMode::lock, (mode,), ()),
    ensures
        !(*final(mode) is Unlocked),
        final(mode).spec_pk() == old(mode).spec_pk(),
        final(mode).spec_key_id() == old(mode).spec_key_id(),
        *final(mode) is Plaintext <==> *old(mode) is Plaintext,
{
}

/// The key that the password store gives is the digest of what it holds; an empty entry and a failure
/// give none.
pub proof fn the_password_store_gives_the_key(
    answer: Result<Vec<u8>, EncryptionError>,
    dek: Result<Dek, BusError>,
)
    requires
        call_ensures(control::key_from_pass, (answer,), dek),
    ensures
        dek is Ok <==> answer is Ok && answer->Ok_0@.len() > 0,
        dek matches Ok(k) ==> k@ == crypto::sha256(answer->Ok_0@),
{
}

/// Content that is too long for the cipher is refused and any other is stored.
pub proof fn what_fits_is_stored(
    notif: Notification,
    mode: EncMode,
    now: Timestamp,
    row: Result<NewRow, DbError>,
)
    requires
        call_ensures(store::encode, (&notif, &mode, now), row),
    ensures
        mode is Plaintext ==> row is Ok,
        row is Err <==> !(mode is Plaintext) && (vstd::utf8::encode_utf8(notif.summary@).len()
            > crypto::MAX_MESSAGE || vstd::utf8::encode_utf8(notif.body@).len()
            > crypto::MAX_MESSAGE || vstd::utf8::encode_utf8(notif.hints@).len()
            > crypto::MAX_MESSAGE),
{
}

// ---------- parameters of the bus ----------

/// A notification that is made from the bus's parameters holds them, each in its own field.
pub proof fn a_notification_holds_its_parameters(
    id: u32,
    app_name: String,
    app_icon: String,
    summary: String,
    body: String,
    actions: Vec<(String, String)>,
    hints: Vec<notification::Hint>,
    expire_timeout: i32,
    now: Timestamp,
    n: Notification,
    i: int,
)
    requires
        call_ensures(
            Notification::from_dbus_at,
            (id, app_name, app_icon, summary, body, actions, &hints, expire_timeout, now),
            n,
        ),
    ensures
        n.dbus_id == id,
        n.app_name@ == app_name@,
        n.app_icon@ == app_icon@,
        n.summary@ == summary@,
        n.body@ == body@,
        n.expire_timeout == expire_timeout,
        n.status is Unread,
        n.row_id is None,
        n.closed_reason is None,
        n.actions@.len() == actions@.len(),
        0 <= i < actions@.len() ==> n.actions@[i].id@ == actions@[i].0@ && n.actions@[i].label@
            == actions@[i].1@,
        notification::hint_value(hints@, "category"@) matches Some(v) ==> v matches
            notification::HintValue::Text(t) ==> n.category@ == t@,
        n.urgency is Low <==> notification::hint_value(hints@, "urgency"@) == Some(
            notification::HintValue::Byte(0),
        ),
        n.urgency is Critical <==> notification::hint_value(hints@, "urgency"@) == Some(
            notification::HintValue::Byte(2),
        ),
{
    assert(n@.actions.len() == n.actions@.len());
    if 0 <= i < actions@.len() {
        assert(n@.actions[i] == (actions@[i].0@, actions@[i].1@));
    }
}

// ---------- the command line ----------

/// Notifications are changed only where some are named or all are meant.
pub proof fn something_has_to_be_chosen(ids: usize, all: bool, r: Result<(), String>)
    requires
        call_ensures(cli::check_selection, (ids, all), r),
    ensures
        r is Ok <==> all || ids > 0,
{
}

/// A daemon that answers, locked or not, is not worked around.
pub proof fn a_running_daemon_is_not_worked_around(
    daemon: report::DaemonState,
    action: &str,
    r: Result<(), String>,
)
    requires
        call_ensures(report::refuse_if_daemon_running, (&daemon, action), r),
    ensures
        r is Err <==> daemon is Locked || daemon is Unlocked,
{
}

/// The entry that is named on the command line comes before the one that is configured.
pub proof fn a_named_entry_comes_first(named: &str, configured: &str, entry: String)
    requires
        call_ensures(report::chosen_entry, (named, configured), entry),
    ensures
        named@.len() > 0 ==> entry@ == named@,
        named@.len() == 0 ==> entry@ == configured@,
{
}

/// The password store is told to hold a fresh secret where the entry stays the same, and where the
/// new one gives nothing.
pub proof fn a_fresh_secret_is_made_where_none_is_there(
    old_entry: &str,
    new_entry: &str,
    new_ikm: Option<&Vec<u8>>,
    r: bool,
)
    requires
        call_ensures(keys::needs_fresh_ikm, (old_entry, new_entry, new_ikm), r),
    ensures
        old_entry@ == new_entry@ ==> r,
        new_ikm is None ==> r,
        new_ikm matches Some(b) ==> b@.len() == 0 ==> r,
        new_ikm matches Some(b) ==> b@.len() > 0 && old_entry@ != new_entry@ ==> !r,
{
}

/// What is found in the password store is told by the fingerprint of the key that it gives.
pub proof fn the_password_store_is_told_by_its_key(
    answer: Result<&[u8], String>,
    state: report::PassState,
)
    requires
        call_ensures(report::pass_state, (answer,), state),
    ensures
        answer matches Ok(ikm) ==> (state is Empty <==> ikm@.len() == 0),
        answer matches Ok(ikm) ==> state matches report::PassState::Usable(kid) ==> kid@
            == text::hex(crypto::sha256(crypto::sha256(ikm@)).take(4)),
        state is Unavailable <==> answer is Err,
{
}

/// The daemon is taken not to run exactly where the bus says that nobody has its name.
pub proof fn nobody_has_the_name(name: &str, r: bool)
    requires
        call_ensures(cli::is_service_unknown, (name,), r),
    ensures
        r <==> name@ == "org.freedesktop.DBus.Error.ServiceUnknown"@ || name@
            == "org.freedesktop.DBus.Error.NameHasNoOwner"@,
{
}

/// What the daemon says of Do Not Disturb is what the command line takes it to be.
pub proof fn do_not_disturb_is_heard_as_said(
    enabled: bool,
    allow_critical: bool,
    reply: String,
    heard: &str,
    on: bool,
)
    requires
        call_ensures(control::dnd_reply, (enabled, allow_critical), reply),
        heard@ == reply@,
        call_ensures(cli::dnd_enabled, (heard,), on),
    ensures
        on == enabled,
{
}

/// What the daemon counts is what the command line says.
pub proof fn counts_are_said_as_counted(
    unread: i64,
    total: i64,
    reply: String,
    heard: &str,
    line: String,
)
    requires
        call_ensures(control::count_reply, (unread, total), reply),
        heard@ == reply@,
        call_ensures(cli::count_text, (heard,), line),
    ensures
        line@ == "Notifications: "@ + text::signed_decimal(unread as int) + " unread, "@
            + text::signed_decimal(total as int) + " total"@,
{
}

// ---------- keys, from what the store keeps ----------

/// A rotation under keys that are drawn at random keeps every column too: whatever the new secret key
/// is, it opens what the old one opened.
pub proof fn a_drawn_rotation_keeps_every_column(
    ikm: &[u8],
    entry: &str,
    stored_secret: Option<&str>,
    stored_public: Option<&str>,
    rows: Vec<SealedRow>,
    r: Rotation,
    i: int,
    sk: Seq<u8>,
)
    requires
        call_ensures(
            keys::rotate_key,
            (ikm, entry, stored_secret, stored_public, &rows),
            Ok(r),
        ),
        0 <= i < rows@.len(),
        sk.len() == 32,
        crypto::x25519_public(sk) == r.public_key.bytes@,
    ensures
        r.rows@.len() == rows@.len(),
        r.rows@[i].id == rows@[i].id,
        ({
            let old_sk = keys::secret_behind(
                ikm@,
                entry@,
                keys::opt_text(stored_secret),
            )->Ok_0;
            let old_pk = keys::decoded_meta("enc_public_key"@, keys::opt_text(stored_public))->Ok_0;
            let new_pk = r.public_key.bytes@;
            let same = |tag: FieldTag, was: Option<Vec<u8>>, is: Option<Vec<u8>>|
                match was {
                    None => is is None,
                    Some(b) => is is Some && encryption::opened_field(sk, new_pk, tag, is->0@)
                        == encryption::opened_field(old_sk, old_pk, tag, b@),
                };
            &&& same(FieldTag::Summary, rows@[i].summary, r.rows@[i].summary)
            &&& same(FieldTag::Body, rows@[i].body, r.rows@[i].body)
            &&& same(FieldTag::Hints, rows@[i].hints, r.rows@[i].hints)
        }),
{
    let old_sk = keys::secret_behind(ikm@, entry@, keys::opt_text(stored_secret))->Ok_0;
    let old_pk = keys::decoded_meta("enc_public_key"@, keys::opt_text(stored_public))->Ok_0;
    let dek = crypto::sha256(ikm@);
    let (new_sk, nonce) = choose|new_sk: Seq<u8>, nonce: Seq<u8>|
        {
            &&& new_sk.len() == 32
            &&& crypto::drawn(new_sk)
            &&& crypto::drawn_nonce(nonce)
            &&& #[trigger] keys::rotates(r, rows@, old_sk, old_pk, new_sk, dek, nonce)
        };
    key_laws::the_new_key_opens_what_the_old_one_did(
        r,
        rows@,
        old_sk,
        old_pk,
        new_sk,
        dek,
        nonce,
        i,
        sk,
    );
}

/// Rows are sealed anew all together or not at all: one column that does not open fails the whole.
pub proof fn rows_are_sealed_anew_together(
    rows: Vec<SealedRow>,
    old_sk: SkBytes,
    old_pk: PublicKey,
    new_pk: PublicKey,
    out: Result<Vec<SealedRow>, String>,
    i: int,
)
    requires
        call_ensures(keys::reseal_rows, (&rows, &old_sk, &old_pk, &new_pk), out),
        0 <= i < rows@.len(),
    ensures
        out is Ok ==> out->Ok_0@.len() == rows@.len() && key_laws::is_readable(
            old_sk@,
            old_pk.bytes@,
            FieldTag::Summary,
            rows@[i].summary,
        ) && key_laws::is_readable(old_sk@, old_pk.bytes@, FieldTag::Body, rows@[i].body)
            && key_laws::is_readable(old_sk@, old_pk.bytes@, FieldTag::Hints, rows@[i].hints),
        out is Err ==> exists|k: int|
            0 <= k < rows@.len() && {
                ||| !key_laws::is_readable(
                    old_sk@,
                    old_pk.bytes@,
                    FieldTag::Summary,
                    (#[trigger] rows@[k]).summary,
                )
                ||| !key_laws::is_readable(old_sk@, old_pk.bytes@, FieldTag::Body, rows@[k].body)
                ||| !key_laws::is_readable(old_sk@, old_pk.bytes@, FieldTag::Hints, rows@[k].hints)
            },
{
    if let Ok(list) = out {
        assert(keys::is_reseal_of_row(
            rows@[i],
            old_sk@,
            old_pk.bytes@,
            new_pk.bytes@,
            list@[i],
        ));
    } else {
        let e = out->Err_0@;
        let k = choose|k: int|
            {
                &&& 0 <= k < rows@.len()
                &&& keys::row_problem(#[trigger] rows@[k], old_sk@, old_pk.bytes@) == Some(e)
                &&& forall|j: int|
                    0 <= j < k ==> keys::row_problem(
                        #[trigger] rows@[j],
                        old_sk@,
                        old_pk.bytes@,
                    ) is None
            };
        key_laws::an_unreadable_column_stops_a_rotation(rows@[k], old_sk@, old_pk.bytes@);
    }
}

/// Fresh keys are made of what the password store holds, and found with it again.
pub proof fn fresh_keys_are_found_again(
    ikm: &[u8],
    m: keys::KeyMaterial,
    entry: &str,
    stored: &str,
    found: Result<(Dek, SkBytes), String>,
)
    requires
        call_ensures(keys::init_material, (ikm,), Ok(m)),
        stored@ == m.wrapped_secret@,
        call_ensures(keys::load_secret, (ikm, entry, Some(stored)), found),
    ensures
        found is Ok,
        found matches Ok(k) ==> k.0@ == crypto::sha256(ikm@) && crypto::base64_bytes(
            m.public_key@,
        ) == Some(crypto::x25519_public(k.1@)),
{
    let (sk, nonce) = choose|sk: Seq<u8>, nonce: Seq<u8>|
        {
            &&& sk.len() == 32
            &&& crypto::drawn(sk)
            &&& crypto::drawn_nonce(nonce)
            &&& #[trigger] keys::keeps_with(m, sk, crypto::sha256(ikm@), nonce)
        };
    key_laws::fresh_keys_are_found(m, sk, ikm@, nonce, entry@);
}

/// No keys are made of nothing.
pub proof fn no_keys_are_made_of_nothing(ikm: &[u8], m: Result<keys::KeyMaterial, String>)
    requires
        call_ensures(keys::init_material, (ikm,), m),
    ensures
        m is Ok <==> ikm@.len() > 0,
{
}

/// A fresh pair of keys unlocks the daemon: with what the password store holds, the secret key behind
/// the stored public key is at hand.
pub proof fn fresh_keys_unlock_the_daemon(
    ikm: &[u8],
    m: keys::KeyMaterial,
    stored: &str,
    dek: Dek,
    state: &mut EncryptionState,
    now: i64,
    done: Result<(), BusError>,
)
    requires
        call_ensures(keys::init_material, (ikm,), Ok(m)),
        stored@ == m.wrapped_secret@,
        dek@ == crypto::sha256(ikm@),
        call_ensures(control::finish_unlock, (state, dek, Some(stored), now), done),
    ensures
        done is Ok,
        final(state).secret_key is Some,
        crypto::base64_bytes(m.public_key@) == Some(
            crypto::x25519_public(final(state).secret_key->0@),
        ),
{
    let (sk, nonce) = choose|sk: Seq<u8>, nonce: Seq<u8>|
        {
            &&& sk.len() == 32
            &&& crypto::drawn(sk)
            &&& crypto::drawn_nonce(nonce)
            &&& #[trigger] keys::keeps_with(m, sk, crypto::sha256(ikm@), nonce)
        };
    assert(control::stored_secret(dek@, Some(stored@)) == Ok::<Seq<u8>, Seq<char>>(sk));
}

// ---------- numbers on the bus ----------

/// Numbers go up by one, from 1 to the greatest and then from 1 again, and 0 is none.
pub proof fn numbers_go_up_by_one(inner: &mut NotificationsDaemonInner, id: u32)
    requires
        call_ensures(NotificationsDaemonInner::next_notification_id, (inner,), id),
        old(inner).wf(),
    ensures
        id == old(inner).next(),
        id != 0,
        id < u32::MAX ==> final(inner).next() == id + 1,
        id == u32::MAX ==> final(inner).next() == 1,
        final(inner).active() == old(inner).active(),
{
}

/// A request that replaces a notification uses up no number; any other uses up exactly one.
pub proof fn a_replacement_uses_up_no_number(
    inner: &mut NotificationsDaemonInner,
    engine: RulesEngine,
    req: NotifyRequest,
    now: Timestamp,
    out: NotifyOutcome,
)
    requires
        call_ensures(notifications::notify, (inner, &engine, req, now), out),
        old(inner).wf(),
    ensures
        req.replaces_id != 0 ==> final(inner).next() == old(inner).next(),
        req.replaces_id == 0 && out.id < u32::MAX ==> final(inner).next() == out.id + 1,
        req.replaces_id == 0 && out.id == u32::MAX ==> final(inner).next() == 1,
        final(inner).next() != 0,
{
}

/// A shown notification is active, and every other is as before.
pub proof fn a_shown_notification_is_active(inner: &mut NotificationsDaemonInner, id: u32)
    requires
        call_ensures(NotificationsDaemonInner::mark_active, (inner, id), ()),
    ensures
        final(inner).active().contains(id),
        forall|other: u32|
            other != id ==> (#[trigger] final(inner).active().contains(other) <==> old(
                inner,
            ).active().contains(other)),
        final(inner).next() == old(inner).next(),
{
}

/// A closed notification is active no more, and every other is as before.
pub proof fn a_closed_notification_is_not_active(inner: &mut NotificationsDaemonInner, id: u32)
    requires
        call_ensures(NotificationsDaemonInner::mark_closed, (inner, id), ()),
    ensures
        !final(inner).active().contains(id),
        forall|other: u32|
            other != id ==> (#[trigger] final(inner).active().contains(other) <==> old(
                inner,
            ).active().contains(other)),
        final(inner).next() == old(inner).next(),
{
}

// ---------- names and numbers ----------

/// An urgency has a greater number than every less urgent one.
pub proof fn numbers_grow_with_urgency(urgency: Urgency, n: u32)
    requires
        call_ensures(Urgency::as_u32, (&urgency,), n),
    ensures
        urgency is Low <==> n < 1,
        urgency is Critical <==> n > 1,
        n <= 2,
{
}

/// A byte stands for the urgency of that number, and for normal where no urgency has it.
pub proof fn a_byte_stands_for_its_urgency(val: u8, urgency: Urgency, n: u32)
    requires
        call_ensures(Urgency::from_u8, (val,), urgency),
        call_ensures(Urgency::as_u32, (&urgency,), n),
    ensures
        val <= 2 ==> n == val,
        val > 2 ==> urgency is Normal,
{
}

/// An urgency is known by its name, and no other text is the name of one.
pub proof fn an_urgency_is_known_by_its_name(
    urgency: Urgency,
    name: &'static str,
    asked: &str,
    found: Option<Urgency>,
)
    requires
        call_ensures(Urgency::as_str, (&urgency,), name),
        call_ensures(Urgency::from_name, (asked,), found),
    ensures
        found == Some(urgency) <==> asked@ == name@,
        urgency is Low <==> name@ == "low"@,
        urgency is Normal <==> name@ == "normal"@,
        urgency is Critical <==> name@ == "critical"@,
{
    reveal_strlit("low");
    reveal_strlit("normal");
    reveal_strlit("critical");
    assert("low"@.len() == 3 && "normal"@.len() == 6 && "critical"@.len() == 8);
}

/// A status is known by its name, and no other text is the name of one.
pub proof fn a_status_is_known_by_its_name(
    status: NotificationStatus,
    name: &'static str,
    asked: &str,
    found: Option<NotificationStatus>,
)
    requires
        call_ensures(NotificationStatus::as_str, (&status,), name),
        call_ensures(NotificationStatus::from_str, (asked,), found),
    ensures
        found == Some(status) <==> asked@ == name@,
        status is Unread <==> name@ == "unread"@,
        status is Read <==> name@ == "read"@,
        status is Cleared <==> name@ == "cleared"@,
{
    reveal_strlit("unread");
    reveal_strlit("read");
    reveal_strlit("cleared");
    assert("unread"@.len() == 6 && "read"@.len() == 4 && "cleared"@.len() == 7);
}

/// A reason is known by its number, which is one of 1 to 4.
pub proof fn a_reason_is_known_by_its_number(
    reason: ClosedReason,
    code: u32,
    asked: u32,
    found: Option<ClosedReason>,
)
    requires
        call_ensures(ClosedReason::code, (&reason,), code),
        call_ensures(ClosedReason::from_code, (asked,), found),
    ensures
        found == Some(reason) <==> asked == code,
        found is Some <==> 1 <= asked <= 4,
        reason is Expired <==> code == 1,
        reason is Dismissed <==> code == 2,
        reason is ClosedByCall <==> code == 3,
        reason is Undefined <==> code == 4,
{
}

// ---------- changes to the configuration ----------

/// An edit gives the changed text where there is one, and passes its problem on where there is one.
pub proof fn an_edit_is_taken_as_it_is(
    edited: Result<Option<String>, String>,
    out: Result<String, String>,
)
    requires
        call_ensures(settings::take_edit, (edited,), out),
    ensures
        out is Ok <==> edited is Ok && edited->Ok_0 is Some,
        out matches Ok(t) ==> edited matches Ok(Some(given)) ==> t@ == given@,
        out matches Err(e) ==> edited matches Err(problem) ==> e@ == problem@,
{
}

/// What is said of a switch tells on from off and names the configuration.
pub proof fn a_switch_is_said_as_made(config_path: &str, on: String, off: String)
    requires
        call_ensures(report::switched_text, (true, config_path), on),
        call_ensures(report::switched_text, (false, config_path), off),
    ensures
        on@ != off@,
        on@.subrange(0, 22) == "Encryption enabled in "@,
        off@.subrange(0, 23) == "Encryption disabled in "@,
        on@.subrange(22, 22int + config_path@.len()) == config_path@,
        off@.subrange(23, 23int + config_path@.len()) == config_path@,
{
    reveal_strlit("Encryption enabled in ");
    reveal_strlit("Encryption disabled in ");
    assert("Encryption enabled in "@.len() == 22 && "Encryption disabled in "@.len() == 23);
    assert(on@.subrange(0, 22) =~= "Encryption enabled in "@);
    assert(off@.subrange(0, 23) =~= "Encryption disabled in "@);
    assert(on@[11] == "Encryption enabled in "@[11]);
    assert(off@[11] == "Encryption disabled in "@[11]);
}

// ---------- hints ----------

/// Of the hints, the category and the desktop entry are read as texts, and the desktop entry under
/// its second spelling only where the first is absent.
pub proof fn hints_are_read_by_their_names(
    hints: &Vec<notification::Hint>,
    read: (Urgency, String, String, String),
)
    requires
        call_ensures(notification::extract_hints, (hints,), read),
    ensures
        ({
            let hint = |key: Seq<char>| notification::hint_value(hints@, key);
            &&& read.0 is Low <==> hint("urgency"@) == Some(notification::HintValue::Byte(0))
            &&& read.0 is Critical <==> hint("urgency"@) == Some(notification::HintValue::Byte(2))
            &&& match hint("category"@) {
                Some(notification::HintValue::Text(t)) => read.1@ == t@,
                _ => read.1@.len() == 0,
            }
            &&& match hint("desktop-entry"@) {
                Some(notification::HintValue::Text(t)) => read.2@ == t@,
                Some(_) => read.2@.len() == 0,
                None => match hint("desktop_entry"@) {
                    Some(notification::HintValue::Text(t)) => read.2@ == t@,
                    _ => read.2@.len() == 0,
                },
            }
        }),
{
}

// ---------- what is counted ----------

/// What `olha count` asks for is what the daemon looks for.
pub proof fn a_count_looks_for_what_was_asked(
    f: cli::CountFilter,
    request: String,
    sent: &str,
    read: NotificationFilter,
)
    requires
        call_ensures(cli::count_request, (&f,), request),
        sent@ == request@,
        call_ensures(control::parse_filter, (sent,), read),
    ensures
        pattern::opt_text(read.app_name) == pattern::opt_text(f.app),
        pattern::opt_text(read.category) == pattern::opt_text(f.category),
        pattern::opt_text(read.search) == pattern::opt_text(f.search),
        pattern::opt_text(read.since) == pattern::opt_text(f.since),
        pattern::opt_text(read.until) == pattern::opt_text(f.until),
        f.urgency is None ==> read.urgency is None,
        f.urgency is Some && f.urgency->0@ == "critical"@ ==> read.urgency == Some(
            Urgency::Critical,
        ),
        f.status is None ==> read.status is None,
        f.status is Some && f.status->0@ == "unread"@ ==> read.status == Some(
            NotificationStatus::Unread,
        ),
        read.offset is None,
{
    notification::urgency_round_trip(Urgency::Critical);
    notification::status_round_trip(NotificationStatus::Unread);
}

// ---------- modes and timers ----------

/// An operation on the store has the daemon's keys: none without a public one, and the secret one
/// only while it is at hand.
pub proof fn an_operation_has_the_daemons_keys(state: EncryptionState, mode: EncMode)
    requires
        call_ensures(EncryptionState::enc_mode, (&state,), mode),
    ensures
        state.public_key is None ==> mode is Plaintext,
        state.public_key matches Some(pk) ==> state.secret_key is None ==> mode == (EncMode::Locked {
            pk,
            key_id: state.key_id,
        }),
        state.public_key matches Some(pk) ==> state.secret_key matches Some(sk) ==> mode == (
        EncMode::Unlocked { pk, key_id: state.key_id, sk }),
{
}

/// The seconds that are told until the daemon locks itself are those until it does.
pub proof fn the_seconds_told_are_those_left(
    state: EncryptionState,
    now: i64,
    left: Option<u64>,
    later: i64,
    due: bool,
)
    requires
        call_ensures(EncryptionState::idle_until_lock_secs_at, (&state, now), left),
        call_ensures(EncryptionState::should_auto_lock_at, (&state, later), due),
        state.auto_lock_secs <= i64::MAX,
        left is Some,
        state.last_activity <= now <= later,
    ensures
        due <==> later - now >= left->0 || state.auto_lock_secs <= later - state.last_activity,
        later - now >= left->0 ==> due,
        left->0 > 0 ==> (due <==> later - now >= left->0),
{
    key_laws::the_idle_timer_runs_from_the_last_activity(state, now);
    key_laws::the_idle_timer_runs_from_the_last_activity(state, later);
}

// ---------- hints ----------

/// Buttons are read in pairs of an id and a label, in order; one that is left over is dropped.
pub proof fn buttons_are_read_in_pairs(list: Vec<String>, out: Vec<notification::Action>, i: int)
    requires
        call_ensures(notification::parse_actions, (&list,), out),
        0 <= i < out@.len(),
    ensures
        out@.len() == list@.len() / 2,
        out@[i].id@ == list@[2 * i]@,
        out@[i].label@ == list@[2 * i + 1]@,
{
    let pairs = notification::action_pairs(out@);
    assert(pairs.len() == out@.len());
    assert(pairs[i] == (out@[i].id@, out@[i].label@));
}

/// An urgency is a byte of the hint of that name, and normal where there is none.
pub proof fn an_urgency_is_a_byte(hints: Vec<notification::Hint>, urgency: Urgency)
    requires
        call_ensures(notification::extract_urgency, (&hints,), urgency),
    ensures
        match notification::hint_value(hints@, "urgency"@) {
            Some(notification::HintValue::Byte(b)) => (b == 0 <==> urgency is Low) && (b == 2
                <==> urgency is Critical),
            _ => urgency is Normal,
        },
{
}

// ---------- other settings ----------

/// Encryption is off, and the entry the usual one, where the configuration does not say otherwise;
/// the place of the store is the one that it names.
pub proof fn settings_are_those_configured(
    doc: &str,
    read: Result<(bool, String), String>,
    path: Result<Option<String>, String>,
)
    requires
        call_ensures(settings::read_encryption_config, (doc,), read),
        call_ensures(settings::db_path_from_config, (doc,), path),
    ensures
        read is Ok <==> settings::toml_error(doc@) is None,
        path is Ok <==> settings::toml_error(doc@) is None,
        read matches Ok(r) ==> {
            &&& r.0 <==> settings::toml_flag(doc@, "encryption"@, "enabled"@) == Some(true)
            &&& settings::toml_text(doc@, "encryption"@, "pass_entry"@) is None ==> r.1@
                == "olha/db-key"@
            &&& settings::toml_text(doc@, "encryption"@, "pass_entry"@) matches Some(t) ==> r.1@
                == t
        },
        path matches Ok(p) ==> match p {
            Some(t) => settings::toml_text(doc@, "general"@, "db_path"@) == Some(t@),
            None => settings::toml_text(doc@, "general"@, "db_path"@) is None,
        },
{
}

/// Asking for more is told more: nothing and two give information, three and above all there is, and
/// one warnings alone.
pub proof fn logs_tell_what_was_asked_for(verbose: u8, level: startup::LogLevel)
    requires
        call_ensures(startup::log_level, (verbose,), level),
    ensures
        level is Warn <==> verbose == 1,
        level is Debug <==> verbose > 2,
{
}

/// Only a critical notification gets through Do Not Disturb, and only where that is allowed.
pub proof fn only_what_is_critical_gets_through(urgency: Urgency, allow_critical: bool, r: bool)
    requires
        call_ensures(notifications::dnd_suppresses, (urgency, allow_critical), r),
    ensures
        r <==> !allow_critical || !(urgency is Critical),
{
}

/// Keys of a rule's commands that no click has are all warned of, each by its name.
pub proof fn keys_without_a_click_are_warned_of(rules_list: Vec<NotificationRule>, out: Vec<String>)
    requires
        call_ensures(rules::dead_key_warnings, (&rules_list,), out),
        rules_list@.len() == 1,
        rules_list@[0].on_action is Some,
        rules_list@[0].on_action->0@.len() == 1,
    ensures
        ({
            let pair = rules_list@[0].on_action->0@[0];
            let key = pair.0@;
            let named = key == "clear"@ || key == "ignore"@ || key == "none"@;
            &&& named <==> out@.len() == 1
            &&& !named <==> out@.len() == 0
            &&& named ==> text::contains(out@[0]@, key)
        }),
{
    let rule = rules_list@[0];
    let pairs = rule.on_action->0@;
    let key = pairs[0].0@;
    let said = text::texts(out@);
    reveal_with_fuel(rules::all_warnings, 2);
    reveal_with_fuel(rules::key_warnings, 2);
    assert(rules_list@.drop_last() =~= Seq::<NotificationRule>::empty());
    let all = rules::text_pairs(pairs);
    assert(all =~= seq![(pairs[0].0@, pairs[0].1@)]);
    assert(all.drop_last() =~= Seq::<(Seq<char>, Seq<char>)>::empty());
    assert(rules::all_warnings(rules_list@) =~= rules::key_warnings(all));
    assert(said.len() == out@.len());
    if said.len() == 1 {
        assert(said[0] == out@[0]@);
        let head = "[rules.on_action] key \""@;
        let line = rules::never_fires(key);
        let from = head.len() as int;
        assert(line.subrange(from, from + key.len()) =~= key);
    }
}

// ---------- what stops an operation ----------

/// A public key is taken from the store exactly where it is the base64 of 32 bytes.
pub proof fn a_public_key_has_its_length(stored: Option<&str>, pk: Result<PublicKey, String>)
    requires
        call_ensures(keys::load_public_key, (stored,), pk),
    ensures
        pk is Ok <==> stored is Some && crypto::base64_bytes(text::trimmed(stored->0@)) is Some
            && crypto::base64_bytes(text::trimmed(stored->0@))->0.len() == 32,
        pk matches Ok(k) ==> Some(k.bytes@) == crypto::base64_bytes(text::trimmed(stored->0@)),
{
}

/// A secret key is taken from the store exactly where the password store gives something, and what
/// is stored unwraps under it to 32 bytes.
pub proof fn a_secret_key_has_its_length(
    ikm: &[u8],
    entry: &str,
    stored: Option<&str>,
    found: Result<(Dek, SkBytes), String>,
)
    requires
        call_ensures(keys::load_secret, (ikm, entry, stored), found),
    ensures
        ({
            let blob = crypto::base64_bytes(text::trimmed(stored->0@));
            let bytes = encryption::unwrapped_bytes(crypto::sha256(ikm@), blob->0);
            &&& found is Ok <==> ikm@.len() > 0 && stored is Some && blob is Some && bytes is Ok
                && bytes->Ok_0.len() == 32
            &&& found matches Ok(k) ==> k.0@ == crypto::sha256(ikm@) && k.1@ == bytes->Ok_0
        }),
{
}

/// A rotation fails exactly where one of the keys cannot be had, or a column of a row does not open.
pub proof fn a_rotation_fails_where_it_must(
    ikm: &[u8],
    entry: &str,
    stored_secret: Option<&str>,
    stored_public: Option<&str>,
    rows: Vec<SealedRow>,
    new_sk: SkBytes,
    nonce: [u8; 24],
    out: Result<Rotation, String>,
)
    requires
        call_ensures(
            keys::rotate_key_with,
            (ikm, entry, stored_secret, stored_public, &rows, &new_sk, &nonce),
            out,
        ),
    ensures
        ({
            let secret = keys::secret_behind(ikm@, entry@, keys::opt_text(stored_secret));
            let public = keys::decoded_meta("enc_public_key"@, keys::opt_text(stored_public));
            let readable = |row: SealedRow|
                {
                    &&& key_laws::is_readable(
                        secret->Ok_0,
                        public->Ok_0,
                        FieldTag::Summary,
                        row.summary,
                    )
                    &&& key_laws::is_readable(secret->Ok_0, public->Ok_0, FieldTag::Body, row.body)
                    &&& key_laws::is_readable(
                        secret->Ok_0,
                        public->Ok_0,
                        FieldTag::Hints,
                        row.hints,
                    )
                };
            out is Ok <==> secret is Ok && public is Ok && public->Ok_0.len() == 32 && forall|
                i: int,
            |
                0 <= i < rows@.len() ==> readable(#[trigger] rows@[i])
        }),
{
    let secret = keys::secret_behind(ikm@, entry@, keys::opt_text(stored_secret));
    let public = keys::decoded_meta("enc_public_key"@, keys::opt_text(stored_public));
    if let Ok(r) = out {
        assert forall|i: int| 0 <= i < rows@.len() implies keys::row_problem(
            #[trigger] rows@[i],
            secret->Ok_0,
            public->Ok_0,
        ) is None by {
            assert(keys::is_reseal_of_row(
                rows@[i],
                secret->Ok_0,
                public->Ok_0,
                r.public_key.bytes@,
                r.rows@[i],
            ));
        }
    }
    assert forall|i: int| 0 <= i < rows@.len() implies (keys::row_problem(
        #[trigger] rows@[i],
        secret->Ok_0,
        public->Ok_0,
    ) is None <==> {
        &&& key_laws::is_readable(
            secret->Ok_0,
            public->Ok_0,
            FieldTag::Summary,
            rows@[i].summary,
        )
        &&& key_laws::is_readable(secret->Ok_0, public->Ok_0, FieldTag::Body, rows@[i].body)
        &&& key_laws::is_readable(secret->Ok_0, public->Ok_0, FieldTag::Hints, rows@[i].hints)
    }) by {
        key_laws::an_unreadable_column_stops_a_rotation(rows@[i], secret->Ok_0, public->Ok_0);
    }
}

/// A failed unlock is a matter of the password store exactly where what is stored could be read.
pub proof fn a_failed_unlock_says_whose_matter_it_is(
    state: &mut EncryptionState,
    dek: Dek,
    stored: Option<&str>,
    now: i64,
    e: BusError,
)
    requires
        call_ensures(control::finish_unlock, (state, dek, stored, now), Err(e)),
    ensures
        e is AuthFailed <==> stored is Some && crypto::base64_bytes(
            text::trimmed(stored->0@),
        ) is Some,
        !(e is NotSupported),
        *final(state) == *old(state),
{
}

} // verus!
