//! The notification service that applications talk to.

use crate::json;
use crate::notification;
use crate::notification::{
    ClosedReason, Hint, Notification, NotificationStatus, NotificationView, Urgency,
};
use crate::rules;
use crate::rules::{RuleAction, RulesEngine};
use crate::text;
use crate::time::Timestamp;
use std::collections::HashMap;
use vstd::prelude::*;

verus! {

/// Whether Do Not Disturb keeps a notification of that urgency quiet.
pub open spec fn silenced(urgency: Urgency, allow_critical: bool) -> bool {
    !(allow_critical && urgency == Urgency::Critical)
}

/// Whether Do Not Disturb, where it is on, keeps a notification of that urgency quiet. Only a
/// critical one gets through, and only where that is allowed.
pub fn dnd_suppresses(urgency: Urgency, allow_critical: bool) -> (r: bool)
    ensures
        r == silenced(urgency, allow_critical),
{
    !(allow_critical && urgency == Urgency::Critical)
}

/// Whether a notification that was stored is announced.
pub fn announces(dnd: bool, urgency: Urgency, allow_critical: bool) -> (r: bool)
    ensures
        r == !(dnd && silenced(urgency, allow_critical)),
{
    !(dnd && dnd_suppresses(urgency, allow_critical))
}

/// The numbers that notifications have on the bus.
#[derive(Clone)]
pub struct NotificationsDaemonInner {
    next_id: u32,
    active_ids: HashMap<u32, bool>,
}

impl NotificationsDaemonInner {
    /// The number that the next notification gets.
    pub closed spec fn next(self) -> u32 {
        self.next_id
    }

    /// The numbers of notifications that are not closed.
    pub closed spec fn active(self) -> Set<u32> {
        self.active_ids@.dom()
    }

    /// The next number is never 0, which on the bus stands for no notification.
    pub open spec fn wf(self) -> bool {
        self.next() != 0
    }

    /// No notifications yet; the first one gets number 1.
    pub fn new() -> (inner: NotificationsDaemonInner)
        ensures
            inner.wf(),
            inner.next() == 1,
            inner.active() == Set::<u32>::empty(),
    {
        let inner = NotificationsDaemonInner { next_id: 1, active_ids: HashMap::new() };
        assert(inner.active() =~= Set::<u32>::empty());
        inner
    }

    /// The number for a notification. After the greatest number comes 1.
    pub fn next_notification_id(&mut self) -> (id: u32)
        requires
            old(self).wf(),
        ensures
            final(self).wf(),
            id == old(self).next(),
            id != 0,
            final(self).next() == successor(old(self).next()),
            final(self).active() == old(self).active(),
    {
        let id: u32 = self.next_id;
        self.next_id = self.next_id.wrapping_add(1);
        if self.next_id == 0 {
            self.next_id = 1;
        }
        id
    }

    /// A notification was closed.
    pub fn mark_closed(&mut self, id: u32)
        ensures
            final(self).next() == old(self).next(),
            final(self).active() == old(self).active().remove(id),
    {
        broadcast use vstd::std_specs::hash::group_hash_axioms;

        self.active_ids.remove(&id);
        assert(self.active() =~= old(self).active().remove(id));
    }

    /// A notification is shown.
    pub fn mark_active(&mut self, id: u32)
        ensures
            final(self).next() == old(self).next(),
            final(self).active() == old(self).active().insert(id),
    {
        broadcast use vstd::std_specs::hash::group_hash_axioms;

        self.active_ids.insert(id, true);
        assert(self.active() =~= old(self).active().insert(id));
    }
}

/// The number after a number; 1 after the greatest.
pub open spec fn successor(id: u32) -> u32 {
    if id == u32::MAX {
        1
    } else {
        (id + 1) as u32
    }
}

/// The number that comes `n` notifications after `id`.
pub open spec fn nth_after(id: u32, n: nat) -> u32
    decreases n,
{
    if n == 0 {
        id
    } else {
        successor(nth_after(id, (n - 1) as nat))
    }
}

/// Numbers come in a cycle of all numbers but 0.
pub proof fn numbers_count_in_a_cycle(id: u32, n: nat)
    requires
        id != 0,
    ensures
        nth_after(id, n) == (id - 1 + n) % 0xffff_ffff + 1,
        nth_after(id, n) != 0,
    decreases n,
{
    if n > 0 {
        numbers_count_in_a_cycle(id, (n - 1) as nat);
        let m: int = 0xffff_ffff;
        let before = (id - 1 + n - 1) % m;
        vstd::arithmetic::div_mod::lemma_add_mod_noop_right(1, id - 1 + n - 1, m);
        assert((id - 1 + n) % m == (1 + before) % m);
    }
}

/// No number is given out twice before all have been given out.
pub proof fn numbers_are_distinct_for_a_cycle(id: u32, a: nat, b: nat)
    requires
        id != 0,
        a < b < a + 0xffff_ffff,
    ensures
        nth_after(id, a) != nth_after(id, b),
{
    numbers_count_in_a_cycle(id, a);
    numbers_count_in_a_cycle(id, b);
    let m: int = 0xffff_ffff;
    let x = id - 1 + a;
    let y = id - 1 + b;
    if x % m == y % m {
        vstd::arithmetic::div_mod::lemma_fundamental_div_mod(x, m);
        vstd::arithmetic::div_mod::lemma_fundamental_div_mod(y, m);
        let qx = x / m;
        let qy = y / m;
        assert(y - x == m * (qy - qx)) by (nonlinear_arith)
            requires
                x == m * qx + x % m,
                y == m * qy + y % m,
                x % m == y % m,
        ;
        assert(false) by (nonlinear_arith)
            requires
                m == 0xffff_ffffint,
                0 < y - x < m,
                y - x == m * (qy - qx),
        ;
    }
}

/// What an application asks for.
pub struct NotifyRequest {
    pub app_name: String,
    /// The number of a notification to replace; 0 for a new one.
    pub replaces_id: u32,
    pub app_icon: String,
    pub summary: String,
    pub body: String,
    /// Ids and labels of buttons in turn.
    pub actions: Vec<String>,
    pub hints: Vec<Hint>,
    pub expire_timeout: i32,
}

/// The desktop entry that the hints give: as `desktop-entry`, and as `desktop_entry` where
/// that one is empty.
pub open spec fn hinted_entry(hints: Seq<Hint>) -> Seq<char> {
    let first = notification::hinted_text(hints, "desktop-entry"@);
    if first.len() == 0 {
        notification::hinted_text(hints, "desktop_entry"@)
    } else {
        first
    }
}

/// The notification that a request describes under a number, received at `now`.
pub open spec fn requested(req: NotifyRequest, id: u32, now: Timestamp) -> NotificationView {
    NotificationView {
        row_id: None,
        dbus_id: id,
        app_name: req.app_name@,
        app_icon: req.app_icon@,
        summary: req.summary@,
        body: req.body@,
        urgency: notification::hinted_urgency(req.hints@),
        category: notification::hinted_text(req.hints@, "category"@),
        desktop_entry: hinted_entry(req.hints@),
        actions: notification::paired(req.actions@),
        hints: json::json_text(json::ordered_tree(notification::hints_tree(req.hints@))),
        status: NotificationStatus::Unread,
        expire_timeout: req.expire_timeout,
        created_at: notification::moment(now),
        updated_at: notification::moment(now),
        closed_reason: None,
    }
}

/// What a rule makes of a notification: nothing to store, or the notification to store.
pub open spec fn treated(n: NotificationView, rule: Option<rules::RuleView>) -> Option<
    NotificationView,
> {
    match rule {
        Some(r) => match r.action {
            RuleAction::Ignore => None,
            RuleAction::Clear => Some(
                NotificationView { status: NotificationStatus::Cleared, ..n },
            ),
            RuleAction::Keep => Some(n),
        },
        None => Some(n),
    }
}

/// What becomes of a request.
pub struct NotifyOutcome {
    /// The number that the application is told.
    pub id: u32,
    /// The notification that is to be stored; none where a rule ignores it.
    pub store: Option<Notification>,
    /// The rule that decided.
    pub matching_rule: Option<String>,
}

/// The number of a request: that of the notification it replaces, or the next one.
pub open spec fn number_for(inner: NotificationsDaemonInner, req: NotifyRequest) -> u32 {
    if req.replaces_id != 0 {
        req.replaces_id
    } else {
        inner.next()
    }
}

/// Takes a request at `now`: gives it a number, has the rules decide, and says what is to be
/// stored.
pub fn notify(
    inner: &mut NotificationsDaemonInner,
    engine: &RulesEngine,
    req: NotifyRequest,
    now: Timestamp,
) -> (out: NotifyOutcome)
    requires
        old(inner).wf(),
    ensures
        final(inner).wf(),
        out.id == number_for(*old(inner), req),
        out.id != 0,
        final(inner).next() == if req.replaces_id != 0 {
            old(inner).next()
        } else {
            successor(old(inner).next())
        },
        final(inner).active() == old(inner).active().insert(out.id),
        ({
            let n = requested(req, out.id, now);
            let rule = rules::first_applying(engine@, n);
            &&& match out.store {
                Some(s) => treated(n, rule) == Some(s@),
                None => treated(n, rule) is None,
            }
            &&& match rule {
                Some(r) => out.matching_rule is Some && out.matching_rule->0@ == r.name,
                None => out.matching_rule is None,
            }
        }),
        out.store is Some && notification::distinct_hints(req.hints@) ==> json::compact(
            out.store->0.hints@,
        ) == Some(out.store->0.hints@),
        out.id == if req.replaces_id != 0 {
            req.replaces_id
        } else {
            old(inner).next()
        },
        out.store matches Some(s) ==> {
            &&& s.dbus_id == out.id
            &&& s.app_name@ == req.app_name@
            &&& s.app_icon@ == req.app_icon@
            &&& s.summary@ == req.summary@
            &&& s.body@ == req.body@
            &&& s.expire_timeout == req.expire_timeout
            &&& s.created_at == now
            &&& s.updated_at == now
            &&& s.row_id is None
            &&& s.closed_reason is None
            &&& s.actions@.len() == req.actions@.len() / 2
            &&& forall|i: int|
                0 <= i < s.actions@.len() ==> (#[trigger] s.actions@[i]).id@ == req.actions@[2
                    * i]@ && s.actions@[i].label@ == req.actions@[2 * i + 1]@
        },
        engine@.len() == 0 ==> out.store is Some && out.store->0.status is Unread
            && out.matching_rule is None,
{
    let id: u32 = if req.replaces_id != 0 {
        req.replaces_id
    } else {
        inner.next_notification_id()
    };
    inner.mark_active(id);
    let urgency = notification::extract_urgency(&req.hints);
    let category = notification::extract_string_hint(&req.hints, "category");
    let entry = notification::extract_string_hint(&req.hints, "desktop-entry");
    let desktop_entry = if entry.as_str().is_empty() {
        notification::extract_string_hint(&req.hints, "desktop_entry")
    } else {
        entry
    };
    let hints = notification::hints_to_json(&req.hints);
    let actions = notification::parse_actions(&req.actions);
    proof {
        assert(actions@.len() == notification::action_pairs(actions@).len());
        assert forall|i: int| 0 <= i < actions@.len() implies (#[trigger] actions@[i]).id@
            == req.actions@[2 * i]@ && actions@[i].label@ == req.actions@[2 * i + 1]@ by {
            assert(notification::action_pairs(actions@)[i] == notification::paired(
                req.actions@,
            )[i]);
        }
    }
    let mut notif = Notification {
        row_id: None,
        dbus_id: id,
        app_name: req.app_name,
        app_icon: req.app_icon,
        summary: req.summary,
        body: req.body,
        urgency,
        category,
        desktop_entry,
        actions,
        hints,
        status: NotificationStatus::Unread,
        expire_timeout: req.expire_timeout,
        created_at: now,
        updated_at: now,
        closed_reason: None,
    };
    assert(notif@ == requested(req, id, now));
    let result = engine.evaluate(&notif);
    match result.action {
        Some(RuleAction::Ignore) => NotifyOutcome {
            id,
            store: None,
            matching_rule: result.matching_rule,
        },
        Some(RuleAction::Clear) => {
            notif.status = NotificationStatus::Cleared;
            NotifyOutcome { id, store: Some(notif), matching_rule: result.matching_rule }
        },
        _ => NotifyOutcome { id, store: Some(notif), matching_rule: result.matching_rule },
    }
}

/// What closing a notification on request does.
#[derive(Debug, PartialEq, Eq)]
pub struct ClosePlan {
    /// The row that becomes cleared, where there is one.
    pub clear_row: Option<i64>,
    /// The number and the reason that the application is told.
    pub signal: (u32, u32),
}

/// Closes a notification because the application asked: its row, where one was found, becomes
/// cleared, and the application is told that it was closed by a call.
pub fn close_notification(
    inner: &mut NotificationsDaemonInner,
    id: u32,
    found: Option<&Notification>,
) -> (plan: ClosePlan)
    requires
        old(inner).wf(),
    ensures
        final(inner).wf(),
        final(inner).next() == old(inner).next(),
        final(inner).active() == old(inner).active().remove(id),
        plan.signal == (id, ClosedReason::ClosedByCall.spec_code()),
        plan.clear_row == match found {
            Some(n) => n.row_id,
            None => None,
        },
{
    inner.mark_closed(id);
    let clear_row = match found {
        Some(n) => n.row_id,
        None => None,
    };
    ClosePlan { clear_row, signal: (id, ClosedReason::ClosedByCall.code()) }
}

/// What the service can do.
pub open spec fn capabilities() -> Seq<Seq<char>> {
    seq![
        "actions"@,
        "body"@,
        "body-markup"@,
        "default-action"@,
        "icon-static"@,
        "persistence"@,
        "sound"@,
    ]
}

/// What the service can do.
pub fn get_capabilities() -> (list: Vec<String>)
    ensures
        text::texts(list@) == capabilities(),
{
    let list: Vec<String> = vec![
        "actions".to_owned(),
        "body".to_owned(),
        "body-markup".to_owned(),
        "default-action".to_owned(),
        "icon-static".to_owned(),
        "persistence".to_owned(),
        "sound".to_owned(),
    ];
    assert(text::texts(list@) =~= capabilities());
    list
}

/// Name, vendor and version of the service, and the version of the protocol.
pub fn get_server_information() -> (info: (String, String, String, String))
    ensures
        info.0@ == "olha"@,
        info.1@ == "olha"@,
        info.2@ == "0.1.0"@,
        info.3@ == "1.2"@,
{
    ("olha".to_owned(), "olha".to_owned(), "0.1.0".to_owned(), "1.2".to_owned())
}

// ---------- laws ----------

/// A notification is kept from the store only by a rule that ignores it: Do Not Disturb and
/// every other rule leave it stored.
pub proof fn only_ignore_loses_a_notification(n: NotificationView, rule: Option<rules::RuleView>)
    ensures
        treated(n, rule) is None <==> rule is Some && rule->0.action == RuleAction::Ignore,
{
}

/// A critical notification is announced whatever Do Not Disturb says, where that is allowed;
/// where it is not, Do Not Disturb keeps every notification quiet.
pub proof fn do_not_disturb_lets_only_critical_through(urgency: Urgency)
    ensures
        silenced(urgency, true) <==> urgency != Urgency::Critical,
        silenced(urgency, false),
{
}

} // verus!
