//! What the rules and a request of an application lead to.

use crate::config::NotificationRule;
use crate::daemon::notifications;
use crate::daemon::notifications::NotifyRequest;
use crate::notification;
use crate::notification::{Hint, HintValue, NotificationStatus, NotificationView, Urgency};
use crate::pattern;
use crate::popup;
use crate::rules;
use crate::rules::RuleAction;
use crate::time::Timestamp;
use vstd::prelude::*;

verus! {

// ---------- one rule ----------

/// Whether a pattern that a rule may set is there and does not match.
pub open spec fn unmet(pattern: Option<String>, text: Seq<char>) -> bool {
    pattern matches Some(p) && !pattern::pattern_matches(p@, text)
}

/// Whether a pattern that a rule may set is absent or matches.
pub open spec fn met(pattern: Option<String>, text: Seq<char>) -> bool {
    pattern matches Some(p) ==> pattern::pattern_matches(p@, text)
}

/// Each single condition of a rule can keep it from applying: where the notification's own field
/// does not meet it, the rule decides nothing, whatever the other fields are.
pub proof fn one_unmet_condition_keeps_a_rule_off(rule: NotificationRule, n: NotificationView)
    requires
        unmet(rule.app_name, n.app_name) || unmet(rule.summary, n.summary) || unmet(
            rule.body,
            n.body,
        ) || unmet(rule.category, n.category) || (rule.urgency is Some && rule.urgency->0@
            != n.urgency.spec_name()),
    ensures
        rules::first_applying(rules::usable_rules(seq![rule]), n) is None,
        forall|key: Seq<char>| #[trigger]
            rules::first_command(rules::usable_rules(seq![rule]), n, key) is None,
{
    reveal_with_fuel(rules::usable_rules, 2);
    reveal_with_fuel(rules::first_applying, 2);
    let usable = rules::usable_rules(seq![rule]);
    assert(seq![rule].drop_last() =~= Seq::<NotificationRule>::empty());
    assert forall|key: Seq<char>| #[trigger] rules::first_command(usable, n, key) is None by {
        reveal_with_fuel(rules::first_command, 2);
    }
}

/// A rule whose conditions are all met decides: it gives its own name, and the action that its
/// configuration names.
pub proof fn all_met_conditions_make_a_rule_decide(rule: NotificationRule, n: NotificationView)
    requires
        rule.action@ == "clear"@ || rule.action@ == "ignore"@ || rule.action@ == "none"@,
        met(rule.app_name, n.app_name),
        met(rule.summary, n.summary),
        met(rule.body, n.body),
        met(rule.category, n.category),
        rule.urgency is Some ==> rule.urgency->0@ == n.urgency.spec_name(),
    ensures
        ({
            let decision = rules::first_applying(rules::usable_rules(seq![rule]), n);
            &&& decision is Some
            &&& decision->0.name == rule.name@
            &&& decision->0.action is Clear <==> rule.action@ == "clear"@
            &&& decision->0.action is Ignore <==> rule.action@ == "ignore"@
            &&& decision->0.action is Keep <==> rule.action@ == "none"@
        }),
{
    reveal_with_fuel(rules::usable_rules, 2);
    reveal_with_fuel(rules::first_applying, 2);
    reveal_strlit("clear");
    reveal_strlit("ignore");
    reveal_strlit("none");
    assert("clear"@.len() == 5 && "ignore"@.len() == 6 && "none"@.len() == 4);
    assert(seq![rule].drop_last() =~= Seq::<NotificationRule>::empty());
}

/// A rule of any other action decides nothing.
pub proof fn other_actions_decide_nothing(rule: NotificationRule, n: NotificationView)
    requires
        rule.action@ != "clear"@ && rule.action@ != "ignore"@ && rule.action@ != "none"@,
    ensures
        rules::first_applying(rules::usable_rules(seq![rule]), n) is None,
{
    reveal_with_fuel(rules::usable_rules, 2);
    assert(seq![rule].drop_last() =~= Seq::<NotificationRule>::empty());
}

// ---------- several rules ----------

/// The three names of urgencies are three.
pub proof fn urgencies_are_told_apart(a: Urgency, b: Urgency)
    ensures
        a.spec_name() == b.spec_name() <==> a == b,
        a.spec_number() == b.spec_number() <==> a == b,
{
    notification::urgency_round_trip(a);
    notification::urgency_round_trip(b);
}

proof fn usable_of_sum(before: Seq<NotificationRule>, after: Seq<NotificationRule>)
    ensures
        rules::usable_rules(before + after) == rules::usable_rules(before) + rules::usable_rules(
            after,
        ),
    decreases after.len(),
{
    if after.len() == 0 {
        assert(before + after =~= before);
        assert(rules::usable_rules(before) + rules::usable_rules(after) =~= rules::usable_rules(
            before,
        ));
    } else {
        usable_of_sum(before, after.drop_last());
        assert((before + after).drop_last() =~= before + after.drop_last());
        assert((before + after).last() == after.last());
        assert(rules::usable_rules(before + after) =~= rules::usable_rules(before)
            + rules::usable_rules(after));
    }
}

proof fn applying_of_sum(a: Seq<rules::RuleView>, b: Seq<rules::RuleView>, n: NotificationView)
    ensures
        rules::first_applying(a + b, n) == match rules::first_applying(a, n) {
            Some(r) => Some(r),
            None => rules::first_applying(b, n),
        },
    decreases a.len(),
{
    if a.len() == 0 {
        assert(a + b =~= b);
    } else {
        assert((a + b)[0] == a[0]);
        assert((a + b).skip(1) =~= a.skip(1) + b);
        applying_of_sum(a.skip(1), b, n);
    }
}

/// Rules are asked in the order of the configuration: what earlier ones decide stands, and later
/// ones are asked only where none of them applies.
pub proof fn earlier_rules_come_first(
    before: Seq<NotificationRule>,
    after: Seq<NotificationRule>,
    n: NotificationView,
)
    ensures
        ({
            let early = rules::first_applying(rules::usable_rules(before), n);
            let late = rules::first_applying(rules::usable_rules(after), n);
            let both = rules::first_applying(rules::usable_rules(before + after), n);
            &&& early is Some ==> both == early
            &&& early is None ==> both == late
        }),
{
    usable_of_sum(before, after);
    applying_of_sum(rules::usable_rules(before), rules::usable_rules(after), n);
}

/// A command runs for an action only where the rule that has it applies, and it is the one that
/// the rule has under the action's key.
pub proof fn a_command_belongs_to_a_rule_that_applies(
    list: Seq<rules::RuleView>,
    n: NotificationView,
    key: Seq<char>,
)
    ensures
        match rules::first_command(list, n, key) {
            Some(found) => exists|i: int, k: int|
                #![trigger list[i].on_action[k]]
                {
                    &&& 0 <= i < list.len()
                    &&& rules::first_applying(seq![list[i]], n) is Some
                    &&& list[i].name == found.0
                    &&& 0 <= k < list[i].on_action.len()
                    &&& list[i].on_action[k] == (key, found.1)
                },
            None => forall|i: int, k: int|
                #![trigger list[i].on_action[k]]
                0 <= i < list.len() && rules::first_applying(seq![list[i]], n) is Some && 0 <= k
                    < list[i].on_action.len() ==> list[i].on_action[k].0 != key,
        },
    decreases list.len(),
{
    if list.len() > 0 {
        let rest = list.skip(1);
        a_command_belongs_to_a_rule_that_applies(rest, n, key);
        assert forall|i: int| 0 < i < list.len() implies #[trigger] list[i] == rest[i - 1] by {}
        only_rule(list[0], n);
        lookup_finds(list[0].on_action, key);
        match rules::first_command(list, n, key) {
            Some(found) => {
                if rules::applies(list[0], n) && rules::lookup(list[0].on_action, key) is Some {
                    let k = choose|k: int|
                        0 <= k < list[0].on_action.len() && #[trigger] list[0].on_action[k] == (
                            key,
                            found.1,
                        );
                    assert(list[0].on_action[k] == (key, found.1));
                } else {
                    let (i, k) = choose|i: int, k: int|
                        #![trigger rest[i].on_action[k]]
                        {
                            &&& 0 <= i < rest.len()
                            &&& rules::first_applying(seq![rest[i]], n) is Some
                            &&& rest[i].name == found.0
                            &&& 0 <= k < rest[i].on_action.len()
                            &&& rest[i].on_action[k] == (key, found.1)
                        };
                    assert(list[i + 1] == rest[i]);
                    assert(list[i + 1].on_action[k] == (key, found.1));
                }
            },
            None => {
                assert forall|i: int, k: int|
                    #![trigger list[i].on_action[k]]
                    0 <= i < list.len() && rules::first_applying(seq![list[i]], n) is Some && 0 <= k
                        < list[i].on_action.len() implies list[i].on_action[k].0 != key by {
                    if i > 0 {
                        assert(rest[i - 1].on_action[k] == list[i].on_action[k]);
                    }
                }
            },
        }
    }
}

proof fn only_rule(rule: rules::RuleView, n: NotificationView)
    ensures
        rules::first_applying(seq![rule], n) is Some <==> rules::applies(rule, n),
{
    reveal_with_fuel(rules::first_applying, 2);
}

proof fn lookup_finds(pairs: Seq<(Seq<char>, Seq<char>)>, key: Seq<char>)
    ensures
        match rules::lookup(pairs, key) {
            Some(v) => exists|k: int| 0 <= k < pairs.len() && #[trigger] pairs[k] == (key, v),
            None => forall|k: int| 0 <= k < pairs.len() ==> (#[trigger] pairs[k]).0 != key,
        },
    decreases pairs.len(),
{
    if pairs.len() > 0 {
        if pairs[0].0 == key {
            assert(pairs[0] == (key, pairs[0].1));
        } else {
            let rest = pairs.skip(1);
            lookup_finds(rest, key);
            assert forall|k: int| 0 < k < pairs.len() implies #[trigger] pairs[k] == rest[k - 1] by {}
            if let Some(v) = rules::lookup(rest, key) {
                let k = choose|k: int| 0 <= k < rest.len() && #[trigger] rest[k] == (key, v);
                assert(pairs[k + 1] == (key, v));
            }
        }
    }
}

// ---------- rules on pop-ups ----------

/// Each single condition of a rule on pop-ups can keep it from applying.
pub proof fn one_unmet_condition_keeps_a_popup_rule_off(
    rule: popup::config::PopupRule,
    n: popup::model::Notification,
)
    requires
        unmet(rule.app_name, n.app_name@) || unmet(rule.summary, n.summary@) || unmet(
            rule.body,
            n.body@,
        ) || (rule.urgency is Some && rule.urgency->0 != n.urgency),
    ensures
        popup::rules::first_applying(popup::rules::usable_rules(seq![rule]), n) is None,
{
    reveal_with_fuel(popup::rules::usable_rules, 2);
    reveal_with_fuel(popup::rules::first_applying, 2);
    assert(seq![rule].drop_last() =~= Seq::<popup::config::PopupRule>::empty());
}

/// A rule on pop-ups whose conditions are all met, and whose patterns are regular expressions,
/// decides as it is configured.
pub proof fn all_met_conditions_make_a_popup_rule_decide(
    rule: popup::config::PopupRule,
    n: popup::model::Notification,
)
    requires
        met(rule.app_name, n.app_name@),
        met(rule.summary, n.summary@),
        met(rule.body, n.body@),
        rule.urgency is Some ==> rule.urgency->0 == n.urgency,
    ensures
        popup::rules::skipped_lines(seq![rule]).len() == 0 ==> {
            let decision = popup::rules::first_applying(
                popup::rules::usable_rules(seq![rule]),
                n,
            );
            &&& decision is Some
            &&& decision->0.suppress == rule.suppress
            &&& decision->0.override_urgency == rule.override_urgency
            &&& decision->0.override_timeout_secs == rule.override_timeout_secs
            &&& decision->0.hide_content_when_locked == rule.hide_content_when_locked
            &&& rule.name@.len() > 0 ==> decision->0.name == rule.name@
        },
{
    reveal_with_fuel(popup::rules::usable_rules, 2);
    reveal_with_fuel(popup::rules::skipped_lines, 2);
    reveal_with_fuel(popup::rules::first_applying, 2);
    assert(seq![rule].drop_last() =~= Seq::<popup::config::PopupRule>::empty());
}

proof fn popup_usable_of_sum(
    before: Seq<popup::config::PopupRule>,
    after: Seq<popup::config::PopupRule>,
)
    ensures
        popup::rules::usable_rules(before + after) == popup::rules::usable_rules(before)
            + popup::rules::usable_rules(after),
    decreases after.len(),
{
    if after.len() == 0 {
        assert(before + after =~= before);
        assert(popup::rules::usable_rules(before) + popup::rules::usable_rules(after)
            =~= popup::rules::usable_rules(before));
    } else {
        popup_usable_of_sum(before, after.drop_last());
        assert((before + after).drop_last() =~= before + after.drop_last());
        assert((before + after).last() == after.last());
        assert(popup::rules::usable_rules(before + after) =~= popup::rules::usable_rules(before)
            + popup::rules::usable_rules(after));
    }
}

proof fn popup_applying_of_sum(
    a: Seq<popup::rules::PopupRuleView>,
    b: Seq<popup::rules::PopupRuleView>,
    n: popup::model::Notification,
)
    ensures
        popup::rules::first_applying(a + b, n) == match popup::rules::first_applying(a, n) {
            Some(r) => Some(r),
            None => popup::rules::first_applying(b, n),
        },
    decreases a.len(),
{
    if a.len() == 0 {
        assert(a + b =~= b);
    } else {
        assert((a + b)[0] == a[0]);
        assert((a + b).skip(1) =~= a.skip(1) + b);
        popup_applying_of_sum(a.skip(1), b, n);
    }
}

/// Rules on pop-ups are asked in the order of the configuration.
pub proof fn earlier_popup_rules_come_first(
    before: Seq<popup::config::PopupRule>,
    after: Seq<popup::config::PopupRule>,
    n: popup::model::Notification,
)
    ensures
        ({
            let early = popup::rules::first_applying(popup::rules::usable_rules(before), n);
            let late = popup::rules::first_applying(popup::rules::usable_rules(after), n);
            let both = popup::rules::first_applying(
                popup::rules::usable_rules(before + after),
                n,
            );
            &&& early is Some ==> both == early
            &&& early is None ==> both == late
        }),
{
    popup_usable_of_sum(before, after);
    popup_applying_of_sum(
        popup::rules::usable_rules(before),
        popup::rules::usable_rules(after),
        n,
    );
}

// ---------- requests ----------

/// What is stored of a request is what the application asked for, field by field; a rule that
/// clears changes the status alone, and nothing else changes anything.
pub proof fn a_request_is_stored_as_asked(
    req: NotifyRequest,
    id: u32,
    now: Timestamp,
    rule: Option<rules::RuleView>,
)
    ensures
        match notifications::treated(notifications::requested(req, id, now), rule) {
            Some(n) => {
                &&& n.dbus_id == id
                &&& n.app_name == req.app_name@
                &&& n.app_icon == req.app_icon@
                &&& n.summary == req.summary@
                &&& n.body == req.body@
                &&& n.expire_timeout == req.expire_timeout
                &&& n.created_at == (now.spec_secs(), now.spec_nanos())
                &&& n.updated_at == (now.spec_secs(), now.spec_nanos())
                &&& n.row_id is None
                &&& n.closed_reason is None
                &&& n.actions.len() == req.actions@.len() / 2
                &&& forall|i: int|
                    0 <= i < n.actions.len() ==> (#[trigger] n.actions[i]).0 == req.actions@[2
                        * i]@ && n.actions[i].1 == req.actions@[2 * i + 1]@
                &&& n.status is Cleared <==> rule is Some && rule->0.action == RuleAction::Clear
                &&& n.status is Unread <==> !(rule is Some && rule->0.action == RuleAction::Clear)
            },
            None => rule is Some && rule->0.action == RuleAction::Ignore,
        },
{
}

/// The value of a hint is found wherever it stands among hints of other names, and no other
/// hint's value is taken for it.
pub proof fn a_hint_is_found_by_its_name(hints: Seq<Hint>, key: Seq<char>)
    ensures
        match notification::hint_value(hints, key) {
            Some(v) => exists|i: int|
                {
                    &&& 0 <= i < hints.len()
                    &&& (#[trigger] hints[i]).key@ == key
                    &&& hints[i].value == v
                    &&& forall|j: int| 0 <= j < i ==> (#[trigger] hints[j]).key@ != key
                },
            None => forall|i: int| 0 <= i < hints.len() ==> (#[trigger] hints[i]).key@ != key,
        },
    decreases hints.len(),
{
    if hints.len() > 0 && hints[0].key@ != key {
        let rest = hints.skip(1);
        a_hint_is_found_by_its_name(rest, key);
        assert forall|i: int| 0 < i < hints.len() implies #[trigger] hints[i] == rest[i - 1] by {}
        if let Some(v) = notification::hint_value(rest, key) {
            let i = choose|i: int|
                {
                    &&& 0 <= i < rest.len()
                    &&& (#[trigger] rest[i]).key@ == key
                    &&& rest[i].value == v
                    &&& forall|j: int| 0 <= j < i ==> (#[trigger] rest[j]).key@ != key
                };
            assert(hints[i + 1] == rest[i]);
            assert forall|j: int| 0 <= j < i + 1 implies (#[trigger] hints[j]).key@ != key by {
                if j > 0 {
                    assert(hints[j] == rest[j - 1]);
                }
            }
        }
    }
}

/// What is stored of a request has the urgency, the category and the desktop entry that its
/// hints give: an urgency only as a byte, of which 0 is low, 2 is critical and any other normal;
/// the others only as texts, and the desktop entry under either spelling.
pub proof fn a_request_is_stored_with_its_hints(req: NotifyRequest, id: u32, now: Timestamp)
    ensures
        ({
            let n = notifications::requested(req, id, now);
            let hint = |key: Seq<char>| notification::hint_value(req.hints@, key);
            &&& n.urgency is Low <==> hint("urgency"@) == Some(HintValue::Byte(0))
            &&& n.urgency is Critical <==> hint("urgency"@) == Some(HintValue::Byte(2))
            &&& match hint("category"@) {
                Some(HintValue::Text(t)) => n.category == t@,
                _ => n.category.len() == 0,
            }
            &&& match hint("desktop-entry"@) {
                Some(HintValue::Text(t)) => t@.len() > 0 ==> n.desktop_entry == t@,
                _ => match hint("desktop_entry"@) {
                    Some(HintValue::Text(t)) => n.desktop_entry == t@,
                    _ => n.desktop_entry.len() == 0,
                },
            }
        }),
{
}

} // verus!
