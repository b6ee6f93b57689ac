//! Rules on incoming notifications: which one applies, what it does, and which command it
//! runs for an action.

use crate::config::NotificationRule;
use crate::notification;
use crate::notification::{Notification, NotificationView};
use crate::pattern;
use crate::text;
use vstd::prelude::*;

verus! {

/// What a rule does with a notification.
#[derive(Debug, Clone, Copy, PartialEq, Eq, Structural)]
pub enum RuleAction {
    /// Stores it as cleared.
    Clear,
    /// Does not store it.
    Ignore,
    /// Leaves it as it is: the rule is there for its commands.
    Keep,
}

/// The action of that name; nothing for any other name.
pub open spec fn action_named(name: Seq<char>) -> Option<RuleAction> {
    if name == "clear"@ {
        Some(RuleAction::Clear)
    } else if name == "ignore"@ {
        Some(RuleAction::Ignore)
    } else if name == "none"@ {
        Some(RuleAction::Keep)
    } else {
        None
    }
}

fn parse_action(name: &str) -> (action: Option<RuleAction>)
    ensures
        action == action_named(name@),
{
    if text::text_eq(name, "clear") {
        Some(RuleAction::Clear)
    } else if text::text_eq(name, "ignore") {
        Some(RuleAction::Ignore)
    } else if text::text_eq(name, "none") {
        Some(RuleAction::Keep)
    } else {
        None
    }
}

/// What the rules say of a notification.
#[derive(Debug, Clone)]
pub struct RuleResult {
    pub action: Option<RuleAction>,
    pub matching_rule: Option<String>,
}

impl RuleResult {
    /// The result where no rule applies.
    pub fn none() -> (r: RuleResult)
        ensures
            r.action is None,
            r.matching_rule is None,
    {
        RuleResult { action: None, matching_rule: None }
    }
}

/// A pattern that is no regular expression.
#[derive(Debug)]
pub struct BadPattern {
    /// What is wrong with it.
    pub message: String,
}

struct CompiledRule {
    name: String,
    app_name_regex: Option<regex::Regex>,
    summary_regex: Option<regex::Regex>,
    body_regex: Option<regex::Regex>,
    urgency: Option<String>,
    category_regex: Option<regex::Regex>,
    action: RuleAction,
    on_action: Vec<(String, String)>,
}

/// Rules that are ready to be applied.
pub struct RulesEngine {
    rules: Vec<CompiledRule>,
}

/// What a rule says.
pub struct RuleView {
    pub name: Seq<char>,
    pub app_name: Option<Seq<char>>,
    pub summary: Option<Seq<char>>,
    pub body: Option<Seq<char>>,
    pub category: Option<Seq<char>>,
    /// The name that the urgency has to have.
    pub urgency: Option<Seq<char>>,
    pub action: RuleAction,
    pub on_action: Seq<(Seq<char>, Seq<char>)>,
}

/// Pairs of texts.
pub open spec fn text_pairs(pairs: Seq<(String, String)>) -> Seq<(Seq<char>, Seq<char>)> {
    pairs.map_values(|p: (String, String)| (p.0@, p.1@))
}

impl CompiledRule {
    closed spec fn says(self) -> RuleView {
        RuleView {
            name: self.name@,
            app_name: pattern::condition(self.app_name_regex),
            summary: pattern::condition(self.summary_regex),
            body: pattern::condition(self.body_regex),
            category: pattern::condition(self.category_regex),
            urgency: pattern::opt_text(self.urgency),
            action: self.action,
            on_action: text_pairs(self.on_action@),
        }
    }
}

impl View for RulesEngine {
    type V = Seq<RuleView>;

    closed spec fn view(&self) -> Seq<RuleView> {
        self.rules@.map_values(|r: CompiledRule| r.says())
    }
}

// ---------- what a configured rule says ----------

/// What a configured rule says, given its action.
pub open spec fn rule_says(rule: NotificationRule, action: RuleAction) -> RuleView {
    RuleView {
        name: rule.name@,
        app_name: pattern::opt_text(rule.app_name),
        summary: pattern::opt_text(rule.summary),
        body: pattern::opt_text(rule.body),
        category: pattern::opt_text(rule.category),
        urgency: pattern::opt_text(rule.urgency),
        action,
        on_action: match rule.on_action {
            Some(pairs) => text_pairs(pairs@),
            None => Seq::empty(),
        },
    }
}

/// What the configured rules say: those with a known action, in order.
pub open spec fn usable_rules(rules: Seq<NotificationRule>) -> Seq<RuleView>
    decreases rules.len(),
{
    if rules.len() == 0 {
        Seq::empty()
    } else {
        let before = usable_rules(rules.drop_last());
        match action_named(rules.last().action@) {
            Some(action) => before.push(rule_says(rules.last(), action)),
            None => before,
        }
    }
}

/// The first pattern of a rule that is no regular expression; a rule without a known action
/// has none that counts.
pub open spec fn rule_error(rule: NotificationRule) -> Option<Seq<char>> {
    if action_named(rule.action@) is None {
        None
    } else if pattern::condition_error(pattern::opt_text(rule.app_name)) is Some {
        pattern::condition_error(pattern::opt_text(rule.app_name))
    } else if pattern::condition_error(pattern::opt_text(rule.summary)) is Some {
        pattern::condition_error(pattern::opt_text(rule.summary))
    } else if pattern::condition_error(pattern::opt_text(rule.body)) is Some {
        pattern::condition_error(pattern::opt_text(rule.body))
    } else {
        pattern::condition_error(pattern::opt_text(rule.category))
    }
}

/// The first error among the rules.
pub open spec fn first_error(rules: Seq<NotificationRule>) -> Option<Seq<char>>
    decreases rules.len(),
{
    if rules.len() == 0 {
        None
    } else if rule_error(rules[0]) is Some {
        rule_error(rules[0])
    } else {
        first_error(rules.skip(1))
    }
}

// ---------- which rule applies ----------

/// Whether a rule applies to a notification: every condition that it has is met. An urgency
/// has to be named exactly.
pub open spec fn applies(rule: RuleView, n: NotificationView) -> bool {
    &&& pattern::meets(rule.app_name, n.app_name)
    &&& pattern::meets(rule.summary, n.summary)
    &&& pattern::meets(rule.body, n.body)
    &&& rule.urgency is Some ==> rule.urgency == Some(n.urgency.spec_name())
    &&& pattern::meets(rule.category, n.category)
}

/// The first rule that applies.
pub open spec fn first_applying(rules: Seq<RuleView>, n: NotificationView) -> Option<RuleView>
    decreases rules.len(),
{
    if rules.len() == 0 {
        None
    } else if applies(rules[0], n) {
        Some(rules[0])
    } else {
        first_applying(rules.skip(1), n)
    }
}

/// The second half of the first pair whose first half is `key`.
pub open spec fn lookup(pairs: Seq<(Seq<char>, Seq<char>)>, key: Seq<char>) -> Option<Seq<char>>
    decreases pairs.len(),
{
    if pairs.len() == 0 {
        None
    } else if pairs[0].0 == key {
        Some(pairs[0].1)
    } else {
        lookup(pairs.skip(1), key)
    }
}

/// The name and the command of the first rule that applies and has a command for the action.
pub open spec fn first_command(rules: Seq<RuleView>, n: NotificationView, key: Seq<char>) -> Option<
    (Seq<char>, Seq<char>),
>
    decreases rules.len(),
{
    if rules.len() == 0 {
        None
    } else if applies(rules[0], n) && lookup(rules[0].on_action, key) is Some {
        Some((rules[0].name, lookup(rules[0].on_action, key)->0))
    } else {
        first_command(rules.skip(1), n, key)
    }
}

fn find_pair<'a>(pairs: &'a Vec<(String, String)>, key: &str) -> (value: Option<&'a String>)
    ensures
        match value {
            Some(v) => lookup(text_pairs(pairs@), key@) == Some(v@),
            None => lookup(text_pairs(pairs@), key@) is None,
        },
{
    let ghost all = text_pairs(pairs@);
    let mut i: usize = 0;
    assert(all.skip(0) =~= all);
    while i < pairs.len()
        invariant
            i <= pairs@.len(),
            all == text_pairs(pairs@),
            lookup(all, key@) == lookup(all.skip(i as int), key@),
        decreases pairs.len() - i,
    {
        assert(all.skip(i as int)[0] == (pairs@[i as int].0@, pairs@[i as int].1@));
        if text::text_eq(pairs[i].0.as_str(), key) {
            return Some(&pairs[i].1);
        }
        assert(all.skip(i as int).skip(1) =~= all.skip(i as int + 1));
        i = i + 1;
    }
    None
}

fn copy_pairs(pairs: &Vec<(String, String)>) -> (out: Vec<(String, String)>)
    ensures
        text_pairs(out@) == text_pairs(pairs@),
{
    let mut out: Vec<(String, String)> = Vec::new();
    let mut i: usize = 0;
    while i < pairs.len()
        invariant
            i <= pairs@.len(),
            out@.len() == i,
            forall|j: int|
                0 <= j < i ==> (#[trigger] out@[j]).0@ == pairs@[j].0@ && out@[j].1@
                    == pairs@[j].1@,
        decreases pairs.len() - i,
    {
        out.push((pairs[i].0.clone(), pairs[i].1.clone()));
        i = i + 1;
    }
    assert(text_pairs(out@) =~= text_pairs(pairs@));
    out
}

fn compile_rule(rule: &NotificationRule, action: RuleAction) -> (compiled: Result<
    CompiledRule,
    BadPattern,
>)
    requires
        action_named(rule.action@) == Some(action),
    ensures
        match compiled {
            Ok(c) => rule_error(*rule) is None && c.says() == rule_says(*rule, action),
            Err(e) => rule_error(*rule) == Some(e.message@),
        },
{
    let app_name_regex = match pattern::compile_condition(&rule.app_name) {
        Ok(r) => r,
        Err(message) => {
            return Err(BadPattern { message });
        },
    };
    let summary_regex = match pattern::compile_condition(&rule.summary) {
        Ok(r) => r,
        Err(message) => {
            return Err(BadPattern { message });
        },
    };
    let body_regex = match pattern::compile_condition(&rule.body) {
        Ok(r) => r,
        Err(message) => {
            return Err(BadPattern { message });
        },
    };
    let category_regex = match pattern::compile_condition(&rule.category) {
        Ok(r) => r,
        Err(message) => {
            return Err(BadPattern { message });
        },
    };
    let urgency = match &rule.urgency {
        Some(u) => Some(u.clone()),
        None => None,
    };
    let on_action = match &rule.on_action {
        Some(pairs) => copy_pairs(pairs),
        None => Vec::new(),
    };
    let compiled = CompiledRule {
        name: rule.name.clone(),
        app_name_regex,
        summary_regex,
        body_regex,
        urgency,
        category_regex,
        action,
        on_action,
    };
    assert(compiled.says().on_action =~= rule_says(*rule, action).on_action);
    Ok(compiled)
}

impl RulesEngine {
    /// The engine for the configured rules. A rule with an unknown action is left out; a
    /// pattern that is no regular expression fails the whole.
    pub fn new(rules: &Vec<NotificationRule>) -> (engine: Result<RulesEngine, BadPattern>)
        ensures
            match engine {
                Ok(e) => first_error(rules@) is None && e@ == usable_rules(rules@),
                Err(e) => first_error(rules@) == Some(e.message@),
            },
    {
        let mut compiled: Vec<CompiledRule> = Vec::new();
        let mut i: usize = 0;
        let ghost said = compiled@.map_values(|r: CompiledRule| r.says());
        assert(rules@.skip(0) =~= rules@);
        assert(rules@.take(0) =~= Seq::<NotificationRule>::empty());
        assert(said =~= usable_rules(rules@.take(0)));
        while i < rules.len()
            invariant
                i <= rules@.len(),
                first_error(rules@) == first_error(rules@.skip(i as int)),
                compiled@.map_values(|r: CompiledRule| r.says()) == usable_rules(
                    rules@.take(i as int),
                ),
            decreases rules.len() - i,
        {
            let rule = &rules[i];
            let ghost before = compiled@;
            proof {
                assert(rules@.skip(i as int)[0] == rules@[i as int]);
                assert(rules@.skip(i as int).skip(1) =~= rules@.skip(i as int + 1));
                assert(rules@.take(i as int + 1).drop_last() =~= rules@.take(i as int));
                assert(rules@.take(i as int + 1).last() == rules@[i as int]);
            }
            if let Some(action) = parse_action(rule.action.as_str()) {
                match compile_rule(rule, action) {
                    Ok(c) => {
                        compiled.push(c);
                        assert(compiled@.map_values(|r: CompiledRule| r.says())
                            =~= before.map_values(|r: CompiledRule| r.says()).push(c.says()));
                    },
                    Err(e) => {
                        return Err(e);
                    },
                }
            }
            i = i + 1;
        }
        assert(rules@.take(rules@.len() as int) =~= rules@);
        Ok(RulesEngine { rules: compiled })
    }

    /// What the first rule that applies does.
    pub fn evaluate(&self, notif: &Notification) -> (result: RuleResult)
        ensures
            match first_applying(self@, notif@) {
                Some(rule) => result.action == Some(rule.action) && result.matching_rule is Some
                    && result.matching_rule->0@ == rule.name,
                None => result.action is None && result.matching_rule is None,
            },
    {
        let mut i: usize = 0;
        assert(self@.skip(0) =~= self@);
        while i < self.rules.len()
            invariant
                i <= self.rules@.len(),
                first_applying(self@, notif@) == first_applying(self@.skip(i as int), notif@),
            decreases self.rules.len() - i,
        {
            let rule = &self.rules[i];
            assert(self@.skip(i as int)[0] == rule.says());
            if Self::matches_rule(notif, rule) {
                return RuleResult {
                    action: Some(rule.action),
                    matching_rule: Some(rule.name.clone()),
                };
            }
            assert(self@.skip(i as int).skip(1) =~= self@.skip(i as int + 1));
            i = i + 1;
        }
        RuleResult::none()
    }

    /// The name and the command of the first rule that applies and has a command for the
    /// action.
    pub fn action_command(&self, notif: &Notification, action_key: &str) -> (found: Option<
        (String, String),
    >)
        ensures
            match found {
                Some(f) => first_command(self@, notif@, action_key@) == Some((f.0@, f.1@)),
                None => first_command(self@, notif@, action_key@) is None,
            },
    {
        let mut i: usize = 0;
        assert(self@.skip(0) =~= self@);
        while i < self.rules.len()
            invariant
                i <= self.rules@.len(),
                first_command(self@, notif@, action_key@) == first_command(
                    self@.skip(i as int),
                    notif@,
                    action_key@,
                ),
            decreases self.rules.len() - i,
        {
            let rule = &self.rules[i];
            assert(self@.skip(i as int)[0] == rule.says());
            if Self::matches_rule(notif, rule) {
                if let Some(command) = find_pair(&rule.on_action, action_key) {
                    return Some((rule.name.clone(), command.clone()));
                }
            }
            assert(self@.skip(i as int).skip(1) =~= self@.skip(i as int + 1));
            i = i + 1;
        }
        None
    }

    fn matches_rule(notif: &Notification, rule: &CompiledRule) -> (r: bool)
        ensures
            r == applies(rule.says(), notif@),
    {
        if !pattern::meets_condition(&rule.app_name_regex, notif.app_name.as_str()) {
            return false;
        }
        if !pattern::meets_condition(&rule.summary_regex, notif.summary.as_str()) {
            return false;
        }
        if !pattern::meets_condition(&rule.body_regex, notif.body.as_str()) {
            return false;
        }
        if let Some(urgency) = &rule.urgency {
            if !text::text_eq(urgency.as_str(), notif.urgency.as_str()) {
                return false;
            }
        }
        pattern::meets_condition(&rule.category_regex, notif.category.as_str())
    }
}

// ---------- keys that no click has ----------

/// What is said of a key of a rule's commands that will never be invoked.
pub open spec fn never_fires(key: Seq<char>) -> Seq<char> {
    "[rules.on_action] key \""@ + key + "\" will never fire"@
}

/// What is said of the keys among a rule's commands: of each that is the name of a rule's
/// action, which no application gives to a button.
pub open spec fn key_warnings(pairs: Seq<(Seq<char>, Seq<char>)>) -> Seq<Seq<char>>
    decreases pairs.len(),
{
    if pairs.len() == 0 {
        Seq::empty()
    } else {
        let before = key_warnings(pairs.drop_last());
        if action_named(pairs.last().0) is Some {
            before.push(never_fires(pairs.last().0))
        } else {
            before
        }
    }
}

/// The commands of a rule by their keys.
pub open spec fn commands_of(rule: NotificationRule) -> Seq<(Seq<char>, Seq<char>)> {
    match rule.on_action {
        Some(pairs) => text_pairs(pairs@),
        None => Seq::empty(),
    }
}

/// What is said of the keys among the commands of all rules.
pub open spec fn all_warnings(rules: Seq<NotificationRule>) -> Seq<Seq<char>>
    decreases rules.len(),
{
    if rules.len() == 0 {
        Seq::empty()
    } else {
        all_warnings(rules.drop_last()) + key_warnings(commands_of(rules.last()))
    }
}

fn push_warnings(out: &mut Vec<String>, pairs: &Vec<(String, String)>)
    ensures
        text::texts(final(out)@) == text::texts(old(out)@) + key_warnings(text_pairs(pairs@)),
{
    let ghost all = text_pairs(pairs@);
    let mut i: usize = 0;
    assert(text::texts(out@) =~= text::texts(old(out)@) + key_warnings(all.take(0)));
    while i < pairs.len()
        invariant
            i <= pairs@.len(),
            all == text_pairs(pairs@),
            text::texts(out@) == text::texts(old(out)@) + key_warnings(all.take(i as int)),
        decreases pairs.len() - i,
    {
        let ghost before = out@;
        assert(all.take(i as int + 1).drop_last() =~= all.take(i as int));
        assert(all.take(i as int + 1).last() == (pairs@[i as int].0@, pairs@[i as int].1@));
        let key = pairs[i].0.as_str();
        if parse_action(key).is_some() {
            let mut m = "[rules.on_action] key \"".to_owned();
            m.append(key);
            m.append("\" will never fire");
            out.push(m);
            assert(text::texts(out@) =~= text::texts(before).push(m@));
            assert(text::texts(out@) =~= text::texts(old(out)@) + key_warnings(
                all.take(i as int + 1),
            ));
        }
        i = i + 1;
    }
    assert(all.take(all.len() as int) =~= all);
}

/// What is said at the start of keys that will never be invoked: the names of actions of rules,
/// taken for the keys of buttons.
pub fn dead_key_warnings(rules: &Vec<NotificationRule>) -> (out: Vec<String>)
    ensures
        text::texts(out@) == all_warnings(rules@),
{
    let mut out: Vec<String> = Vec::new();
    let mut i: usize = 0;
    assert(text::texts(out@) =~= all_warnings(rules@.take(0)));
    while i < rules.len()
        invariant
            i <= rules@.len(),
            text::texts(out@) == all_warnings(rules@.take(i as int)),
        decreases rules.len() - i,
    {
        assert(rules@.take(i as int + 1).drop_last() =~= rules@.take(i as int));
        assert(rules@.take(i as int + 1).last() == rules@[i as int]);
        let ghost before = text::texts(out@);
        match &rules[i].on_action {
            Some(pairs) => {
                push_warnings(&mut out, pairs);
            },
            None => {
                assert(before + key_warnings(commands_of(rules@[i as int])) =~= before);
            },
        }
        i = i + 1;
    }
    assert(rules@.take(rules@.len() as int) =~= rules@);
    out
}

// ---------- laws ----------

/// A rule whose urgency is none of the three applies to no notification.
pub proof fn unknown_urgency_matches_nothing(rule: RuleView, n: NotificationView)
    requires
        rule.urgency is Some,
        notification::urgency_named(rule.urgency->0) is None,
    ensures
        !applies(rule, n),
{
}

/// A rule without conditions applies to every notification.
pub proof fn unconditional_rule_applies(rule: RuleView, n: NotificationView)
    requires
        rule.app_name is None,
        rule.summary is None,
        rule.body is None,
        rule.category is None,
        rule.urgency is None,
    ensures
        applies(rule, n),
{
}

/// The rule that decides applies, and no rule before it does.
pub proof fn deciding_rule_is_the_first(rules: Seq<RuleView>, n: NotificationView)
    ensures
        match first_applying(rules, n) {
            Some(rule) => exists|i: int|
                0 <= i < rules.len() && #[trigger] rules[i] == rule && applies(rule, n) && forall|
                    j: int,
                |
                    0 <= j < i ==> !applies(#[trigger] rules[j], n),
            None => forall|j: int| 0 <= j < rules.len() ==> !applies(#[trigger] rules[j], n),
        },
    decreases rules.len(),
{
    if rules.len() > 0 && !applies(rules[0], n) {
        let rest = rules.skip(1);
        deciding_rule_is_the_first(rest, n);
        assert forall|j: int| 1 <= j < rules.len() implies rules[j] == #[trigger] rest[j - 1] by {}
        match first_applying(rest, n) {
            Some(rule) => {
                let i = choose|i: int|
                    0 <= i < rest.len() && #[trigger] rest[i] == rule && applies(rule, n)
                        && forall|j: int| 0 <= j < i ==> !applies(#[trigger] rest[j], n);
                assert(rules[i + 1] == rest[i]);
                assert forall|j: int| 0 <= j < i + 1 implies !applies(#[trigger] rules[j], n) by {
                    if j > 0 {
                        assert(rules[j] == rest[j - 1]);
                    }
                }
            },
            None => {
                assert forall|j: int| 0 <= j < rules.len() implies !applies(
                    #[trigger] rules[j],
                    n,
                ) by {
                    if j > 0 {
                        assert(rules[j] == rest[j - 1]);
                    }
                }
            },
        }
    }
}

proof fn usable_without(
    before: Seq<NotificationRule>,
    odd: NotificationRule,
    after: Seq<NotificationRule>,
)
    requires
        action_named(odd.action@) is None,
    ensures
        usable_rules(before.push(odd) + after) == usable_rules(before + after),
    decreases after.len(),
{
    let with = before.push(odd) + after;
    let plain = before + after;
    if after.len() == 0 {
        assert(with =~= before.push(odd));
        assert(plain =~= before);
        assert(before.push(odd).drop_last() =~= before);
    } else {
        usable_without(before, odd, after.drop_last());
        assert(with.drop_last() =~= before.push(odd) + after.drop_last());
        assert(plain.drop_last() =~= before + after.drop_last());
        assert(with.last() == after.last() && plain.last() == after.last());
    }
}

proof fn first_error_without(
    before: Seq<NotificationRule>,
    odd: NotificationRule,
    after: Seq<NotificationRule>,
)
    requires
        action_named(odd.action@) is None,
    ensures
        first_error(before.push(odd) + after) == first_error(before + after),
    decreases before.len(),
{
    let with = before.push(odd) + after;
    let plain = before + after;
    if before.len() == 0 {
        assert(with[0] == odd);
        assert(with.skip(1) =~= plain);
    } else {
        first_error_without(before.skip(1), odd, after);
        assert(with[0] == before[0] && plain[0] == before[0]);
        assert(with.skip(1) =~= before.skip(1).push(odd) + after);
        assert(plain.skip(1) =~= before.skip(1) + after);
    }
}

/// A rule with an unknown action changes nothing, wherever it stands: neither what the rules say
/// nor whether they are accepted.
pub proof fn unknown_action_is_left_out(
    before: Seq<NotificationRule>,
    odd: NotificationRule,
    after: Seq<NotificationRule>,
)
    requires
        action_named(odd.action@) is None,
    ensures
        usable_rules(before.push(odd) + after) == usable_rules(before + after),
        first_error(before.push(odd) + after) == first_error(before + after),
{
    usable_without(before, odd, after);
    first_error_without(before, odd, after);
}

} // verus!
