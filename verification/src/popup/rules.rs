//! Rules on pop-ups.

use crate::pattern;
use crate::popup::config::PopupRule;
use crate::popup::model::{Notification, Urgency};
use crate::text;
use vstd::prelude::*;

verus! {

/// What the rules say of a notification.
#[derive(Debug, Clone)]
pub struct RuleDecision {
    pub suppress: bool,
    pub override_urgency: Option<Urgency>,
    pub override_timeout_secs: Option<u32>,
    pub hide_content_when_locked: Option<bool>,
    /// The name of the rule that decided.
    pub matched: Option<String>,
}

impl Default for RuleDecision {
    /// The decision where no rule applies.
    fn default() -> (d: RuleDecision)
        ensures
            !d.suppress,
            d.override_urgency is None,
            d.override_timeout_secs is None,
            d.hide_content_when_locked is None,
            d.matched is None,
    {
        RuleDecision {
            suppress: false,
            override_urgency: None,
            override_timeout_secs: None,
            hide_content_when_locked: None,
            matched: None,
        }
    }
}

struct Compiled {
    name: String,
    app_name: Option<regex::Regex>,
    summary: Option<regex::Regex>,
    body: Option<regex::Regex>,
    urgency: Option<Urgency>,
    suppress: bool,
    override_urgency: Option<Urgency>,
    override_timeout_secs: Option<u32>,
    hide_content_when_locked: Option<bool>,
}

/// Rules that are ready to be applied.
pub struct PopupRules {
    rules: Vec<Compiled>,
}

/// What a rule says.
pub struct PopupRuleView {
    pub name: Seq<char>,
    pub app_name: Option<Seq<char>>,
    pub summary: Option<Seq<char>>,
    pub body: Option<Seq<char>>,
    pub urgency: Option<Urgency>,
    pub suppress: bool,
    pub override_urgency: Option<Urgency>,
    pub override_timeout_secs: Option<u32>,
    pub hide_content_when_locked: Option<bool>,
}

impl Compiled {
    closed spec fn says(self) -> PopupRuleView {
        PopupRuleView {
            name: self.name@,
            app_name: pattern::condition(self.app_name),
            summary: pattern::condition(self.summary),
            body: pattern::condition(self.body),
            urgency: self.urgency,
            suppress: self.suppress,
            override_urgency: self.override_urgency,
            override_timeout_secs: self.override_timeout_secs,
            hide_content_when_locked: self.hide_content_when_locked,
        }
    }
}

impl View for PopupRules {
    type V = Seq<PopupRuleView>;

    closed spec fn view(&self) -> Seq<PopupRuleView> {
        self.rules@.map_values(|r: Compiled| r.says())
    }
}

/// What a configured rule says. One without a name is called `(unnamed)`.
pub open spec fn rule_says(rule: PopupRule) -> PopupRuleView {
    PopupRuleView {
        name: if rule.name@.len() == 0 {
            "(unnamed)"@
        } else {
            rule.name@
        },
        app_name: pattern::opt_text(rule.app_name),
        summary: pattern::opt_text(rule.summary),
        body: pattern::opt_text(rule.body),
        urgency: rule.urgency,
        suppress: rule.suppress,
        override_urgency: rule.override_urgency,
        override_timeout_secs: rule.override_timeout_secs,
        hide_content_when_locked: rule.hide_content_when_locked,
    }
}

/// Whether every pattern of a rule is a regular expression.
pub open spec fn compiles(rule: PopupRule) -> bool {
    &&& pattern::condition_error(pattern::opt_text(rule.app_name)) is None
    &&& pattern::condition_error(pattern::opt_text(rule.summary)) is None
    &&& pattern::condition_error(pattern::opt_text(rule.body)) is None
}

/// Why the first pattern of a rule that is no regular expression is refused; nothing where all
/// are.
pub open spec fn rule_error(rule: PopupRule) -> Option<Seq<char>> {
    if pattern::condition_error(pattern::opt_text(rule.app_name)) is Some {
        pattern::condition_error(pattern::opt_text(rule.app_name))
    } else if pattern::condition_error(pattern::opt_text(rule.summary)) is Some {
        pattern::condition_error(pattern::opt_text(rule.summary))
    } else {
        pattern::condition_error(pattern::opt_text(rule.body))
    }
}

/// What is said of a rule that is left out.
pub open spec fn skipped_line(rule: PopupRule, problem: Seq<char>) -> Seq<char> {
    "skipping popup rule "@ + text::quoted(rule_says(rule).name) + ": "@ + problem
}

/// What is said of the rules that are left out, in order.
pub open spec fn skipped_lines(rules: Seq<PopupRule>) -> Seq<Seq<char>>
    decreases rules.len(),
{
    if rules.len() == 0 {
        Seq::empty()
    } else {
        let before = skipped_lines(rules.drop_last());
        match rule_error(rules.last()) {
            Some(problem) => before.push(skipped_line(rules.last(), problem)),
            None => before,
        }
    }
}

/// What the configured rules say: those whose patterns compile, in order.
pub open spec fn usable_rules(rules: Seq<PopupRule>) -> Seq<PopupRuleView>
    decreases rules.len(),
{
    if rules.len() == 0 {
        Seq::empty()
    } else if compiles(rules.last()) {
        usable_rules(rules.drop_last()).push(rule_says(rules.last()))
    } else {
        usable_rules(rules.drop_last())
    }
}

/// Whether a rule applies to a notification: every condition that it has is met.
pub open spec fn applies(rule: PopupRuleView, n: Notification) -> bool {
    &&& pattern::meets(rule.app_name, n.app_name@)
    &&& pattern::meets(rule.summary, n.summary@)
    &&& pattern::meets(rule.body, n.body@)
    &&& rule.urgency is Some ==> rule.urgency == Some(n.urgency)
}

/// The first rule that applies.
pub open spec fn first_applying(rules: Seq<PopupRuleView>, n: Notification) -> Option<PopupRuleView>
    decreases rules.len(),
{
    if rules.len() == 0 {
        None
    } else if applies(rules[0], n) {
        Some(rules[0])
    } else {
        first_applying(rules.skip(1), n)
    }
}

/// Whether a decision is what the rule that decides says, or the default without one.
pub open spec fn decides(rule: Option<PopupRuleView>, d: RuleDecision) -> bool {
    match rule {
        Some(r) => {
            &&& d.suppress == r.suppress
            &&& d.override_urgency == r.override_urgency
            &&& d.override_timeout_secs == r.override_timeout_secs
            &&& d.hide_content_when_locked == r.hide_content_when_locked
            &&& d.matched is Some && d.matched->0@ == r.name
        },
        None => {
            &&& !d.suppress
            &&& d.override_urgency is None
            &&& d.override_timeout_secs is None
            &&& d.hide_content_when_locked is None
            &&& d.matched is None
        },
    }
}

fn compile(rule: &PopupRule) -> (compiled: Result<Compiled, String>)
    ensures
        match compiled {
            Ok(c) => compiles(*rule) && c.says() == rule_says(*rule) && rule_error(*rule) is None,
            Err(e) => !compiles(*rule) && rule_error(*rule) == Some(e@),
        },
{
    let app_name = match pattern::compile_condition(&rule.app_name) {
        Ok(r) => r,
        Err(e) => {
            return Err(e);
        },
    };
    let summary = match pattern::compile_condition(&rule.summary) {
        Ok(r) => r,
        Err(e) => {
            return Err(e);
        },
    };
    let body = match pattern::compile_condition(&rule.body) {
        Ok(r) => r,
        Err(e) => {
            return Err(e);
        },
    };
    let name = if rule.name.as_str().is_empty() {
        "(unnamed)".to_owned()
    } else {
        rule.name.clone()
    };
    Ok(
        Compiled {
            name,
            app_name,
            summary,
            body,
            urgency: rule.urgency,
            suppress: rule.suppress,
            override_urgency: rule.override_urgency,
            override_timeout_secs: rule.override_timeout_secs,
            hide_content_when_locked: rule.hide_content_when_locked,
        },
    )
}

/// What is said of the rules that are left out because a pattern of theirs is no regular
/// expression: the name of each and why its first such pattern is refused, in order.
pub fn skipped_rules(rules: &Vec<PopupRule>) -> (lines: Vec<String>)
    ensures
        text::texts(lines@) == skipped_lines(rules@),
{
    let mut lines: Vec<String> = Vec::new();
    let mut i: usize = 0;
    assert(rules@.take(0) =~= Seq::<PopupRule>::empty());
    assert(text::texts(lines@) =~= skipped_lines(rules@.take(0)));
    while i < rules.len()
        invariant
            i <= rules@.len(),
            text::texts(lines@) == skipped_lines(rules@.take(i as int)),
        decreases rules.len() - i,
    {
        let ghost before = lines@;
        proof {
            assert(rules@.take(i as int + 1).drop_last() =~= rules@.take(i as int));
            assert(rules@.take(i as int + 1).last() == rules@[i as int]);
        }
        if let Err(problem) = compile(&rules[i]) {
            let name = if rules[i].name.as_str().is_empty() {
                "(unnamed)"
            } else {
                rules[i].name.as_str()
            };
            let mut line = "skipping popup rule ".to_owned();
            line.append(text::debug_text(name).as_str());
            line.append(": ");
            line.append(problem.as_str());
            lines.push(line);
            assert(text::texts(lines@) =~= text::texts(before).push(line@));
        }
        i = i + 1;
    }
    assert(rules@.take(rules@.len() as int) =~= rules@);
    lines
}

fn matches(notif: &Notification, rule: &Compiled) -> (r: bool)
    ensures
        r == applies(rule.says(), *notif),
{
    if !pattern::meets_condition(&rule.app_name, notif.app_name.as_str()) {
        return false;
    }
    if !pattern::meets_condition(&rule.summary, notif.summary.as_str()) {
        return false;
    }
    if !pattern::meets_condition(&rule.body, notif.body.as_str()) {
        return false;
    }
    if let Some(u) = rule.urgency {
        if notif.urgency != u {
            return false;
        }
    }
    true
}

impl PopupRules {
    /// The rules that are configured. One with a pattern that is no regular expression is
    /// left out.
    pub fn new(rules: &Vec<PopupRule>) -> (out: PopupRules)
        ensures
            out@ == usable_rules(rules@),
    {
        let mut compiled: Vec<Compiled> = Vec::new();
        let mut i: usize = 0;
        assert(rules@.take(0) =~= Seq::<PopupRule>::empty());
        assert(compiled@.map_values(|r: Compiled| r.says()) =~= usable_rules(rules@.take(0)));
        while i < rules.len()
            invariant
                i <= rules@.len(),
                compiled@.map_values(|r: Compiled| r.says()) == usable_rules(
                    rules@.take(i as int),
                ),
            decreases rules.len() - i,
        {
            let ghost before = compiled@;
            proof {
                assert(rules@.take(i as int + 1).drop_last() =~= rules@.take(i as int));
                assert(rules@.take(i as int + 1).last() == rules@[i as int]);
            }
            if let Ok(c) = compile(&rules[i]) {
                compiled.push(c);
                assert(compiled@.map_values(|r: Compiled| r.says()) =~= before.map_values(
                    |r: Compiled| r.says(),
                ).push(c.says()));
            }
            i = i + 1;
        }
        assert(rules@.take(rules@.len() as int) =~= rules@);
        PopupRules { rules: compiled }
    }

    /// What the first rule that applies says.
    pub fn evaluate(&self, notif: &Notification) -> (d: RuleDecision)
        ensures
            decides(first_applying(self@, *notif), d),
    {
        let mut i: usize = 0;
        assert(self@.skip(0) =~= self@);
        while i < self.rules.len()
            invariant
                i <= self.rules@.len(),
                first_applying(self@, *notif) == first_applying(self@.skip(i as int), *notif),
            decreases self.rules.len() - i,
        {
            let rule = &self.rules[i];
            assert(self@.skip(i as int)[0] == rule.says());
            if matches(notif, rule) {
                return RuleDecision {
                    suppress: rule.suppress,
                    override_urgency: rule.override_urgency,
                    override_timeout_secs: rule.override_timeout_secs,
                    hide_content_when_locked: rule.hide_content_when_locked,
                    matched: Some(rule.name.clone()),
                };
            }
            assert(self@.skip(i as int).skip(1) =~= self@.skip(i as int + 1));
            i = i + 1;
        }
        RuleDecision::default()
    }
}

/// A rule without conditions applies to every notification.
pub proof fn unconditional_rule_applies(rule: PopupRuleView, n: Notification)
    requires
        rule.app_name is None,
        rule.summary is None,
        rule.body is None,
        rule.urgency is None,
    ensures
        applies(rule, n),
{
}

/// Every rule is either applied or spoken of: as many are usable as are configured, without those
/// that something is said of.
pub proof fn every_rule_is_used_or_spoken_of(rules: Seq<PopupRule>)
    ensures
        usable_rules(rules).len() + skipped_lines(rules).len() == rules.len(),
    decreases rules.len(),
{
    if rules.len() > 0 {
        every_rule_is_used_or_spoken_of(rules.drop_last());
    }
}

/// A rule whose pattern is no regular expression changes nothing: the others say the same
/// with and without it.
pub proof fn broken_rule_is_left_out(before: Seq<PopupRule>, broken: PopupRule, after: Seq<PopupRule>)
    requires
        !compiles(broken),
    ensures
        usable_rules(before.push(broken) + after) == usable_rules(before + after),
    decreases after.len(),
{
    if after.len() == 0 {
        assert(before.push(broken) + after =~= before.push(broken));
        assert(before + after =~= before);
        assert(before.push(broken).drop_last() =~= before);
    } else {
        broken_rule_is_left_out(before, broken, after.drop_last());
        assert((before.push(broken) + after).drop_last() =~= before.push(broken)
            + after.drop_last());
        assert((before + after).drop_last() =~= before + after.drop_last());
        assert((before.push(broken) + after).last() == after.last());
        assert((before + after).last() == after.last());
    }
}

} // verus!
