//! The rules that decide on notifications as they arrive.

use olha::config::NotificationRule;
use olha::notification::{Notification, NotificationStatus, Urgency};
use olha::rules::{dead_key_warnings, RuleAction, RuleResult, RulesEngine};
use olha::time::Timestamp;

fn make_test_notif(app_name: &str, summary: &str, body: &str) -> Notification {
    let now = Timestamp::new(1_700_000_000, 0).unwrap();
    Notification {
        row_id: None,
        dbus_id: 1,
        app_name: app_name.to_string(),
        app_icon: String::new(),
        summary: summary.to_string(),
        body: body.to_string(),
        urgency: Urgency::Normal,
        category: String::new(),
        desktop_entry: String::new(),
        actions: Vec::new(),
        hints: "{}".to_string(),
        status: NotificationStatus::Unread,
        expire_timeout: -1,
        created_at: now,
        updated_at: now,
        closed_reason: None,
    }
}

fn rule(name: &str, app: &str, action: &str) -> NotificationRule {
    NotificationRule {
        name: name.to_string(),
        app_name: Some(app.to_string()),
        summary: None,
        body: None,
        urgency: None,
        category: None,
        action: action.to_string(),
        on_action: None,
    }
}

fn commands(list: &[(&str, &str)]) -> Option<Vec<(String, String)>> {
    Some(list.iter().map(|(k, c)| (k.to_string(), c.to_string())).collect())
}

#[test]
fn test_rule_matching() {
    let rules = vec![rule("test", "Slack", "clear")];
    let engine = RulesEngine::new(&rules).unwrap();
    let notif = make_test_notif("Slack", "New message", "");

    let result = engine.evaluate(&notif);
    assert_eq!(result.action, Some(RuleAction::Clear));
    assert_eq!(result.matching_rule, Some("test".to_string()));
}

#[test]
fn test_no_match() {
    let rules = vec![rule("test", "Slack", "clear")];
    let engine = RulesEngine::new(&rules).unwrap();
    let notif = make_test_notif("Discord", "New message", "");

    let result = engine.evaluate(&notif);
    assert_eq!(result.action, None);
}

#[test]
fn action_none_variant_is_recognized() {
    let rules = vec![rule("keeper", "Slack", "none")];
    let engine = RulesEngine::new(&rules).unwrap();
    let result = engine.evaluate(&make_test_notif("Slack", "x", ""));
    assert_eq!(result.action, Some(RuleAction::Keep));
}

#[test]
fn action_command_returns_first_matching_rule() {
    let mut r = rule("focus-signal", "Signal", "none");
    r.on_action =
        commands(&[("default", "signal-desktop --activate"), ("reply", "signal-reply")]);
    let engine = RulesEngine::new(&vec![r]).unwrap();
    let notif = make_test_notif("Signal", "New message", "");

    let cmd = engine.action_command(&notif, "default");
    assert_eq!(
        cmd,
        Some(("focus-signal".to_string(), "signal-desktop --activate".to_string()))
    );
    let cmd = engine.action_command(&notif, "reply");
    assert_eq!(cmd, Some(("focus-signal".to_string(), "signal-reply".to_string())));
}

#[test]
fn action_command_returns_none_when_key_absent() {
    let mut r = rule("focus-signal", "Signal", "none");
    r.on_action = commands(&[("default", "signal-desktop --activate")]);
    let engine = RulesEngine::new(&vec![r]).unwrap();
    let notif = make_test_notif("Signal", "x", "");
    assert_eq!(engine.action_command(&notif, "snooze"), None);
}

#[test]
fn action_command_returns_none_when_no_rule_matches() {
    let mut r = rule("focus-signal", "Signal", "none");
    r.on_action = commands(&[("default", "signal-desktop --activate")]);
    let engine = RulesEngine::new(&vec![r]).unwrap();
    let notif = make_test_notif("Discord", "x", "");
    assert_eq!(engine.action_command(&notif, "default"), None);
}

#[test]
fn action_command_respects_rule_order() {
    let mut first = rule("first", "Signal", "none");
    first.on_action = commands(&[("default", "first-cmd")]);
    let mut second = rule("second", "Signal", "none");
    second.on_action = commands(&[("default", "second-cmd")]);
    let engine = RulesEngine::new(&vec![first, second]).unwrap();
    let notif = make_test_notif("Signal", "x", "");
    assert_eq!(
        engine.action_command(&notif, "default"),
        Some(("first".to_string(), "first-cmd".to_string()))
    );
}

#[test]
fn every_condition_has_to_hold() {
    let mut r = rule("all", "Slack", "ignore");
    r.summary = Some("^Thread".to_string());
    r.body = Some("noise$".to_string());
    r.category = Some("im".to_string());
    r.urgency = Some("low".to_string());
    let engine = RulesEngine::new(&vec![r]).unwrap();
    let mut n = make_test_notif("Slack", "Thread: a", "some noise");
    n.category = "im.received".to_string();
    n.urgency = Urgency::Low;
    assert_eq!(engine.evaluate(&n).action, Some(RuleAction::Ignore));
    n.urgency = Urgency::Normal;
    assert_eq!(engine.evaluate(&n).action, None);
    n.urgency = Urgency::Low;
    n.category = String::new();
    assert_eq!(engine.evaluate(&n).action, None);
}

#[test]
fn an_unknown_action_is_left_out() {
    let rules = vec![rule("odd", "Slack", "explode"), rule("clear", "Slack", "clear")];
    let engine = RulesEngine::new(&rules).unwrap();
    let result = engine.evaluate(&make_test_notif("Slack", "x", ""));
    assert_eq!(result.matching_rule.as_deref(), Some("clear"));
}

#[test]
fn a_broken_pattern_is_refused() {
    let rules = vec![rule("broken", "(", "clear")];
    let err = match RulesEngine::new(&rules) {
        Ok(_) => panic!("the pattern does not compile"),
        Err(e) => e,
    };
    assert!(err.message.contains("unclosed group"));
}

#[test]
fn no_rule_decides_nothing() {
    let none = RuleResult::none();
    assert_eq!(none.action, None);
    assert_eq!(none.matching_rule, None);
    let engine = RulesEngine::new(&Vec::new()).unwrap();
    assert_eq!(engine.evaluate(&make_test_notif("a", "b", "c")).action, None);
}

#[test]
fn keys_that_never_fire_are_told() {
    let mut first = rule("a", "Signal", "none");
    first.on_action = commands(&[("none", "x"), ("default", "y"), ("clear", "z")]);
    let second = rule("b", "Slack", "clear");
    let mut third = rule("c", "Mail", "ignore");
    third.on_action = commands(&[("reply", "x"), ("ignore", "y"), ("None", "z")]);
    assert_eq!(
        dead_key_warnings(&vec![first, second, third]),
        vec![
            "[rules.on_action] key \"none\" will never fire",
            "[rules.on_action] key \"clear\" will never fire",
            "[rules.on_action] key \"ignore\" will never fire",
        ]
    );
    assert!(dead_key_warnings(&Vec::new()).is_empty());
}

#[test]
fn an_unknown_urgency_matches_nothing() {
    let mut odd = rule("odd", "Slack", "ignore");
    odd.urgency = Some("high".to_string());
    odd.on_action = commands(&[("default", "run")]);
    let mut shouted = rule("shouted", "Slack", "ignore");
    shouted.urgency = Some("Normal".to_string());
    let engine = RulesEngine::new(&vec![odd, shouted]).unwrap();
    let mut n = make_test_notif("Slack", "x", "");
    for urgency in [Urgency::Low, Urgency::Normal, Urgency::Critical] {
        n.urgency = urgency;
        assert_eq!(engine.evaluate(&n).action, None);
        assert_eq!(engine.action_command(&n, "default"), None);
    }
}
