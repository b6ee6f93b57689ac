//! Pop-ups: their layout, the rules on them, and the stack.

use olha::popup::config::{AppConfig, NotificationsConfig, PopupConfig, PopupRule, Position};
use olha::popup::layout::compute_layout;
use olha::popup::model::{Action, Notification, Urgency};
use olha::popup::rules::{skipped_rules, PopupRules};
use olha::popup::stack::{anchor_and_margin, Anchor, App, Command, Event};

const W: u32 = 380;
const MIN: u32 = 120;
const MAX: u32 = 240;

#[test]
fn empty_body_no_actions_uses_min_height() {
    let (h, body) = compute_layout("", false, W, MIN, MAX);
    assert_eq!(h, MIN);
    assert!(body.is_empty());
}

#[test]
fn long_body_grows_up_to_max() {
    let body = "x".repeat(2000);
    let (h, out) = compute_layout(&body, true, W, MIN, MAX);
    assert_eq!(h, MAX);
    assert!(out.ends_with('…'));
    assert!(out.chars().count() < body.chars().count());
}

#[test]
fn short_body_with_actions_grows_above_min() {
    let body = "Short body that wraps once or twice across this popup width.";
    let (h, out) = compute_layout(body, true, W, MIN, MAX);
    assert!((MIN..=MAX).contains(&h));
    assert_eq!(out, body, "no truncation expected at this length");
}

#[test]
fn min_height_is_floor_even_when_content_is_tiny() {
    let (h, _) = compute_layout("hi", false, W, MIN, MAX);
    assert_eq!(h, MIN);
}

#[test]
fn max_below_min_is_clamped() {
    // Misconfiguration: max_height < height. Floor wins.
    let (h, _) = compute_layout("hi", false, W, 200, 100);
    assert_eq!(h, 200);
}

#[test]
fn the_height_follows_from_the_rows() {
    // (380 - 38) / 7 = 48 characters to a row; 145 characters take four rows:
    // 20 + 18 + 4 + 18 + 4 + 4 * 16 = 128.
    let body = "y".repeat(145);
    let (h, out) = compute_layout(&body, false, W, MIN, MAX);
    assert_eq!(h, 128);
    assert_eq!(out, body);
    // The buttons add 4 + 2 + 4 + 24.
    let (h, out) = compute_layout(&body, true, W, MIN, MAX);
    assert_eq!(h, 162);
    assert_eq!(out, body);
}

#[test]
fn lines_of_a_body_wrap_one_by_one() {
    // Two lines of one row and an empty one between them.
    let (h, out) = compute_layout("a\n\nb", true, W, 0, MAX);
    assert_eq!(out, "a\n\nb");
    let (one, _) = compute_layout("a", true, W, 0, MAX);
    assert_eq!(h, one + 32);
}

#[test]
fn a_body_is_cut_after_the_last_row_that_fits() {
    // 20 + 18 + 4 + 18 + 4 = 64, and 16 to a row: one row fits in 80, two fit in 96.
    assert_eq!(compute_layout("a\nb\nc", false, W, 60, 80), (80, "a…".to_string()));
    assert_eq!(compute_layout("a\nb\nc", false, W, 60, 96), (96, "a\nb…".to_string()));
    assert_eq!(compute_layout("a\n\nc", false, W, 60, 96), (96, "a\n…".to_string()));
    assert_eq!(compute_layout("a\nb\nc", false, W, 60, 112), (112, "a\nb\nc".to_string()));
    // 48 characters to a row, the last of which is the ellipsis.
    let body = "x".repeat(48) + "\ny";
    let (_, out) = compute_layout(&body, false, W, 60, 80);
    assert_eq!(out, "x".repeat(47) + "…");
    let (_, out) = compute_layout(&"x".repeat(200), false, W, 60, 96);
    assert_eq!(out, "x".repeat(95) + "…");
    // Not even one row fits.
    assert_eq!(compute_layout("a\nb", false, W, 60, 70), (70, String::new()));
}

#[test]
fn a_narrow_popup_still_counts_twenty_characters_to_a_row() {
    let body = "z".repeat(20);
    let (h, _) = compute_layout(&body, false, 10, 0, MAX);
    let (one, _) = compute_layout("z", false, 10, 0, MAX);
    assert_eq!(h, one);
}

fn notif(app: &str, summary: &str, body: &str, urgency: Urgency) -> Notification {
    Notification {
        row_id: None,
        dbus_id: 0,
        app_name: app.into(),
        summary: summary.into(),
        body: body.into(),
        urgency,
        actions: Vec::new(),
        expire_timeout: -1,
    }
}

fn text_of(table: &toml::Table, key: &str) -> Option<String> {
    table.get(key).and_then(|v| v.as_str()).map(|s| s.to_string())
}

fn urgency_of(table: &toml::Table, key: &str) -> Option<Urgency> {
    match table.get(key).and_then(|v| v.as_str()) {
        Some("low") => Some(Urgency::Low),
        Some("normal") => Some(Urgency::Normal),
        Some("critical") => Some(Urgency::Critical),
        Some(other) => panic!("unknown urgency {}", other),
        None => None,
    }
}

/// Reads `[[rule]]` blocks as the configuration file has them, so that the escapes of TOML
/// strings are part of what is tested.
fn rules_from_toml(src: &str) -> Vec<PopupRule> {
    let doc: toml::Table = src.parse().expect("test TOML must parse");
    let rules = doc.get("rule").and_then(|r| r.as_array()).expect("rules");
    let mut out = Vec::new();
    for rule in rules {
        let t = rule.as_table().expect("a rule is a table");
        out.push(PopupRule {
            name: text_of(t, "name").expect("a rule has a name"),
            app_name: text_of(t, "app_name"),
            summary: text_of(t, "summary"),
            body: text_of(t, "body"),
            urgency: urgency_of(t, "urgency"),
            suppress: t.get("suppress").and_then(|v| v.as_bool()).unwrap_or(false),
            override_urgency: urgency_of(t, "override_urgency"),
            override_timeout_secs: t
                .get("override_timeout_secs")
                .and_then(|v| v.as_integer())
                .map(|n| n as u32),
            hide_content_when_locked: t.get("hide_content_when_locked").and_then(|v| v.as_bool()),
        });
    }
    out
}

fn build(src: &str) -> PopupRules {
    PopupRules::new(&rules_from_toml(src))
}

#[test]
fn is_match_is_unanchored_substring() {
    let rules = build(
        r#"
        [[rule]]
        name = "slack-unanchored"
        app_name = "Slack"
        suppress = true
        "#,
    );
    assert!(rules.evaluate(&notif("Slack", "", "", Urgency::Normal)).suppress);
    assert!(rules.evaluate(&notif("Slack Desktop", "", "", Urgency::Normal)).suppress);
    assert!(rules.evaluate(&notif("slackware", "hi", "", Urgency::Normal)).suppress == false);
}

#[test]
fn anchors_force_exact_match() {
    let rules = build(
        r#"
        [[rule]]
        name = "teams-exact"
        app_name = "^Microsoft Teams$"
        override_urgency = "normal"
        "#,
    );
    let hit = rules.evaluate(&notif("Microsoft Teams", "", "", Urgency::Critical));
    assert_eq!(hit.override_urgency, Some(Urgency::Normal));
    let miss = rules.evaluate(&notif("Microsoft Teams Classic", "", "", Urgency::Critical));
    assert_eq!(miss.override_urgency, None);
}

#[test]
fn dot_is_any_char_unless_escaped_with_literal_string() {
    // A literal string hands its backslash on as it is.
    let literal = build(
        r#"
        [[rule]]
        name = "literal-dot"
        summary = '^v1\.0$'
        suppress = true
        "#,
    );
    assert!(literal.evaluate(&notif("", "v1.0", "", Urgency::Normal)).suppress);
    assert!(!literal.evaluate(&notif("", "v1x0", "", Urgency::Normal)).suppress);

    // A basic string needs it doubled.
    let basic = build(
        r#"
        [[rule]]
        name = "basic-dot"
        summary = "^v1\\.0$"
        suppress = true
        "#,
    );
    assert!(basic.evaluate(&notif("", "v1.0", "", Urgency::Normal)).suppress);
    assert!(!basic.evaluate(&notif("", "v1x0", "", Urgency::Normal)).suppress);
}

#[test]
fn case_sensitive_by_default_inline_flag_makes_it_insensitive() {
    let sensitive = build(
        r#"
        [[rule]]
        name = "case"
        app_name = "slack"
        suppress = true
        "#,
    );
    assert!(!sensitive.evaluate(&notif("Slack", "", "", Urgency::Normal)).suppress);

    let insensitive = build(
        r#"
        [[rule]]
        name = "case-i"
        app_name = "(?i)slack"
        suppress = true
        "#,
    );
    assert!(insensitive.evaluate(&notif("Slack", "", "", Urgency::Normal)).suppress);
}

#[test]
fn multiple_fields_are_anded() {
    let rules = build(
        r#"
        [[rule]]
        name = "and"
        app_name = "^Slack$"
        summary = "^Thread:"
        suppress = true
        "#,
    );
    // Both match.
    assert!(rules.evaluate(&notif("Slack", "Thread: foo", "", Urgency::Normal)).suppress);
    // Only app_name matches.
    assert!(!rules.evaluate(&notif("Slack", "DM", "", Urgency::Normal)).suppress);
    // Only summary matches.
    assert!(!rules.evaluate(&notif("Discord", "Thread: foo", "", Urgency::Normal)).suppress);
}

#[test]
fn urgency_field_is_exact_not_regex() {
    let rules = build(
        r#"
        [[rule]]
        name = "critical-only"
        urgency = "critical"
        override_timeout_secs = 5
        "#,
    );
    assert_eq!(
        rules.evaluate(&notif("X", "", "", Urgency::Critical)).override_timeout_secs,
        Some(5),
    );
    assert_eq!(
        rules.evaluate(&notif("X", "", "", Urgency::Normal)).override_timeout_secs,
        None,
    );
}

#[test]
fn first_matching_rule_wins() {
    let rules = build(
        r#"
        [[rule]]
        name = "first"
        app_name = "Teams"
        override_urgency = "normal"

        [[rule]]
        name = "second"
        app_name = "Teams"
        suppress = true
        "#,
    );
    let d = rules.evaluate(&notif("Microsoft Teams", "", "", Urgency::Critical));
    assert_eq!(d.matched.as_deref(), Some("first"));
    assert_eq!(d.override_urgency, Some(Urgency::Normal));
    assert!(!d.suppress);
}

#[test]
fn no_match_returns_default_decision() {
    let rules = build(
        r#"
        [[rule]]
        name = "only-teams"
        app_name = "^Microsoft Teams$"
        suppress = true
        "#,
    );
    let d = rules.evaluate(&notif("Firefox", "", "", Urgency::Normal));
    assert!(!d.suppress);
    assert_eq!(d.override_urgency, None);
    assert_eq!(d.override_timeout_secs, None);
    assert_eq!(d.matched, None);
}

#[test]
fn rule_with_no_match_fields_matches_everything() {
    let rules = build(
        r#"
        [[rule]]
        name = "catch-all"
        suppress = true
        "#,
    );
    assert!(rules.evaluate(&notif("Anything", "At all", "", Urgency::Low)).suppress);
}

#[test]
fn override_urgency_and_timeout_both_propagate() {
    let rules = build(
        r#"
        [[rule]]
        name = "demote-and-timeout"
        app_name = "^Teams$"
        override_urgency = "normal"
        override_timeout_secs = 8
        "#,
    );
    let d = rules.evaluate(&notif("Teams", "", "", Urgency::Critical));
    assert_eq!(d.override_urgency, Some(Urgency::Normal));
    assert_eq!(d.override_timeout_secs, Some(8));
    assert!(!d.suppress);
}

#[test]
fn suppress_propagates() {
    let rules = build(
        r#"
        [[rule]]
        name = "hide"
        app_name = "^Spotify$"
        suppress = true
        "#,
    );
    assert!(rules.evaluate(&notif("Spotify", "", "", Urgency::Low)).suppress);
}

#[test]
fn invalid_regex_is_skipped_engine_keeps_working() {
    // The first rule has an unclosed group; the second still applies.
    let rules = build(
        r#"
        [[rule]]
        name = "broken"
        app_name = "("
        suppress = true

        [[rule]]
        name = "good"
        app_name = "^Firefox$"
        override_urgency = "low"
        "#,
    );
    let d = rules.evaluate(&notif("Firefox", "", "", Urgency::Normal));
    assert_eq!(d.matched.as_deref(), Some("good"));
    assert_eq!(d.override_urgency, Some(Urgency::Low));
}

#[test]
fn the_defaults_are_the_documented_ones() {
    let c = PopupConfig::default();
    assert_eq!(c.position, Position::TopRight);
    assert_eq!((c.max_visible, c.margin, c.gap), (5, 12, 8));
    assert_eq!((c.width, c.height, c.max_height), (380, 120, 240));
    assert!(!c.hide_content_when_locked);
    let n = NotificationsConfig::default();
    assert_eq!((n.default_timeout, n.timeout_low, n.timeout_critical), (10, 5, 0));
}

#[test]
fn positions_have_names() {
    assert_eq!(Position::from_name("top-right"), Some(Position::TopRight));
    assert_eq!(Position::from_name("top-left"), Some(Position::TopLeft));
    assert_eq!(Position::from_name("bottom-right"), Some(Position::BottomRight));
    assert_eq!(Position::from_name("bottom-left"), Some(Position::BottomLeft));
    assert_eq!(Position::from_name("middle"), None);
}

#[test]
fn the_anchor_is_the_corner() {
    let (a, m) = anchor_and_margin(Position::BottomLeft, 12, 128);
    assert_eq!(a, Anchor { top: false, right: false, bottom: true, left: true });
    assert_eq!(m, (0, 0, 140, 12));
    let (a, m) = anchor_and_margin(Position::TopRight, 12, 0);
    assert_eq!(a, Anchor { top: true, right: true, bottom: false, left: false });
    assert_eq!(m, (12, 12, 0, 0));
}

fn config(max_visible: usize, rules: Vec<PopupRule>) -> AppConfig {
    AppConfig {
        notifications: NotificationsConfig::default(),
        popup: PopupConfig { max_visible, rules, ..PopupConfig::default() },
    }
}

fn order(app: &App) -> Vec<u64> {
    app.popups.keys().copied().collect()
}

fn incoming(app: &mut App, id: u64, urgency: Urgency, now: u64) -> Vec<Command> {
    let mut n = notif("App", &format!("n{}", id), "", urgency);
    n.row_id = Some(id as i64);
    app.update(Event::Incoming(n), id, now)
}

#[test]
fn a_new_popup_comes_first_and_the_others_move() {
    let mut app = App::new(config(5, Vec::new()));
    let cs = incoming(&mut app, 1, Urgency::Normal, 0);
    assert_eq!(
        cs,
        vec![Command::Open {
            id: 1,
            width: 380,
            height: 120,
            anchor: Anchor { top: true, right: true, bottom: false, left: false },
            margin: (12, 12, 0, 0),
        }]
    );
    let cs = incoming(&mut app, 2, Urgency::Normal, 0);
    assert!(cs.contains(&Command::Move { id: 1, margin: (140, 12, 0, 0) }));
    assert_eq!(order(&app), vec![2, 1]);
    // 12 + 2 * (120 + 8) from the top.
    let cs = incoming(&mut app, 3, Urgency::Normal, 0);
    assert!(cs.contains(&Command::Move { id: 1, margin: (268, 12, 0, 0) }));
    assert!(cs.contains(&Command::Move { id: 2, margin: (140, 12, 0, 0) }));
}

#[test]
fn the_oldest_noncritical_popup_makes_room() {
    let mut app = App::new(config(2, Vec::new()));
    incoming(&mut app, 1, Urgency::Critical, 0);
    incoming(&mut app, 2, Urgency::Normal, 0);
    let cs = incoming(&mut app, 3, Urgency::Normal, 0);
    assert!(cs.contains(&Command::Close(2)));
    assert_eq!(order(&app), vec![3, 1]);
    incoming(&mut app, 4, Urgency::Critical, 0);
    assert_eq!(order(&app), vec![4, 1]);
    // Only critical ones are left: none goes.
    incoming(&mut app, 5, Urgency::Normal, 0);
    assert_eq!(order(&app), vec![5, 4, 1]);
}

#[test]
fn lifetimes_follow_urgency_and_rules() {
    let second: u64 = 1_000_000_000;
    let app = App::new(config(5, Vec::new()));
    assert_eq!(app.timeout_for(Urgency::Normal, None, -1), Some(10 * second));
    assert_eq!(app.timeout_for(Urgency::Low, None, -1), Some(5 * second));
    assert_eq!(app.timeout_for(Urgency::Critical, None, -1), None);
    assert_eq!(app.timeout_for(Urgency::Critical, Some(8), -1), Some(8 * second));
    assert_eq!(app.timeout_for(Urgency::Normal, Some(0), -1), None);
}

#[test]
fn the_sender_may_ask_for_a_lifetime() {
    let milli: u64 = 1_000_000;
    let mut app = App::new(config(5, Vec::new()));
    assert_eq!(app.timeout_for(Urgency::Normal, None, 3000), Some(3000 * milli));
    assert_eq!(app.timeout_for(Urgency::Normal, None, 0), None);
    assert_eq!(app.timeout_for(Urgency::Critical, None, 250), Some(250 * milli));
    assert_eq!(app.timeout_for(Urgency::Normal, Some(4), 250), Some(4000 * milli));
    assert_eq!(app.timeout_for(Urgency::Normal, Some(0), 250), None);
    let mut n = notif("App", "short", "", Urgency::Normal);
    n.expire_timeout = 3000;
    app.update(Event::Incoming(n), 1, 7);
    assert_eq!(app.popups[&1].expires_at, Some(7 + 3000 * milli));
    app.update(Event::Tick, 0, 3000 * milli);
    assert_eq!(order(&app), vec![1]);
    app.update(Event::Tick, 0, 7 + 3000 * milli);
    assert!(order(&app).is_empty());
}

#[test]
fn a_tick_closes_exactly_what_is_due() {
    let second: u64 = 1_000_000_000;
    let mut app = App::new(config(5, Vec::new()));
    incoming(&mut app, 1, Urgency::Normal, 0);
    incoming(&mut app, 2, Urgency::Low, 0);
    incoming(&mut app, 3, Urgency::Critical, 0);
    let cs = app.update(Event::Tick, 9, 5 * second - 1);
    assert!(cs.is_empty());
    let cs = app.update(Event::Tick, 9, 5 * second);
    assert!(cs.contains(&Command::Close(2)));
    assert_eq!(order(&app), vec![3, 1]);
    let cs = app.update(Event::Tick, 9, 1_000 * second);
    assert!(cs.contains(&Command::Close(1)));
    assert_eq!(order(&app), vec![3]);
}

#[test]
fn a_suppressed_notification_shows_nothing() {
    let rules = rules_from_toml("[[rule]]\nname = \"quiet\"\nsuppress = true\n");
    let mut app = App::new(config(5, rules));
    assert!(incoming(&mut app, 1, Urgency::Critical, 0).is_empty());
    assert!(app.popups.is_empty());
}

#[test]
fn clicking_a_button_invokes_it_and_closes_the_popup() {
    let mut app = App::new(config(5, Vec::new()));
    incoming(&mut app, 7, Urgency::Normal, 0);
    let cs = app.update(Event::ActionClicked(7, "open".to_string()), 9, 0);
    assert!(cs.contains(&Command::Invoke { row_id: 7, key: "open".to_string() }));
    assert!(cs.contains(&Command::Close(7)));
    assert!(app.popups.is_empty());
}

#[test]
fn dismissing_tells_the_daemon() {
    let mut app = App::new(config(5, Vec::new()));
    incoming(&mut app, 7, Urgency::Normal, 0);
    let cs = app.update(Event::Dismiss(7), 9, 0);
    assert!(cs.contains(&Command::Dismiss { row_id: 7 }));
    assert!(cs.contains(&Command::Close(7)));
    assert!(app.popups.is_empty());
}

#[test]
fn content_is_hidden_while_locked() {
    let mut app = App::new(AppConfig {
        notifications: NotificationsConfig::default(),
        popup: PopupConfig { hide_content_when_locked: true, ..PopupConfig::default() },
    });
    app.update(Event::Incoming(notif("App", "plans", "at noon", Urgency::Normal)), 1, 0);
    assert_eq!(app.popups[&1].summary, "plans");
    assert_eq!(app.popups[&1].body, "at noon");
    app.update(Event::DaemonUnlockedChanged(false), 9, 0);
    app.update(Event::Incoming(notif("App", "plans", "at noon", Urgency::Normal)), 2, 0);
    assert_eq!(app.popups[&2].summary, "");
    assert_eq!(app.popups[&2].body, "New notification");
}

#[test]
fn a_rule_decides_over_the_general_hiding() {
    let rules = rules_from_toml(
        "[[rule]]\nname = \"open\"\napp_name = \"Open\"\nhide_content_when_locked = false\n",
    );
    let mut app = App::new(AppConfig {
        notifications: NotificationsConfig::default(),
        popup: PopupConfig { hide_content_when_locked: true, rules, ..PopupConfig::default() },
    });
    app.update(Event::DaemonUnlockedChanged(false), 9, 0);
    app.update(Event::Incoming(notif("Open", "s", "b", Urgency::Normal)), 1, 0);
    assert_eq!(app.popups[&1].body, "b");
    app.update(Event::Incoming(notif("Other", "s", "b", Urgency::Normal)), 2, 0);
    assert_eq!(app.popups[&2].body, "New notification");
}

#[test]
fn buttons_are_carried_over() {
    let mut app = App::new(config(5, Vec::new()));
    let mut n = notif("App", "s", "b", Urgency::Normal);
    n.actions.push(Action { id: "open".to_string(), label: "Open".to_string() });
    app.update(Event::Incoming(n), 3, 0);
    assert_eq!(app.popups[&3].actions.len(), 1);
    assert_eq!(app.popups[&3].actions[0].id, "open");
    // A window that was closed by the compositor leaves the stack.
    app.update(Event::WindowClosed(3), 9, 0);
    assert!(app.popups.is_empty());
}

#[test]
fn rules_that_are_left_out_are_told() {
    let rules = rules_from_toml(
        r#"
        [[rule]]
        name = "broken"
        app_name = "ok"
        summary = "("
        body = "["

        [[rule]]
        name = "fine"
        app_name = "^Slack$"

        [[rule]]
        name = ""
        body = "["
        "#,
    );
    let lines = skipped_rules(&rules);
    assert_eq!(lines.len(), 2);
    assert!(lines[0].starts_with("skipping popup rule \"broken\": regex parse error:"));
    assert!(lines[0].contains("unclosed group"));
    assert!(lines[1].starts_with("skipping popup rule \"(unnamed)\": regex parse error:"));
    assert!(lines[1].contains("unclosed character class"));
    let mut quoted = rules;
    quoted[0].name = "say \"hi\"".to_string();
    assert!(skipped_rules(&quoted)[0].starts_with("skipping popup rule \"say \\\"hi\\\"\": "));
    assert!(skipped_rules(&Vec::new()).is_empty());
}
