//! The daemon: what arrives, what is answered, unlocking, and starting.

use base64::Engine;
use olha::config::{EncryptionConfig, NotificationRule};
use olha::daemon::control::{
    after_read, auto_lock_step, begin_unlock, count_reply, dismiss, dnd_reply, env_from_notif,
    finish_unlock, invoke_action, key_from_pass, open_secret, parse_filter, status_reply,
    unread_only, BusError, Launch, StatusFacts, UnlockStart,
};
use olha::daemon::environment::parse_environment;
use olha::daemon::notifications::{
    announces, close_notification, dnd_suppresses, get_capabilities, get_server_information,
    notify, NotificationsDaemonInner, NotifyRequest,
};
use olha::daemon::startup::{
    dnd_from_meta, dnd_to_meta, initial_encryption, log_level, LogLevel,
};
use olha::encryption::{
    compute_pk_key_id, derive_dek, wrap_sk, EncryptionError, EncryptionState, PublicKey,
};
use olha::notification::{
    parse_actions, Action, ClosedReason, Hint, HintValue, Notification, NotificationStatus,
    Urgency,
};
use olha::rules::RulesEngine;
use olha::time::Timestamp;

fn base64_encode(bytes: &[u8]) -> String {
    base64::engine::general_purpose::STANDARD.encode(bytes)
}

fn now() -> Timestamp {
    Timestamp::new(1_700_000_000, 0).unwrap()
}

fn rule(name: &str, app: &str, action: &str) -> NotificationRule {
    NotificationRule {
        name: name.to_string(),
        app_name: Some(app.to_string()),
        summary: None,
        body: None,
        urgency: None,
        category: None,
        action: action.to_string(),
        on_action: None,
    }
}

fn no_rules() -> RulesEngine {
    RulesEngine::new(&Vec::new()).unwrap()
}

fn notification(row_id: Option<i64>) -> Notification {
    Notification {
        row_id,
        dbus_id: 12,
        app_name: "App".to_string(),
        app_icon: String::new(),
        summary: "Sum".to_string(),
        body: "Body".to_string(),
        urgency: Urgency::Critical,
        category: String::new(),
        desktop_entry: "org.app".to_string(),
        actions: vec![Action { id: "open".to_string(), label: "Open".to_string() }],
        hints: "{}".to_string(),
        status: NotificationStatus::Unread,
        expire_timeout: -1,
        created_at: now(),
        updated_at: now(),
        closed_reason: None,
    }
}

fn request(app: &str, replaces_id: u32) -> NotifyRequest {
    NotifyRequest {
        app_name: app.to_string(),
        replaces_id,
        app_icon: String::new(),
        summary: "s".to_string(),
        body: "b".to_string(),
        actions: vec!["open".to_string(), "Open".to_string(), "odd".to_string()],
        hints: vec![
            Hint {
                key: "urgency".to_string(),
                value: HintValue::Byte(2),
                shown: "2".to_string(),
            },
            Hint {
                key: "desktop_entry".to_string(),
                value: HintValue::Text("firefox".to_string()),
                shown: "\"firefox\"".to_string(),
            },
        ],
        expire_timeout: 5000,
    }
}

#[test]
fn dnd_lets_critical_through_when_explicitly_allowed() {
    assert!(!dnd_suppresses(Urgency::Critical, true));
    assert!(dnd_suppresses(Urgency::Normal, true));
    assert!(dnd_suppresses(Urgency::Low, true));
}

#[test]
fn dnd_silences_everything_when_allow_critical_off() {
    assert!(dnd_suppresses(Urgency::Critical, false));
    assert!(dnd_suppresses(Urgency::Normal, false));
    assert!(dnd_suppresses(Urgency::Low, false));
}

#[test]
fn without_dnd_everything_is_announced() {
    assert!(announces(false, Urgency::Low, false));
    assert!(!announces(true, Urgency::Normal, true));
    assert!(announces(true, Urgency::Critical, true));
    assert!(!announces(true, Urgency::Critical, false));
}

#[test]
fn numbers_count_up() {
    let mut inner = NotificationsDaemonInner::new();
    assert_eq!(inner.next_notification_id(), 1);
    assert_eq!(inner.next_notification_id(), 2);
    inner.mark_active(1);
    inner.mark_closed(1);
    assert_eq!(inner.next_notification_id(), 3);
}

#[test]
fn a_request_becomes_a_notification() {
    let mut inner = NotificationsDaemonInner::new();
    let out = notify(&mut inner, &no_rules(), request("Firefox", 0), now());
    assert_eq!(out.id, 1);
    assert_eq!(out.matching_rule, None);
    let n = out.store.unwrap();
    assert_eq!(n.dbus_id, 1);
    assert_eq!(n.urgency, Urgency::Critical);
    assert_eq!(n.desktop_entry, "firefox");
    assert_eq!(n.status, NotificationStatus::Unread);
    assert_eq!(n.expire_timeout, 5000);
    // A key without a label is left out.
    assert_eq!(n.actions, vec![Action { id: "open".to_string(), label: "Open".to_string() }]);
    assert!(n.hints.contains("\"urgency\":\"2\""));
    // One that replaces another keeps its number.
    let out = notify(&mut inner, &no_rules(), request("Firefox", 77), now());
    assert_eq!(out.id, 77);
    let out = notify(&mut inner, &no_rules(), request("Firefox", 0), now());
    assert_eq!(out.id, 2);
}

#[test]
fn rules_decide_what_is_stored() {
    let engine = RulesEngine::new(&vec![
        rule("hush", "Spotify", "ignore"),
        rule("tidy", "Slack", "clear"),
        rule("keep", "Mail", "none"),
    ])
    .unwrap();
    let mut inner = NotificationsDaemonInner::new();
    let out = notify(&mut inner, &engine, request("Spotify", 0), now());
    assert!(out.store.is_none());
    assert_eq!(out.matching_rule.as_deref(), Some("hush"));
    let out = notify(&mut inner, &engine, request("Slack", 0), now());
    assert_eq!(out.store.unwrap().status, NotificationStatus::Cleared);
    let out = notify(&mut inner, &engine, request("Mail", 0), now());
    assert_eq!(out.store.unwrap().status, NotificationStatus::Unread);
    assert_eq!(out.matching_rule.as_deref(), Some("keep"));
}

#[test]
fn closing_tells_the_application() {
    let mut inner = NotificationsDaemonInner::new();
    let n = notification(Some(5));
    let plan = close_notification(&mut inner, 12, Some(&n));
    assert_eq!(plan.clear_row, Some(5));
    assert_eq!(plan.signal, (12, 3));
    let plan = close_notification(&mut inner, 13, None);
    assert_eq!(plan.clear_row, None);
    assert_eq!(plan.signal, (13, 3));
}

#[test]
fn the_service_says_what_it_is() {
    assert_eq!(
        get_capabilities(),
        vec!["actions", "body", "body-markup", "default-action", "icon-static", "persistence",
            "sound"]
    );
    let (name, vendor, version, spec) = get_server_information();
    assert_eq!((name.as_str(), vendor.as_str()), ("olha", "olha"));
    assert_eq!((version.as_str(), spec.as_str()), ("0.1.0", "1.2"));
}

#[test]
fn notification_from_the_bus() {
    let hints = request("x", 0).hints;
    let n = Notification::from_dbus(
        3,
        "App".to_string(),
        0,
        "icon".to_string(),
        "s".to_string(),
        "b".to_string(),
        vec![("k".to_string(), "K".to_string())],
        &hints,
        -1,
    );
    assert_eq!(n.dbus_id, 3);
    assert_eq!(n.urgency, Urgency::Critical);
    assert_eq!(n.actions.len(), 1);
    assert_eq!(n.created_at, n.updated_at);
    assert!(n.created_at > now());
    assert_eq!(
        parse_actions(&vec!["a".to_string(), "A".to_string(), "b".to_string(), "B".to_string()]),
        vec![
            Action { id: "a".to_string(), label: "A".to_string() },
            Action { id: "b".to_string(), label: "B".to_string() },
        ]
    );
}

#[test]
fn names_and_numbers_go_both_ways() {
    for u in [Urgency::Low, Urgency::Normal, Urgency::Critical] {
        assert_eq!(Urgency::from_u8(u.as_u32() as u8), u);
        assert_eq!(Urgency::from_name(u.as_str()), Some(u));
    }
    assert_eq!(Urgency::from_u8(9), Urgency::Normal);
    assert_eq!(Urgency::from_name("odd"), None);
    for s in [NotificationStatus::Unread, NotificationStatus::Read, NotificationStatus::Cleared] {
        assert_eq!(NotificationStatus::from_str(s.as_str()), Some(s));
    }
    assert_eq!(NotificationStatus::from_str("odd"), None);
    for code in 1..=4 {
        assert_eq!(ClosedReason::from_code(code).unwrap().code(), code);
    }
    assert_eq!(ClosedReason::from_code(5), None);
}

#[test]
fn a_filter_is_read_from_json() {
    let f = parse_filter(
        "{\"app\":\"Firefox\",\"urgency\":\"critical\",\"status\":\"odd\",\"limit\":3,\"since\":null}",
    );
    assert_eq!(f.app_name.as_deref(), Some("Firefox"));
    assert_eq!(f.urgency, Some(Urgency::Critical));
    assert_eq!(f.status, None);
    assert_eq!(f.since, None);
    assert_eq!(f.limit, Some(3));
    let f = parse_filter("not json");
    assert_eq!(f.app_name, None);
    assert_eq!(f.limit, Some(50));
    let u = unread_only(&f);
    assert_eq!(u.status, Some(NotificationStatus::Unread));
}

#[test]
fn replies_are_json() {
    let v: serde_json::Value = serde_json::from_str(&count_reply(2, 7)).unwrap();
    assert_eq!(v["unread"].as_i64(), Some(2));
    assert_eq!(v["total"].as_i64(), Some(7));
    let v: serde_json::Value = serde_json::from_str(&dnd_reply(true, false)).unwrap();
    assert_eq!(v["enabled"].as_bool(), Some(true));
    assert_eq!(v["allow_critical"].as_bool(), Some(false));
}

#[test]
fn the_status_reply_tells_everything() {
    let sk = [5u8; 32];
    let pk = PublicKey::of_secret(&sk);
    let mut state = EncryptionState::with_public_key(pk, 300);
    state.unlock_at(sk, 1000);
    let facts = StatusFacts {
        unread: 1,
        total: 4,
        db_path: "/tmp/n.db".to_string(),
        rules_count: 2,
        dnd: true,
        allow_critical: true,
    };
    let v: serde_json::Value = serde_json::from_str(&status_reply(&facts, &state, 1100)).unwrap();
    assert_eq!(v["status"].as_str(), Some("running"));
    assert_eq!(v["unread"].as_i64(), Some(1));
    assert_eq!(v["total"].as_i64(), Some(4));
    assert_eq!(v["db_path"].as_str(), Some("/tmp/n.db"));
    assert_eq!(v["rules_count"].as_u64(), Some(2));
    assert_eq!(v["dnd"]["enabled"].as_bool(), Some(true));
    assert_eq!(v["encryption"]["unlocked"].as_bool(), Some(true));
    assert_eq!(v["encryption"]["idle_until_lock_secs"].as_u64(), Some(200));
    assert_eq!(v["encryption"]["auto_lock_secs"].as_u64(), Some(300));
    let id: String =
        compute_pk_key_id(&pk).iter().map(|b| format!("{:02x}", b)).collect();
    assert_eq!(v["encryption"]["key_id"].as_str(), Some(id.as_str()));
    let plain = EncryptionState::plaintext();
    let v: serde_json::Value = serde_json::from_str(&status_reply(&facts, &plain, 0)).unwrap();
    assert_eq!(v["encryption"]["enabled"].as_bool(), Some(false));
    assert!(v["encryption"].get("key_id").is_none());
}

#[test]
fn invoking_an_action() {
    let n = notification(Some(8));
    let plan = invoke_action(8, Some(&n), "open", &no_rules()).unwrap();
    assert_eq!(plan.invoked, (12, "open".to_string()));
    assert_eq!(plan.closed, (12, 2));
    assert_eq!(plan.read_row, Some(8));
    assert_eq!(plan.launch, Launch::Nothing);
    // The default action is always there and starts the application.
    let plan = invoke_action(8, Some(&n), "default", &no_rules()).unwrap();
    assert_eq!(plan.launch, Launch::DesktopEntry("org.app".to_string()));
    assert_eq!(
        invoke_action(8, Some(&n), "snooze", &no_rules()).unwrap_err(),
        BusError::Failed("Notification 8 has no action 'snooze'".to_string())
    );
    assert_eq!(
        invoke_action(9, None, "open", &no_rules()).unwrap_err(),
        BusError::Failed("Notification 9 not found".to_string())
    );
}

#[test]
fn a_rule_runs_its_command() {
    let mut r = rule("focus", "App", "none");
    r.on_action = Some(vec![("open".to_string(), "focus.sh".to_string())]);
    let engine = RulesEngine::new(&vec![r]).unwrap();
    let n = notification(Some(8));
    let plan = invoke_action(8, Some(&n), "open", &engine).unwrap();
    assert_eq!(
        plan.launch,
        Launch::Shell {
            rule: "focus".to_string(),
            command: "focus.sh".to_string(),
            env: env_from_notif(&n, "open"),
        }
    );
    let env = env_from_notif(&n, "open");
    assert!(env.contains(&("OLHA_APP_NAME".to_string(), "App".to_string())));
    assert!(env.contains(&("OLHA_URGENCY".to_string(), "critical".to_string())));
    assert!(env.contains(&("OLHA_ACTION_KEY".to_string(), "open".to_string())));
    assert!(env.contains(&("OLHA_NOTIFICATION_ID".to_string(), "8".to_string())));
}

#[test]
fn dismissing_clears_the_row() {
    let plan = dismiss(8, Some(&notification(Some(8)))).unwrap();
    assert_eq!(plan.closed, (12, 2));
    assert_eq!(plan.clear_row, Some(8));
    assert_eq!(
        dismiss(9, None).unwrap_err(),
        BusError::Failed("Notification 9 not found".to_string())
    );
}

#[test]
fn unlocking_step_by_step() {
    let sk = [5u8; 32];
    let ikm = b"input key material".to_vec();
    let dek = derive_dek(&ikm);
    let stored = base64_encode(&wrap_sk(&dek, &sk).unwrap());

    let mut plain = EncryptionState::plaintext();
    assert!(matches!(
        begin_unlock(&mut plain, 1),
        UnlockStart::Refused(BusError::NotSupported(_))
    ));

    let mut state = EncryptionState::with_public_key(PublicKey::of_secret(&sk), 60);
    assert_eq!(begin_unlock(&mut state, 1), UnlockStart::AskPass);
    let dek = key_from_pass(Ok(ikm)).unwrap();
    assert_eq!(open_secret(&dek, Some(&stored)), Ok(sk));
    assert_eq!(finish_unlock(&mut state, dek, Some(&stored), 50), Ok(()));
    assert!(state.is_unlocked());
    assert_eq!(state.last_activity, 50);
    assert_eq!(begin_unlock(&mut state, 70), UnlockStart::Done);
    assert_eq!(state.last_activity, 70);
    assert!(!auto_lock_step(&mut state, 129));
    assert!(auto_lock_step(&mut state, 130));
    assert!(!state.is_unlocked());
    assert!(!auto_lock_step(&mut state, 1_000));
}

#[test]
fn unlocking_fails_with_reasons() {
    let sk = [5u8; 32];
    let dek = derive_dek(b"right");
    let stored = base64_encode(&wrap_sk(&dek, &sk).unwrap());
    let mut state = EncryptionState::with_public_key(PublicKey::of_secret(&sk), 60);
    let wrong = derive_dek(b"wrong");
    assert_eq!(
        finish_unlock(&mut state, wrong, Some(&stored), 1),
        Err(BusError::AuthFailed(
            "wrapped secret could not be decrypted — wrong pass entry?".to_string()
        ))
    );
    assert_eq!(
        finish_unlock(&mut state, dek, None, 1),
        Err(BusError::Failed(
            "no encryption material on disk — run `olha encryption init`".to_string()
        ))
    );
    assert!(matches!(
        finish_unlock(&mut state, dek, Some("*"), 1),
        Err(BusError::Failed(m)) if m.starts_with("meta.enc_wrapped_secret: bad base64: ")
    ));
    assert!(!state.is_unlocked());
    assert_eq!(
        key_from_pass(Ok(Vec::new())),
        Err(BusError::AuthFailed("pass entry is empty".to_string()))
    );
    assert!(matches!(
        key_from_pass(Err(EncryptionError::PassExit(1))),
        Err(BusError::AuthFailed(m)) if m.starts_with("pass show failed: ")
    ));
}

#[test]
fn starting_with_encryption() {
    let mut c = EncryptionConfig::default();
    let off = initial_encryption(&c, None).ok().unwrap();
    assert!(!off.is_enabled());
    c.enabled = true;
    let refuse = |stored: Option<&str>| -> String {
        match initial_encryption(&c, stored) {
            Ok(_) => panic!("it does not start"),
            Err(m) => m,
        }
    };
    assert_eq!(refuse(None), "missing encryption key material");
    assert!(refuse(Some("*")).contains("not valid base64"));
    assert_eq!(
        refuse(Some("aGVsbG8=")),
        "encryption.enabled=true but meta.enc_public_key is 5 bytes, expected 32"
    );
    let pk = PublicKey::of_secret(&[5u8; 32]);
    let stored = format!(" {}\n", base64_encode(pk.as_bytes()));
    let on = initial_encryption(&c, Some(&stored)).ok().unwrap();
    assert!(on.is_enabled() && !on.is_unlocked());
    assert_eq!(on.public_key, Some(pk));
    assert_eq!(on.auto_lock_secs(), 300);
}

#[test]
fn do_not_disturb_survives_a_restart() {
    assert!(dnd_from_meta(Some(dnd_to_meta(true))));
    assert!(!dnd_from_meta(Some(dnd_to_meta(false))));
    assert!(!dnd_from_meta(None));
    assert_eq!(dnd_to_meta(true), "true");
}

#[test]
fn verbosity_chooses_the_log_level() {
    assert_eq!(log_level(0), LogLevel::Info);
    assert_eq!(log_level(1), LogLevel::Warn);
    assert_eq!(log_level(2), LogLevel::Info);
    assert_eq!(log_level(3), LogLevel::Debug);
}

#[test]
fn an_environment_is_read_line_by_line() {
    let got = parse_environment("A=1\r\nB=x=y\nno assignment\nC=\nD=last");
    let want: Vec<(String, String)> = [("A", "1"), ("B", "x=y"), ("C", ""), ("D", "last")]
        .iter()
        .map(|(k, v)| (k.to_string(), v.to_string()))
        .collect();
    assert_eq!(got, want);
    assert!(parse_environment("").is_empty());
}

#[test]
fn a_read_starts_the_idle_timer_only_where_something_was_decrypted() {
    let mut state = EncryptionState::plaintext();
    after_read(&mut state, false, 50);
    assert_eq!(state.last_activity, 0);
    after_read(&mut state, true, 60);
    assert_eq!(state.last_activity, 60);
}
