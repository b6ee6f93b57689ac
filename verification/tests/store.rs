//! The store: rows, queries and settings, run against SQLite in memory.

use olha::encryption::{
    compute_pk_key_id, EncMode, EncryptionState, PublicKey, SkBytes, ENC_VERSION, X25519_KEY_LEN,
};
use olha::notification::{Action, ClosedReason, Notification, NotificationStatus, Urgency};
use olha::keys::{PlainRow, SealedRow};
use olha::queries::{
    cleanup_old, clear_all, count_notifications, count_plain, count_sealed, delete_all,
    delete_notifications, delete_plain, get_meta, get_notification, get_notification_by_dbus_id,
    insert_row, mark_read_all, plan_count, plan_query, query_notifications, select_sealed,
    set_meta, to_row_ids, to_signed, update_all_status, update_status, update_statuses,
    write_plain, write_resealed, CountPlan, NotificationFilter, SqlValue, Statement,
};
use olha::schema::{is_duplicate_column, plan_migration, CREATE_META, CREATE_TABLES};
use olha::store::{encode, notification_from_row, DbError, StoredRow, PLACEHOLDER_ENCRYPTED};
use olha::time::Timestamp;
use rand::RngCore;
use rusqlite::types::Value;
use rusqlite::{params_from_iter, Connection, Row};

fn init_schema(conn: &Connection) {
    conn.execute_batch(CREATE_TABLES).unwrap();
    let current: i64 = conn.query_row("PRAGMA user_version", [], |r| r.get(0)).unwrap();
    let plan = plan_migration(current);
    for statement in &plan.columns {
        if let Err(e) = conn.execute(statement, []) {
            assert!(is_duplicate_column(&e.to_string()));
        }
    }
    if let Some(note) = &plan.note_version {
        conn.execute_batch(note).unwrap();
    }
}

fn fresh_conn() -> Connection {
    let conn = Connection::open_in_memory().unwrap();
    init_schema(&conn);
    conn
}

fn fresh_keypair() -> (SkBytes, PublicKey) {
    let mut sk = [0u8; X25519_KEY_LEN];
    rand::rngs::OsRng.fill_bytes(&mut sk);
    let pk = PublicKey::of_secret(&sk);
    (sk, pk)
}

fn unlocked_state(sk: SkBytes, pk: PublicKey) -> EncryptionState {
    let mut state = EncryptionState::with_public_key(pk, 0);
    state.unlock(sk);
    state
}

fn at(secs: i64) -> Timestamp {
    Timestamp::new(secs, 0).unwrap()
}

fn utc_now() -> Timestamp {
    let now = chrono::Utc::now();
    Timestamp::new(now.timestamp(), now.timestamp_subsec_nanos()).unwrap()
}

fn sample_notif(dbus_id: u32, summary: &str, body: &str) -> Notification {
    let now = utc_now();
    Notification {
        row_id: None,
        dbus_id,
        app_name: "testapp".into(),
        app_icon: String::new(),
        summary: summary.into(),
        body: body.into(),
        urgency: Urgency::Normal,
        category: String::new(),
        desktop_entry: String::new(),
        actions: vec![],
        hints: "{\"foo\":\"bar\"}".into(),
        status: NotificationStatus::Unread,
        expire_timeout: -1,
        created_at: now,
        updated_at: now,
        closed_reason: None,
    }
}

fn value(v: &SqlValue) -> Value {
    match v {
        SqlValue::Null => Value::Null,
        SqlValue::Int(n) => Value::Integer(*n),
        SqlValue::Text(s) => Value::Text(s.clone()),
        SqlValue::Blob(b) => Value::Blob(b.clone()),
    }
}

fn execute(conn: &Connection, s: &Statement) -> usize {
    conn.execute(&s.sql, params_from_iter(s.params.iter().map(value))).unwrap()
}

fn actions_text(actions: &[Action]) -> String {
    let mut list = Vec::new();
    for a in actions {
        let mut m = serde_json::Map::new();
        m.insert("id".to_string(), serde_json::Value::String(a.id.clone()));
        m.insert("label".to_string(), serde_json::Value::String(a.label.clone()));
        list.push(serde_json::Value::Object(m));
    }
    serde_json::Value::Array(list).to_string()
}

fn actions_from(text: &str) -> Vec<Action> {
    let v: serde_json::Value = serde_json::from_str(text).unwrap();
    v.as_array()
        .unwrap()
        .iter()
        .map(|a| Action {
            id: a["id"].as_str().unwrap().to_string(),
            label: a["label"].as_str().unwrap().to_string(),
        })
        .collect()
}

fn stored(r: &Row) -> rusqlite::Result<StoredRow> {
    let actions: String = r.get(9)?;
    Ok(StoredRow {
        id: r.get(0)?,
        dbus_id: r.get(1)?,
        app_name: r.get(2)?,
        app_icon: r.get(3)?,
        summary: r.get(4)?,
        body: r.get(5)?,
        urgency: r.get(6)?,
        category: r.get(7)?,
        desktop_entry: r.get(8)?,
        actions: actions_from(&actions),
        hints: r.get(10)?,
        status: r.get(11)?,
        expire_timeout: r.get(12)?,
        created_at: r.get(13)?,
        updated_at: r.get(14)?,
        closed_reason: r.get(15)?,
        summary_enc: r.get(16)?,
        body_enc: r.get(17)?,
        hints_enc: r.get(18)?,
        enc_version: r.get(19)?,
        key_id: r.get(20)?,
    })
}

fn select(conn: &Connection, s: &Statement) -> Vec<StoredRow> {
    let mut stmt = conn.prepare(&s.sql).unwrap();
    let rows = stmt.query_map(params_from_iter(s.params.iter().map(value)), stored).unwrap();
    rows.map(|r| r.unwrap()).collect()
}

fn insert(conn: &Connection, notif: &Notification, mode: &EncMode) -> i64 {
    let row = encode(notif, mode, utc_now()).unwrap();
    let actions = actions_text(&row.actions);
    execute(conn, &insert_row(row, actions));
    conn.last_insert_rowid()
}

fn fetch(conn: &Connection, id: i64, mode: &EncMode) -> Notification {
    let rows = select(conn, &get_notification(id));
    assert_eq!(rows.len(), 1);
    notification_from_row(&rows[0], mode, utc_now()).notification
}

fn query(conn: &Connection, filter: &NotificationFilter, mode: &EncMode) -> Vec<Notification> {
    let rows = select(conn, &plan_query(filter, mode));
    query_notifications(&rows, filter, mode, utc_now()).notifications
}

fn count(conn: &Connection, filter: &NotificationFilter, mode: &EncMode) -> i64 {
    match plan_count(filter, mode) {
        CountPlan::Ask(s) => conn
            .query_row(&s.sql, params_from_iter(s.params.iter().map(value)), |r| r.get(0))
            .unwrap(),
        CountPlan::Search(s) => {
            let rows = select(conn, &s);
            let needle = filter.search.clone().unwrap();
            count_notifications(&rows, &needle, mode, utc_now()).count
        }
    }
}

fn meta(conn: &Connection, key: &str) -> Option<String> {
    let s = get_meta(key);
    let mut stmt = conn.prepare(&s.sql).unwrap();
    let mut rows = stmt.query(params_from_iter(s.params.iter().map(value))).unwrap();
    rows.next().unwrap().map(|r| r.get(0).unwrap())
}

#[test]
fn plaintext_roundtrip() {
    let conn = fresh_conn();
    let notif = sample_notif(1, "hi", "plaintext body");
    let mode = EncMode::Plaintext;
    let row_id = insert(&conn, &notif, &mode);
    let fetched = fetch(&conn, row_id, &mode);
    assert_eq!(fetched.summary, "hi");
    assert_eq!(fetched.body, "plaintext body");
    assert_eq!(fetched.hints, "{\"foo\":\"bar\"}");
}

#[test]
fn unlock_then_read_returns_plaintext() {
    let conn = fresh_conn();
    let (sk, pk) = fresh_keypair();
    let state = unlocked_state(sk, pk);
    let mode = state.enc_mode();
    let notif = sample_notif(2, "secret", "s3cr3t body");
    let row_id = insert(&conn, &notif, &mode);

    // The row has empty text columns and filled blobs.
    let (enc_version, summary_text, body_blob_len): (i64, String, i64) = conn
        .query_row(
            "SELECT enc_version, summary, length(body_enc) FROM notifications WHERE id=?",
            [row_id],
            |r| Ok((r.get(0)?, r.get(1)?, r.get(2)?)),
        )
        .unwrap();
    assert_eq!(enc_version, ENC_VERSION);
    assert_eq!(summary_text, "");
    assert!(body_blob_len > 0);

    let fetched = fetch(&conn, row_id, &mode);
    assert_eq!(fetched.summary, "secret");
    assert_eq!(fetched.body, "s3cr3t body");
    assert_eq!(fetched.hints, "{\"foo\":\"bar\"}");
}

#[test]
fn write_while_locked_produces_encrypted_row() {
    let conn = fresh_conn();
    let (_sk, pk) = fresh_keypair();
    let state = EncryptionState::with_public_key(pk, 0);
    let mode = state.enc_mode();
    assert!(matches!(mode, EncMode::Locked { .. }));

    let notif = sample_notif(3, "hidden", "hidden body");
    let row_id = insert(&conn, &notif, &mode);

    let (enc_version, summary_text): (i64, String) = conn
        .query_row(
            "SELECT enc_version, summary FROM notifications WHERE id=?",
            [row_id],
            |r| Ok((r.get(0)?, r.get(1)?)),
        )
        .unwrap();
    assert_eq!(enc_version, ENC_VERSION);
    assert_eq!(summary_text, "", "summary TEXT column must be empty for encrypted rows");
}

#[test]
fn read_while_locked_returns_placeholder() {
    let conn = fresh_conn();
    let (sk, pk) = fresh_keypair();
    let unlocked = unlocked_state(sk, pk);
    let notif = sample_notif(4, "hidden", "hidden body");
    let row_id = insert(&conn, &notif, &unlocked.enc_mode());

    let locked_state = EncryptionState::with_public_key(pk, 0);
    let locked_mode = locked_state.enc_mode();
    let fetched = fetch(&conn, row_id, &locked_mode);
    assert_eq!(fetched.summary, PLACEHOLDER_ENCRYPTED);
    assert_eq!(fetched.body, PLACEHOLDER_ENCRYPTED);
}

#[test]
fn lock_then_read_returns_placeholder() {
    let conn = fresh_conn();
    let (sk, pk) = fresh_keypair();
    let mut state = unlocked_state(sk, pk);
    let notif = sample_notif(5, "hidden", "body");
    let row_id = insert(&conn, &notif, &state.enc_mode());
    assert_eq!(fetch(&conn, row_id, &state.enc_mode()).summary, "hidden");
    assert!(state.lock());
    let fetched = fetch(&conn, row_id, &state.enc_mode());
    assert_eq!(fetched.summary, PLACEHOLDER_ENCRYPTED);
}

#[test]
fn read_with_wrong_pk_returns_placeholder() {
    let conn = fresh_conn();
    let (sk1, pk1) = fresh_keypair();
    let (_, pk2) = fresh_keypair();

    let state1 = unlocked_state(sk1, pk1);
    let notif = sample_notif(6, "hidden", "hidden body");
    let row_id = insert(&conn, &notif, &state1.enc_mode());

    // Under another key the fingerprint differs.
    let (sk2, _) = fresh_keypair();
    let state2 = unlocked_state(sk2, pk2);
    let fetched = fetch(&conn, row_id, &state2.enc_mode());
    assert_eq!(fetched.summary, PLACEHOLDER_ENCRYPTED);
}

#[test]
fn mixed_rows_coexist() {
    let conn = fresh_conn();
    let (sk, pk) = fresh_keypair();
    let state = unlocked_state(sk, pk);
    let plain = sample_notif(10, "plain-one", "p-body");
    let enc = sample_notif(11, "enc-one", "e-body");
    insert(&conn, &plain, &EncMode::Plaintext);
    insert(&conn, &enc, &state.enc_mode());

    let all = query(&conn, &NotificationFilter::default(), &state.enc_mode());
    assert_eq!(all.len(), 2);
    let bodies: Vec<String> = all.iter().map(|n| n.body.clone()).collect();
    assert!(bodies.contains(&"p-body".to_string()));
    assert!(bodies.contains(&"e-body".to_string()));
}

#[test]
fn search_post_filters_encrypted_rows_when_unlocked() {
    let conn = fresh_conn();
    let (sk, pk) = fresh_keypair();
    let state = unlocked_state(sk, pk);
    insert(&conn, &sample_notif(20, "alpha meeting", "x"), &state.enc_mode());
    insert(&conn, &sample_notif(21, "beta call", "y"), &state.enc_mode());
    insert(&conn, &sample_notif(22, "meeting notes", "ok"), &state.enc_mode());

    let filter = NotificationFilter {
        search: Some("meeting".into()),
        ..Default::default()
    };
    let hits = query(&conn, &filter, &state.enc_mode());
    assert_eq!(hits.len(), 2);
    assert_eq!(count(&conn, &filter, &state.enc_mode()), 2);
}

#[test]
fn post_filter_respects_limit_and_offset() {
    let conn = fresh_conn();
    let (sk, pk) = fresh_keypair();
    let state = unlocked_state(sk, pk);
    for i in 0..5 {
        let notif = sample_notif(100 + i, &format!("match {}", i), "body");
        insert(&conn, &notif, &state.enc_mode());
    }

    let filter = NotificationFilter {
        search: Some("match".into()),
        limit: Some(2),
        offset: Some(1),
        ..Default::default()
    };
    let hits = query(&conn, &filter, &state.enc_mode());
    assert_eq!(hits.len(), 2);
}

#[test]
fn meta_kv_roundtrip() {
    let conn = fresh_conn();
    assert_eq!(meta(&conn, "dnd_enabled"), None);

    execute(&conn, &set_meta("dnd_enabled", "true"));
    assert_eq!(meta(&conn, "dnd_enabled").as_deref(), Some("true"));

    execute(&conn, &set_meta("dnd_enabled", "false"));
    assert_eq!(meta(&conn, "dnd_enabled").as_deref(), Some("false"));

    let n: i64 = conn
        .query_row("SELECT COUNT(*) FROM meta WHERE key='dnd_enabled'", [], |r| r.get(0))
        .unwrap();
    assert_eq!(n, 1);
}

#[test]
fn successful_decrypt_bumps_activity() {
    let conn = fresh_conn();
    let (sk, pk) = fresh_keypair();
    let mut state = unlocked_state(sk, pk);
    let notif = sample_notif(200, "x", "y");
    let row_id = insert(&conn, &notif, &state.enc_mode());

    // From a known old value, a decryption leads to a new one.
    state.last_activity = 0;
    let rows = select(&conn, &get_notification(row_id));
    if notification_from_row(&rows[0], &state.enc_mode(), utc_now()).decrypted {
        state.record_decrypt_activity();
    }
    let after = state.last_activity;
    assert!(after > 0, "successful decrypt should have bumped last_activity");
}

#[test]
fn pk_key_id_is_stable() {
    let (_, pk) = fresh_keypair();
    let kid1 = compute_pk_key_id(&pk);
    let kid2 = compute_pk_key_id(&pk);
    assert_eq!(kid1, kid2);
}

#[test]
fn every_column_is_read_back() {
    let conn = fresh_conn();
    let (sk, pk) = fresh_keypair();
    let state = unlocked_state(sk, pk);
    let mut n = sample_notif(42, "s — ümlaut", "b\nline");
    n.app_icon = "icon".into();
    n.urgency = Urgency::Critical;
    n.category = "im.received".into();
    n.desktop_entry = "org.test.App".into();
    n.actions.push(Action { id: "open".into(), label: "Open".into() });
    n.status = NotificationStatus::Cleared;
    n.expire_timeout = 5000;
    for mode in [EncMode::Plaintext, state.enc_mode()] {
        let id = insert(&conn, &n, &mode);
        let read = fetch(&conn, id, &state.enc_mode());
        assert_eq!(read.row_id, Some(id));
        assert_eq!(read.dbus_id, 42);
        assert_eq!(read.app_name, "testapp");
        assert_eq!(read.app_icon, "icon");
        assert_eq!(read.summary, "s — ümlaut");
        assert_eq!(read.body, "b\nline");
        assert_eq!(read.urgency, Urgency::Critical);
        assert_eq!(read.category, "im.received");
        assert_eq!(read.desktop_entry, "org.test.App");
        assert_eq!(read.actions, n.actions);
        assert_eq!(read.status, NotificationStatus::Cleared);
        assert_eq!(read.expire_timeout, 5000);
        assert_eq!(read.created_at, n.created_at);
        assert_eq!(read.closed_reason, None);
    }
}

#[test]
fn odd_columns_are_read_with_defaults() {
    let conn = fresh_conn();
    let id = insert(&conn, &sample_notif(1, "a", "b"), &EncMode::Plaintext);
    conn.execute(
        "UPDATE notifications SET urgency = 9, status = 'odd', hints = 'no json',
         created_at = 'yesterday', closed_reason = 3 WHERE id = ?1",
        [id],
    )
    .unwrap();
    let rows = select(&conn, &get_notification(id));
    let now = at(1_700_000_000);
    let read = notification_from_row(&rows[0], &EncMode::Plaintext, now);
    assert!(!read.decrypted);
    let n = read.notification;
    assert_eq!(n.urgency, Urgency::Normal);
    assert_eq!(n.status, NotificationStatus::Unread);
    assert_eq!(n.hints, "{}");
    assert_eq!(n.created_at, now);
    assert_eq!(n.closed_reason, Some(ClosedReason::ClosedByCall));
}

#[test]
fn filters_pick_rows() {
    let conn = fresh_conn();
    let mode = EncMode::Plaintext;
    let mut a = sample_notif(1, "Download done", "file.txt");
    a.app_name = "Firefox".into();
    a.urgency = Urgency::Low;
    a.created_at = at(1_700_000_000);
    let mut b = sample_notif(2, "Battery", "5 %");
    b.app_name = "System".into();
    b.urgency = Urgency::Critical;
    b.category = "device".into();
    b.created_at = at(1_700_000_100);
    insert(&conn, &a, &mode);
    let second = insert(&conn, &b, &mode);
    execute(&conn, &update_status(second, NotificationStatus::Read, &at(1_700_000_200)));

    let by = |f: NotificationFilter| -> Vec<u32> {
        let n = query(&conn, &f, &mode).iter().map(|n| n.dbus_id).collect::<Vec<u32>>();
        assert_eq!(count(&conn, &NotificationFilter { limit: None, offset: None, ..f }, &mode),
            n.len() as i64);
        n
    };
    let none = NotificationFilter::default;
    // The newest comes first.
    assert_eq!(by(none()), vec![2, 1]);
    assert_eq!(by(NotificationFilter { app_name: Some("Firefox".into()), ..none() }), vec![1]);
    assert_eq!(by(NotificationFilter { urgency: Some(Urgency::Critical), ..none() }), vec![2]);
    assert_eq!(
        by(NotificationFilter { status: Some(NotificationStatus::Read), ..none() }),
        vec![2]
    );
    assert_eq!(by(NotificationFilter { category: Some("device".into()), ..none() }), vec![2]);
    assert_eq!(by(NotificationFilter { search: Some("file".into()), ..none() }), vec![1]);
    assert_eq!(
        by(NotificationFilter { since: Some("2023-11-14T22:14:00+00:00".into()), ..none() }),
        vec![2]
    );
    assert_eq!(
        by(NotificationFilter { until: Some("2023-11-14T22:14:00+00:00".into()), ..none() }),
        vec![1]
    );
    let limited = query(&conn, &NotificationFilter { limit: Some(1), ..none() }, &mode);
    assert_eq!(limited.len(), 1);
    assert_eq!(limited[0].dbus_id, 2);
}

#[test]
fn a_query_binds_what_it_marks() {
    let f = NotificationFilter {
        app_name: Some("App".into()),
        search: Some("x".into()),
        limit: Some(7),
        offset: Some(3),
        ..Default::default()
    };
    let s = plan_query(&f, &EncMode::Plaintext);
    assert_eq!(s.sql.matches('?').count(), s.params.len());
    assert!(s.params.contains(&SqlValue::Text("App".into())));
    assert!(s.params.contains(&SqlValue::Text("%x%".into())));
    assert!(s.sql.ends_with(" LIMIT 7 OFFSET 3"));
}

#[test]
fn statuses_change_and_rows_go() {
    let conn = fresh_conn();
    let mode = EncMode::Plaintext;
    let ids: Vec<i64> =
        (1..=4).map(|i| insert(&conn, &sample_notif(i, "s", "b"), &mode)).collect();
    let now = at(1_700_000_000);
    assert!(update_statuses(&Vec::new(), NotificationStatus::Read, &now).is_none());
    assert!(delete_notifications(&Vec::new()).is_none());
    assert!(update_all_status(&Vec::new(), NotificationStatus::Read, &now).is_none());

    let s = update_statuses(&vec![ids[0], ids[1]], NotificationStatus::Read, &now).unwrap();
    assert_eq!(execute(&conn, &s), 2);
    assert_eq!(fetch(&conn, ids[0], &mode).status, NotificationStatus::Read);
    assert_eq!(fetch(&conn, ids[0], &mode).updated_at, now);
    assert_eq!(fetch(&conn, ids[2], &mode).status, NotificationStatus::Unread);

    let s = update_all_status(
        &vec![NotificationStatus::Unread, NotificationStatus::Read],
        NotificationStatus::Cleared,
        &now,
    )
    .unwrap();
    assert_eq!(execute(&conn, &s), 4);
    let s = delete_notifications(&vec![ids[3]]).unwrap();
    assert_eq!(execute(&conn, &s), 1);
    assert_eq!(execute(&conn, &delete_all()), 3);
}

#[test]
fn a_row_is_found_by_its_number_on_the_bus() {
    let conn = fresh_conn();
    let mode = EncMode::Plaintext;
    let mut old = sample_notif(9, "old", "");
    old.created_at = at(1_600_000_000);
    insert(&conn, &old, &mode);
    insert(&conn, &sample_notif(9, "new", ""), &mode);
    let rows = select(&conn, &get_notification_by_dbus_id(9));
    // The latest of that number.
    assert_eq!(rows.len(), 1);
    assert_eq!(rows[0].summary, "new");
    assert!(select(&conn, &get_notification_by_dbus_id(10)).is_empty());
}

#[test]
fn tidying_removes_by_age_and_by_count() {
    let conn = fresh_conn();
    let mode = EncMode::Plaintext;
    let now = at(1_700_000_000);
    for (i, age) in [10, 100, 1_000, 10_000].iter().enumerate() {
        let mut n = sample_notif(i as u32, "s", "b");
        n.created_at = at(1_700_000_000 - age);
        insert(&conn, &n, &mode);
    }
    let (by_age, by_count) = cleanup_old(&now, 5_000, 2).unwrap();
    assert_eq!(execute(&conn, &by_age), 1);
    assert_eq!(execute(&conn, &by_count), 1);
    let left = query(&conn, &NotificationFilter::default(), &mode);
    assert_eq!(left.iter().map(|n| n.dbus_id).collect::<Vec<u32>>(), vec![0, 1]);
    assert!(cleanup_old(&now, i64::MAX as u64, 2).is_none());
}

#[test]
fn numbers_on_the_bus_keep_their_bits() {
    assert_eq!(to_signed(7), 7);
    assert_eq!(to_signed(u64::MAX), -1);
    assert_eq!(to_signed(1 << 63), i64::MIN);
    assert_eq!(to_row_ids(&vec![1, 2, u64::MAX]), vec![1, 2, -1]);
}

#[test]
fn a_second_migration_changes_nothing() {
    let conn = fresh_conn();
    init_schema(&conn);
    let plan = plan_migration(2);
    assert!(plan.columns.is_empty());
    assert!(plan.note_version.is_none());
    let plan = plan_migration(0);
    assert_eq!(plan.columns.len(), 5);
    assert_eq!(plan.note_version.as_deref(), Some("PRAGMA user_version = 2"));
    let plan = plan_migration(3);
    assert!(plan.columns.is_empty());
    assert_eq!(plan.note_version.as_deref(), Some("PRAGMA user_version = 2"));
    assert!(is_duplicate_column("duplicate column name: body_enc"));
    assert!(!is_duplicate_column("no such table: notifications"));
}

#[test]
fn a_locked_search_looks_at_the_columns() {
    let conn = fresh_conn();
    let (_, pk) = fresh_keypair();
    let locked = EncryptionState::with_public_key(pk, 0).enc_mode();
    insert(&conn, &sample_notif(1, "secret plan", ""), &locked);
    insert(&conn, &sample_notif(2, "open plan", ""), &EncMode::Plaintext);
    let f = NotificationFilter { search: Some("plan".into()), ..Default::default() };
    let found = query(&conn, &f, &locked);
    assert_eq!(found.len(), 1);
    assert_eq!(found[0].dbus_id, 2);
    assert!(matches!(plan_count(&f, &locked), CountPlan::Ask(_)));
}

#[test]
fn searching_opened_rows_ignores_case() {
    let conn = fresh_conn();
    let (sk, pk) = fresh_keypair();
    let state = unlocked_state(sk, pk);
    insert(&conn, &sample_notif(1, "ÜBERSICHT", "x"), &state.enc_mode());
    let f = NotificationFilter { search: Some("übersicht".into()), ..Default::default() };
    assert_eq!(query(&conn, &f, &state.enc_mode()).len(), 1);
}

#[test]
fn store_errors_have_messages() {
    assert!(DbError::Encryption("encryption failed".to_string())
        .message()
        .contains("encryption failed"));
}

#[test]
fn times_have_texts() {
    let t = at(1_705_314_645);
    assert_eq!(t.to_rfc3339(), "2024-01-15T10:30:45+00:00");
    assert_eq!(Timestamp::parse_rfc3339("2024-01-15T11:30:45+01:00"), Some(t));
    assert_eq!(Timestamp::parse_rfc3339("2024-01-15"), None);
    assert_eq!(Timestamp::parse_relaxed("2024-01-15 10:30:45Z"), Some(t));
    assert_eq!(Timestamp::parse_relaxed("soon"), None);
    assert_eq!(t.minus_seconds(45), Some(at(1_705_314_600)));
    assert_eq!(t.minus_seconds(i64::MAX), None);
    assert!(Timestamp::new(0, 1_500_000_000).is_none());
    assert!(Timestamp::new(59, 1_500_000_000).is_some());
    assert!(Timestamp::new(i64::MAX, 0).is_none());
}

#[test]
fn the_rows_behind_the_keys_are_counted_and_rewritten() {
    let conn = fresh_conn();
    conn.execute_batch(CREATE_META).unwrap();
    let (sk, pk) = fresh_keypair();
    let mode = unlocked_state(sk, pk).enc_mode();
    insert(&conn, &sample_notif(1, "open", "text"), &EncMode::Plaintext);
    let first = insert(&conn, &sample_notif(2, "a", "b"), &mode);
    let second = insert(&conn, &sample_notif(3, "c", "d"), &mode);
    let number = |s: &Statement| -> i64 { conn.query_row(&s.sql, [], |r| r.get(0)).unwrap() };
    assert_eq!((number(&count_plain()), number(&count_sealed())), (1, 2));
    let ids: Vec<i64> = {
        let mut stmt = conn.prepare(&select_sealed().sql).unwrap();
        let rows = stmt.query_map([], |r| r.get(0)).unwrap();
        rows.map(|r| r.unwrap()).collect()
    };
    assert_eq!(ids, vec![first, second]);

    let plain = PlainRow {
        id: first,
        summary: "a".to_string(),
        body: "b".to_string(),
        hints: "{}".to_string(),
    };
    assert_eq!(execute(&conn, &write_plain(plain)), 1);
    assert_eq!(fetch(&conn, first, &EncMode::Plaintext).body, "b");
    let resealed =
        SealedRow { id: second, summary: Some(vec![1]), body: None, hints: Some(vec![2, 3]) };
    assert_eq!(execute(&conn, &write_resealed(resealed, &[4, 5, 6, 7])), 1);
    let row = &select(&conn, &get_notification(second))[0];
    assert_eq!(row.summary_enc, Some(vec![1]));
    assert_eq!(row.body_enc, None);
    assert_eq!(row.hints_enc, Some(vec![2, 3]));
    assert_eq!(row.key_id, Some(vec![4, 5, 6, 7]));
    assert_eq!((number(&count_plain()), number(&count_sealed())), (2, 1));
    assert_eq!(execute(&conn, &delete_plain()), 2);
    assert_eq!((number(&count_plain()), number(&count_sealed())), (0, 1));
}

#[test]
fn a_moment_is_asked_for_whatever_its_offset() {
    let conn = fresh_conn();
    let mode = EncMode::Plaintext;
    // 2023-11-14T22:13:20Z and an hour later.
    for (id, secs) in [(1, 1_700_000_000), (2, 1_700_003_600)] {
        let mut n = sample_notif(id, "s", "b");
        n.created_at = at(secs);
        insert(&conn, &n, &mode);
    }
    let since = |text: &str| -> Vec<u32> {
        let f = NotificationFilter { since: Some(text.into()), ..Default::default() };
        query(&conn, &f, &mode).iter().map(|n| n.dbus_id).collect()
    };
    assert_eq!(since("2023-11-14T22:30:00Z"), vec![2]);
    assert_eq!(since("2023-11-15T00:30:00+02:00"), vec![2]);
    assert_eq!(since("2023-11-14T17:30:00-05:00"), vec![2]);
    assert_eq!(since("2023-11-14T22:13:20Z"), vec![2, 1]);
    let until = NotificationFilter {
        until: Some("2023-11-15T00:30:00+02:00".into()),
        ..Default::default()
    };
    assert_eq!(query(&conn, &until, &mode).len(), 1);
    assert_eq!(
        plan_query(&until, &mode).params,
        vec![SqlValue::Text("2023-11-14T22:30:00+00:00".into())]
    );
    // What is no time is bound as it is.
    let odd = NotificationFilter { since: Some("2023".into()), ..Default::default() };
    assert_eq!(plan_query(&odd, &mode).params, vec![SqlValue::Text("2023".into())]);
}

#[test]
fn all_rows_are_cleared_or_marked() {
    let now = at(1_700_000_000);
    let text = |t: &str| SqlValue::Text(t.to_string());
    let s = clear_all(&now);
    assert_eq!(
        s.sql,
        "UPDATE notifications SET status = ?, updated_at = ? WHERE status IN (?,?)"
    );
    let stamp = "2023-11-14T22:13:20+00:00";
    assert_eq!(s.params, vec![text("cleared"), text(stamp), text("unread"), text("read")]);
    let s = mark_read_all(&now);
    assert_eq!(s.sql, "UPDATE notifications SET status = ?, updated_at = ? WHERE status IN (?)");
    assert_eq!(s.params, vec![text("read"), text(stamp), text("unread")]);
}

#[test]
fn only_what_opens_counts_as_decrypted() {
    let conn = fresh_conn();
    let (sk, pk) = fresh_keypair();
    let mode = unlocked_state(sk, pk).enc_mode();
    let id = insert(&conn, &sample_notif(1, "s", "b"), &mode);
    let mut row = select(&conn, &get_notification(id)).remove(0);
    assert!(notification_from_row(&row, &mode, utc_now()).decrypted);
    row.summary_enc = Some(vec![0; 80]);
    row.body_enc = Some(vec![1, 2]);
    // The hints still open.
    assert!(notification_from_row(&row, &mode, utc_now()).decrypted);
    row.hints_enc = None;
    let read = notification_from_row(&row, &mode, utc_now());
    assert!(!read.decrypted);
    assert_eq!(read.notification.summary, PLACEHOLDER_ENCRYPTED);
}
