//! Managing the keys: making, wrapping anew, replacing, and giving rows back.

use base64::Engine;
use olha::daemon::control::{finish_unlock, key_from_pass};
use olha::daemon::startup::initial_encryption;
use olha::config::EncryptionConfig;
use olha::encryption::{derive_dek, open_field, seal_field, FieldTag, PublicKey};
use olha::keys::{
    check_confirmed, check_enable, check_entry, check_material, confirm_yes, decode_meta_b64,
    downgrade_encrypted_rows_to_plaintext, fresh_ikm, init_material, load_public_key, load_secret,
    material_with, needs_fresh_ikm, plan_disable, public_key_from_bytes, reseal_blob, rewrap,
    rotate_key, rotate_key_with, wipe_notice, DisablePlan, SealedRow,
};
use olha::report::{
    chosen_entry, downgrade_notice, downgraded_text, encryption_report, init_report, pass_state,
    refuse_if_daemon_running, resealed_text, rewrap_report, rotate_notice, switched_text,
    wiped_text, DaemonState, EncryptionFacts, PassState, StoreState,
};

fn decode(text: &str) -> Vec<u8> {
    base64::engine::general_purpose::STANDARD.decode(text).unwrap()
}

fn encode(bytes: &[u8]) -> String {
    base64::engine::general_purpose::STANDARD.encode(bytes)
}

fn sealed_row(pk: &PublicKey, id: i64) -> SealedRow {
    SealedRow {
        id,
        summary: Some(seal_field(pk, FieldTag::Summary, "ünï".as_bytes()).unwrap()),
        body: Some(seal_field(pk, FieldTag::Body, b"body").unwrap()),
        hints: None,
    }
}

fn error_of<T>(r: Result<T, String>) -> String {
    match r {
        Ok(_) => panic!("an error was expected"),
        Err(e) => e,
    }
}

#[test]
fn fresh_keys_unlock() {
    let ikm = fresh_ikm();
    assert_eq!(decode(&ikm).len(), 32);
    assert_ne!(ikm, fresh_ikm());
    let m = init_material(ikm.as_bytes()).ok().unwrap();
    let config = EncryptionConfig { enabled: true, ..EncryptionConfig::default() };
    let mut state = initial_encryption(&config, Some(&m.public_key)).ok().unwrap();
    let dek = key_from_pass(Ok(ikm.into_bytes())).unwrap();
    finish_unlock(&mut state, dek, Some(&m.wrapped_secret), 5).unwrap();
    let sk = state.secret_key.unwrap();
    assert_eq!(state.public_key, Some(PublicKey::of_secret(&sk)));
    assert_eq!(
        error_of(init_material(b"")),
        "pass show returned empty output after init; check gpg-agent setup"
    );
}

#[test]
fn key_material_is_text() {
    let sk = [7u8; 32];
    let dek = derive_dek(b"hello");
    let m = material_with(&dek, &sk, &[1u8; 24]);
    assert_eq!(decode(&m.public_key), PublicKey::of_secret(&sk).as_bytes());
    assert_eq!(decode(&m.wrapped_secret).len(), 73);
    assert_eq!(m.key_id.len(), 8);
    assert_eq!(m.dek_kid.len(), 8);
    assert_ne!(m.key_id, m.dek_kid);
}

#[test]
fn nothing_is_overwritten_unasked() {
    assert_eq!(check_material(false, false, "db"), Ok(()));
    assert_eq!(check_material(true, true, "db"), Ok(()));
    assert_eq!(
        check_material(true, false, "/n.db"),
        Err("encryption material already present in /n.db. Pass --force to overwrite (will make existing encrypted rows unreadable).".to_string())
    );
    assert_eq!(check_entry(false, false, "e"), Ok(()));
    assert_eq!(
        check_entry(true, false, "e"),
        Err("pass entry 'e' already exists. Pass --force to overwrite.".to_string())
    );
    assert_eq!(check_enable(3, "e", true), Ok(()));
    assert_eq!(
        check_enable(0, "e", true),
        Err("pass entry 'e' exists but is empty".to_string())
    );
    assert_eq!(
        check_enable(3, "e", false),
        Err("no key material in meta. Run `olha encryption init` before enabling.".to_string())
    );
}

#[test]
fn a_yes_is_a_yes() {
    assert!(confirm_yes(" YES \n"));
    assert!(confirm_yes("y"));
    assert!(!confirm_yes(""));
    assert!(!confirm_yes("yep"));
    assert_eq!(check_confirmed(true, None), Ok(()));
    assert_eq!(check_confirmed(false, Some("y\n")), Ok(()));
    assert_eq!(check_confirmed(false, Some("n\n")), Err("aborted by user".to_string()));
    assert_eq!(
        wipe_notice(3, "/n.db"),
        "Enabling encryption will DELETE all 3 plaintext notifications currently in /n.db."
    );
}

#[test]
fn settings_in_base64() {
    assert_eq!(decode_meta_b64("k", Some(" aGk=\n")), Ok(b"hi".to_vec()));
    assert_eq!(decode_meta_b64("k", None), Err("meta.k missing".to_string()));
    assert!(decode_meta_b64("k", Some("*")).is_err());
    assert_eq!(
        error_of(public_key_from_bytes(b"short")),
        "pk is 5 bytes, expected 32"
    );
    let pk = PublicKey::of_secret(&[7u8; 32]);
    assert_eq!(load_public_key(Some(&encode(pk.as_bytes()))), Ok(pk));
    assert_eq!(error_of(load_public_key(None)), "meta.enc_public_key missing");
}

#[test]
fn switching_off_needs_a_word_where_rows_are_sealed() {
    assert!(matches!(plan_disable(0, false, "db"), Ok(DisablePlan::Switch)));
    assert!(matches!(plan_disable(2, true, "db"), Ok(DisablePlan::Downgrade)));
    assert_eq!(
        error_of(plan_disable(2, false, "/n.db")),
        "2 encrypted row(s) exist in /n.db. Pass `--rekey-to-plaintext` to decrypt them back to plaintext columns before disabling encryption (explicit downgrade)."
    );
}

#[test]
fn sealed_rows_are_given_back_as_text() {
    let sk = [7u8; 32];
    let pk = PublicKey::of_secret(&sk);
    let rows = vec![sealed_row(&pk, 1), sealed_row(&pk, 2)];
    let done = downgrade_encrypted_rows_to_plaintext(&rows, &pk, &sk);
    assert_eq!(done.problem, None);
    let plain = done.rows;
    assert_eq!(plain.len(), 2);
    assert_eq!(plain[1].id, 2);
    assert_eq!(plain[1].summary, "ünï");
    assert_eq!(plain[1].body, "body");
    assert_eq!(plain[1].hints, "{}");
    // The rows before one that does not open are given back all the same.
    let broken = vec![
        sealed_row(&pk, 1),
        SealedRow { id: 3, summary: Some(vec![1, 2]), body: None, hints: None },
        sealed_row(&pk, 2),
    ];
    let done = downgrade_encrypted_rows_to_plaintext(&broken, &pk, &sk);
    assert_eq!(done.rows.len(), 1);
    assert_eq!(done.rows[0].id, 1);
    assert_eq!(done.problem.as_deref(), Some("sealed blob too short"));
    let bytes = SealedRow {
        id: 4,
        summary: None,
        body: Some(seal_field(&pk, FieldTag::Body, &[0xff]).unwrap()),
        hints: None,
    };
    let done = downgrade_encrypted_rows_to_plaintext(&vec![bytes], &pk, &sk);
    assert_eq!(done.problem.as_deref(), Some("body: decrypted bytes are not valid UTF-8"));
}

#[test]
fn wrapping_anew_keeps_the_secret() {
    let sk = [7u8; 32];
    let m = material_with(&derive_dek(b"old"), &sk, &[1u8; 24]);
    let r = rewrap(b"old", "e", Some(&m.wrapped_secret), b"new").ok().unwrap();
    let (_, again) = load_secret(b"new", "e", Some(&r.wrapped_secret)).unwrap();
    assert_eq!(again, sk);
    assert_ne!(r.dek_kid, m.dek_kid);
    assert!(load_secret(b"old", "e", Some(&r.wrapped_secret)).is_err());
    // What is missing in the store is said before what is missing in the entry.
    assert_eq!(error_of(rewrap(b"", "e", None, b"new")), "meta.enc_wrapped_secret missing");
    assert_eq!(
        error_of(rewrap(b"", "e", Some(&m.wrapped_secret), b"new")),
        "pass entry 'e' is empty"
    );
    assert_eq!(
        error_of(rewrap(b"bad", "e", Some(&m.wrapped_secret), b"new")),
        "unwrap_sk decrypt (wrong pass entry?)"
    );
    assert_eq!(
        error_of(rewrap(b"old", "e", Some("AQ=="), b"new")),
        "wrapped-sk blob too short"
    );
    assert!(needs_fresh_ikm("a", "a", Some(&vec![1])));
    assert!(needs_fresh_ikm("a", "b", None));
    assert!(needs_fresh_ikm("a", "b", Some(&Vec::new())));
    assert!(!needs_fresh_ikm("a", "b", Some(&vec![1])));
}

#[test]
fn replacing_the_keys_keeps_the_text() {
    let sk = [7u8; 32];
    let pk = PublicKey::of_secret(&sk);
    let m = material_with(&derive_dek(b"ikm"), &sk, &[1u8; 24]);
    let rows = vec![sealed_row(&pk, 1)];
    let r = rotate_key(b"ikm", "e", Some(&m.wrapped_secret), Some(&m.public_key), &rows)
        .ok()
        .unwrap();
    assert_ne!(r.public_key, pk);
    let (_, new_sk) = load_secret(b"ikm", "e", Some(&r.material.wrapped_secret)).unwrap();
    assert_eq!(PublicKey::of_secret(&new_sk), r.public_key);
    let summary = r.rows[0].summary.clone().unwrap();
    let text = open_field(&new_sk, &r.public_key, FieldTag::Summary, &summary).unwrap();
    assert_eq!(text, "ünï".as_bytes());
    assert!(r.rows[0].hints.is_none());
    // The old key opens it no more.
    assert!(open_field(&sk, &pk, FieldTag::Summary, &summary).is_err());
    let broken = vec![SealedRow { id: 3, summary: Some(vec![1, 2]), body: None, hints: None }];
    assert_eq!(
        error_of(rotate_key(b"ikm", "e", Some(&m.wrapped_secret), Some(&m.public_key), &broken)),
        "sealed blob too short"
    );
    assert_eq!(
        error_of(rotate_key(b"", "e", Some(&m.wrapped_secret), Some(&m.public_key), &rows)),
        "pass entry 'e' is empty"
    );
    assert_eq!(
        error_of(rotate_key(b"ikm", "e", Some(&m.wrapped_secret), None, &rows)),
        "meta.enc_public_key missing"
    );
}

#[test]
fn a_column_is_sealed_anew_under_its_tag() {
    let sk = [7u8; 32];
    let pk = PublicKey::of_secret(&sk);
    let other = PublicKey::of_secret(&[8u8; 32]);
    let blob = seal_field(&pk, FieldTag::Body, b"x").unwrap();
    assert_eq!(reseal_blob(&sk, &pk, &other, FieldTag::Body, &None), Ok(None));
    let out = reseal_blob(&sk, &pk, &other, FieldTag::Body, &Some(blob.clone())).unwrap().unwrap();
    assert_eq!(open_field(&[8u8; 32], &other, FieldTag::Body, &out).unwrap(), b"x");
    assert_eq!(
        reseal_blob(&sk, &pk, &other, FieldTag::Summary, &Some(blob.clone())),
        Err("field tag mismatch".to_string())
    );
    let mut versioned = blob;
    versioned[0] = 9;
    assert_eq!(
        reseal_blob(&sk, &pk, &other, FieldTag::Body, &Some(versioned)),
        Err("unknown outer version 0x09".to_string())
    );
}

#[test]
fn what_is_said_while_keys_are_managed() {
    assert_eq!(chosen_entry("", "conf"), "conf");
    assert_eq!(chosen_entry("arg", "conf"), "arg");
    assert_eq!(
        init_report("0a0b0c0d", "olha/db-key", "/n.db"),
        "Initialized encryption (key_id=0a0b0c0d).\n\
         Wrote pass entry 'olha/db-key' and meta keys to /n.db.\n\
         \n\
         Next steps:\n  \
         1. Back up ~/.password-store/olha/db-key.gpg alongside your DB.\n  \
         2. Run `olha encryption enable` to flip the config flag.\n  \
         3. Start olhad, then `olha unlock` to read history.\n"
    );
    assert_eq!(wiped_text(4), "Wiped 4 plaintext rows.");
    assert_eq!(
        switched_text(true, "/c.toml"),
        "Encryption enabled in /c.toml\nRestart olhad to pick up the change.\n"
    );
    assert_eq!(
        switched_text(false, "/c.toml"),
        "Encryption disabled in /c.toml\nRestart olhad to pick up the change.\n"
    );
    assert_eq!(
        downgrade_notice(2, "/n.db"),
        "About to DECRYPT 2 row(s) and store them as plaintext in /n.db."
    );
    assert_eq!(downgraded_text(2), "Downgraded 2 row(s) to plaintext.");
    assert_eq!(
        rewrap_report("a", "a", "01020304"),
        "Re-wrapped secret under new DEK (dek_kid=01020304).\n"
    );
    assert_eq!(
        rewrap_report("a", "b", "01020304"),
        "Pass entry updated in config: a -> b\nRe-wrapped secret under new DEK (dek_kid=01020304).\n"
    );
    assert_eq!(
        rotate_notice(12),
        "About to generate a new X25519 keypair and re-seal 12 encrypted row(s). Daemon must be stopped."
    );
    assert_eq!(resealed_text(12, "01020304"), "Re-sealed 12 row(s) under new key_id=01020304.");
}

#[test]
fn a_running_daemon_stops_a_rewrite() {
    assert_eq!(refuse_if_daemon_running(&DaemonState::NotRunning, "x"), Ok(()));
    assert_eq!(refuse_if_daemon_running(&DaemonState::Unknown("e".to_string()), "x"), Ok(()));
    for d in [DaemonState::Locked, DaemonState::Unlocked] {
        assert_eq!(
            refuse_if_daemon_running(&d, "rotate-key"),
            Err("olhad is running; stop it before `olha encryption rotate-key` to avoid concurrent writes.".to_string())
        );
    }
}

#[test]
fn the_report_on_encryption() {
    let facts = EncryptionFacts {
        config_path: "/c.toml".to_string(),
        enabled: true,
        entry: "olha/db-key".to_string(),
        pass: PassState::Usable("01020304".to_string()),
        db_path: "/n.db".to_string(),
        store: StoreState::Readable {
            key_id: Some("0a0b0c0d".to_string()),
            plain: 0,
            encrypted: 7,
        },
        daemon: DaemonState::Locked,
    };
    assert_eq!(
        encryption_report(&facts),
        "config file         : /c.toml\n\
         encryption.enabled  : true\n\
         pass_entry          : olha/db-key\n\
         pass entry          : OK (dek_kid = 01020304)\n\
         db                  : /n.db\n\
         keypair             : present (key_id = 0a0b0c0d)\n\
         rows (plaintext)    : 0\n\
         rows (encrypted)    : 7\n\
         daemon              : running, locked\n"
    );
    let facts = EncryptionFacts {
        enabled: false,
        pass: PassState::Unavailable("no pass".to_string()),
        store: StoreState::Unreadable("denied".to_string()),
        daemon: DaemonState::Unknown("bus".to_string()),
        ..facts
    };
    let report = encryption_report(&facts);
    assert!(report.contains("encryption.enabled  : false\n"));
    assert!(report.contains("pass entry          : NOT AVAILABLE (no pass)\n"));
    assert!(report.contains("db                  : /n.db (unreadable: denied)\n"));
    assert!(report.ends_with("daemon              : probe failed (bus)\n"));
    let facts = EncryptionFacts {
        pass: PassState::Empty,
        store: StoreState::Readable { key_id: None, plain: 1, encrypted: 0 },
        daemon: DaemonState::NotRunning,
        ..facts
    };
    let report = encryption_report(&facts);
    assert!(report.contains("EXISTS but EMPTY (broken)"));
    assert!(report.contains("ABSENT — run `olha encryption init`"));
    assert!(report.ends_with("daemon              : not running\n"));
}

#[test]
fn a_rotation_takes_the_key_that_it_is_given() {
    let sk = [7u8; 32];
    let pk = PublicKey::of_secret(&sk);
    let dek = derive_dek(b"ikm");
    let m = material_with(&dek, &sk, &[1u8; 24]);
    let rows = vec![sealed_row(&pk, 5)];
    let new_sk = [9u8; 32];
    let r = rotate_key_with(
        b"ikm",
        "e",
        Some(&m.wrapped_secret),
        Some(&m.public_key),
        &rows,
        &new_sk,
        &[2u8; 24],
    )
    .ok()
    .unwrap();
    assert_eq!(r.public_key, PublicKey::of_secret(&new_sk));
    let expected = material_with(&dek, &new_sk, &[2u8; 24]);
    assert_eq!(r.material.wrapped_secret, expected.wrapped_secret);
    assert_eq!(r.material.key_id, expected.key_id);
    assert_eq!(r.material.dek_kid, m.dek_kid);
    assert_eq!(r.rows[0].id, 5);
    let body = r.rows[0].body.clone().unwrap();
    assert_eq!(open_field(&new_sk, &r.public_key, FieldTag::Body, &body).unwrap(), b"body");
}

#[test]
fn the_answer_of_pass_is_told() {
    assert!(matches!(pass_state(Ok(b"")), PassState::Empty));
    // The digest of the digest of "hello" begins so.
    match pass_state(Ok(b"hello")) {
        PassState::Usable(kid) => assert_eq!(kid, "9595c9df"),
        _ => panic!("the entry holds something"),
    }
    match pass_state(Err("no entry".to_string())) {
        PassState::Unavailable(e) => assert_eq!(e, "no entry"),
        _ => panic!("an error was expected"),
    }
}

#[test]
fn keys_are_kept_in_base64() {
    let m = material_with(&derive_dek(b"ikm"), &[7u8; 32], &[1u8; 24]);
    assert_eq!(m.public_key, encode(PublicKey::of_secret(&[7u8; 32]).as_bytes()));
    assert_eq!(decode(&m.wrapped_secret).len(), 73);
}
