//! Sealing and opening, keys, and the state of the daemon's secret.

use olha::encryption::{
    compute_bytes_key_id, compute_pk_key_id, derive_dek, open_field, pass_step, seal_field,
    seal_field_with, trim_trailing_space, unwrap_sk, wrap_sk, wrap_sk_with, EncMode,
    EncryptionError, EncryptionState, FieldTag, PassPoll, PassStep, PublicKey, SkBytes, DEK_LEN,
    KEY_ID_LEN, NONCE_LEN, X25519_KEY_LEN,
};
use rand::RngCore;
use sha2::{Digest, Sha256};
use std::time::{SystemTime, UNIX_EPOCH};

fn test_keypair() -> (SkBytes, PublicKey) {
    let mut sk = [0u8; X25519_KEY_LEN];
    rand::rngs::OsRng.fill_bytes(&mut sk);
    let pk = PublicKey::of_secret(&sk);
    (sk, pk)
}

fn unix_now() -> i64 {
    SystemTime::now().duration_since(UNIX_EPOCH).unwrap().as_secs() as i64
}

#[test]
fn seal_open_roundtrip() {
    let (sk, pk) = test_keypair();
    for tag in [FieldTag::Summary, FieldTag::Body, FieldTag::Hints] {
        let msg = format!("hello {:?}", tag);
        let blob = seal_field(&pk, tag, msg.as_bytes()).unwrap();
        let out = open_field(&sk, &pk, tag, &blob).unwrap();
        assert_eq!(out, msg.as_bytes());
    }
}

#[test]
fn wrong_pk_rejected() {
    let (sk1, pk1) = test_keypair();
    let (_, pk2) = test_keypair();
    let blob = seal_field(&pk1, FieldTag::Body, b"secret").unwrap();
    // The right secret key beside another public key gives another cipher key.
    assert!(open_field(&sk1, &pk2, FieldTag::Body, &blob).is_err());
}

#[test]
fn wrong_sk_rejected() {
    let (_, pk) = test_keypair();
    let (sk2, _) = test_keypair();
    let blob = seal_field(&pk, FieldTag::Body, b"secret").unwrap();
    assert!(open_field(&sk2, &pk, FieldTag::Body, &blob).is_err());
}

#[test]
fn field_tag_binding_wrong_tag_fails() {
    let (sk, pk) = test_keypair();
    let blob = seal_field(&pk, FieldTag::Summary, b"topic").unwrap();
    // Read as a body, the outer tag is the first thing that differs.
    let err = open_field(&sk, &pk, FieldTag::Body, &blob).unwrap_err();
    assert!(matches!(err, EncryptionError::FieldTagMismatch { .. }));
}

#[test]
fn inner_tag_binding_via_aad() {
    let (sk, pk) = test_keypair();
    let mut blob = seal_field(&pk, FieldTag::Summary, b"topic").unwrap();
    // With the outer tag changed too, the associated data still differs.
    blob[1] = FieldTag::Body.byte();
    let err = open_field(&sk, &pk, FieldTag::Body, &blob).unwrap_err();
    assert!(matches!(err, EncryptionError::Decrypt));
}

#[test]
fn outer_header_version_mismatch_rejected() {
    let (sk, pk) = test_keypair();
    let mut blob = seal_field(&pk, FieldTag::Body, b"x").unwrap();
    blob[0] = 0x03;
    let err = open_field(&sk, &pk, FieldTag::Body, &blob).unwrap_err();
    assert!(matches!(err, EncryptionError::BadVersion(0x03)));
}

#[test]
fn truncated_blob_rejected() {
    let (sk, pk) = test_keypair();
    let blob = seal_field(&pk, FieldTag::Body, b"x").unwrap();
    let short = &blob[..10];
    assert!(matches!(
        open_field(&sk, &pk, FieldTag::Body, short),
        Err(EncryptionError::BlobTooShort { .. })
    ));
}

#[test]
fn nonces_are_unique_across_calls() {
    let (_, pk) = test_keypair();
    let a = seal_field(&pk, FieldTag::Body, b"same").unwrap();
    let b = seal_field(&pk, FieldTag::Body, b"same").unwrap();
    assert_ne!(a, b, "ephemeral keys must randomize per-call");
}

#[test]
fn wrapped_sk_roundtrip() {
    let dek = [0xABu8; DEK_LEN];
    let sk = [0x33u8; X25519_KEY_LEN];
    let blob = wrap_sk(&dek, &sk).unwrap();
    let unwrapped = unwrap_sk(&dek, &blob).unwrap();
    assert_eq!(&unwrapped, &sk);
}

#[test]
fn wrapped_sk_rejects_wrong_dek() {
    let dek1 = [0x01u8; DEK_LEN];
    let dek2 = [0x02u8; DEK_LEN];
    let sk = [0x33u8; X25519_KEY_LEN];
    let blob = wrap_sk(&dek1, &sk).unwrap();
    assert!(unwrap_sk(&dek2, &blob).is_err());
}

#[test]
fn wrapped_sk_rejects_tampered_ciphertext() {
    let dek = [0xABu8; DEK_LEN];
    let sk = [0x33u8; X25519_KEY_LEN];
    let mut blob = wrap_sk(&dek, &sk).unwrap();
    // Flip a byte inside the ciphertext.
    let idx = 1 + NONCE_LEN + 2;
    blob[idx] ^= 0x01;
    assert!(unwrap_sk(&dek, &blob).is_err());
}

#[test]
fn wrapped_sk_rejects_tampered_version_byte() {
    let dek = [0xABu8; DEK_LEN];
    let sk = [0x33u8; X25519_KEY_LEN];
    let mut blob = wrap_sk(&dek, &sk).unwrap();
    blob[0] = 0x02;
    assert!(matches!(unwrap_sk(&dek, &blob), Err(EncryptionError::BadVersion(0x02))));
}

#[test]
fn key_id_matches_sha256_of_pk_prefix() {
    let (_, pk) = test_keypair();
    let kid1 = compute_pk_key_id(&pk);
    let kid2 = compute_pk_key_id(&pk);
    assert_eq!(kid1, kid2);

    let mut hasher = Sha256::new();
    hasher.update(pk.as_bytes());
    let digest = hasher.finalize();
    assert_eq!(&kid1[..], &digest[..KEY_ID_LEN]);
}

#[test]
fn derive_dek_is_sha256() {
    let d = derive_dek(b"hello");
    let expected = [
        0x2c, 0xf2, 0x4d, 0xba, 0x5f, 0xb0, 0xa3, 0x0e, 0x26, 0xe8, 0x3b, 0x2a, 0xc5, 0xb9, 0xe2,
        0x9e, 0x1b, 0x16, 0x1e, 0x5c, 0x1f, 0xa7, 0x42, 0x5e, 0x73, 0x04, 0x33, 0x62, 0x93, 0x8b,
        0x98, 0x24,
    ];
    assert_eq!(&d, &expected);
}

#[test]
fn encryption_state_lock_unlock_toggle() {
    let (sk, pk) = test_keypair();
    let mut state = EncryptionState::with_public_key(pk, 0);
    assert!(!state.is_unlocked());
    state.unlock(sk);
    assert!(state.is_unlocked());
    assert!(state.lock());
    assert!(!state.is_unlocked());
    // Locking again says that nothing was to be done.
    assert!(!state.lock());
}

#[test]
fn encryption_state_enc_mode_transitions() {
    let (sk, pk) = test_keypair();
    let mut state = EncryptionState::with_public_key(pk, 0);
    assert!(matches!(state.enc_mode(), EncMode::Locked { .. }));
    state.unlock(sk);
    assert!(matches!(state.enc_mode(), EncMode::Unlocked { .. }));

    let plain = EncryptionState::plaintext();
    assert!(matches!(plain.enc_mode(), EncMode::Plaintext));
}

#[test]
fn auto_lock_zero_disables_timer() {
    let (sk, pk) = test_keypair();
    let mut state = EncryptionState::with_public_key(pk, 0);
    state.unlock(sk);
    // However long ago the last activity was.
    state.last_activity = 0;
    assert!(!state.should_auto_lock());
    assert_eq!(state.idle_until_lock_secs(), None);
}

#[test]
fn auto_lock_fires_after_threshold() {
    let (sk, pk) = test_keypair();
    let mut state = EncryptionState::with_public_key(pk, 1);
    state.unlock(sk);
    // The last activity was 10 seconds ago.
    let backdate = unix_now() - 10;
    state.last_activity = backdate;
    assert!(state.should_auto_lock());
}

#[test]
fn the_idle_timer_counts_down() {
    let (sk, pk) = test_keypair();
    let mut state = EncryptionState::with_public_key(pk, 300);
    assert_eq!(state.auto_lock_secs(), 300);
    // Locked: there is nothing to lock.
    assert_eq!(state.idle_until_lock_secs_at(1000), None);
    assert!(!state.should_auto_lock_at(10_000));
    state.unlock_at(sk, 1000);
    assert_eq!(state.idle_until_lock_secs_at(1000), Some(300));
    assert_eq!(state.idle_until_lock_secs_at(1299), Some(1));
    assert!(!state.should_auto_lock_at(1299));
    assert_eq!(state.idle_until_lock_secs_at(1300), Some(0));
    assert!(state.should_auto_lock_at(1300));
    state.record_decrypt_activity_at(1250);
    assert_eq!(state.idle_until_lock_secs_at(1300), Some(250));
    assert!(!state.should_auto_lock_at(1300));
}

#[test]
fn unlocking_starts_the_timer_at_the_systems_time() {
    let (sk, pk) = test_keypair();
    let mut state = EncryptionState::with_public_key(pk, 60);
    let before = unix_now();
    state.unlock(sk);
    assert!(state.last_activity >= before && state.last_activity <= unix_now());
    state.last_activity = 0;
    state.record_decrypt_activity();
    assert!(state.last_activity >= before);
}

#[test]
fn a_sealed_field_has_a_fixed_layout() {
    let (_, pk) = test_keypair();
    let esk = [7u8; 32];
    let nonce = [9u8; 24];
    let blob = seal_field_with(&pk, FieldTag::Hints, b"{}", &esk, &nonce).unwrap();
    assert_eq!(blob.len(), 2 + 32 + 24 + 2 + 16);
    assert_eq!(blob[0], 0x01);
    assert_eq!(blob[1], 0x03);
    assert_eq!(&blob[2..34], PublicKey::of_secret(&esk).as_bytes());
    assert_eq!(&blob[34..58], &nonce);
    // The same key and nonce give the same bytes.
    assert_eq!(blob, seal_field_with(&pk, FieldTag::Hints, b"{}", &esk, &nonce).unwrap());
}

#[test]
fn a_wrapped_key_has_a_fixed_layout() {
    let dek = [1u8; 32];
    let nonce = [2u8; 24];
    let blob = wrap_sk_with(&dek, &[3u8; 32], &nonce);
    assert_eq!(blob.len(), 1 + 24 + 32 + 16);
    assert_eq!(blob[0], 0x01);
    assert_eq!(&blob[1..25], &nonce);
    assert!(matches!(
        unwrap_sk(&dek, &blob[..72]),
        Err(EncryptionError::BlobTooShort { got: 72, min: 73 })
    ));
}

#[test]
fn the_public_key_of_a_known_secret() {
    // Alice's keys of RFC 7748, section 6.1.
    let sk = [
        0x77, 0x07, 0x6d, 0x0a, 0x73, 0x18, 0xa5, 0x7d, 0x3c, 0x16, 0xc1, 0x72, 0x51, 0xb2, 0x66,
        0x45, 0xdf, 0x4c, 0x2f, 0x87, 0xeb, 0xc0, 0x99, 0x2a, 0xb1, 0x77, 0xfb, 0xa5, 0x1d, 0xb9,
        0x2c, 0x2a,
    ];
    let pk = [
        0x85, 0x20, 0xf0, 0x09, 0x89, 0x30, 0xa7, 0x54, 0x74, 0x8b, 0x7d, 0xdc, 0xb4, 0x3e, 0xf7,
        0x5a, 0x0d, 0xbf, 0x3a, 0x0d, 0x26, 0x38, 0x1a, 0xf4, 0xeb, 0xa4, 0xa9, 0x8e, 0xaa, 0x9b,
        0x4e, 0x6a,
    ];
    assert_eq!(PublicKey::of_secret(&sk).as_bytes(), &pk);
}

#[test]
fn tags_have_bytes_and_associated_data() {
    assert_eq!(FieldTag::Summary.byte(), 1);
    assert_eq!(FieldTag::Body.byte(), 2);
    assert_eq!(FieldTag::Hints.byte(), 3);
    assert_eq!(FieldTag::Summary.aad(), b"olha/v1/summary");
    assert_eq!(FieldTag::Body.aad(), b"olha/v1/body");
    assert_eq!(FieldTag::Hints.aad(), b"olha/v1/hints");
    assert_eq!(compute_bytes_key_id(b"hello"), [0x2c, 0xf2, 0x4d, 0xba]);
}

#[test]
fn a_mode_tells_what_it_has() {
    let (sk, pk) = test_keypair();
    let mut state = EncryptionState::with_public_key(pk, 0);
    let locked = state.enc_mode();
    assert!(locked.is_encrypted() && !locked.is_unlocked());
    assert_eq!(locked.pk(), Some(&pk));
    assert_eq!(locked.key_id(), Some(&compute_pk_key_id(&pk)));
    state.unlock(sk);
    assert!(state.enc_mode().is_unlocked());
    let plain = EncMode::Plaintext;
    assert!(!plain.is_encrypted() && !plain.is_unlocked());
    assert_eq!(plain.pk(), None);
    assert_eq!(plain.key_id(), None);
}

#[test]
fn every_error_has_a_message() {
    assert_eq!(
        EncryptionError::PassSpawn("no such file".to_string()).message(),
        "pass subprocess failed: no such file"
    );
    assert_eq!(
        EncryptionError::PassExit(2).message(),
        "pass show returned non-zero exit code (2); is the entry set up? run `olha encryption init`"
    );
    assert_eq!(
        EncryptionError::PassTimeout.message(),
        "pass show timed out after 30s — is gpg-agent waiting on pinentry with no TTY?"
    );
    assert!(!EncryptionError::Encrypt.message().is_empty());
    assert!(!EncryptionError::Decrypt.message().is_empty());
    assert!(EncryptionError::BadVersion(0x0f).message().contains("0x0f"));
    let short = EncryptionError::BlobTooShort { got: 3, min: 74 }.message();
    assert!(short.contains('3') && short.contains("74"));
    let tag = EncryptionError::FieldTagMismatch { stored: 1, expected: 2 }.message();
    assert!(tag.contains("0x01") && tag.contains("0x02"));
}

#[test]
fn the_answer_of_pass_is_trimmed() {
    assert_eq!(trim_trailing_space(b"key \r\n\t\n".to_vec()), b"key".to_vec());
    assert_eq!(trim_trailing_space(b" \n".to_vec()), Vec::<u8>::new());
    assert_eq!(trim_trailing_space(b" key".to_vec()), b" key".to_vec());
}

#[test]
fn a_look_at_pass_decides_what_is_next() {
    let done = PassPoll::Exited { success: true, code: Some(0), output: b"k\n".to_vec() };
    assert!(matches!(pass_step(done), PassStep::Finish(Ok(k)) if k == b"k"));
    let failed = PassPoll::Exited { success: false, code: Some(1), output: Vec::new() };
    assert!(matches!(
        pass_step(failed),
        PassStep::Finish(Err(EncryptionError::PassExit(1)))
    ));
    let killed = PassPoll::Exited { success: false, code: None, output: Vec::new() };
    assert!(matches!(
        pass_step(killed),
        PassStep::Finish(Err(EncryptionError::PassExit(-1)))
    ));
    assert!(matches!(pass_step(PassPoll::Running { expired: false }), PassStep::Wait));
    assert!(matches!(
        pass_step(PassPoll::Running { expired: true }),
        PassStep::Kill(EncryptionError::PassTimeout)
    ));
}

#[test]
fn readings_of_the_clock_are_signed_seconds() {
    assert_eq!(olha::encryption::reading_secs(None), 0);
    assert_eq!(olha::encryption::reading_secs(Some(0)), 0);
    assert_eq!(olha::encryption::reading_secs(Some(1_700_000_000)), 1_700_000_000);
    assert_eq!(olha::encryption::reading_secs(Some(i64::MAX as u64)), i64::MAX);
    assert_eq!(olha::encryption::reading_secs(Some(1 << 63)), i64::MIN);
    assert_eq!(olha::encryption::reading_secs(Some(u64::MAX)), -1);
}

#[test]
fn a_mode_gives_up_its_secret_key() {
    let (sk, pk) = test_keypair();
    let key_id = compute_pk_key_id(&pk);
    let mut mode = EncMode::Unlocked { pk, key_id, sk };
    mode.lock();
    assert!(matches!(mode, EncMode::Locked { .. }));
    assert_eq!(mode.pk(), Some(&pk));
    assert_eq!(mode.key_id(), Some(&key_id));
    mode.lock();
    assert!(matches!(mode, EncMode::Locked { .. }));
    let mut plain = EncMode::Plaintext;
    plain.lock();
    assert!(matches!(plain, EncMode::Plaintext));
}

#[test]
fn a_damaged_wrap_is_refused() {
    let dek = derive_dek(b"ikm");
    let blob = wrap_sk_with(&dek, &[3u8; 32], &[4u8; 24]);
    assert_eq!(blob.len(), 73);
    assert_eq!(unwrap_sk(&dek, &blob).unwrap(), [3u8; 32]);
    let mut versioned = blob.clone();
    versioned[0] = 9;
    assert!(matches!(unwrap_sk(&dek, &versioned), Err(EncryptionError::BadVersion(9))));
    assert!(matches!(
        unwrap_sk(&dek, &blob[..72]),
        Err(EncryptionError::BlobTooShort { got: 72, min: 73 })
    ));
}
