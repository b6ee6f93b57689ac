//! What becomes of sealed content when keys are put to use, replaced or given up.

use crate::crypto;
use crate::encryption;
use crate::encryption::{EncMode, EncryptionError, EncryptionState, FieldTag, PublicKey, SkBytes};
use crate::keys;
use crate::keys::{KeyMaterial, PlainRow, Rotation, SealedRow};
use crate::notification::NotificationView;
use crate::store;
use crate::store::StoredRow;
use crate::text;
use vstd::prelude::*;

verus! {

// ---------- another key pair ----------

/// Whether a row of the store has those sealed columns.
pub open spec fn has_columns(row: StoredRow, columns: SealedRow) -> bool {
    &&& row.id == columns.id
    &&& row.enc_version == encryption::ENC_VERSION
    &&& row.summary_enc == columns.summary
    &&& row.body_enc == columns.body
    &&& row.hints_enc == columns.hints
}

/// Whether two rows of the store differ in their sealed columns and the key that these are for,
/// at most.
pub open spec fn same_but_sealed(a: StoredRow, b: StoredRow) -> bool {
    a == (StoredRow {
        summary_enc: a.summary_enc,
        body_enc: a.body_enc,
        hints_enc: a.hints_enc,
        key_id: a.key_id,
        ..b
    })
}

/// What the new key opens of a rotated row is what the old key opened of it before, column by
/// column, and the columns that were empty stay so.
pub proof fn the_new_key_opens_what_the_old_one_did(
    r: Rotation,
    rows: Seq<SealedRow>,
    old_sk: Seq<u8>,
    old_pk: Seq<u8>,
    new_sk: Seq<u8>,
    dek: Seq<u8>,
    nonce: Seq<u8>,
    i: int,
    sk: Seq<u8>,
)
    requires
        keys::rotates(r, rows, old_sk, old_pk, new_sk, dek, nonce),
        0 <= i < rows.len(),
        sk.len() == 32,
        crypto::x25519_public(sk) == r.public_key.bytes@,
    ensures
        r.rows@.len() == rows.len(),
        r.rows@[i].id == rows[i].id,
        r.rows@[i].summary is Some <==> rows[i].summary is Some,
        r.rows@[i].body is Some <==> rows[i].body is Some,
        r.rows@[i].hints is Some <==> rows[i].hints is Some,
        rows[i].summary is Some ==> encryption::opened_field(
            sk,
            r.public_key.bytes@,
            FieldTag::Summary,
            r.rows@[i].summary->0@,
        ) == encryption::opened_field(old_sk, old_pk, FieldTag::Summary, rows[i].summary->0@),
        rows[i].body is Some ==> encryption::opened_field(
            sk,
            r.public_key.bytes@,
            FieldTag::Body,
            r.rows@[i].body->0@,
        ) == encryption::opened_field(old_sk, old_pk, FieldTag::Body, rows[i].body->0@),
        rows[i].hints is Some ==> encryption::opened_field(
            sk,
            r.public_key.bytes@,
            FieldTag::Hints,
            r.rows@[i].hints->0@,
        ) == encryption::opened_field(old_sk, old_pk, FieldTag::Hints, rows[i].hints->0@),
{
    let pk = r.public_key.bytes@;
    assert(keys::is_reseal_of_row(rows[i], old_sk, old_pk, pk, r.rows@[i]));
    assert(crypto::x25519_public(sk) == pk);
}

/// A rotated row reads under every secret key behind the new public key as it read under the old
/// one: summary, body and hints are the same, and so is all the rest.
pub proof fn a_rotated_row_reads_the_same(
    r: Rotation,
    rows: Seq<SealedRow>,
    old_pk: PublicKey,
    old_id: [u8; 4],
    old_sk: SkBytes,
    drawn: Seq<u8>,
    dek: Seq<u8>,
    nonce: Seq<u8>,
    i: int,
    before: StoredRow,
    after: StoredRow,
    new_id: [u8; 4],
    new_sk: SkBytes,
    now: (int, int),
)
    requires
        keys::rotates(r, rows, old_sk@, old_pk.bytes@, drawn, dek, nonce),
        0 <= i < rows.len(),
        has_columns(before, rows[i]),
        has_columns(after, r.rows@[i]),
        same_but_sealed(after, before),
        before.key_id is Some && before.key_id->0@ == old_id@,
        after.key_id is Some && after.key_id->0@ == new_id@,
        crypto::x25519_public(new_sk@) == r.public_key.bytes@,
    ensures
        ({
            let old_mode = EncMode::Unlocked { pk: old_pk, key_id: old_id, sk: old_sk };
            let new_mode = EncMode::Unlocked { pk: r.public_key, key_id: new_id, sk: new_sk };
            let was = store::read_row(before, old_mode, now);
            let is = store::read_row(after, new_mode, now);
            &&& is.summary == was.summary
            &&& is.body == was.body
            &&& is.hints == was.hints
            &&& is == was
        }),
{
    the_new_key_opens_what_the_old_one_did(
        r,
        rows,
        old_sk@,
        old_pk.bytes@,
        drawn,
        dek,
        nonce,
        i,
        new_sk@,
    );
    let old_mode = EncMode::Unlocked { pk: old_pk, key_id: old_id, sk: old_sk };
    let new_mode = EncMode::Unlocked { pk: r.public_key, key_id: new_id, sk: new_sk };
    assert(store::opens(before, old_mode));
    assert(store::opens(after, new_mode));
}

/// A rotation leaves a store that can be unlocked: the same entry of the password store gives the
/// new secret key, and the public key beside it is that key's.
pub proof fn a_rotated_store_unlocks(
    r: Rotation,
    rows: Seq<SealedRow>,
    old_sk: Seq<u8>,
    old_pk: Seq<u8>,
    new_sk: Seq<u8>,
    ikm: Seq<u8>,
    nonce: Seq<u8>,
    entry: Seq<char>,
)
    requires
        keys::rotates(r, rows, old_sk, old_pk, new_sk, crypto::sha256(ikm), nonce),
        ikm.len() > 0,
    ensures
        keys::secret_behind(ikm, entry, Some(r.material.wrapped_secret@)) == Ok::<
            Seq<u8>,
            Seq<char>,
        >(new_sk),
        crypto::base64_bytes(r.material.public_key@) == Some(crypto::x25519_public(new_sk)),
        r.public_key.bytes@ == crypto::x25519_public(new_sk),
        r.material.key_id@ == text::hex(crypto::sha256(r.public_key.bytes@).take(4)),
{
    kept_secrets_are_found(r.material.wrapped_secret@, new_sk, ikm, entry);
}

/// A secret key that the store keeps is found with the entry of the password store that it was
/// wrapped under.
pub proof fn kept_secrets_are_found(
    stored: Seq<char>,
    sk: Seq<u8>,
    ikm: Seq<u8>,
    entry: Seq<char>,
)
    requires
        keys::keeps_secret(stored, sk, crypto::sha256(ikm)),
        ikm.len() > 0,
    ensures
        keys::secret_behind(ikm, entry, Some(stored)) == Ok::<Seq<u8>, Seq<char>>(sk),
        encryption::unwrapped_bytes(
            crypto::sha256(ikm),
            crypto::base64_bytes(text::trimmed(stored))->0,
        ) == Ok::<Seq<u8>, EncryptionError>(sk),
        sk.len() == 32,
{
}

/// Fresh keys are found again with the entry that they were wrapped under, and the daemon takes
/// their public key.
pub proof fn fresh_keys_are_found(
    m: KeyMaterial,
    sk: Seq<u8>,
    ikm: Seq<u8>,
    nonce: Seq<u8>,
    entry: Seq<char>,
)
    requires
        keys::keeps_with(m, sk, crypto::sha256(ikm), nonce),
        ikm.len() > 0,
    ensures
        keys::secret_behind(ikm, entry, Some(m.wrapped_secret@)) == Ok::<Seq<u8>, Seq<char>>(sk),
        crypto::base64_bytes(m.public_key@) == Some(crypto::x25519_public(sk)),
        m.key_id@ == text::hex(crypto::sha256(crypto::x25519_public(sk)).take(4)),
        m.dek_kid@ == text::hex(crypto::sha256(crypto::sha256(ikm)).take(4)),
{
}

// ---------- back to plain text ----------

/// A row that was given back as plain text reads, to everybody, as it read to the holder of the
/// secret key: whole, but for hints that hold no text, which are then an empty object.
pub proof fn a_downgraded_row_reads_the_same(
    columns: SealedRow,
    pk: PublicKey,
    id: [u8; 4],
    sk: SkBytes,
    plain: PlainRow,
    before: StoredRow,
    after: StoredRow,
    mode: EncMode,
    now: (int, int),
)
    requires
        keys::is_downgrade(columns, sk@, pk.bytes@, plain),
        has_columns(before, columns),
        before.key_id is Some && before.key_id->0@ == id@,
        after == (StoredRow {
            summary: plain.summary,
            body: plain.body,
            hints: plain.hints,
            enc_version: 0,
            summary_enc: None,
            body_enc: None,
            hints_enc: None,
            key_id: None,
            ..before
        }),
    ensures
        ({
            let unlocked = EncMode::Unlocked { pk, key_id: id, sk };
            let was = store::read_row(before, unlocked, now);
            let is = store::read_row(after, mode, now);
            &&& plain.id == columns.id
            &&& is.summary == was.summary
            &&& is.body == was.body
            &&& is == (NotificationView { hints: is.hints, ..was })
            &&& was.hints == is.hints || plain.hints@ == "{}"@ && was.hints == "{}"@
        }),
{
    let unlocked = EncMode::Unlocked { pk, key_id: id, sk };
    assert(store::opens(before, unlocked));
}

// ---------- sealed fields ----------

/// A sealed field is laid out as a version, a tag, the ephemeral public key, the nonce and what
/// the cipher made.
pub proof fn a_sealed_field_has_its_layout(
    pk: Seq<u8>,
    tag: FieldTag,
    plaintext: Seq<u8>,
    esk: Seq<u8>,
    nonce: Seq<u8>,
)
    requires
        crypto::x25519_public(esk).len() == 32,
        nonce.len() == 24,
    ensures
        ({
            let blob = encryption::sealed_field(pk, tag, plaintext, esk, nonce);
            let epk = crypto::x25519_public(esk);
            let key = encryption::sym_key(crypto::x25519_shared(esk, pk), epk, pk);
            &&& blob.len() >= 58
            &&& blob[0] == 1
            &&& blob[1] == match tag {
                FieldTag::Summary => 1u8,
                FieldTag::Body => 2u8,
                FieldTag::Hints => 3u8,
            }
            &&& blob.subrange(2, 34) == epk
            &&& blob.subrange(34, 58) == nonce
            &&& blob.skip(58) == crypto::aead_encrypt(key, nonce, tag.spec_aad(), plaintext)
        }),
{
    let blob = encryption::sealed_field(pk, tag, plaintext, esk, nonce);
    let epk = crypto::x25519_public(esk);
    let key = encryption::sym_key(crypto::x25519_shared(esk, pk), epk, pk);
    assert(blob.subrange(2, 34) =~= epk);
    assert(blob.subrange(34, 58) =~= nonce);
    assert(blob.skip(58) =~= crypto::aead_encrypt(key, nonce, tag.spec_aad(), plaintext));
}

/// A field of another version, of another tag or cut short is refused before any decryption,
/// whoever reads it.
pub proof fn a_damaged_field_is_refused(
    sk: Seq<u8>,
    pk: Seq<u8>,
    tag: FieldTag,
    blob: Seq<u8>,
    byte: u8,
    n: int,
)
    requires
        blob.len() >= 74,
        0 <= n < 74,
    ensures
        byte != 1 ==> encryption::opened_field(sk, pk, tag, blob.update(0, byte)) == Err::<
            Seq<u8>,
            EncryptionError,
        >(EncryptionError::BadVersion(byte)),
        blob[0] == 1 && byte != tag.spec_byte() ==> encryption::opened_field(
            sk,
            pk,
            tag,
            blob.update(1, byte),
        ) == Err::<Seq<u8>, EncryptionError>(
            EncryptionError::FieldTagMismatch { stored: byte, expected: tag.spec_byte() },
        ),
        encryption::opened_field(sk, pk, tag, blob.take(n)) == Err::<Seq<u8>, EncryptionError>(
            EncryptionError::BlobTooShort { got: n as usize, min: 74 },
        ),
{
}

/// What the symmetric key is the digest of names the use, the shared secret and both public keys,
/// in places of their own: other keys give other bytes to digest.
pub proof fn the_symmetric_key_covers_all_keys(shared: Seq<u8>, epk: Seq<u8>, pk: Seq<u8>)
    requires
        shared.len() == 32,
        epk.len() == 32,
        pk.len() == 32,
    ensures
        exists|digested: Seq<u8>|
            {
                let use_len = vstd::utf8::encode_utf8("olha/kdf"@).len() as int;
                &&& encryption::sym_key(shared, epk, pk) == #[trigger] crypto::sha256(digested)
                &&& digested.len() == use_len + 96
                &&& digested.take(use_len) == vstd::utf8::encode_utf8("olha/kdf"@)
                &&& digested.subrange(use_len, use_len + 32) == shared
                &&& digested.subrange(use_len + 32, use_len + 64) == epk
                &&& digested.subrange(use_len + 64, use_len + 96) == pk
            },
{
    let name = vstd::utf8::encode_utf8("olha/kdf"@);
    let digested = name + shared + epk + pk;
    let n = name.len() as int;
    assert(digested.take(n) =~= name);
    assert(digested.subrange(n, n + 32) =~= shared);
    assert(digested.subrange(n + 32, n + 64) =~= epk);
    assert(digested.subrange(n + 64, n + 96) =~= pk);
    assert(encryption::sym_key(shared, epk, pk) == crypto::sha256(digested));
}

/// A wrapped secret key is laid out as a version, the nonce and what the cipher made.
pub proof fn a_wrapped_key_has_its_layout(dek: Seq<u8>, sk: Seq<u8>, nonce: Seq<u8>)
    requires
        nonce.len() == 24,
    ensures
        ({
            let blob = encryption::wrapped_sk(dek, sk, nonce);
            &&& blob[0] == 1
            &&& blob.subrange(1, 25) == nonce
            &&& blob.skip(25) == crypto::aead_encrypt(
                dek,
                nonce,
                vstd::utf8::encode_utf8("olha/wrapped-sk"@),
                sk,
            )
        }),
{
    let blob = encryption::wrapped_sk(dek, sk, nonce);
    assert(blob.subrange(1, 25) =~= nonce);
    assert(blob.skip(25) =~= crypto::aead_encrypt(dek, nonce, encryption::wrap_aad(), sk));
}

// ---------- the daemon's keys ----------

/// The daemon locks itself once as many seconds have passed since the last activity as it was told,
/// not before, and not where it was told 0 or holds no key; what is left until then counts down to
/// that moment.
pub proof fn the_idle_timer_runs_from_the_last_activity(state: EncryptionState, now: i64)
    requires
        state.auto_lock_secs <= i64::MAX,
    ensures
        state.spec_should_auto_lock(now) <==> state.secret_key is Some && state.auto_lock_secs > 0
            && now - state.last_activity >= state.auto_lock_secs,
        state.spec_idle_until_lock(now) is Some <==> state.secret_key is Some
            && state.auto_lock_secs > 0,
        state.spec_idle_until_lock(now) matches Some(left) ==> {
            &&& 0 <= left <= state.auto_lock_secs
            &&& now >= state.last_activity && left > 0 ==> now + left == state.last_activity
                + state.auto_lock_secs
            &&& now < state.last_activity ==> left == state.auto_lock_secs
        },
{
}

/// The mode of an operation has the daemon's own keys, and no others.
pub proof fn the_mode_has_the_daemons_keys(state: EncryptionState)
    ensures
        match state.spec_enc_mode() {
            EncMode::Plaintext => state.public_key is None,
            EncMode::Locked { pk, key_id } => {
                &&& state.public_key == Some(pk)
                &&& state.secret_key is None
                &&& key_id == state.key_id
            },
            EncMode::Unlocked { pk, key_id, sk } => {
                &&& state.public_key == Some(pk)
                &&& state.secret_key == Some(sk)
                &&& key_id == state.key_id
            },
        },
{
}

/// Locked or unlocked, what is written is sealed under the same key.
pub proof fn locking_changes_no_key(pk: PublicKey, key_id: [u8; 4], sk: SkBytes)
    ensures
        ({
            let locked = EncMode::Locked { pk, key_id };
            let unlocked = EncMode::Unlocked { pk, key_id, sk };
            &&& locked.spec_pk() == Some(pk)
            &&& unlocked.spec_pk() == Some(pk)
            &&& locked.spec_key_id() == Some(key_id)
            &&& unlocked.spec_key_id() == Some(key_id)
            &&& EncMode::Plaintext.spec_pk() is None
            &&& EncMode::Plaintext.spec_key_id() is None
        }),
{
}

// ---------- what stops a rotation ----------

/// Whether a column that may be empty is so, or opens with the key.
pub open spec fn is_readable(sk: Seq<u8>, pk: Seq<u8>, tag: FieldTag, column: Option<Vec<u8>>) -> bool {
    column matches Some(b) ==> encryption::opened_field(sk, pk, tag, b@) is Ok
}

/// A row stands in the way of a rotation exactly where one of its columns does not open.
pub proof fn an_unreadable_column_stops_a_rotation(row: SealedRow, sk: Seq<u8>, pk: Seq<u8>)
    ensures
        keys::row_problem(row, sk, pk) is None <==> is_readable(
            sk,
            pk,
            FieldTag::Summary,
            row.summary,
        ) && is_readable(sk, pk, FieldTag::Body, row.body) && is_readable(
            sk,
            pk,
            FieldTag::Hints,
            row.hints,
        ),
{
}

/// A row cannot be given back as plain text exactly where one of its columns does not open, or its
/// summary or its body holds no text.
pub proof fn an_unreadable_column_stops_a_downgrade(row: SealedRow, sk: Seq<u8>, pk: Seq<u8>)
    ensures
        keys::downgrade_problem(row, sk, pk) is None <==> {
            &&& is_readable(sk, pk, FieldTag::Summary, row.summary)
            &&& is_readable(sk, pk, FieldTag::Body, row.body)
            &&& is_readable(sk, pk, FieldTag::Hints, row.hints)
            &&& row.summary is Some ==> vstd::utf8::valid_utf8(
                encryption::opened_field(sk, pk, FieldTag::Summary, row.summary->0@)->Ok_0,
            )
            &&& row.body is Some ==> vstd::utf8::valid_utf8(
                encryption::opened_field(sk, pk, FieldTag::Body, row.body->0@)->Ok_0,
            )
        },
{
}

/// No secret key is found with an empty entry of the password store, nor where the store keeps none.
pub proof fn no_secret_is_found_without_its_parts(ikm: Seq<u8>, entry: Seq<char>, stored: Seq<char>)
    ensures
        keys::secret_behind(Seq::empty(), entry, Some(stored)) is Err,
        keys::secret_behind(ikm, entry, None) is Err,
        keys::secret_behind(ikm, entry, Some(stored)) matches Ok(sk) ==> sk.len() == 32,
{
}

// ---------- what the password store gives ----------

/// Trimming takes nothing but white space off the end.
pub proof fn trimming_takes_the_end_alone(bytes: Seq<u8>, i: int)
    requires
        encryption::without_trailing_space(bytes).len() <= i < bytes.len(),
    ensures
        bytes[i] == 0x20 || bytes[i] == 0x09 || bytes[i] == 0x0a || bytes[i] == 0x0c || bytes[i]
            == 0x0d,
    decreases bytes.len(),
{
    if i < bytes.len() - 1 {
        trimming_takes_the_end_alone(bytes.drop_last(), i);
    } else {
        encryption::trimming_leaves_a_prefix(bytes);
        assert(bytes.last() == bytes[i]);
    }
}

/// A clock before the epoch counts as the epoch; any other is taken as it is, as far as a signed
/// number goes.
pub proof fn a_clock_is_taken_as_it_is(secs: u64)
    ensures
        encryption::secs_of_reading(None) == 0,
        secs <= i64::MAX ==> encryption::secs_of_reading(Some(secs)) == secs,
        i64::MIN <= encryption::secs_of_reading(Some(secs)) <= i64::MAX,
{
}

// ---------- chance ----------

/// Whatever is sealed is sealed with a nonce and an ephemeral key that were drawn for it: both stand
/// in the blob.
pub proof fn sealing_draws_a_nonce_and_a_key(
    pk: Seq<u8>,
    tag: FieldTag,
    plaintext: Seq<u8>,
    blob: Seq<u8>,
)
    requires
        encryption::is_seal_of(pk, tag, plaintext, blob),
    ensures
        blob.len() >= 74,
        crypto::drawn_nonce(blob.subrange(34, 58)),
        exists|esk: Seq<u8>|
            crypto::drawn(esk) && blob.subrange(2, 34) == #[trigger] crypto::x25519_public(esk),
{
}

/// Fresh keys are drawn: the public key is that of a secret key that was drawn at random.
pub proof fn fresh_keys_are_drawn(ikm: &[u8], m: KeyMaterial)
    requires
        call_ensures(keys::init_material, (ikm,), Ok(m)),
    ensures
        exists|sk: Seq<u8>|
            crypto::drawn(sk) && m.public_key@ == crypto::base64_text(
                #[trigger] crypto::x25519_public(sk),
            ),
{
    let (sk, nonce) = choose|sk: Seq<u8>, nonce: Seq<u8>|
        {
            &&& sk.len() == 32
            &&& crypto::drawn(sk)
            &&& crypto::drawn_nonce(nonce)
            &&& #[trigger] keys::keeps_with(m, sk, crypto::sha256(ikm@), nonce)
        };
    assert(m.public_key@ == crypto::base64_text(crypto::x25519_public(sk)));
}

/// The keys of a rotation are drawn: the new public key is that of a secret key that was drawn at
/// random, and what the store keeps of it was wrapped with a nonce that was drawn too.
pub proof fn rotated_keys_are_drawn(
    ikm: &[u8],
    entry: &str,
    stored_secret: Option<&str>,
    stored_public: Option<&str>,
    rows: Vec<SealedRow>,
    r: Rotation,
)
    requires
        call_ensures(
            keys::rotate_key,
            (ikm, entry, stored_secret, stored_public, &rows),
            Ok(r),
        ),
    ensures
        exists|sk: Seq<u8>, nonce: Seq<u8>|
            {
                &&& crypto::drawn(sk)
                &&& crypto::drawn_nonce(nonce)
                &&& r.public_key.bytes@ == crypto::x25519_public(sk)
                &&& r.material.wrapped_secret@ == crypto::base64_text(
                    #[trigger] encryption::wrapped_sk(crypto::sha256(ikm@), sk, nonce),
                )
            },
{
    let old_sk = keys::secret_behind(ikm@, entry@, keys::opt_text(stored_secret))->Ok_0;
    let old_pk = keys::decoded_meta("enc_public_key"@, keys::opt_text(stored_public))->Ok_0;
    let dek = crypto::sha256(ikm@);
    let (sk, nonce) = choose|sk: Seq<u8>, nonce: Seq<u8>|
        {
            &&& sk.len() == 32
            &&& crypto::drawn(sk)
            &&& crypto::drawn_nonce(nonce)
            &&& #[trigger] keys::rotates(r, rows@, old_sk, old_pk, sk, dek, nonce)
        };
    assert(r.material.wrapped_secret@ == crypto::base64_text(
        encryption::wrapped_sk(dek, sk, nonce),
    ));
}

/// Wrapping draws a nonce, which stands in the blob.
pub proof fn wrapping_draws_a_nonce(dek: encryption::Dek, sk: SkBytes, blob: Vec<u8>)
    requires
        call_ensures(encryption::wrap_sk, (&dek, &sk), Ok(blob)),
    ensures
        crypto::drawn_nonce(blob@.subrange(1, 25)),
{
    let nonce = choose|nonce: Seq<u8>|
        nonce.len() == 24 && crypto::drawn_nonce(nonce) && blob@
            == #[trigger] encryption::wrapped_sk(dek@, sk@, nonce);
    a_wrapped_key_has_its_layout(dek@, sk@, nonce);
}

/// What the password store is given holds 32 bytes that were drawn at random.
pub proof fn a_fresh_secret_is_drawn(text: String)
    requires
        call_ensures(keys::fresh_ikm, (), text),
    ensures
        exists|bytes: Seq<u8>|
            crypto::drawn(bytes) && text@ == #[trigger] crypto::base64_text(bytes),
{
}

// ---------- what is said ----------

/// What a log shows of the daemon's keys does not depend on the secret key, but for whether there is
/// one.
pub proof fn a_log_shows_no_secret(a: EncryptionState, b: EncryptionState)
    requires
        a.public_key is Some <==> b.public_key is Some,
        a.secret_key is Some <==> b.secret_key is Some,
        a.key_id == b.key_id,
        a.auto_lock_secs == b.auto_lock_secs,
    ensures
        a.spec_summary() == b.spec_summary(),
{
}

} // verus!
