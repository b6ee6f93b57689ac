//! Managing the keys from the command line: making them, wrapping them anew, replacing them,
//! and giving sealed rows back as plain text.

use crate::crypto;
use crate::daemon::control;
use crate::daemon::startup;
use crate::encryption;
use crate::encryption::{Dek, EncryptionError, FieldTag, PublicKey, SkBytes};
use crate::store;
use crate::text;
use vstd::prelude::*;

verus! {

/// What the store keeps of the keys, each as text.
pub struct KeyMaterial {
    /// The public key in base64.
    pub public_key: String,
    /// The wrapped secret key in base64.
    pub wrapped_secret: String,
    /// The fingerprint of the public key in hexadecimal.
    pub key_id: String,
    /// The fingerprint of the data encryption key in hexadecimal.
    pub dek_kid: String,
}

/// Whether that is what the store keeps of a secret key and a data encryption key.
pub open spec fn keeps(m: KeyMaterial, sk: Seq<u8>, dek: Seq<u8>) -> bool {
    &&& m.public_key@ == crypto::base64_text(crypto::x25519_public(sk))
    &&& crypto::base64_bytes(m.public_key@) == Some(crypto::x25519_public(sk))
    &&& keeps_secret(m.wrapped_secret@, sk, dek)
    &&& m.key_id@ == text::hex(encryption::key_id_of(crypto::x25519_public(sk)))
    &&& m.dek_kid@ == text::hex(encryption::key_id_of(dek))
}

/// Whether a stored text holds a secret key, wrapped under a data encryption key.
pub open spec fn keeps_secret(stored: Seq<char>, sk: Seq<u8>, dek: Seq<u8>) -> bool {
    &&& control::stored_secret(dek, Some(stored)) == Ok::<Seq<u8>, Seq<char>>(sk)
    &&& exists|nonce: Seq<u8>|
        nonce.len() == 24 && stored == crypto::base64_text(
            #[trigger] encryption::wrapped_sk(dek, sk, nonce),
        )
}

proof fn notation_is_trimmed(bytes: Seq<u8>)
    ensures
        text::trimmed(crypto::base64_text(bytes)) == crypto::base64_text(bytes),
{
    let t = crypto::base64_text(bytes);
    if t.len() > 0 {
        crypto::base64_has_no_space(bytes, 0);
        crypto::base64_has_no_space(bytes, t.len() - 1);
        assert(!text::is_space(t[0]));
        assert(t.last() == t[t.len() - 1]);
    }
}

/// A secret key as the store keeps it: wrapped under a data encryption key with that nonce.
pub fn wrap_text(dek: &Dek, sk: &SkBytes, nonce: &[u8; 24]) -> (stored: String)
    ensures
        stored@ == crypto::base64_text(encryption::wrapped_sk(dek@, sk@, nonce@)),
        keeps_secret(stored@, sk@, dek@),
{
    let blob = encryption::wrap_sk_with(dek, sk, nonce);
    let stored = crypto::base64_encode(blob.as_slice());
    proof {
        notation_is_trimmed(blob@);
        assert(stored@ == crypto::base64_text(encryption::wrapped_sk(dek@, sk@, nonce@)));
    }
    stored
}

/// What the store keeps of a secret key and a data encryption key, with that nonce.
pub fn material_with(dek: &Dek, sk: &SkBytes, nonce: &[u8; 24]) -> (m: KeyMaterial)
    ensures
        keeps(m, sk@, dek@),
        m.wrapped_secret@ == crypto::base64_text(encryption::wrapped_sk(dek@, sk@, nonce@)),
        startup::key_problem(Some(m.public_key@)) is None,
        text::trimmed(m.public_key@) == m.public_key@,
{
    let pk = PublicKey::of_secret(sk);
    let public_key = crypto::base64_encode(pk.bytes.as_slice());
    proof {
        notation_is_trimmed(pk.bytes@);
    }
    let key_id = encryption::compute_pk_key_id(&pk);
    let dek_kid = encryption::compute_bytes_key_id(dek.as_slice());
    KeyMaterial {
        public_key,
        wrapped_secret: wrap_text(dek, sk, nonce),
        key_id: text::hex_text(key_id.as_slice()),
        dek_kid: text::hex_text(dek_kid.as_slice()),
    }
}

// ---------- init ----------

/// Why fresh keys are not made over those that the store holds.
pub open spec fn material_present(db_path: Seq<char>) -> Seq<char> {
    "encryption material already present in "@ + db_path
        + ". Pass --force to overwrite (will make existing encrypted rows unreadable)."@
}

/// Refuses to overwrite the keys that the store holds, unless forced.
pub fn check_material(present: bool, force: bool, db_path: &str) -> (r: Result<(), String>)
    ensures
        match r {
            Ok(_) => !present || force,
            Err(e) => present && !force && e@ == material_present(db_path@),
        },
{
    if present && !force {
        let mut m = "encryption material already present in ".to_owned();
        m.append(db_path);
        m.append(". Pass --force to overwrite (will make existing encrypted rows unreadable).");
        return Err(m);
    }
    Ok(())
}

/// Why an entry of the password store is not overwritten.
pub open spec fn entry_present(entry: Seq<char>) -> Seq<char> {
    "pass entry '"@ + entry + "' already exists. Pass --force to overwrite."@
}

/// Refuses to overwrite an entry of the password store, unless forced.
pub fn check_entry(present: bool, force: bool, entry: &str) -> (r: Result<(), String>)
    ensures
        match r {
            Ok(_) => !present || force,
            Err(e) => present && !force && e@ == entry_present(entry@),
        },
{
    if present && !force {
        let mut m = "pass entry '".to_owned();
        m.append(entry);
        m.append("' already exists. Pass --force to overwrite.");
        return Err(m);
    }
    Ok(())
}

/// A fresh secret for the password store: 32 random bytes in base64.
pub fn fresh_ikm() -> (text: String)
    ensures
        exists|bytes: Seq<u8>|
            bytes.len() == 32 && crypto::drawn(bytes) && text@ == #[trigger] crypto::base64_text(
                bytes,
            ),
{
    let mut bytes = crypto::draw_key();
    let ghost drawn = bytes@;
    let text = crypto::base64_encode(bytes.as_slice());
    crypto::wipe(&mut bytes);
    assert(text@ == crypto::base64_text(drawn));
    text
}

/// Whether that is what the store keeps of a secret key and a data encryption key, wrapped with
/// that nonce.
pub open spec fn keeps_with(m: KeyMaterial, sk: Seq<u8>, dek: Seq<u8>, nonce: Seq<u8>) -> bool {
    &&& keeps(m, sk, dek)
    &&& m.wrapped_secret@ == crypto::base64_text(encryption::wrapped_sk(dek, sk, nonce))
}

/// Fresh keys, drawn at random and wrapped under what the password store gave back.
pub fn init_material(ikm: &[u8]) -> (m: Result<KeyMaterial, String>)
    ensures
        match m {
            Ok(k) => {
                &&& ikm@.len() > 0
                &&& exists|sk: Seq<u8>, nonce: Seq<u8>|
                    {
                        &&& sk.len() == 32
                        &&& crypto::drawn(sk)
                        &&& crypto::drawn_nonce(nonce)
                        &&& #[trigger] keeps_with(k, sk, crypto::sha256(ikm@), nonce)
                    }
                &&& startup::key_problem(Some(k.public_key@)) is None
            },
            Err(e) => ikm@.len() == 0 && e@
                == "pass show returned empty output after init; check gpg-agent setup"@,
        },
{
    if ikm.len() == 0 {
        return Err(
            "pass show returned empty output after init; check gpg-agent setup".to_owned(),
        );
    }
    let mut dek = encryption::derive_dek(ikm);
    let mut sk = crypto::draw_key();
    let nonce = crypto::draw_nonce();
    let m = material_with(&dek, &sk, &nonce);
    let ghost drawn = sk@;
    crypto::wipe(&mut dek);
    crypto::wipe(&mut sk);
    assert(keeps_with(m, drawn, crypto::sha256(ikm@), nonce@));
    Ok(m)
}

/// Keys that were made can be used: the daemon starts with the public key, and an unlock with
/// the same entry of the password store gives the secret key behind it.
pub proof fn init_makes_keys_that_unlock(m: KeyMaterial, sk: Seq<u8>, dek: Seq<u8>)
    requires
        keeps(m, sk, dek),
    ensures
        control::stored_secret(dek, Some(m.wrapped_secret@)) == Ok::<Seq<u8>, Seq<char>>(sk),
        crypto::base64_bytes(m.public_key@) == Some(crypto::x25519_public(sk)),
{
}

// ---------- enable ----------

/// Checks that encryption can be switched on: the entry holds something, and there are keys.
pub fn check_enable(ikm_len: usize, entry: &str, pk_present: bool) -> (r: Result<(), String>)
    ensures
        match r {
            Ok(_) => ikm_len > 0 && pk_present,
            Err(e) => if ikm_len == 0 {
                e@ == "pass entry '"@ + entry@ + "' exists but is empty"@
            } else {
                !pk_present && e@
                    == "no key material in meta. Run `olha encryption init` before enabling."@
            },
        },
{
    if ikm_len == 0 {
        let mut m = "pass entry '".to_owned();
        m.append(entry);
        m.append("' exists but is empty");
        return Err(m);
    }
    if !pk_present {
        return Err(
            "no key material in meta. Run `olha encryption init` before enabling.".to_owned(),
        );
    }
    Ok(())
}

/// What is said before plain rows are deleted.
pub fn wipe_notice(count: i64, db_path: &str) -> (text: String)
    ensures
        text@ == "Enabling encryption will DELETE all "@ + text::signed_decimal(count as int)
            + " plaintext notifications currently in "@ + db_path@ + "."@,
{
    let mut m = "Enabling encryption will DELETE all ".to_owned();
    m.append(text::signed_text(count).as_str());
    m.append(" plaintext notifications currently in ");
    m.append(db_path);
    m.append(".");
    m
}

/// Whether an answer is a yes: `y` or `yes`, whatever the case.
pub open spec fn is_yes(line: Seq<char>) -> bool {
    let answer = text::ascii_lowered(text::trimmed(line));
    answer == "y"@ || answer == "yes"@
}

/// Whether an answer is a yes.
pub fn confirm_yes(line: &str) -> (yes: bool)
    ensures
        yes == is_yes(line@),
{
    let trimmed = text::trim(line);
    let answer = text::to_ascii_lowercase(trimmed.as_str());
    text::text_eq(answer.as_str(), "y") || text::text_eq(answer.as_str(), "yes")
}

/// Goes on where the answer was yes, or none was asked for.
pub fn check_confirmed(assume_yes: bool, answer: Option<&str>) -> (r: Result<(), String>)
    ensures
        match r {
            Ok(_) => assume_yes || (answer is Some && is_yes(answer->0@)),
            Err(e) => !assume_yes && !(answer is Some && is_yes(answer->0@)) && e@
                == "aborted by user"@,
        },
{
    if assume_yes {
        return Ok(());
    }
    let yes = match answer {
        Some(line) => confirm_yes(line),
        None => false,
    };
    if yes {
        Ok(())
    } else {
        Err("aborted by user".to_owned())
    }
}

// ---------- reading what the store keeps ----------

/// An optional text.
pub open spec fn opt_text(t: Option<&str>) -> Option<Seq<char>> {
    match t {
        Some(t) => Some(t@),
        None => None,
    }
}

/// What a setting of the store in base64 stands for, or why it stands for nothing.
pub open spec fn decoded_meta(key: Seq<char>, stored: Option<Seq<char>>) -> Result<
    Seq<u8>,
    Seq<char>,
> {
    match stored {
        None => Err("meta."@ + key + " missing"@),
        Some(t) => match crypto::base64_bytes(text::trimmed(t)) {
            Some(b) => Ok(b),
            None => Err(crypto::base64_error(text::trimmed(t))),
        },
    }
}

/// What a setting of the store in base64 stands for.
pub fn decode_meta_b64(key: &str, stored: Option<&str>) -> (bytes: Result<Vec<u8>, String>)
    ensures
        ({
            let text = opt_text(stored);
            match bytes {
                Ok(b) => decoded_meta(key@, text) == Ok::<Seq<u8>, Seq<char>>(b@),
                Err(e) => decoded_meta(key@, text) == Err::<Seq<u8>, Seq<char>>(e@),
            }
        }),
{
    match stored {
        None => {
            let mut m = "meta.".to_owned();
            m.append(key);
            m.append(" missing");
            Err(m)
        },
        Some(t) => {
            let trimmed = text::trim(t);
            crypto::base64_decode(trimmed.as_str())
        },
    }
}

/// The public key that bytes make.
pub fn public_key_from_bytes(bytes: &[u8]) -> (pk: Result<PublicKey, String>)
    ensures
        match pk {
            Ok(k) => bytes@.len() == 32 && k.bytes@ == bytes@,
            Err(e) => bytes@.len() != 32 && e@ == "pk is "@ + text::decimal(bytes@.len())
                + " bytes, expected "@ + text::decimal(32),
        },
{
    if bytes.len() != 32 {
        let mut m = "pk is ".to_owned();
        m.append(text::decimal_text(bytes.len() as u64).as_str());
        m.append(" bytes, expected ");
        m.append(text::decimal_text(32).as_str());
        return Err(m);
    }
    let key = encryption::key_at(bytes, 0);
    assert(key@ =~= bytes@);
    Ok(PublicKey { bytes: key })
}

/// What is said of a sealed field that does not open.
pub open spec fn open_problem(e: EncryptionError) -> Seq<char> {
    match e {
        EncryptionError::BlobTooShort { .. } => "sealed blob too short"@,
        EncryptionError::BadVersion(v) => "unknown outer version 0x"@ + text::hex(seq![v]),
        EncryptionError::FieldTagMismatch { .. } => "field tag mismatch"@,
        _ => "open_field decrypt"@,
    }
}

fn open_problem_text(e: &EncryptionError) -> (m: String)
    ensures
        m@ == open_problem(*e),
{
    match e {
        EncryptionError::BlobTooShort { .. } => "sealed blob too short".to_owned(),
        EncryptionError::BadVersion(v) => {
            let mut m = "unknown outer version 0x".to_owned();
            let byte = [*v];
            assert(byte@ =~= seq![*v]);
            m.append(text::hex_text(byte.as_slice()).as_str());
            m
        },
        EncryptionError::FieldTagMismatch { .. } => "field tag mismatch".to_owned(),
        _ => "open_field decrypt".to_owned(),
    }
}

/// The secret key that a wrapped blob holds, or what is said where it holds none.
pub open spec fn unwrapped(dek: Seq<u8>, blob: Seq<u8>) -> Result<Seq<u8>, Seq<char>> {
    match encryption::unwrapped_bytes(dek, blob) {
        Ok(bytes) => if bytes.len() == 32 {
            Ok(bytes)
        } else {
            Err("unwrap_sk: decrypted sk has wrong length"@)
        },
        Err(EncryptionError::BlobTooShort { .. }) => Err("wrapped-sk blob too short"@),
        Err(EncryptionError::BadVersion(v)) => Err(
            "unknown wrapped-sk version byte 0x"@ + text::hex(seq![v]),
        ),
        Err(_) => Err("unwrap_sk decrypt (wrong pass entry?)"@),
    }
}

/// The secret key that a wrapped blob holds.
pub fn unwrap_secret(dek: &Dek, blob: &[u8]) -> (sk: Result<SkBytes, String>)
    ensures
        match sk {
            Ok(k) => unwrapped(dek@, blob@) == Ok::<Seq<u8>, Seq<char>>(k@),
            Err(e) => unwrapped(dek@, blob@) == Err::<Seq<u8>, Seq<char>>(e@),
        },
{
    match encryption::unwrap_bytes(dek, blob) {
        Ok(bytes) => {
            let mut bytes: Vec<u8> = bytes;
            if bytes.len() != 32 {
                crypto::wipe_all(&mut bytes);
                return Err("unwrap_sk: decrypted sk has wrong length".to_owned());
            }
            let sk = encryption::key_at(bytes.as_slice(), 0);
            assert(sk@ =~= bytes@);
            crypto::wipe_all(&mut bytes);
            Ok(sk)
        },
        Err(e) => match e {
            EncryptionError::BlobTooShort { .. } => Err("wrapped-sk blob too short".to_owned()),
            EncryptionError::BadVersion(v) => {
                let mut m = "unknown wrapped-sk version byte 0x".to_owned();
                let byte = [v];
                assert(byte@ =~= seq![v]);
                m.append(text::hex_text(byte.as_slice()).as_str());
                Err(m)
            },
            _ => Err("unwrap_sk decrypt (wrong pass entry?)".to_owned()),
        },
    }
}

/// What is said of an entry of the password store that holds nothing.
pub open spec fn entry_empty(entry: Seq<char>) -> Seq<char> {
    "pass entry '"@ + entry + "' is empty"@
}

fn empty_entry(entry: &str) -> (m: String)
    ensures
        m@ == entry_empty(entry@),
{
    let mut m = "pass entry '".to_owned();
    m.append(entry);
    m.append("' is empty");
    m
}

/// The data encryption key and the secret key behind what the store keeps, or what is said
/// where they cannot be had.
pub open spec fn secret_behind(ikm: Seq<u8>, entry: Seq<char>, stored: Option<Seq<char>>) -> Result<
    Seq<u8>,
    Seq<char>,
> {
    if ikm.len() == 0 {
        Err(entry_empty(entry))
    } else {
        match decoded_meta(startup::META_ENC_WRAPPED_SECRET@, stored) {
            Ok(blob) => unwrapped(crypto::sha256(ikm), blob),
            Err(e) => Err(e),
        }
    }
}

/// The data encryption key and the secret key behind what the store keeps.
pub fn load_secret(ikm: &[u8], entry: &str, stored: Option<&str>) -> (keys: Result<
    (Dek, SkBytes),
    String,
>)
    ensures
        ({
            let text = opt_text(stored);
            match keys {
                Ok(k) => k.0@ == crypto::sha256(ikm@) && secret_behind(ikm@, entry@, text) == Ok::<
                    Seq<u8>,
                    Seq<char>,
                >(k.1@),
                Err(e) => secret_behind(ikm@, entry@, text) == Err::<Seq<u8>, Seq<char>>(e@),
            }
        }),
{
    if ikm.len() == 0 {
        return Err(empty_entry(entry));
    }
    let blob = match decode_meta_b64(startup::META_ENC_WRAPPED_SECRET, stored) {
        Ok(b) => b,
        Err(e) => {
            return Err(e);
        },
    };
    let mut dek = encryption::derive_dek(ikm);
    match unwrap_secret(&dek, blob.as_slice()) {
        Ok(sk) => Ok((dek, sk)),
        Err(e) => {
            crypto::wipe(&mut dek);
            Err(e)
        },
    }
}

/// What is wrong with what the store keeps as the public key; nothing where it is one.
pub open spec fn public_problem(decoded: Result<Seq<u8>, Seq<char>>) -> Option<Seq<char>> {
    match decoded {
        Ok(b) => if b.len() != 32 {
            Some("pk is "@ + text::decimal(b.len()) + " bytes, expected "@ + text::decimal(32))
        } else {
            None
        },
        Err(m) => Some(m),
    }
}

/// The public key that the store keeps.
pub fn load_public_key(stored: Option<&str>) -> (pk: Result<PublicKey, String>)
    ensures
        ({
            let text = opt_text(stored);
            let decoded = decoded_meta(startup::META_ENC_PUBLIC_KEY@, text);
            match pk {
                Ok(k) => public_problem(decoded) is None && decoded == Ok::<Seq<u8>, Seq<char>>(
                    k.bytes@,
                ),
                Err(e) => public_problem(decoded) == Some(e@),
            }
        }),
{
    match decode_meta_b64(startup::META_ENC_PUBLIC_KEY, stored) {
        Ok(b) => public_key_from_bytes(b.as_slice()),
        Err(e) => Err(e),
    }
}

// ---------- disable ----------

/// How encryption is switched off.
pub enum DisablePlan {
    /// There is nothing sealed.
    Switch,
    /// Sealed rows are to be given back as plain text first.
    Downgrade,
}

/// Whether encryption may be switched off: where sealed rows are left, only when they are to be
/// given back as plain text.
pub fn plan_disable(enc_rows: i64, rekey_to_plaintext: bool, db_path: &str) -> (plan: Result<
    DisablePlan,
    String,
>)
    ensures
        match plan {
            Ok(DisablePlan::Switch) => enc_rows <= 0,
            Ok(DisablePlan::Downgrade) => enc_rows > 0 && rekey_to_plaintext,
            Err(e) => enc_rows > 0 && !rekey_to_plaintext && e@ == text::signed_decimal(
                enc_rows as int,
            ) + " encrypted row(s) exist in "@ + db_path@
                + ". Pass `--rekey-to-plaintext` to decrypt them back to plaintext columns before disabling encryption (explicit downgrade)."@,
        },
{
    if enc_rows > 0 && !rekey_to_plaintext {
        let mut m = text::signed_text(enc_rows);
        m.append(" encrypted row(s) exist in ");
        m.append(db_path);
        m.append(
            ". Pass `--rekey-to-plaintext` to decrypt them back to plaintext columns before disabling encryption (explicit downgrade).",
        );
        return Err(m);
    }
    if enc_rows > 0 {
        Ok(DisablePlan::Downgrade)
    } else {
        Ok(DisablePlan::Switch)
    }
}

/// The sealed columns of a row.
pub struct SealedRow {
    pub id: i64,
    pub summary: Option<Vec<u8>>,
    pub body: Option<Vec<u8>>,
    pub hints: Option<Vec<u8>>,
}

/// The content of a row as plain text.
pub struct PlainRow {
    pub id: i64,
    pub summary: String,
    pub body: String,
    pub hints: String,
}

/// The text that a sealed column gives back, or what is said where it gives none.
pub open spec fn downgraded_text(
    sk: Seq<u8>,
    pk: Seq<u8>,
    tag: FieldTag,
    column: Option<Seq<u8>>,
    not_text: Seq<char>,
) -> Result<Seq<char>, Seq<char>> {
    match column {
        None => Ok(Seq::empty()),
        Some(b) => match encryption::opened_field(sk, pk, tag, b) {
            Ok(bytes) => if vstd::utf8::valid_utf8(bytes) {
                Ok(vstd::utf8::decode_utf8(bytes))
            } else {
                Err(not_text)
            },
            Err(e) => Err(open_problem(e)),
        },
    }
}

/// The hints that a sealed column gives back: an empty object where it holds no text.
pub open spec fn downgraded_hints(sk: Seq<u8>, pk: Seq<u8>, column: Option<Seq<u8>>) -> Result<
    Seq<char>,
    Seq<char>,
> {
    match column {
        None => Ok("{}"@),
        Some(b) => match encryption::opened_field(sk, pk, FieldTag::Hints, b) {
            Ok(bytes) => if vstd::utf8::valid_utf8(bytes) {
                Ok(vstd::utf8::decode_utf8(bytes))
            } else {
                Ok("{}"@)
            },
            Err(e) => Err(open_problem(e)),
        },
    }
}

fn downgrade_text(
    sk: &SkBytes,
    pk: &PublicKey,
    tag: FieldTag,
    column: &Option<Vec<u8>>,
    not_text: &str,
) -> (out: Result<String, String>)
    ensures
        match out {
            Ok(t) => downgraded_text(sk@, pk.bytes@, tag, store::blob(*column), not_text@) == Ok::<
                Seq<char>,
                Seq<char>,
            >(t@),
            Err(e) => downgraded_text(sk@, pk.bytes@, tag, store::blob(*column), not_text@) == Err::<
                Seq<char>,
                Seq<char>,
            >(e@),
        },
{
    match column {
        None => Ok(String::new()),
        Some(b) => match encryption::open_field(sk, pk, tag, b.as_slice()) {
            Ok(bytes) => match text::text_from_utf8(bytes) {
                Some(t) => Ok(t),
                None => Err(not_text.to_owned()),
            },
            Err(e) => Err(open_problem_text(&e)),
        },
    }
}

fn downgrade_hints(sk: &SkBytes, pk: &PublicKey, column: &Option<Vec<u8>>) -> (out: Result<
    String,
    String,
>)
    ensures
        match out {
            Ok(t) => downgraded_hints(sk@, pk.bytes@, store::blob(*column)) == Ok::<
                Seq<char>,
                Seq<char>,
            >(t@),
            Err(e) => downgraded_hints(sk@, pk.bytes@, store::blob(*column)) == Err::<
                Seq<char>,
                Seq<char>,
            >(e@),
        },
{
    match column {
        None => Ok("{}".to_owned()),
        Some(b) => match encryption::open_field(sk, pk, FieldTag::Hints, b.as_slice()) {
            Ok(bytes) => match text::text_from_utf8(bytes) {
                Some(t) => Ok(t),
                None => Ok("{}".to_owned()),
            },
            Err(e) => Err(open_problem_text(&e)),
        },
    }
}

/// The problem of the first column of a row that gives no text; nothing where all do.
pub open spec fn downgrade_problem(row: SealedRow, sk: Seq<u8>, pk: Seq<u8>) -> Option<Seq<char>> {
    let summary = downgraded_text(
        sk,
        pk,
        FieldTag::Summary,
        store::blob(row.summary),
        "summary: decrypted bytes are not valid UTF-8"@,
    );
    let body = downgraded_text(
        sk,
        pk,
        FieldTag::Body,
        store::blob(row.body),
        "body: decrypted bytes are not valid UTF-8"@,
    );
    let hints = downgraded_hints(sk, pk, store::blob(row.hints));
    if summary is Err {
        Some(summary->Err_0)
    } else if body is Err {
        Some(body->Err_0)
    } else if hints is Err {
        Some(hints->Err_0)
    } else {
        None
    }
}

/// Whether a plain row is what a sealed one gives back.
pub open spec fn is_downgrade(row: SealedRow, sk: Seq<u8>, pk: Seq<u8>, plain: PlainRow) -> bool {
    &&& plain.id == row.id
    &&& downgraded_text(
        sk,
        pk,
        FieldTag::Summary,
        store::blob(row.summary),
        "summary: decrypted bytes are not valid UTF-8"@,
    ) == Ok::<Seq<char>, Seq<char>>(plain.summary@)
    &&& downgraded_text(
        sk,
        pk,
        FieldTag::Body,
        store::blob(row.body),
        "body: decrypted bytes are not valid UTF-8"@,
    ) == Ok::<Seq<char>, Seq<char>>(plain.body@)
    &&& downgraded_hints(sk, pk, store::blob(row.hints)) == Ok::<Seq<char>, Seq<char>>(plain.hints@)
}

/// Gives a sealed row back as plain text.
pub fn downgrade_row(row: &SealedRow, pk: &PublicKey, sk: &SkBytes) -> (plain: Result<
    PlainRow,
    String,
>)
    ensures
        match plain {
            Ok(p) => downgrade_problem(*row, sk@, pk.bytes@) is None && is_downgrade(
                *row,
                sk@,
                pk.bytes@,
                p,
            ),
            Err(e) => downgrade_problem(*row, sk@, pk.bytes@) == Some(e@),
        },
{
    let summary = match downgrade_text(
        sk,
        pk,
        FieldTag::Summary,
        &row.summary,
        "summary: decrypted bytes are not valid UTF-8",
    ) {
        Ok(t) => t,
        Err(e) => {
            return Err(e);
        },
    };
    let body = match downgrade_text(
        sk,
        pk,
        FieldTag::Body,
        &row.body,
        "body: decrypted bytes are not valid UTF-8",
    ) {
        Ok(t) => t,
        Err(e) => {
            return Err(e);
        },
    };
    let hints = match downgrade_hints(sk, pk, &row.hints) {
        Ok(t) => t,
        Err(e) => {
            return Err(e);
        },
    };
    Ok(PlainRow { id: row.id, summary, body, hints })
}

/// Sealed rows that were given back as plain text.
pub struct Downgrade {
    /// The rows up to the first that cannot be given back.
    pub rows: Vec<PlainRow>,
    /// What is wrong with that one; nothing where all could be.
    pub problem: Option<String>,
}

/// Gives sealed rows back as plain text, up to the first that cannot be, and says what is wrong
/// with that one.
pub fn downgrade_encrypted_rows_to_plaintext(
    rows: &Vec<SealedRow>,
    pk: &PublicKey,
    sk: &SkBytes,
) -> (out: Downgrade)
    ensures
        out.rows@.len() <= rows@.len(),
        forall|i: int|
            0 <= i < out.rows@.len() ==> downgrade_problem(
                #[trigger] rows@[i],
                sk@,
                pk.bytes@,
            ) is None && is_downgrade(rows@[i], sk@, pk.bytes@, out.rows@[i]),
        match out.problem {
            Some(e) => out.rows@.len() < rows@.len() && downgrade_problem(
                rows@[out.rows@.len() as int],
                sk@,
                pk.bytes@,
            ) == Some(e@),
            None => out.rows@.len() == rows@.len(),
        },
{
    let mut out: Vec<PlainRow> = Vec::new();
    let mut i: usize = 0;
    while i < rows.len()
        invariant
            i <= rows@.len(),
            out@.len() == i,
            forall|j: int|
                0 <= j < i ==> downgrade_problem(#[trigger] rows@[j], sk@, pk.bytes@) is None
                    && is_downgrade(rows@[j], sk@, pk.bytes@, out@[j]),
        decreases rows.len() - i,
    {
        match downgrade_row(&rows[i], pk, sk) {
            Ok(p) => {
                out.push(p);
            },
            Err(e) => {
                return Downgrade { rows: out, problem: Some(e) };
            },
        }
        i = i + 1;
    }
    Downgrade { rows: out, problem: None }
}

/// A row that was given back as plain text reads as it did to the holder of the secret key.
pub proof fn downgrade_keeps_the_text(row: SealedRow, sk: Seq<u8>, pk: Seq<u8>, plain: PlainRow)
    requires
        is_downgrade(row, sk, pk, plain),
    ensures
        plain.summary@ == store::opened_text(sk, pk, FieldTag::Summary, store::blob(row.summary)),
        plain.body@ == store::opened_text(sk, pk, FieldTag::Body, store::blob(row.body)),
        row.hints is Some && encryption::opened_field(sk, pk, FieldTag::Hints, row.hints->0@) is Ok
            && vstd::utf8::valid_utf8(
            encryption::opened_field(sk, pk, FieldTag::Hints, row.hints->0@)->Ok_0,
        ) ==> store::read_hints(plain.hints@) == store::opened_hints(sk, pk, store::blob(row.hints)),
{
}

// ---------- rewrap ----------

/// Whether a new secret is put into the password store before the secret key is wrapped anew:
/// where the entry stays the same, and where the new one cannot be read or is empty.
pub fn needs_fresh_ikm(old_entry: &str, new_entry: &str, new_ikm: Option<&Vec<u8>>) -> (r: bool)
    ensures
        r == (old_entry@ == new_entry@ || new_ikm is None || new_ikm->0@.len() == 0),
{
    if text::text_eq(old_entry, new_entry) {
        return true;
    }
    match new_ikm {
        Some(b) => b.len() == 0,
        None => true,
    }
}

/// A secret key wrapped anew, as the store keeps it.
pub struct Rewrapped {
    pub wrapped_secret: String,
    pub dek_kid: String,
}

/// The secret key that is to be wrapped anew, or what is said instead.
pub open spec fn secret_to_rewrap(ikm: Seq<u8>, entry: Seq<char>, stored: Option<Seq<char>>) -> Result<
    Seq<u8>,
    Seq<char>,
> {
    match decoded_meta(startup::META_ENC_WRAPPED_SECRET@, stored) {
        Ok(blob) => if ikm.len() == 0 {
            Err(entry_empty(entry))
        } else {
            unwrapped(crypto::sha256(ikm), blob)
        },
        Err(e) => Err(e),
    }
}

/// Wraps the secret key that the store keeps under another data encryption key. The secret key
/// stays the same.
pub fn rewrap(old_ikm: &[u8], old_entry: &str, stored: Option<&str>, new_ikm: &[u8]) -> (out: Result<
    Rewrapped,
    String,
>)
    ensures
        ({
            let text = opt_text(stored);
            let secret = secret_to_rewrap(old_ikm@, old_entry@, text);
            match out {
                Ok(r) => {
                    &&& secret is Ok
                    &&& keeps_secret(
                        r.wrapped_secret@,
                        secret->Ok_0,
                        crypto::sha256(new_ikm@),
                    )
                    &&& exists|nonce: Seq<u8>|
                        crypto::drawn_nonce(nonce) && r.wrapped_secret@ == crypto::base64_text(
                            #[trigger] encryption::wrapped_sk(
                                crypto::sha256(new_ikm@),
                                secret->Ok_0,
                                nonce,
                            ),
                        )
                    &&& r.dek_kid@ == text::hex(
                        encryption::key_id_of(crypto::sha256(new_ikm@)),
                    )
                },
                Err(e) => secret == Err::<Seq<u8>, Seq<char>>(e@),
            }
        }),
{
    let blob = match decode_meta_b64(startup::META_ENC_WRAPPED_SECRET, stored) {
        Ok(b) => b,
        Err(e) => {
            return Err(e);
        },
    };
    if old_ikm.len() == 0 {
        return Err(empty_entry(old_entry));
    }
    let mut old_dek = encryption::derive_dek(old_ikm);
    let unwrapped = unwrap_secret(&old_dek, blob.as_slice());
    crypto::wipe(&mut old_dek);
    let mut sk = match unwrapped {
        Ok(k) => k,
        Err(e) => {
            return Err(e);
        },
    };
    let mut new_dek = encryption::derive_dek(new_ikm);
    let kid = encryption::compute_bytes_key_id(new_dek.as_slice());
    let nonce = crypto::draw_nonce();
    let wrapped_secret = wrap_text(&new_dek, &sk, &nonce);
    let ghost secret = secret_to_rewrap(old_ikm@, old_entry@, opt_text(stored));
    assert(secret->Ok_0 == sk@);
    assert(wrapped_secret@ == crypto::base64_text(
        encryption::wrapped_sk(crypto::sha256(new_ikm@), secret->Ok_0, nonce@),
    ));
    crypto::wipe(&mut new_dek);
    crypto::wipe(&mut sk);
    Ok(Rewrapped { wrapped_secret, dek_kid: text::hex_text(kid.as_slice()) })
}

// ---------- rotate ----------

/// The problem of sealing a column anew; nothing where it can be done.
pub open spec fn reseal_problem(
    old_sk: Seq<u8>,
    old_pk: Seq<u8>,
    tag: FieldTag,
    column: Option<Seq<u8>>,
) -> Option<Seq<char>> {
    match column {
        None => None,
        Some(b) => match encryption::opened_field(old_sk, old_pk, tag, b) {
            Ok(plaintext) => None,
            Err(e) => Some(open_problem(e)),
        },
    }
}

/// Whether a column holds under the new key what it held under the old one.
pub open spec fn is_reseal(
    old_sk: Seq<u8>,
    old_pk: Seq<u8>,
    new_pk: Seq<u8>,
    tag: FieldTag,
    column: Option<Seq<u8>>,
    out: Option<Seq<u8>>,
) -> bool {
    match column {
        None => out is None,
        Some(b) => {
            &&& out is Some
            &&& encryption::opened_field(old_sk, old_pk, tag, b) is Ok
            &&& encryption::is_seal_of(
                new_pk,
                tag,
                encryption::opened_field(old_sk, old_pk, tag, b)->Ok_0,
                out->0,
            )
            &&& encryption::seals(
                new_pk,
                tag,
                encryption::opened_field(old_sk, old_pk, tag, b)->Ok_0,
                out->0,
            )
        },
    }
}

/// Seals a column anew: it is opened with the old secret key and sealed under the new public
/// key.
pub fn reseal_blob(
    old_sk: &SkBytes,
    old_pk: &PublicKey,
    new_pk: &PublicKey,
    tag: FieldTag,
    column: &Option<Vec<u8>>,
) -> (out: Result<Option<Vec<u8>>, String>)
    ensures
        match out {
            Ok(o) => {
                &&& reseal_problem(old_sk@, old_pk.bytes@, tag, store::blob(*column)) is None
                &&& is_reseal(
                    old_sk@,
                    old_pk.bytes@,
                    new_pk.bytes@,
                    tag,
                    store::blob(*column),
                    store::blob(o),
                )
            },
            Err(e) => reseal_problem(old_sk@, old_pk.bytes@, tag, store::blob(*column)) == Some(e@),
        },
{
    match column {
        None => Ok(None),
        Some(b) => {
            let plaintext = match encryption::open_field(old_sk, old_pk, tag, b.as_slice()) {
                Ok(p) => p,
                Err(e) => {
                    return Err(open_problem_text(&e));
                },
            };
            match encryption::seal_field(new_pk, tag, plaintext.as_slice()) {
                Ok(sealed) => Ok(Some(sealed)),
                Err(_) => {
                    // What was opened is short enough to be sealed.
                    assert(false);
                    Err("seal_field encrypt".to_owned())
                },
            }
        },
    }
}

/// Whether a row holds under the new key what it held under the old one.
pub open spec fn is_reseal_of_row(
    row: SealedRow,
    old_sk: Seq<u8>,
    old_pk: Seq<u8>,
    new_pk: Seq<u8>,
    out: SealedRow,
) -> bool {
    &&& out.id == row.id
    &&& is_reseal(
        old_sk,
        old_pk,
        new_pk,
        FieldTag::Summary,
        store::blob(row.summary),
        store::blob(out.summary),
    )
    &&& is_reseal(
        old_sk,
        old_pk,
        new_pk,
        FieldTag::Body,
        store::blob(row.body),
        store::blob(out.body),
    )
    &&& is_reseal(
        old_sk,
        old_pk,
        new_pk,
        FieldTag::Hints,
        store::blob(row.hints),
        store::blob(out.hints),
    )
}

/// The problem of the first column of a row that does not open with the old secret key;
/// nothing where all do.
pub open spec fn row_problem(row: SealedRow, old_sk: Seq<u8>, old_pk: Seq<u8>) -> Option<Seq<char>> {
    let summary = reseal_problem(old_sk, old_pk, FieldTag::Summary, store::blob(row.summary));
    let body = reseal_problem(old_sk, old_pk, FieldTag::Body, store::blob(row.body));
    if summary is Some {
        summary
    } else if body is Some {
        body
    } else {
        reseal_problem(old_sk, old_pk, FieldTag::Hints, store::blob(row.hints))
    }
}

/// Whether that is the problem of the first row that does not open.
pub open spec fn first_row_problem(
    rows: Seq<SealedRow>,
    old_sk: Seq<u8>,
    old_pk: Seq<u8>,
    problem: Seq<char>,
) -> bool {
    exists|i: int|
        {
            &&& 0 <= i < rows.len()
            &&& row_problem(#[trigger] rows[i], old_sk, old_pk) == Some(problem)
            &&& forall|j: int| 0 <= j < i ==> row_problem(#[trigger] rows[j], old_sk, old_pk) is None
        }
}

fn reseal_row(row: &SealedRow, old_sk: &SkBytes, old_pk: &PublicKey, new_pk: &PublicKey) -> (out: Result<
    SealedRow,
    String,
>)
    ensures
        match out {
            Ok(o) => row_problem(*row, old_sk@, old_pk.bytes@) is None && is_reseal_of_row(
                *row,
                old_sk@,
                old_pk.bytes@,
                new_pk.bytes@,
                o,
            ),
            Err(e) => row_problem(*row, old_sk@, old_pk.bytes@) == Some(e@),
        },
{
    let summary = match reseal_blob(old_sk, old_pk, new_pk, FieldTag::Summary, &row.summary) {
        Ok(b) => b,
        Err(e) => {
            return Err(e);
        },
    };
    let body = match reseal_blob(old_sk, old_pk, new_pk, FieldTag::Body, &row.body) {
        Ok(b) => b,
        Err(e) => {
            return Err(e);
        },
    };
    let hints = match reseal_blob(old_sk, old_pk, new_pk, FieldTag::Hints, &row.hints) {
        Ok(b) => b,
        Err(e) => {
            return Err(e);
        },
    };
    Ok(SealedRow { id: row.id, summary, body, hints })
}

/// Seals rows anew under the new public key. One row that does not open fails the whole.
pub fn reseal_rows(
    rows: &Vec<SealedRow>,
    old_sk: &SkBytes,
    old_pk: &PublicKey,
    new_pk: &PublicKey,
) -> (out: Result<Vec<SealedRow>, String>)
    ensures
        match out {
            Ok(list) => {
                &&& list@.len() == rows@.len()
                &&& forall|i: int|
                    0 <= i < rows@.len() ==> is_reseal_of_row(
                        #[trigger] rows@[i],
                        old_sk@,
                        old_pk.bytes@,
                        new_pk.bytes@,
                        list@[i],
                    )
            },
            Err(e) => first_row_problem(rows@, old_sk@, old_pk.bytes@, e@),
        },
{
    let mut out: Vec<SealedRow> = Vec::new();
    let mut i: usize = 0;
    while i < rows.len()
        invariant
            i <= rows@.len(),
            out@.len() == i,
            forall|j: int|
                0 <= j < i ==> row_problem(#[trigger] rows@[j], old_sk@, old_pk.bytes@) is None
                    && is_reseal_of_row(rows@[j], old_sk@, old_pk.bytes@, new_pk.bytes@, out@[j]),
        decreases rows.len() - i,
    {
        match reseal_row(&rows[i], old_sk, old_pk, new_pk) {
            Ok(r) => {
                out.push(r);
            },
            Err(e) => {
                assert(row_problem(rows@[i as int], old_sk@, old_pk.bytes@) == Some(e@));
                return Err(e);
            },
        }
        i = i + 1;
    }
    Ok(out)
}

/// A key pair to take the place of another.
pub struct Rotation {
    pub public_key: PublicKey,
    pub material: KeyMaterial,
    /// The rows, sealed under the new public key.
    pub rows: Vec<SealedRow>,
}

/// Whether a rotation puts the key pair of `new_sk` in the place of that of `old_sk`: every row
/// holds under the new public key what it held under the old one, and the store keeps the new
/// secret key, wrapped under the data encryption key with `nonce`.
pub open spec fn rotates(
    r: Rotation,
    rows: Seq<SealedRow>,
    old_sk: Seq<u8>,
    old_pk: Seq<u8>,
    new_sk: Seq<u8>,
    dek: Seq<u8>,
    nonce: Seq<u8>,
) -> bool {
    &&& r.public_key.bytes@ == crypto::x25519_public(new_sk)
    &&& keeps_with(r.material, new_sk, dek, nonce)
    &&& r.rows@.len() == rows.len()
    &&& forall|i: int|
        0 <= i < rows.len() ==> is_reseal_of_row(
            #[trigger] rows[i],
            old_sk,
            old_pk,
            r.public_key.bytes@,
            r.rows@[i],
        )
}

/// Whether that is why no rotation is made: the secret key or the public key that the store keeps
/// cannot be had, or a row does not open.
pub open spec fn rotation_problem(
    old_sk: Result<Seq<u8>, Seq<char>>,
    old_pk: Result<Seq<u8>, Seq<char>>,
    rows: Seq<SealedRow>,
    problem: Seq<char>,
) -> bool {
    match old_sk {
        Err(e) => problem == e,
        Ok(sk) => match public_problem(old_pk) {
            Some(e) => problem == e,
            None => first_row_problem(rows, sk, old_pk->Ok_0, problem),
        },
    }
}

/// Puts the key pair of `new_sk` in the place of the one that the store keeps: seals the rows
/// anew under it and wraps its secret key under the same data encryption key with `nonce`.
pub fn rotate_key_with(
    ikm: &[u8],
    entry: &str,
    stored_secret: Option<&str>,
    stored_public: Option<&str>,
    rows: &Vec<SealedRow>,
    new_sk: &SkBytes,
    nonce: &[u8; 24],
) -> (out: Result<Rotation, String>)
    ensures
        ({
            let secret = opt_text(stored_secret);
            let public = opt_text(stored_public);
            let old_sk = secret_behind(ikm@, entry@, secret);
            let old_pk = decoded_meta(startup::META_ENC_PUBLIC_KEY@, public);
            match out {
                Ok(r) => {
                    &&& old_sk is Ok
                    &&& public_problem(old_pk) is None
                    &&& rotates(
                        r,
                        rows@,
                        old_sk->Ok_0,
                        old_pk->Ok_0,
                        new_sk@,
                        crypto::sha256(ikm@),
                        nonce@,
                    )
                },
                Err(e) => rotation_problem(old_sk, old_pk, rows@, e@),
            }
        }),
{
    let (mut dek, mut old_sk) = match load_secret(ikm, entry, stored_secret) {
        Ok(k) => k,
        Err(e) => {
            return Err(e);
        },
    };
    let old_pk = match load_public_key(stored_public) {
        Ok(k) => k,
        Err(e) => {
            crypto::wipe(&mut dek);
            crypto::wipe(&mut old_sk);
            return Err(e);
        },
    };
    let new_pk = PublicKey::of_secret(new_sk);
    let resealed = reseal_rows(rows, &old_sk, &old_pk, &new_pk);
    crypto::wipe(&mut old_sk);
    let rows = match resealed {
        Ok(r) => r,
        Err(e) => {
            crypto::wipe(&mut dek);
            return Err(e);
        },
    };
    let material = material_with(&dek, new_sk, nonce);
    crypto::wipe(&mut dek);
    Ok(Rotation { public_key: new_pk, material, rows })
}

/// Makes a new key pair, drawn at random, seals the rows anew under it and wraps its secret key
/// under the same data encryption key.
pub fn rotate_key(
    ikm: &[u8],
    entry: &str,
    stored_secret: Option<&str>,
    stored_public: Option<&str>,
    rows: &Vec<SealedRow>,
) -> (out: Result<Rotation, String>)
    ensures
        ({
            let secret = opt_text(stored_secret);
            let public = opt_text(stored_public);
            let old_sk = secret_behind(ikm@, entry@, secret);
            let old_pk = decoded_meta(startup::META_ENC_PUBLIC_KEY@, public);
            match out {
                Ok(r) => {
                    &&& old_sk is Ok
                    &&& public_problem(old_pk) is None
                    &&& exists|sk: Seq<u8>, nonce: Seq<u8>|
                        {
                            &&& sk.len() == 32
                            &&& crypto::drawn(sk)
                            &&& crypto::drawn_nonce(nonce)
                            &&& #[trigger] rotates(
                                r,
                                rows@,
                                old_sk->Ok_0,
                                old_pk->Ok_0,
                                sk,
                                crypto::sha256(ikm@),
                                nonce,
                            )
                        }
                },
                Err(e) => rotation_problem(old_sk, old_pk, rows@, e@),
            }
        }),
{
    let mut new_sk = crypto::draw_key();
    let nonce = crypto::draw_nonce();
    let ghost drawn = new_sk@;
    let out = rotate_key_with(ikm, entry, stored_secret, stored_public, rows, &new_sk, &nonce);
    crypto::wipe(&mut new_sk);
    proof {
        let secret = opt_text(stored_secret);
        let public = opt_text(stored_public);
        let old_sk = secret_behind(ikm@, entry@, secret);
        let old_pk = decoded_meta(startup::META_ENC_PUBLIC_KEY@, public);
        assert(drawn.len() == 32);
        assert(out is Ok ==> rotates(
            out->Ok_0,
            rows@,
            old_sk->Ok_0,
            old_pk->Ok_0,
            drawn,
            crypto::sha256(ikm@),
            nonce@,
        ));
    }
    out
}

/// What was sealed for the old key reads the same for the new one: text that the old secret key
/// opened is text that every secret key behind the new public key opens.
pub proof fn rotation_keeps_the_text(
    old_sk: Seq<u8>,
    old_pk: Seq<u8>,
    new_sk: Seq<u8>,
    new_pk: Seq<u8>,
    tag: FieldTag,
    column: Option<Seq<u8>>,
    out: Option<Seq<u8>>,
)
    requires
        is_reseal(old_sk, old_pk, new_pk, tag, column, out),
        new_sk.len() == 32,
        new_pk == crypto::x25519_public(new_sk),
    ensures
        store::opened_text(new_sk, new_pk, tag, out) == store::opened_text(
            old_sk,
            old_pk,
            tag,
            column,
        ),
{
}

} // verus!
