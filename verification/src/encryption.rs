//! At-rest encryption of notification content.
//!
//! Content is sealed against a long-lived X25519 public key, so that it can be written
//! while nobody has unlocked the daemon. Reading it back takes the secret key, which is
//! in memory only between an unlock and the next lock. At rest the secret key is itself
//! encrypted under a data encryption key (DEK), the SHA-256 digest of what the password
//! store holds.
//!
//! A sealed field: version (1) || field tag (1) || ephemeral public key (32) || nonce (24)
//! || ciphertext with tag. A wrapped secret: version (1) || nonce (24) || ciphertext (32)
//! || tag (16).

use crate::crypto;
use crate::text;
use vstd::prelude::*;

verus! {

/// Version of a row whose content is sealed. A row at version 0 is plaintext.
pub const ENC_VERSION: i64 = 1;

pub const DEK_LEN: usize = 32;

pub const NONCE_LEN: usize = 24;

pub const KEY_ID_LEN: usize = 4;

pub const X25519_KEY_LEN: usize = 32;

/// First byte of a sealed field.
pub const VERSION_BYTE: u8 = 0x01;

/// First byte of a wrapped secret key.
pub const WRAPPED_SK_VERSION: u8 = 0x01;

/// Seconds that `pass show` is given.
pub const PASS_TIMEOUT_SECS: u64 = 30;

/// Length of a sealed field's header.
pub const SEAL_HEADER: usize = 58;

/// Length of the shortest sealed field: header and tag.
pub const SEAL_MIN: usize = 74;

/// Length of a wrapped secret key's header.
pub const WRAP_HEADER: usize = 25;

/// Length of a wrapped secret key.
pub const WRAP_LEN: usize = 73;

/// What can go wrong between sealed content and its plaintext.
#[derive(Debug, PartialEq, Eq)]
pub enum EncryptionError {
    /// `pass` could not be run.
    PassSpawn(String),
    /// `pass show` ended with this exit code.
    PassExit(i32),
    /// `pass show` did not end in time.
    PassTimeout,
    /// The message is longer than the cipher allows.
    Encrypt,
    /// The ciphertext does not decrypt under the key.
    Decrypt,
    /// The blob is shorter than its layout.
    BlobTooShort { got: usize, min: usize },
    /// The blob is of another version.
    BadVersion(u8),
    /// The blob holds another field.
    FieldTagMismatch { stored: u8, expected: u8 },
}

impl EncryptionError {
    /// What the error says to a reader.
    pub open spec fn spec_message(self) -> Seq<char> {
        match self {
            EncryptionError::PassSpawn(e) => "pass subprocess failed: "@ + e@,
            EncryptionError::PassExit(code) => "pass show returned non-zero exit code ("@
                + text::signed_decimal(code as int)
                + "); is the entry set up? run `olha encryption init`"@,
            EncryptionError::PassTimeout => "pass show timed out after "@ + text::decimal(
                PASS_TIMEOUT_SECS as nat,
            ) + "s — is gpg-agent waiting on pinentry with no TTY?"@,
            EncryptionError::Encrypt => "encryption failed"@,
            EncryptionError::Decrypt =>
            "decryption failed: wrong key, tampered ciphertext, or truncated payload"@,
            EncryptionError::BlobTooShort { got, min } => "sealed blob too short ("@
                + text::decimal(got as nat) + " bytes, need at least "@ + text::decimal(min as nat)
                + ")"@,
            EncryptionError::BadVersion(v) => "unknown on-disk encryption version byte: 0x"@
                + text::hex(seq![v]),
            EncryptionError::FieldTagMismatch { stored, expected } =>
            "field tag mismatch: stored 0x"@ + text::hex(seq![stored]) + ", expected 0x"@
                + text::hex(seq![expected]),
        }
    }

    /// What the error says to a reader.
    pub fn message(&self) -> (message: String)
        ensures
            message@ == self.spec_message(),
    {
        let mut out = String::new();
        match self {
            EncryptionError::PassSpawn(e) => {
                out.append("pass subprocess failed: ");
                out.append(e.as_str());
            },
            EncryptionError::PassExit(code) => {
                out.append("pass show returned non-zero exit code (");
                out.append(text::signed_text(*code as i64).as_str());
                out.append("); is the entry set up? run `olha encryption init`");
            },
            EncryptionError::PassTimeout => {
                out.append("pass show timed out after ");
                out.append(text::decimal_text(PASS_TIMEOUT_SECS).as_str());
                out.append("s — is gpg-agent waiting on pinentry with no TTY?");
            },
            EncryptionError::Encrypt => {
                out.append("encryption failed");
            },
            EncryptionError::Decrypt => {
                out.append("decryption failed: wrong key, tampered ciphertext, or truncated payload");
            },
            EncryptionError::BlobTooShort { got, min } => {
                out.append("sealed blob too short (");
                out.append(text::decimal_text(*got as u64).as_str());
                out.append(" bytes, need at least ");
                out.append(text::decimal_text(*min as u64).as_str());
                out.append(")");
            },
            EncryptionError::BadVersion(v) => {
                out.append("unknown on-disk encryption version byte: 0x");
                let byte = [*v];
                assert(byte@ =~= seq![*v]);
                out.append(text::hex_text(byte.as_slice()).as_str());
            },
            EncryptionError::FieldTagMismatch { stored, expected } => {
                out.append("field tag mismatch: stored 0x");
                let first = [*stored];
                assert(first@ =~= seq![*stored]);
                out.append(text::hex_text(first.as_slice()).as_str());
                out.append(", expected 0x");
                let second = [*expected];
                assert(second@ =~= seq![*expected]);
                out.append(text::hex_text(second.as_slice()).as_str());
            },
        }
        assert(out@ =~= self.spec_message());
        out
    }
}

/// The bytes of a data encryption key. Whoever holds them wipes them.
pub type Dek = [u8; 32];

/// The bytes of an X25519 secret key. Whoever holds them wipes them.
pub type SkBytes = [u8; 32];

/// An X25519 public key.
#[derive(Clone, Copy, Debug, PartialEq, Eq)]
pub struct PublicKey {
    pub bytes: [u8; 32],
}

impl PublicKey {
    /// The public key of a secret key.
    pub fn of_secret(sk: &SkBytes) -> (pk: PublicKey)
        ensures
            pk.bytes@ == crypto::x25519_public(sk@),
    {
        PublicKey { bytes: crypto::x25519_public_key(sk) }
    }

    /// The bytes of the key.
    pub fn as_bytes(&self) -> (bytes: &[u8; 32])
        ensures
            *bytes == self.bytes,
    {
        &self.bytes
    }
}

/// Which field a sealed blob holds.
#[derive(Copy, Clone, Debug, PartialEq, Eq, Structural)]
pub enum FieldTag {
    Summary,
    Body,
    Hints,
}

impl FieldTag {
    /// The tag's byte in a sealed field.
    pub open spec fn spec_byte(self) -> u8 {
        match self {
            FieldTag::Summary => 0x01,
            FieldTag::Body => 0x02,
            FieldTag::Hints => 0x03,
        }
    }

    /// The associated data that binds a ciphertext to the field's name and the version of the
    /// format.
    pub open spec fn spec_aad(self) -> Seq<u8> {
        match self {
            FieldTag::Summary => vstd::utf8::encode_utf8("olha/v1/summary"@),
            FieldTag::Body => vstd::utf8::encode_utf8("olha/v1/body"@),
            FieldTag::Hints => vstd::utf8::encode_utf8("olha/v1/hints"@),
        }
    }

    /// The tag's byte in a sealed field.
    pub fn byte(self) -> (b: u8)
        ensures
            b == self.spec_byte(),
    {
        match self {
            FieldTag::Summary => 0x01,
            FieldTag::Body => 0x02,
            FieldTag::Hints => 0x03,
        }
    }

    /// The associated data that binds a ciphertext to the field's name and the version of the
    /// format.
    pub fn aad(self) -> (aad: &'static [u8])
        ensures
            aad@ == self.spec_aad(),
    {
        match self {
            FieldTag::Summary => "olha/v1/summary".as_bytes(),
            FieldTag::Body => "olha/v1/body".as_bytes(),
            FieldTag::Hints => "olha/v1/hints".as_bytes(),
        }
    }
}

/// The byte of a tag tells it apart from the others.
pub proof fn field_tag_byte_is_injective(a: FieldTag, b: FieldTag)
    ensures
        a.spec_byte() == b.spec_byte() <==> a == b,
{
}

/// The associated data of a tag tells it apart from the others, and from a wrapped secret key.
pub proof fn associated_data_is_injective(a: FieldTag, b: FieldTag)
    ensures
        a.spec_aad() == b.spec_aad() <==> a == b,
        a.spec_aad() != wrap_aad(),
{
    reveal_strlit("olha/v1/summary");
    reveal_strlit("olha/v1/body");
    reveal_strlit("olha/v1/hints");
    reveal_strlit("olha/wrapped-sk");
    vstd::utf8::encode_utf8_decode_utf8("olha/v1/summary"@);
    vstd::utf8::encode_utf8_decode_utf8("olha/v1/body"@);
    vstd::utf8::encode_utf8_decode_utf8("olha/v1/hints"@);
    vstd::utf8::encode_utf8_decode_utf8("olha/wrapped-sk"@);
    assert("olha/v1/summary"@[5] == 'v' && "olha/wrapped-sk"@[5] == 'w');
    assert("olha/v1/summary"@.len() == 15 && "olha/v1/body"@.len() == 12
        && "olha/v1/hints"@.len() == 13);
    assert("olha/v1/body"@[5] == 'v' && "olha/v1/hints"@[5] == 'v');
}

// ---------- key derivation ----------

/// The symmetric key that one shared secret and both public keys give.
pub open spec fn sym_key(shared: Seq<u8>, epk: Seq<u8>, pk: Seq<u8>) -> Seq<u8> {
    crypto::sha256(vstd::utf8::encode_utf8("olha/kdf"@) + shared + epk + pk)
}

fn derive_sym_key(shared: &[u8; 32], epk: &[u8; 32], pk: &[u8; 32]) -> (key: [u8; 32])
    ensures
        key@ == sym_key(shared@, epk@, pk@),
{
    let mut input: Vec<u8> = text::bytes_of("olha/kdf".as_bytes());
    input.extend_from_slice(shared.as_slice());
    input.extend_from_slice(epk.as_slice());
    input.extend_from_slice(pk.as_slice());
    assert(input@ =~= vstd::utf8::encode_utf8("olha/kdf"@) + shared@ + epk@ + pk@);
    let key = crypto::sha256_digest(input.as_slice());
    crypto::wipe_all(&mut input);
    key
}

/// The data encryption key that the bytes held in `pass` give.
pub fn derive_dek(ikm: &[u8]) -> (dek: Dek)
    ensures
        dek@ == crypto::sha256(ikm@),
{
    crypto::sha256_digest(ikm)
}

/// The fingerprint of some bytes: the first four bytes of their digest.
pub open spec fn key_id_of(bytes: Seq<u8>) -> Seq<u8> {
    crypto::sha256(bytes).take(4)
}

/// The fingerprint of some bytes.
pub fn compute_bytes_key_id(bytes: &[u8]) -> (id: [u8; 4])
    ensures
        id@ == key_id_of(bytes@),
{
    let digest = crypto::sha256_digest(bytes);
    let id = [digest[0], digest[1], digest[2], digest[3]];
    assert(id@ =~= digest@.take(4));
    id
}

/// The fingerprint of a public key.
pub fn compute_pk_key_id(pk: &PublicKey) -> (id: [u8; 4])
    ensures
        id@ == key_id_of(pk.bytes@),
{
    compute_bytes_key_id(pk.bytes.as_slice())
}

// ---------- sealed fields ----------

/// A field sealed under `pk` with the ephemeral secret `esk` and `nonce`.
pub open spec fn sealed_field(
    pk: Seq<u8>,
    tag: FieldTag,
    plaintext: Seq<u8>,
    esk: Seq<u8>,
    nonce: Seq<u8>,
) -> Seq<u8> {
    let epk = crypto::x25519_public(esk);
    let key = sym_key(crypto::x25519_shared(esk, pk), epk, pk);
    seq![VERSION_BYTE, tag.spec_byte()] + epk + nonce + crypto::aead_encrypt(
        key,
        nonce,
        tag.spec_aad(),
        plaintext,
    )
}

/// What the holder of `sk` reads from a blob as the field `tag` sealed under `pk`.
pub open spec fn opened_field(sk: Seq<u8>, pk: Seq<u8>, tag: FieldTag, blob: Seq<u8>) -> Result<
    Seq<u8>,
    EncryptionError,
> {
    if blob.len() < SEAL_MIN {
        Err(EncryptionError::BlobTooShort { got: blob.len() as usize, min: SEAL_MIN })
    } else if blob[0] != VERSION_BYTE {
        Err(EncryptionError::BadVersion(blob[0]))
    } else if blob[1] != tag.spec_byte() {
        Err(EncryptionError::FieldTagMismatch { stored: blob[1], expected: tag.spec_byte() })
    } else {
        let epk = blob.subrange(2, 34);
        let nonce = blob.subrange(34, 58);
        let key = sym_key(crypto::x25519_shared(sk, epk), epk, pk);
        match crypto::decrypted(key, nonce, tag.spec_aad(), blob.skip(58)) {
            Some(plaintext) => Ok(plaintext),
            None => Err(EncryptionError::Decrypt),
        }
    }
}

/// Whether a blob seals `plaintext` as the field `tag` under `pk`: whoever holds a secret
/// key behind `pk` reads exactly that plaintext from it.
pub open spec fn seals(pk: Seq<u8>, tag: FieldTag, plaintext: Seq<u8>, blob: Seq<u8>) -> bool {
    forall|sk: Seq<u8>|
        sk.len() == 32 && pk == #[trigger] crypto::x25519_public(sk) ==> opened_field(
            sk,
            pk,
            tag,
            blob,
        ) == Ok::<Seq<u8>, EncryptionError>(plaintext)
}

/// Whether a blob is what sealing `plaintext` gives with an ephemeral key and a nonce that were
/// drawn at random.
pub open spec fn is_seal_of(pk: Seq<u8>, tag: FieldTag, plaintext: Seq<u8>, blob: Seq<u8>) -> bool {
    exists|esk: Seq<u8>, nonce: Seq<u8>|
        {
            &&& esk.len() == 32
            &&& nonce.len() == 24
            &&& crypto::drawn(esk)
            &&& crypto::drawn_nonce(nonce)
            &&& blob == #[trigger] sealed_field(pk, tag, plaintext, esk, nonce)
            &&& blob.len() >= SEAL_MIN
            &&& blob.subrange(2, 34) == crypto::x25519_public(esk)
            &&& blob.subrange(34, 58) == nonce
        }
}

/// Seals a field with the ephemeral secret `esk` and `nonce`.
pub fn seal_field_with(
    pk: &PublicKey,
    tag: FieldTag,
    plaintext: &[u8],
    esk: &SkBytes,
    nonce: &[u8; 24],
) -> (blob: Result<Vec<u8>, EncryptionError>)
    ensures
        match blob {
            Ok(b) => {
                &&& plaintext@.len() <= crypto::MAX_MESSAGE
                &&& b@ == sealed_field(pk.bytes@, tag, plaintext@, esk@, nonce@)
                &&& b@.len() == plaintext@.len() + SEAL_MIN
                &&& b@.subrange(2, 34) == crypto::x25519_public(esk@)
                &&& b@.subrange(34, 58) == nonce@
                &&& seals(pk.bytes@, tag, plaintext@, b@)
            },
            Err(e) => plaintext@.len() > crypto::MAX_MESSAGE && e == EncryptionError::Encrypt,
        },
{
    let epk = crypto::x25519_public_key(esk);
    let mut shared = crypto::x25519_agree(esk, &pk.bytes);
    let mut key = derive_sym_key(&shared, &epk, &pk.bytes);
    let encrypted = crypto::encrypt(&key, nonce, tag.aad(), plaintext);
    crypto::wipe(&mut shared);
    crypto::wipe(&mut key);
    let ct = match encrypted {
        Some(ct) => ct,
        None => {
            return Err(EncryptionError::Encrypt);
        },
    };
    let mut out: Vec<u8> = Vec::new();
    out.push(VERSION_BYTE);
    out.push(tag.byte());
    out.extend_from_slice(epk.as_slice());
    out.extend_from_slice(nonce.as_slice());
    out.extend_from_slice(ct.as_slice());
    proof {
        assert(out@ =~= sealed_field(pk.bytes@, tag, plaintext@, esk@, nonce@));
        assert(out@.subrange(2, 34) =~= epk@);
        assert(out@.subrange(34, 58) =~= nonce@);
        assert(out@.skip(58) =~= ct@);
    }
    Ok(out)
}

/// Seals a field under `pk`, with a fresh ephemeral key and nonce for each call.
pub fn seal_field(pk: &PublicKey, tag: FieldTag, plaintext: &[u8]) -> (blob: Result<
    Vec<u8>,
    EncryptionError,
>)
    ensures
        match blob {
            Ok(b) => {
                &&& plaintext@.len() <= crypto::MAX_MESSAGE
                &&& is_seal_of(pk.bytes@, tag, plaintext@, b@)
                &&& b@.len() == plaintext@.len() + SEAL_MIN
                &&& seals(pk.bytes@, tag, plaintext@, b@)
            },
            Err(e) => plaintext@.len() > crypto::MAX_MESSAGE && e == EncryptionError::Encrypt,
        },
{
    let mut esk = crypto::draw_key();
    let nonce = crypto::draw_nonce();
    let blob = seal_field_with(pk, tag, plaintext, &esk, &nonce);
    crypto::wipe(&mut esk);
    blob
}

/// The key that the 32 bytes from `at` on make.
pub(crate) fn key_at(bytes: &[u8], at: usize) -> (key: [u8; 32])
    requires
        at + 32 <= bytes@.len(),
    ensures
        key@ == bytes@.subrange(at as int, at + 32),
{
    let mut key = [0u8; 32];
    let mut i: usize = 0;
    while i < 32
        invariant
            i <= 32,
            at + 32 <= bytes@.len(),
            bytes@.len() == bytes.len(),
            forall|j: int| 0 <= j < i ==> key@[j] == bytes@[at + j],
        decreases 32 - i,
    {
        key[i] = bytes[at + i];
        i = i + 1;
    }
    assert(key@ =~= bytes@.subrange(at as int, at + 32));
    key
}

fn nonce_at(bytes: &[u8], at: usize) -> (nonce: [u8; 24])
    requires
        at + 24 <= bytes@.len(),
    ensures
        nonce@ == bytes@.subrange(at as int, at + 24),
{
    let mut nonce = [0u8; 24];
    let mut i: usize = 0;
    while i < 24
        invariant
            i <= 24,
            at + 24 <= bytes@.len(),
            bytes@.len() == bytes.len(),
            forall|j: int| 0 <= j < i ==> nonce@[j] == bytes@[at + j],
        decreases 24 - i,
    {
        nonce[i] = bytes[at + i];
        i = i + 1;
    }
    assert(nonce@ =~= bytes@.subrange(at as int, at + 24));
    nonce
}

/// Opens a sealed field. The version and tag bytes are tested before any decryption.
pub fn open_field(sk: &SkBytes, pk: &PublicKey, tag: FieldTag, blob: &[u8]) -> (plaintext: Result<
    Vec<u8>,
    EncryptionError,
>)
    ensures
        match plaintext {
            Ok(p) => opened_field(sk@, pk.bytes@, tag, blob@) == Ok::<Seq<u8>, EncryptionError>(p@)
                && p@.len() + SEAL_MIN == blob@.len(),
            Err(e) => opened_field(sk@, pk.bytes@, tag, blob@) == Err::<Seq<u8>, EncryptionError>(e),
        },
{
    if blob.len() < SEAL_MIN {
        return Err(EncryptionError::BlobTooShort { got: blob.len(), min: SEAL_MIN });
    }
    if blob[0] != VERSION_BYTE {
        return Err(EncryptionError::BadVersion(blob[0]));
    }
    if blob[1] != tag.byte() {
        return Err(EncryptionError::FieldTagMismatch { stored: blob[1], expected: tag.byte() });
    }
    let epk = key_at(blob, 2);
    let nonce = nonce_at(blob, 34);
    let ct = &blob[SEAL_HEADER..blob.len()];
    assert(ct@ =~= blob@.skip(58));
    let mut shared = crypto::x25519_agree(sk, &epk);
    let mut key = derive_sym_key(&shared, &epk, &pk.bytes);
    let opened = crypto::decrypt(&key, &nonce, tag.aad(), ct);
    crypto::wipe(&mut shared);
    crypto::wipe(&mut key);
    match opened {
        Some(plaintext) => Ok(plaintext),
        None => Err(EncryptionError::Decrypt),
    }
}

/// A field that was sealed under one tag cannot be read under another: the tag byte is
/// refused before any decryption.
pub proof fn sealed_field_is_bound_to_its_tag(
    sk: Seq<u8>,
    pk: Seq<u8>,
    tag: FieldTag,
    other: FieldTag,
    plaintext: Seq<u8>,
    esk: Seq<u8>,
    nonce: Seq<u8>,
)
    requires
        tag != other,
        sealed_field(pk, tag, plaintext, esk, nonce).len() >= SEAL_MIN,
    ensures
        opened_field(sk, pk, other, sealed_field(pk, tag, plaintext, esk, nonce)) == Err::<
            Seq<u8>,
            EncryptionError,
        >(
            EncryptionError::FieldTagMismatch {
                stored: tag.spec_byte(),
                expected: other.spec_byte(),
            },
        ),
{
    let blob = sealed_field(pk, tag, plaintext, esk, nonce);
    assert(blob[0] == VERSION_BYTE);
    assert(blob[1] == tag.spec_byte());
}

/// What comes of a sealed field whose tag byte was overwritten: its ciphertext is held against
/// the associated data of the other tag, and unless the cipher takes it for that, it is refused.
pub proof fn overwritten_tag_meets_the_cipher(
    sk: Seq<u8>,
    pk: Seq<u8>,
    other: FieldTag,
    blob: Seq<u8>,
)
    requires
        blob.len() >= SEAL_MIN,
        blob[0] == VERSION_BYTE,
    ensures
        ({
            let epk = blob.subrange(2, 34);
            let key = sym_key(crypto::x25519_shared(sk, epk), epk, pk);
            opened_field(sk, pk, other, blob.update(1, other.spec_byte())) == match crypto::decrypted(
                key,
                blob.subrange(34, 58),
                other.spec_aad(),
                blob.skip(58),
            ) {
                Some(p) => Ok::<Seq<u8>, EncryptionError>(p),
                None => Err::<Seq<u8>, EncryptionError>(EncryptionError::Decrypt),
            }
        }),
{
    let changed = blob.update(1, other.spec_byte());
    assert(changed.subrange(2, 34) =~= blob.subrange(2, 34));
    assert(changed.subrange(34, 58) =~= blob.subrange(34, 58));
    assert(changed.skip(58) =~= blob.skip(58));
}

// ---------- wrapped secret keys ----------

/// The associated data of a wrapped secret key.
pub open spec fn wrap_aad() -> Seq<u8> {
    vstd::utf8::encode_utf8("olha/wrapped-sk"@)
}

/// A secret key wrapped under a data encryption key with `nonce`.
pub open spec fn wrapped_sk(dek: Seq<u8>, sk: Seq<u8>, nonce: Seq<u8>) -> Seq<u8> {
    seq![WRAPPED_SK_VERSION] + nonce + crypto::aead_encrypt(dek, nonce, wrap_aad(), sk)
}

/// The bytes that a wrapped blob holds under a data encryption key.
pub open spec fn unwrapped_bytes(dek: Seq<u8>, blob: Seq<u8>) -> Result<Seq<u8>, EncryptionError> {
    if blob.len() < WRAP_LEN {
        Err(EncryptionError::BlobTooShort { got: blob.len() as usize, min: WRAP_LEN })
    } else if blob[0] != WRAPPED_SK_VERSION {
        Err(EncryptionError::BadVersion(blob[0]))
    } else {
        match crypto::decrypted(dek, blob.subrange(1, 25), wrap_aad(), blob.skip(25)) {
            Some(bytes) => Ok(bytes),
            None => Err(EncryptionError::Decrypt),
        }
    }
}

/// The secret key that a blob unwraps to under a data encryption key.
pub open spec fn unwrapped_sk(dek: Seq<u8>, blob: Seq<u8>) -> Result<Seq<u8>, EncryptionError> {
    match unwrapped_bytes(dek, blob) {
        Ok(bytes) => if bytes.len() == X25519_KEY_LEN {
            Ok(bytes)
        } else {
            Err(EncryptionError::Decrypt)
        },
        Err(e) => Err(e),
    }
}

/// Wraps a secret key with `nonce`.
pub fn wrap_sk_with(dek: &Dek, sk: &SkBytes, nonce: &[u8; 24]) -> (blob: Vec<u8>)
    ensures
        blob@ == wrapped_sk(dek@, sk@, nonce@),
        blob@.len() == WRAP_LEN,
        unwrapped_sk(dek@, blob@) == Ok::<Seq<u8>, EncryptionError>(sk@),
{
    let mut out: Vec<u8> = Vec::new();
    out.push(WRAPPED_SK_VERSION);
    out.extend_from_slice(nonce.as_slice());
    match crypto::encrypt(dek, nonce, "olha/wrapped-sk".as_bytes(), sk.as_slice()) {
        Some(ct) => {
            out.extend_from_slice(ct.as_slice());
            proof {
                assert(out@ =~= wrapped_sk(dek@, sk@, nonce@));
                assert(out@.subrange(1, 25) =~= nonce@);
                assert(out@.skip(25) =~= ct@);
            }
        },
        None => {
            assert(false);
        },
    }
    out
}

/// Wraps a secret key under the data encryption key for storage, with a fresh nonce.
pub fn wrap_sk(dek: &Dek, sk: &SkBytes) -> (blob: Result<Vec<u8>, EncryptionError>)
    ensures
        blob is Ok,
        exists|nonce: Seq<u8>|
            nonce.len() == 24 && crypto::drawn_nonce(nonce) && blob->Ok_0@
                == #[trigger] wrapped_sk(dek@, sk@, nonce),
        blob->Ok_0@.len() == WRAP_LEN,
        unwrapped_sk(dek@, blob->Ok_0@) == Ok::<Seq<u8>, EncryptionError>(sk@),
{
    let nonce = crypto::draw_nonce();
    let blob = wrap_sk_with(dek, sk, &nonce);
    assert(blob@ == wrapped_sk(dek@, sk@, nonce@));
    Ok(blob)
}

/// The bytes that a wrapped blob holds.
pub fn unwrap_bytes(dek: &Dek, blob: &[u8]) -> (bytes: Result<Vec<u8>, EncryptionError>)
    ensures
        match bytes {
            Ok(b) => unwrapped_bytes(dek@, blob@) == Ok::<Seq<u8>, EncryptionError>(b@),
            Err(e) => unwrapped_bytes(dek@, blob@) == Err::<Seq<u8>, EncryptionError>(e),
        },
{
    if blob.len() < WRAP_LEN {
        return Err(EncryptionError::BlobTooShort { got: blob.len(), min: WRAP_LEN });
    }
    if blob[0] != WRAPPED_SK_VERSION {
        return Err(EncryptionError::BadVersion(blob[0]));
    }
    let nonce = nonce_at(blob, 1);
    let ct = &blob[WRAP_HEADER..blob.len()];
    assert(ct@ =~= blob@.skip(25));
    match crypto::decrypt(dek, &nonce, "olha/wrapped-sk".as_bytes(), ct) {
        Some(bytes) => Ok(bytes),
        None => Err(EncryptionError::Decrypt),
    }
}

/// Restores a secret key that [`wrap_sk`] wrapped.
pub fn unwrap_sk(dek: &Dek, blob: &[u8]) -> (sk: Result<SkBytes, EncryptionError>)
    ensures
        match sk {
            Ok(s) => unwrapped_sk(dek@, blob@) == Ok::<Seq<u8>, EncryptionError>(s@),
            Err(e) => unwrapped_sk(dek@, blob@) == Err::<Seq<u8>, EncryptionError>(e),
        },
{
    match unwrap_bytes(dek, blob) {
        Ok(bytes) => {
            let mut bytes: Vec<u8> = bytes;
            if bytes.len() != X25519_KEY_LEN {
                crypto::wipe_all(&mut bytes);
                return Err(EncryptionError::Decrypt);
            }
            let sk = key_at(bytes.as_slice(), 0);
            assert(sk@ =~= bytes@);
            crypto::wipe_all(&mut bytes);
            Ok(sk)
        },
        Err(e) => Err(e),
    }
}

/// A wrapped secret key of another version, or one that was cut short, is refused before any
/// decryption.
pub proof fn damaged_wrap_is_refused(dek: Seq<u8>, blob: Seq<u8>, version: u8, n: int)
    requires
        blob.len() >= WRAP_LEN,
        version != WRAPPED_SK_VERSION,
        0 <= n < WRAP_LEN,
    ensures
        unwrapped_sk(dek, blob.update(0, version)) == Err::<Seq<u8>, EncryptionError>(
            EncryptionError::BadVersion(version),
        ),
        unwrapped_sk(dek, blob.take(n)) == Err::<Seq<u8>, EncryptionError>(
            EncryptionError::BlobTooShort { got: n as usize, min: WRAP_LEN },
        ),
{
}

// ---------- modes ----------

/// What a read or write of the store has to work with.
pub enum EncMode {
    /// No encryption configured: rows are written and read as they are.
    Plaintext,
    /// Rows are sealed under `pk`; sealed rows cannot be read.
    Locked { pk: PublicKey, key_id: [u8; 4] },
    /// The secret key is at hand: rows are sealed under `pk`, sealed rows can be read.
    Unlocked { pk: PublicKey, key_id: [u8; 4], sk: SkBytes },
}

impl EncMode {
    /// The key that rows are sealed under.
    pub open spec fn spec_pk(self) -> Option<PublicKey> {
        match self {
            EncMode::Plaintext => None,
            EncMode::Locked { pk, .. } => Some(pk),
            EncMode::Unlocked { pk, .. } => Some(pk),
        }
    }

    /// The fingerprint of the key that rows are sealed under.
    pub open spec fn spec_key_id(self) -> Option<[u8; 4]> {
        match self {
            EncMode::Plaintext => None,
            EncMode::Locked { key_id, .. } => Some(key_id),
            EncMode::Unlocked { key_id, .. } => Some(key_id),
        }
    }

    /// The key that rows are sealed under.
    pub fn pk(&self) -> (pk: Option<&PublicKey>)
        ensures
            match pk {
                Some(k) => self.spec_pk() == Some(*k),
                None => self.spec_pk() is None,
            },
    {
        match self {
            EncMode::Plaintext => None,
            EncMode::Locked { pk, .. } => Some(pk),
            EncMode::Unlocked { pk, .. } => Some(pk),
        }
    }

    /// The fingerprint of the key that rows are sealed under.
    pub fn key_id(&self) -> (id: Option<&[u8; 4]>)
        ensures
            match id {
                Some(k) => self.spec_key_id() == Some(*k),
                None => self.spec_key_id() is None,
            },
    {
        match self {
            EncMode::Plaintext => None,
            EncMode::Locked { key_id, .. } => Some(key_id),
            EncMode::Unlocked { key_id, .. } => Some(key_id),
        }
    }

    /// Whether rows are sealed.
    pub fn is_encrypted(&self) -> (r: bool)
        ensures
            r == !(self is Plaintext),
    {
        match self {
            EncMode::Plaintext => false,
            _ => true,
        }
    }

    /// Whether sealed rows can be read.
    pub fn is_unlocked(&self) -> (r: bool)
        ensures
            r == self is Unlocked,
    {
        match self {
            EncMode::Unlocked { .. } => true,
            _ => false,
        }
    }

    /// Wipes the secret key, where there is one: sealed rows cannot be read any more.
    pub fn lock(&mut self)
        ensures
            *final(self) == match *old(self) {
                EncMode::Unlocked { pk, key_id, .. } => EncMode::Locked { pk, key_id },
                mode => mode,
            },
    {
        let locked = match self {
            EncMode::Unlocked { pk, key_id, sk } => {
                crypto::wipe(sk);
                EncMode::Locked { pk: *pk, key_id: *key_id }
            },
            EncMode::Locked { .. } => {
                return;
            },
            EncMode::Plaintext => {
                return;
            },
        };
        *self = locked;
    }
}

// ---------- the daemon's key state ----------

/// `SystemTime::now` against the Unix epoch, in seconds; nothing where the clock stands
/// before the epoch. Nothing is known of the time it gives.
#[verifier::external_body]
fn seconds_since_epoch() -> Option<u64> {
    std::time::SystemTime::now().duration_since(std::time::UNIX_EPOCH).ok().map(|d| d.as_secs())
}

/// Seconds since the Unix epoch, signed, from a reading of the clock: 0 where the clock stands
/// before the epoch. Seconds beyond the signed range wrap around.
pub open spec fn secs_of_reading(reading: Option<u64>) -> int {
    match reading {
        Some(secs) => if secs <= i64::MAX {
            secs as int
        } else {
            secs - 0x1_0000_0000_0000_0000
        },
        None => 0,
    }
}

/// Seconds since the Unix epoch, signed, from a reading of the clock.
pub fn reading_secs(reading: Option<u64>) -> (secs: i64)
    ensures
        secs == secs_of_reading(reading),
{
    match reading {
        Some(s) => {
            assert(s <= 0x7fff_ffff_ffff_ffff ==> s as i64 == s) by (bit_vector);
            assert(s > 0x7fff_ffff_ffff_ffff ==> s as i64 == s - 0x1_0000_0000_0000_0000)
                by (bit_vector);
            #[verifier::truncate]
            (s as i64)
        },
        None => 0,
    }
}

/// Whether that came from reading the system's clock, in seconds since the Unix epoch.
pub closed spec fn read_from_clock(now: i64) -> bool {
    exists|reading: Option<u64>| #[trigger]
        call_ensures(seconds_since_epoch, (), reading) && now == secs_of_reading(reading)
}

/// The clock in seconds since the Unix epoch, 0 where it stands before.
fn unix_now() -> (now: i64)
    ensures
        read_from_clock(now),
{
    reading_secs(seconds_since_epoch())
}

/// The keys that the daemon holds, and since when nothing was read with them.
pub struct EncryptionState {
    /// The key that content is sealed under; absent where encryption is off.
    pub public_key: Option<PublicKey>,
    /// The fingerprint of `public_key`; zero where there is none.
    pub key_id: [u8; 4],
    /// Present between an unlock and the next lock.
    pub secret_key: Option<SkBytes>,
    /// When the last unlock or successful decryption was, in seconds since the Unix epoch.
    pub last_activity: i64,
    /// Seconds without activity after which the daemon locks itself; 0 for never.
    pub auto_lock_secs: u64,
}

/// Seconds from `last` to `now`, 0 where the clock went back.
pub open spec fn elapsed_secs(now: i64, last: i64) -> int {
    if now - last > i64::MAX {
        i64::MAX as int
    } else if now - last > 0 {
        now - last
    } else {
        0
    }
}

fn elapsed(now: i64, last: i64) -> (secs: u64)
    ensures
        secs == elapsed_secs(now, last),
{
    if now <= last {
        return 0;
    }
    let wide: i128 = now as i128 - last as i128;
    if wide > i64::MAX as i128 {
        i64::MAX as u64
    } else {
        wide as u64
    }
}

impl EncryptionState {
    /// The fingerprint is that of the public key.
    pub open spec fn wf(self) -> bool {
        match self.public_key {
            Some(pk) => self.key_id@ == key_id_of(pk.bytes@),
            None => self.key_id@ == seq![0u8, 0u8, 0u8, 0u8],
        }
    }

    /// The seconds that are left until the daemon locks itself, were it `now`.
    pub open spec fn spec_idle_until_lock(self, now: i64) -> Option<int> {
        if self.auto_lock_secs == 0 || self.secret_key is None {
            None
        } else if self.auto_lock_secs <= elapsed_secs(now, self.last_activity) {
            Some(0)
        } else {
            Some(self.auto_lock_secs - elapsed_secs(now, self.last_activity))
        }
    }

    /// Whether the daemon is due to lock itself, were it `now`.
    pub open spec fn spec_should_auto_lock(self, now: i64) -> bool {
        &&& self.auto_lock_secs != 0
        &&& self.secret_key is Some
        &&& elapsed_secs(now, self.last_activity) >= self.auto_lock_secs
    }

    /// The mode for one operation on the store.
    pub open spec fn spec_enc_mode(self) -> EncMode {
        match self.public_key {
            None => EncMode::Plaintext,
            Some(pk) => match self.secret_key {
                None => EncMode::Locked { pk, key_id: self.key_id },
                Some(sk) => EncMode::Unlocked { pk, key_id: self.key_id, sk },
            },
        }
    }

    /// The state of a daemon without encryption.
    pub fn plaintext() -> (state: EncryptionState)
        ensures
            state.wf(),
            state.public_key is None,
            state.secret_key is None,
            state.last_activity == 0,
            state.auto_lock_secs == 0,
    {
        let zeros = [0u8, 0u8, 0u8, 0u8];
        assert(zeros@ =~= seq![0u8, 0u8, 0u8, 0u8]);
        EncryptionState {
            public_key: None,
            key_id: zeros,
            secret_key: None,
            last_activity: 0,
            auto_lock_secs: 0,
        }
    }

    /// The state of a daemon that seals under `pk`. It starts locked.
    pub fn with_public_key(pk: PublicKey, auto_lock_secs: u64) -> (state: EncryptionState)
        ensures
            state.wf(),
            state.public_key == Some(pk),
            state.secret_key is None,
            state.last_activity == 0,
            state.auto_lock_secs == auto_lock_secs,
    {
        let key_id = compute_pk_key_id(&pk);
        EncryptionState {
            public_key: Some(pk),
            key_id,
            secret_key: None,
            last_activity: 0,
            auto_lock_secs,
        }
    }

    /// Whether content is sealed.
    pub fn is_enabled(&self) -> (r: bool)
        ensures
            r == self.public_key is Some,
    {
        self.public_key.is_some()
    }

    /// Whether the secret key is at hand.
    pub fn is_unlocked(&self) -> (r: bool)
        ensures
            r == self.secret_key is Some,
    {
        self.secret_key.is_some()
    }

    /// Seconds without activity after which the daemon locks itself; 0 for never.
    pub fn auto_lock_secs(&self) -> (secs: u64)
        ensures
            secs == self.auto_lock_secs,
    {
        self.auto_lock_secs
    }

    /// Takes the secret key at time `now`. A key that was held before is wiped.
    pub fn unlock_at(&mut self, sk: SkBytes, now: i64)
        ensures
            final(self).secret_key == Some(sk),
            final(self).last_activity == now,
            final(self).public_key == old(self).public_key,
            final(self).key_id == old(self).key_id,
            final(self).auto_lock_secs == old(self).auto_lock_secs,
    {
        let _ = self.lock();
        self.secret_key = Some(sk);
        self.last_activity = now;
    }

    /// Takes the secret key. The clock is read for the idle timer.
    pub fn unlock(&mut self, sk: SkBytes)
        ensures
            final(self).secret_key == Some(sk),
            read_from_clock(final(self).last_activity),
            final(self).public_key == old(self).public_key,
            final(self).key_id == old(self).key_id,
            final(self).auto_lock_secs == old(self).auto_lock_secs,
    {
        let now: i64 = unix_now();
        self.unlock_at(sk, now);
    }

    /// Wipes the secret key. Says whether there was one.
    pub fn lock(&mut self) -> (was_unlocked: bool)
        ensures
            was_unlocked == old(self).secret_key is Some,
            final(self).secret_key is None,
            final(self).last_activity == old(self).last_activity,
            final(self).public_key == old(self).public_key,
            final(self).key_id == old(self).key_id,
            final(self).auto_lock_secs == old(self).auto_lock_secs,
    {
        match self.secret_key.take() {
            Some(mut sk) => {
                crypto::wipe(&mut sk);
                true
            },
            None => false,
        }
    }

    /// Starts the idle timer anew, at time `now`.
    pub fn record_decrypt_activity_at(&mut self, now: i64)
        ensures
            *final(self) == (EncryptionState { last_activity: now, ..*old(self) }),
    {
        self.last_activity = now;
    }

    /// Starts the idle timer anew, at the time that the clock shows: an unlock or a successful
    /// decryption happened.
    pub fn record_decrypt_activity(&mut self)
        ensures
            read_from_clock(final(self).last_activity),
            *final(self) == (EncryptionState {
                last_activity: final(self).last_activity,
                ..*old(self)
            }),
    {
        let now: i64 = unix_now();
        self.record_decrypt_activity_at(now);
    }

    /// Seconds that are left at time `now` until the daemon locks itself; nothing where it
    /// is locked or never does.
    pub fn idle_until_lock_secs_at(&self, now: i64) -> (secs: Option<u64>)
        ensures
            match secs {
                Some(s) => self.spec_idle_until_lock(now) == Some(s as int),
                None => self.spec_idle_until_lock(now) is None,
            },
    {
        if self.auto_lock_secs == 0 || self.secret_key.is_none() {
            return None;
        }
        let idle: u64 = elapsed(now, self.last_activity);
        if self.auto_lock_secs <= idle {
            Some(0)
        } else {
            Some(self.auto_lock_secs - idle)
        }
    }

    /// Seconds that are left until the daemon locks itself; nothing where it is locked or
    /// never does.
    pub fn idle_until_lock_secs(&self) -> (secs: Option<u64>)
        ensures
            secs is None <==> self.auto_lock_secs == 0 || self.secret_key is None,
            exists|now: i64|
                read_from_clock(now) && match secs {
                    Some(s) => #[trigger] self.spec_idle_until_lock(now) == Some(s as int),
                    None => self.spec_idle_until_lock(now) is None,
                },
    {
        let now: i64 = unix_now();
        self.idle_until_lock_secs_at(now)
    }

    /// Whether the daemon is due to lock itself at time `now`.
    pub fn should_auto_lock_at(&self, now: i64) -> (due: bool)
        ensures
            due == self.spec_should_auto_lock(now),
    {
        if self.auto_lock_secs == 0 || self.secret_key.is_none() {
            return false;
        }
        elapsed(now, self.last_activity) >= self.auto_lock_secs
    }

    /// Whether the daemon is due to lock itself.
    pub fn should_auto_lock(&self) -> (due: bool)
        ensures
            self.auto_lock_secs == 0 || self.secret_key is None ==> !due,
            exists|now: i64|
                read_from_clock(now) && due == #[trigger] self.spec_should_auto_lock(now),
    {
        let now: i64 = unix_now();
        self.should_auto_lock_at(now)
    }

    /// The mode for one operation on the store. It holds a copy of the secret key, to be wiped by
    /// [`EncMode::lock`].
    pub fn enc_mode(&self) -> (mode: EncMode)
        ensures
            mode == self.spec_enc_mode(),
    {
        match self.public_key {
            None => EncMode::Plaintext,
            Some(pk) => match self.secret_key {
                None => EncMode::Locked { pk, key_id: self.key_id },
                Some(sk) => EncMode::Unlocked { pk, key_id: self.key_id, sk },
            },
        }
    }

    /// What a log shows of the state. The secret key is not in it.
    pub open spec fn spec_summary(self) -> Seq<char> {
        "EncryptionState { enabled: "@ + bool_text(self.public_key is Some) + ", unlocked: "@
            + bool_text(self.secret_key is Some) + ", key_id: ["@ + text::decimal(
            self.key_id@[0] as nat,
        ) + ", "@ + text::decimal(self.key_id@[1] as nat) + ", "@ + text::decimal(
            self.key_id@[2] as nat,
        ) + ", "@ + text::decimal(self.key_id@[3] as nat) + "], auto_lock_secs: "@ + text::decimal(
            self.auto_lock_secs as nat,
        ) + " }"@
    }

    /// What a log shows of the state.
    pub fn summary(&self) -> (text: String)
        ensures
            text@ == self.spec_summary(),
    {
        let mut out = String::new();
        out.append("EncryptionState { enabled: ");
        out.append(bool_str(self.is_enabled()));
        out.append(", unlocked: ");
        out.append(bool_str(self.is_unlocked()));
        out.append(", key_id: [");
        out.append(text::decimal_text(self.key_id[0] as u64).as_str());
        out.append(", ");
        out.append(text::decimal_text(self.key_id[1] as u64).as_str());
        out.append(", ");
        out.append(text::decimal_text(self.key_id[2] as u64).as_str());
        out.append(", ");
        out.append(text::decimal_text(self.key_id[3] as u64).as_str());
        out.append("], auto_lock_secs: ");
        out.append(text::decimal_text(self.auto_lock_secs).as_str());
        out.append(" }");
        assert(out@ =~= self.spec_summary());
        out
    }
}

/// `true` or `false`.
pub open spec fn bool_text(b: bool) -> Seq<char> {
    if b {
        "true"@
    } else {
        "false"@
    }
}

/// `true` or `false`.
pub fn bool_str(b: bool) -> (text: &'static str)
    ensures
        text@ == bool_text(b),
{
    if b {
        "true"
    } else {
        "false"
    }
}

/// The daemon is due to lock itself exactly when no second is left.
pub proof fn auto_lock_is_due_when_no_second_is_left(state: EncryptionState, now: i64)
    ensures
        state.spec_should_auto_lock(now) <==> state.spec_idle_until_lock(now) == Some(0int),
{
}

/// With the threshold at 0 the daemon never locks itself, however old the activity.
pub proof fn auto_lock_zero_means_never(state: EncryptionState, now: i64)
    requires
        state.auto_lock_secs == 0,
    ensures
        !state.spec_should_auto_lock(now),
        state.spec_idle_until_lock(now) is None,
{
}

/// The mode follows the keys: plaintext without a public key, otherwise unlocked exactly
/// when the secret key is at hand.
pub proof fn enc_mode_follows_the_keys(state: EncryptionState)
    ensures
        state.spec_enc_mode() is Plaintext <==> state.public_key is None,
        state.spec_enc_mode() is Unlocked <==> state.public_key is Some && state.secret_key is Some,
        state.spec_enc_mode() is Locked <==> state.public_key is Some && state.secret_key is None,
{
}

// ---------- `pass show` ----------

/// What a look at the running `pass show` found.
pub enum PassPoll {
    /// It ended, with this exit code where it has one, and wrote this.
    Exited { success: bool, code: Option<i32>, output: Vec<u8> },
    /// It is still running; `expired` where its time is up.
    Running { expired: bool },
    /// It could not be looked at.
    Failed(String),
}

/// What to do after a look at the running `pass show`.
pub enum PassStep {
    /// There is an outcome.
    Finish(Result<Vec<u8>, EncryptionError>),
    /// End it, and report that its time was up.
    Kill(EncryptionError),
    /// Look again after a while.
    Wait,
}

/// Whether a byte is ASCII white space: space, tab, line feed, form feed or carriage return.
pub open spec fn is_ascii_space(b: u8) -> bool {
    b == 0x20 || b == 0x09 || b == 0x0a || b == 0x0c || b == 0x0d
}

/// The bytes without trailing ASCII white space.
pub open spec fn without_trailing_space(bytes: Seq<u8>) -> Seq<u8>
    decreases bytes.len(),
{
    if bytes.len() > 0 && is_ascii_space(bytes.last()) {
        without_trailing_space(bytes.drop_last())
    } else {
        bytes
    }
}

/// The bytes without trailing ASCII white space.
pub fn trim_trailing_space(bytes: Vec<u8>) -> (out: Vec<u8>)
    ensures
        out@ == without_trailing_space(bytes@),
{
    let mut out: Vec<u8> = bytes;
    let mut end: usize = out.len();
    assert(out@.take(end as int) =~= out@);
    while end > 0 && (out[end - 1] == 0x20 || out[end - 1] == 0x09 || out[end - 1] == 0x0a || out[end
        - 1] == 0x0c || out[end - 1] == 0x0d)
        invariant
            end <= out@.len(),
            without_trailing_space(bytes@) == without_trailing_space(out@.take(end as int)),
        decreases end,
    {
        assert(out@.take(end as int).drop_last() =~= out@.take(end as int - 1));
        end = end - 1;
    }
    out.truncate(end);
    out
}

/// What trimming leaves does not end in white space, and the trimmed bytes begin with it.
pub proof fn trimming_leaves_a_prefix(bytes: Seq<u8>)
    ensures
        without_trailing_space(bytes).len() <= bytes.len(),
        without_trailing_space(bytes) == bytes.take(without_trailing_space(bytes).len() as int),
        without_trailing_space(bytes).len() > 0 ==> !is_ascii_space(
            without_trailing_space(bytes).last(),
        ),
    decreases bytes.len(),
{
    if bytes.len() > 0 && is_ascii_space(bytes.last()) {
        trimming_leaves_a_prefix(bytes.drop_last());
        let rest = without_trailing_space(bytes.drop_last());
        assert(bytes.drop_last().take(rest.len() as int) =~= bytes.take(rest.len() as int));
    } else {
        assert(bytes.take(bytes.len() as int) =~= bytes);
    }
}

/// What to do after a look at the running `pass show`: its output without trailing white
/// space where it succeeded, an error where it did not, -1 for a missing exit code.
pub fn pass_step(poll: PassPoll) -> (step: PassStep)
    ensures
        match poll {
            PassPoll::Exited { success, code, output } => if success {
                step matches PassStep::Finish(Ok(out)) && out@ == without_trailing_space(output@)
            } else {
                step == PassStep::Finish(
                    Err(
                        EncryptionError::PassExit(
                            match code {
                                Some(c) => c,
                                None => -1i32,
                            },
                        ),
                    ),
                )
            },
            PassPoll::Running { expired } => if expired {
                step == PassStep::Kill(EncryptionError::PassTimeout)
            } else {
                step == PassStep::Wait
            },
            PassPoll::Failed(e) => step == PassStep::Finish(Err(EncryptionError::PassSpawn(e))),
        },
{
    match poll {
        PassPoll::Exited { success, code, output } => {
            if success {
                PassStep::Finish(Ok(trim_trailing_space(output)))
            } else {
                let shown: i32 = match code {
                    Some(c) => c,
                    None => -1,
                };
                PassStep::Finish(Err(EncryptionError::PassExit(shown)))
            }
        },
        PassPoll::Running { expired } => {
            if expired {
                PassStep::Kill(EncryptionError::PassTimeout)
            } else {
                PassStep::Wait
            }
        },
        PassPoll::Failed(e) => PassStep::Finish(Err(EncryptionError::PassSpawn(e))),
    }
}

} // verus!
