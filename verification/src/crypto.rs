//! The cryptographic primitives that sealing rests on, each behind one function.
//!
//! Every primitive comes from an outside crate. Its result has a name here, and the
//! functions that call it say which facts about the name are relied on.

use chacha20poly1305::aead::{Aead, KeyInit, Payload};
use rand::RngCore;
use sha2::Digest;
use vstd::prelude::*;
use zeroize::Zeroize;

verus! {

/// Bytes that the authentication tag adds to a message.
pub const TAG_LEN: usize = 16;

/// The longest message that XChaCha20-Poly1305 can encrypt: the block counter has
/// room for two blocks fewer than 2^32, of 64 bytes each.
pub const MAX_MESSAGE: u64 = 274_877_906_816;

/// The SHA-256 digest of some bytes.
pub uninterp spec fn sha256(bytes: Seq<u8>) -> Seq<u8>;

/// `sha2::Sha256::digest`: the 32 bytes of the digest.
#[verifier::external_body]
pub(crate) fn sha256_digest(bytes: &[u8]) -> (digest: [u8; 32])
    ensures
        digest@ == sha256(bytes@),
{
    sha2::Sha256::digest(bytes).into()
}

/// The X25519 public key that belongs to a secret key.
pub uninterp spec fn x25519_public(secret: Seq<u8>) -> Seq<u8>;

/// `x25519_dalek::PublicKey::from` a `StaticSecret` that holds these bytes.
#[verifier::external_body]
pub(crate) fn x25519_public_key(secret: &[u8; 32]) -> (public: [u8; 32])
    ensures
        public@ == x25519_public(secret@),
{
    x25519_dalek::PublicKey::from(&x25519_dalek::StaticSecret::from(*secret)).to_bytes()
}

/// The X25519 secret that the holder of `secret` shares with the holder of `public`.
pub uninterp spec fn x25519_shared(secret: Seq<u8>, public: Seq<u8>) -> Seq<u8>;

/// `x25519_dalek::StaticSecret::diffie_hellman`: the shared secret. Both ends get the
/// same one: whoever holds a secret key behind `public` and meets the public key of
/// `secret` computes it too.
#[verifier::external_body]
pub(crate) fn x25519_agree(secret: &[u8; 32], public: &[u8; 32]) -> (shared: [u8; 32])
    ensures
        shared@ == x25519_shared(secret@, public@),
        forall|other: Seq<u8>|
            other.len() == 32 && public@ == #[trigger] x25519_public(other) ==> shared@
                == x25519_shared(other, x25519_public(secret@)),
{
    let theirs = x25519_dalek::PublicKey::from(*public);
    x25519_dalek::StaticSecret::from(*secret).diffie_hellman(&theirs).to_bytes()
}

/// The XChaCha20-Poly1305 ciphertext of a message, with the tag at its end.
pub uninterp spec fn aead_encrypt(key: Seq<u8>, nonce: Seq<u8>, aad: Seq<u8>, msg: Seq<u8>) -> Seq<
    u8,
>;

/// What XChaCha20-Poly1305 decrypts a ciphertext to; nothing where the tag does not match.
pub uninterp spec fn aead_decrypt(
    key: Seq<u8>,
    nonce: Seq<u8>,
    aad: Seq<u8>,
    sealed: Seq<u8>,
) -> Option<Seq<u8>>;

/// `encrypt` of `chacha20poly1305::XChaCha20Poly1305`. Within the length limit it
/// succeeds, the ciphertext is as long as the message and the tag together, and
/// decrypting it under the same key, nonce and associated data gives the message back.
#[verifier::external_body]
fn xchacha_encrypt(key: &[u8; 32], nonce: &[u8; 24], aad: &[u8], msg: &[u8]) -> (sealed: Option<Vec<u8>>)
    requires
        msg@.len() <= MAX_MESSAGE,
    ensures
        sealed is Some,
        sealed->0@ == aead_encrypt(key@, nonce@, aad@, msg@),
        sealed->0@.len() == msg@.len() + TAG_LEN,
        aead_decrypt(key@, nonce@, aad@, sealed->0@) == Some(msg@),
{
    let cipher = chacha20poly1305::XChaCha20Poly1305::new(key.into());
    cipher.encrypt(nonce.into(), Payload { msg, aad }).ok()
}

/// `decrypt` of `chacha20poly1305::XChaCha20Poly1305`. What it gives is shorter than the
/// ciphertext by the tag.
#[verifier::external_body]
fn xchacha_decrypt(key: &[u8; 32], nonce: &[u8; 24], aad: &[u8], sealed: &[u8]) -> (msg: Option<Vec<u8>>)
    requires
        sealed@.len() <= MAX_MESSAGE + TAG_LEN,
    ensures
        match msg {
            Some(m) => aead_decrypt(key@, nonce@, aad@, sealed@) == Some(m@) && m@.len() + TAG_LEN
                == sealed@.len(),
            None => aead_decrypt(key@, nonce@, aad@, sealed@) is None,
        },
{
    let cipher = chacha20poly1305::XChaCha20Poly1305::new(key.into());
    cipher.decrypt(nonce.into(), Payload { msg: sealed, aad }).ok()
}

/// `rand::rngs::OsRng::fill_bytes` on 32 bytes. Nothing is known of what it draws.
#[verifier::external_body]
fn random_key() -> [u8; 32] {
    let mut bytes = [0u8; 32];
    rand::rngs::OsRng.fill_bytes(&mut bytes);
    bytes
}

/// `rand::rngs::OsRng::fill_bytes` on 24 bytes. Nothing is known of what it draws.
#[verifier::external_body]
fn random_nonce() -> [u8; 24] {
    let mut bytes = [0u8; 24];
    rand::rngs::OsRng.fill_bytes(&mut bytes);
    bytes
}

/// Whether a key was drawn at random.
pub closed spec fn drawn(key: Seq<u8>) -> bool {
    exists|bytes: [u8; 32]| #[trigger] call_ensures(random_key, (), bytes) && bytes@ == key
}

/// Whether a nonce was drawn at random.
pub closed spec fn drawn_nonce(nonce: Seq<u8>) -> bool {
    exists|bytes: [u8; 24]| #[trigger] call_ensures(random_nonce, (), bytes) && bytes@ == nonce
}

/// A key that is drawn at random.
pub(crate) fn draw_key() -> (key: [u8; 32])
    ensures
        drawn(key@),
{
    random_key()
}

/// A nonce that is drawn at random.
pub(crate) fn draw_nonce() -> (nonce: [u8; 24])
    ensures
        drawn_nonce(nonce@),
{
    random_nonce()
}

/// `zeroize::Zeroize::zeroize` on a key: every byte becomes zero.
#[verifier::external_body]
pub(crate) fn wipe(key: &mut [u8; 32])
    ensures
        final(key)@ == Seq::new(32, |i: int| 0u8),
{
    key.zeroize();
}

/// `zeroize::Zeroize::zeroize` on a vector: every byte becomes zero, and none is left in it.
#[verifier::external_body]
pub(crate) fn wipe_all(bytes: &mut Vec<u8>)
    ensures
        final(bytes)@ == Seq::<u8>::empty(),
{
    bytes.zeroize();
}

/// Encrypts `msg`, or gives nothing where it is longer than the cipher allows.
pub fn encrypt(key: &[u8; 32], nonce: &[u8; 24], aad: &[u8], msg: &[u8]) -> (sealed: Option<Vec<u8>>)
    ensures
        match sealed {
            Some(s) => {
                &&& msg@.len() <= MAX_MESSAGE
                &&& s@ == aead_encrypt(key@, nonce@, aad@, msg@)
                &&& s@.len() == msg@.len() + TAG_LEN
                &&& decrypted(key@, nonce@, aad@, s@) == Some(msg@)
            },
            None => msg@.len() > MAX_MESSAGE,
        },
{
    if msg.len() as u64 > MAX_MESSAGE {
        None
    } else {
        xchacha_encrypt(key, nonce, aad, msg)
    }
}

/// What a ciphertext decrypts to. One that is longer than the cipher can have produced
/// decrypts to nothing.
pub open spec fn decrypted(key: Seq<u8>, nonce: Seq<u8>, aad: Seq<u8>, sealed: Seq<u8>) -> Option<
    Seq<u8>,
> {
    if sealed.len() > MAX_MESSAGE + TAG_LEN {
        None
    } else {
        aead_decrypt(key, nonce, aad, sealed)
    }
}

/// Decrypts `sealed`, or gives nothing where it is not a ciphertext under this key,
/// nonce and associated data.
pub fn decrypt(key: &[u8; 32], nonce: &[u8; 24], aad: &[u8], sealed: &[u8]) -> (msg: Option<Vec<u8>>)
    ensures
        match msg {
            Some(m) => decrypted(key@, nonce@, aad@, sealed@) == Some(m@) && m@.len() + TAG_LEN
                == sealed@.len(),
            None => decrypted(key@, nonce@, aad@, sealed@) is None,
        },
{
    if sealed.len() as u64 > MAX_MESSAGE + TAG_LEN as u64 {
        None
    } else {
        xchacha_decrypt(key, nonce, aad, sealed)
    }
}

/// The character that stands for six bits in standard base64 notation.
pub open spec fn base64_char(bits: int) -> char {
    if bits < 26 {
        (65 + bits) as char
    } else if bits < 52 {
        (97 + bits - 26) as char
    } else if bits < 62 {
        (48 + bits - 52) as char
    } else if bits == 62 {
        '+'
    } else {
        '/'
    }
}

/// The standard base64 notation, with padding, of some bytes: four characters for every three
/// bytes, six bits each.
pub open spec fn base64_text(bytes: Seq<u8>) -> Seq<char>
    decreases bytes.len(),
{
    if bytes.len() == 0 {
        Seq::empty()
    } else if bytes.len() == 1 {
        let a = bytes[0] as int;
        seq![base64_char(a / 4), base64_char(a % 4 * 16), '=', '=']
    } else if bytes.len() == 2 {
        let a = bytes[0] as int;
        let b = bytes[1] as int;
        seq![base64_char(a / 4), base64_char(a % 4 * 16 + b / 16), base64_char(b % 16 * 4), '=']
    } else {
        let a = bytes[0] as int;
        let b = bytes[1] as int;
        let c = bytes[2] as int;
        seq![
            base64_char(a / 4),
            base64_char(a % 4 * 16 + b / 16),
            base64_char(b % 16 * 4 + c / 64),
            base64_char(c % 64),
        ] + base64_text(bytes.skip(3))
    }
}

/// There is no white space in base64 notation.
pub proof fn base64_has_no_space(bytes: Seq<u8>, i: int)
    requires
        0 <= i < base64_text(bytes).len(),
    ensures
        !crate::text::is_space(base64_text(bytes)[i]),
    decreases bytes.len(),
{
    if bytes.len() > 2 && i >= 4 {
        base64_has_no_space(bytes.skip(3), i - 4);
    }
}

/// The bytes that a text in standard base64 notation stands for; nothing where it is not
/// in that notation.
pub uninterp spec fn base64_bytes(text: Seq<char>) -> Option<Seq<u8>>;

/// `encode` of `base64::engine::general_purpose::STANDARD`: the standard notation. Decoding it
/// restores the bytes.
#[verifier::external_body]
pub(crate) fn base64_encode(bytes: &[u8]) -> (text: String)
    requires
        bytes@.len() / 3 * 4 + 4 <= usize::MAX,
    ensures
        text@ == base64_text(bytes@),
        base64_bytes(text@) == Some(bytes@),
{
    base64::Engine::encode(&base64::engine::general_purpose::STANDARD, bytes)
}

/// What `base64::DecodeError` says of a text that is not in standard base64 notation.
pub uninterp spec fn base64_error(text: Seq<char>) -> Seq<char>;

/// `decode` of `base64::engine::general_purpose::STANDARD`: the bytes, or the message of the
/// error.
#[verifier::external_body]
pub(crate) fn base64_decode(text: &str) -> (bytes: Result<Vec<u8>, String>)
    ensures
        match bytes {
            Ok(b) => base64_bytes(text@) == Some(b@),
            Err(e) => base64_bytes(text@) is None && e@ == base64_error(text@),
        },
{
    base64::Engine::decode(&base64::engine::general_purpose::STANDARD, text).map_err(
        |e| e.to_string(),
    )
}

} // verus!
