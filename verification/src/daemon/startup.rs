//! What the daemon starts with.

use crate::config::EncryptionConfig;
use crate::crypto;
use crate::encryption;
use crate::encryption::{EncryptionState, PublicKey};
use crate::text;
use vstd::prelude::*;

verus! {

/// The setting of the store that holds the public key, in base64.
pub const META_ENC_PUBLIC_KEY: &'static str = "enc_public_key";

/// The setting of the store that holds the wrapped secret key, in base64.
pub const META_ENC_WRAPPED_SECRET: &'static str = "enc_wrapped_secret";

/// The setting of the store that holds the fingerprint of the public key.
pub const META_ENC_KEY_ID: &'static str = "enc_key_id";

/// The setting of the store that holds the fingerprint of the data encryption key.
pub const META_ENC_DEK_KID: &'static str = "enc_dek_kid";

/// The setting of the store that holds whether Do Not Disturb is on.
pub const META_DND: &'static str = "dnd_enabled";

/// Whether Do Not Disturb is on, by what the store holds.
pub fn dnd_from_meta(stored: Option<&str>) -> (on: bool)
    ensures
        on == (stored is Some && stored->0@ == "true"@),
{
    match stored {
        Some(t) => text::text_eq(t, "true"),
        None => false,
    }
}

/// What the store holds while Do Not Disturb is on or off.
pub fn dnd_to_meta(on: bool) -> (text: &'static str)
    ensures
        text@ == encryption::bool_text(on),
{
    encryption::bool_str(on)
}

/// What was stored of Do Not Disturb is what the next start reads.
pub proof fn dnd_survives_a_restart(on: bool)
    ensures
        (encryption::bool_text(on) == "true"@) == on,
{
    reveal_strlit("true");
    reveal_strlit("false");
    assert("true"@.len() == 4 && "false"@.len() == 5);
}

/// Why the daemon does not start, going by what the store holds of the public key; nothing
/// where it does.
pub open spec fn key_problem(stored: Option<Seq<char>>) -> Option<Seq<char>> {
    match stored {
        None => Some("missing encryption key material"@),
        Some(t) => match crypto::base64_bytes(text::trimmed(t)) {
            None => Some(
                "encryption.enabled=true but meta.enc_public_key is not valid base64: "@
                    + crypto::base64_error(text::trimmed(t)),
            ),
            Some(bytes) => if bytes.len() != 32 {
                Some(
                    "encryption.enabled=true but meta.enc_public_key is "@ + text::decimal(
                        bytes.len(),
                    ) + " bytes, expected "@ + text::decimal(32),
                )
            } else {
                None
            },
        },
    }
}

/// The keys that the daemon starts with. Without encryption there are none; with it the daemon
/// seals under the stored public key and is locked. Where that key is missing or broken it does
/// not start.
pub fn initial_encryption(config: &EncryptionConfig, stored: Option<&str>) -> (state: Result<
    EncryptionState,
    String,
>)
    ensures
        ({
            let text = match stored {
                Some(t) => Some(t@),
                None => None,
            };
            match state {
                Ok(s) => {
                    &&& s.wf()
                    &&& s.secret_key is None
                    &&& s.last_activity == 0
                    &&& !config.enabled ==> s.public_key is None && s.auto_lock_secs == 0
                    &&& config.enabled ==> {
                        &&& key_problem(text) is None
                        &&& s.public_key is Some
                        &&& Some(s.public_key->0.bytes@) == crypto::base64_bytes(
                            text::trimmed(text->0),
                        )
                        &&& s.auto_lock_secs == config.auto_lock_secs
                    }
                },
                Err(m) => config.enabled && key_problem(text) == Some(m@),
            }
        }),
{
    if !config.enabled {
        return Ok(EncryptionState::plaintext());
    }
    let stored_text = match stored {
        Some(t) => t,
        None => {
            return Err("missing encryption key material".to_owned());
        },
    };
    let trimmed = text::trim(stored_text);
    let bytes = match crypto::base64_decode(trimmed.as_str()) {
        Ok(b) => b,
        Err(e) => {
            let mut m =
                "encryption.enabled=true but meta.enc_public_key is not valid base64: ".to_owned();
            m.append(e.as_str());
            return Err(m);
        },
    };
    if bytes.len() != 32 {
        let mut m = "encryption.enabled=true but meta.enc_public_key is ".to_owned();
        m.append(text::decimal_text(bytes.len() as u64).as_str());
        m.append(" bytes, expected ");
        m.append(text::decimal_text(32).as_str());
        return Err(m);
    }
    let key = encryption::key_at(bytes.as_slice(), 0);
    assert(key@ =~= bytes@);
    Ok(EncryptionState::with_public_key(PublicKey { bytes: key }, config.auto_lock_secs))
}

/// How much is logged.
#[derive(Debug, Clone, Copy, PartialEq, Eq, Structural)]
pub enum LogLevel {
    Warn,
    Info,
    Debug,
}

/// How much is logged, by how often `-v` was given.
pub fn log_level(verbose: u8) -> (level: LogLevel)
    ensures
        level == if verbose == 1 {
            LogLevel::Warn
        } else if verbose == 0 || verbose == 2 {
            LogLevel::Info
        } else {
            LogLevel::Debug
        },
{
    match verbose {
        0 => LogLevel::Info,
        1 => LogLevel::Warn,
        2 => LogLevel::Info,
        _ => LogLevel::Debug,
    }
}

} // verus!
