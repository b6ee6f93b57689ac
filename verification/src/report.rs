//! What the command line says while it manages encryption.

use crate::crypto;
use crate::encryption;
use crate::text;
use vstd::prelude::*;

verus! {

/// The entry that is looked at: the one that was named, or the configured one.
pub fn chosen_entry(named: &str, configured: &str) -> (entry: String)
    ensures
        entry@ == if named@.len() == 0 {
            configured@
        } else {
            named@
        },
{
    if named.is_empty() {
        configured.to_owned()
    } else {
        named.to_owned()
    }
}

/// What is said once keys were made.
pub open spec fn initialized(key_id: Seq<char>, entry: Seq<char>, db_path: Seq<char>) -> Seq<char> {
    "Initialized encryption (key_id="@ + key_id + ").\n"@ + "Wrote pass entry '"@ + entry
        + "' and meta keys to "@ + db_path + ".\n\nNext steps:\n"@
        + "  1. Back up ~/.password-store/"@ + entry + ".gpg alongside your DB.\n"@
        + "  2. Run `olha encryption enable` to flip the config flag.\n"@
        + "  3. Start olhad, then `olha unlock` to read history.\n"@
}

/// What is said once keys were made.
pub fn init_report(key_id: &str, entry: &str, db_path: &str) -> (report: String)
    ensures
        report@ == initialized(key_id@, entry@, db_path@),
{
    let mut out = "Initialized encryption (key_id=".to_owned();
    out.append(key_id);
    out.append(").\n");
    out.append("Wrote pass entry '");
    out.append(entry);
    out.append("' and meta keys to ");
    out.append(db_path);
    out.append(".\n\nNext steps:\n");
    out.append("  1. Back up ~/.password-store/");
    out.append(entry);
    out.append(".gpg alongside your DB.\n");
    out.append("  2. Run `olha encryption enable` to flip the config flag.\n");
    out.append("  3. Start olhad, then `olha unlock` to read history.\n");
    out
}

/// What is said once the plain rows are gone.
pub fn wiped_text(count: i64) -> (line: String)
    ensures
        line@ == "Wiped "@ + text::signed_decimal(count as int) + " plaintext rows."@,
{
    let mut out = "Wiped ".to_owned();
    out.append(text::signed_text(count).as_str());
    out.append(" plaintext rows.");
    out
}

/// What is said once encryption was switched on or off.
pub fn switched_text(enabled: bool, config_path: &str) -> (report: String)
    ensures
        report@ == (if enabled {
            "Encryption enabled in "@
        } else {
            "Encryption disabled in "@
        }) + config_path@ + "\nRestart olhad to pick up the change.\n"@,
{
    let mut out = if enabled {
        "Encryption enabled in ".to_owned()
    } else {
        "Encryption disabled in ".to_owned()
    };
    out.append(config_path);
    out.append("\nRestart olhad to pick up the change.\n");
    out
}

/// What is said before sealed rows are stored as plain text.
pub fn downgrade_notice(rows: i64, db_path: &str) -> (line: String)
    ensures
        line@ == "About to DECRYPT "@ + text::signed_decimal(rows as int)
            + " row(s) and store them as plaintext in "@ + db_path@ + "."@,
{
    let mut out = "About to DECRYPT ".to_owned();
    out.append(text::signed_text(rows).as_str());
    out.append(" row(s) and store them as plaintext in ");
    out.append(db_path);
    out.append(".");
    out
}

/// What is said once sealed rows were stored as plain text.
pub fn downgraded_text(rows: usize) -> (line: String)
    ensures
        line@ == "Downgraded "@ + text::decimal(rows as nat) + " row(s) to plaintext."@,
{
    let mut out = "Downgraded ".to_owned();
    out.append(text::decimal_text(rows as u64).as_str());
    out.append(" row(s) to plaintext.");
    out
}

/// What is said once the secret key was wrapped anew.
pub open spec fn rewrapped(old_entry: Seq<char>, new_entry: Seq<char>, dek_kid: Seq<char>) -> Seq<
    char,
> {
    (if old_entry == new_entry {
        Seq::empty()
    } else {
        "Pass entry updated in config: "@ + old_entry + " -> "@ + new_entry + "\n"@
    }) + "Re-wrapped secret under new DEK (dek_kid="@ + dek_kid + ").\n"@
}

/// What is said once the secret key was wrapped anew.
pub fn rewrap_report(old_entry: &str, new_entry: &str, dek_kid: &str) -> (report: String)
    ensures
        report@ == rewrapped(old_entry@, new_entry@, dek_kid@),
{
    let mut out = String::new();
    if !text::text_eq(old_entry, new_entry) {
        out.append("Pass entry updated in config: ");
        out.append(old_entry);
        out.append(" -> ");
        out.append(new_entry);
        out.append("\n");
        assert(out@ =~= "Pass entry updated in config: "@ + old_entry@ + " -> "@ + new_entry@
            + "\n"@);
    }
    out.append("Re-wrapped secret under new DEK (dek_kid=");
    out.append(dek_kid);
    out.append(").\n");
    out
}

/// What is said before the keys are replaced.
pub fn rotate_notice(rows: i64) -> (line: String)
    ensures
        line@ == "About to generate a new X25519 keypair and re-seal "@ + text::signed_decimal(
            rows as int,
        ) + " encrypted row(s). Daemon must be stopped."@,
{
    let mut out = "About to generate a new X25519 keypair and re-seal ".to_owned();
    out.append(text::signed_text(rows).as_str());
    out.append(" encrypted row(s). Daemon must be stopped.");
    out
}

/// What is said once the keys were replaced.
pub fn resealed_text(rows: usize, key_id: &str) -> (line: String)
    ensures
        line@ == "Re-sealed "@ + text::decimal(rows as nat) + " row(s) under new key_id="@ + key_id@
            + "."@,
{
    let mut out = "Re-sealed ".to_owned();
    out.append(text::decimal_text(rows as u64).as_str());
    out.append(" row(s) under new key_id=");
    out.append(key_id);
    out.append(".");
    out
}

// ---------- the daemon ----------

/// What was found out about the daemon.
pub enum DaemonState {
    Unlocked,
    Locked,
    NotRunning,
    Unknown(String),
}

/// Why a command that rewrites rows is refused: the daemon runs. Where it could not be found
/// out, the command goes on.
pub fn refuse_if_daemon_running(daemon: &DaemonState, action: &str) -> (r: Result<(), String>)
    ensures
        match r {
            Ok(_) => daemon is NotRunning || daemon is Unknown,
            Err(e) => (daemon is Unlocked || daemon is Locked) && e@
                == "olhad is running; stop it before `olha encryption "@ + action@
                + "` to avoid concurrent writes."@,
        },
{
    match daemon {
        DaemonState::NotRunning => Ok(()),
        DaemonState::Unknown(_) => Ok(()),
        _ => {
            let mut out = "olhad is running; stop it before `olha encryption ".to_owned();
            out.append(action);
            out.append("` to avoid concurrent writes.");
            Err(out)
        },
    }
}

// ---------- the report ----------

/// What was found out about the pass entry.
pub enum PassState {
    Empty,
    /// The key that it gives, by its number.
    Usable(String),
    Unavailable(String),
}

/// What the answer of the password store tells about the pass entry.
pub fn pass_state(answer: Result<&[u8], String>) -> (state: PassState)
    ensures
        match answer {
            Ok(ikm) => if ikm@.len() == 0 {
                state is Empty
            } else {
                state matches PassState::Usable(kid) && kid@ == text::hex(
                    encryption::key_id_of(crypto::sha256(ikm@)),
                )
            },
            Err(e) => state matches PassState::Unavailable(m) && m@ == e@,
        },
{
    match answer {
        Ok(ikm) => {
            if ikm.len() == 0 {
                return PassState::Empty;
            }
            let mut dek = encryption::derive_dek(ikm);
            let kid = encryption::compute_bytes_key_id(dek.as_slice());
            crypto::wipe(&mut dek);
            PassState::Usable(text::hex_text(kid.as_slice()))
        },
        Err(e) => PassState::Unavailable(e),
    }
}

/// What was found out about the store.
pub enum StoreState {
    Readable { key_id: Option<String>, plain: i64, encrypted: i64 },
    Unreadable(String),
}

/// What the report on encryption is made from.
pub struct EncryptionFacts {
    pub config_path: String,
    pub enabled: bool,
    pub entry: String,
    pub pass: PassState,
    pub db_path: String,
    pub store: StoreState,
    pub daemon: DaemonState,
}

/// The line on the pass entry.
pub open spec fn pass_line(pass: PassState) -> Seq<char> {
    match pass {
        PassState::Empty => "pass entry          : EXISTS but EMPTY (broken)\n"@,
        PassState::Usable(kid) => "pass entry          : OK (dek_kid = "@ + kid@ + ")\n"@,
        PassState::Unavailable(e) => "pass entry          : NOT AVAILABLE ("@ + e@ + ")\n"@,
    }
}

fn pass_text(pass: &PassState) -> (line: String)
    ensures
        line@ == pass_line(*pass),
{
    match pass {
        PassState::Empty => "pass entry          : EXISTS but EMPTY (broken)\n".to_owned(),
        PassState::Usable(kid) => {
            let mut out = "pass entry          : OK (dek_kid = ".to_owned();
            out.append(kid.as_str());
            out.append(")\n");
            out
        },
        PassState::Unavailable(e) => {
            let mut out = "pass entry          : NOT AVAILABLE (".to_owned();
            out.append(e.as_str());
            out.append(")\n");
            out
        },
    }
}

/// The line on the keys.
pub open spec fn keypair_line(key_id: Option<String>) -> Seq<char> {
    match key_id {
        Some(kid) => "keypair             : present (key_id = "@ + kid@ + ")\n"@,
        None => "keypair             : ABSENT — run `olha encryption init`\n"@,
    }
}

/// The lines on the store.
pub open spec fn store_lines(db_path: Seq<char>, store: StoreState) -> Seq<char> {
    match store {
        StoreState::Readable { key_id, plain, encrypted } => "db                  : "@ + db_path
            + "\n"@ + keypair_line(key_id) + "rows (plaintext)    : "@ + text::signed_decimal(
            plain as int,
        ) + "\nrows (encrypted)    : "@ + text::signed_decimal(encrypted as int) + "\n"@,
        StoreState::Unreadable(e) => "db                  : "@ + db_path + " (unreadable: "@ + e@
            + ")\n"@,
    }
}

fn keypair_text(key_id: &Option<String>) -> (line: String)
    ensures
        line@ == keypair_line(*key_id),
{
    match key_id {
        Some(kid) => {
            let mut out = "keypair             : present (key_id = ".to_owned();
            out.append(kid.as_str());
            out.append(")\n");
            out
        },
        None => "keypair             : ABSENT — run `olha encryption init`\n".to_owned(),
    }
}

fn store_text(db_path: &str, store: &StoreState) -> (lines: String)
    ensures
        lines@ == store_lines(db_path@, *store),
{
    let mut out = "db                  : ".to_owned();
    out.append(db_path);
    match store {
        StoreState::Readable { key_id, plain, encrypted } => {
            out.append("\n");
            out.append(keypair_text(key_id).as_str());
            out.append("rows (plaintext)    : ");
            out.append(text::signed_text(*plain).as_str());
            out.append("\nrows (encrypted)    : ");
            out.append(text::signed_text(*encrypted).as_str());
            out.append("\n");
        },
        StoreState::Unreadable(e) => {
            out.append(" (unreadable: ");
            out.append(e.as_str());
            out.append(")\n");
        },
    }
    out
}

/// The line on the daemon.
pub open spec fn daemon_line(daemon: DaemonState) -> Seq<char> {
    match daemon {
        DaemonState::Unlocked => "daemon              : running, unlocked\n"@,
        DaemonState::Locked => "daemon              : running, locked\n"@,
        DaemonState::NotRunning => "daemon              : not running\n"@,
        DaemonState::Unknown(e) => "daemon              : probe failed ("@ + e@ + ")\n"@,
    }
}

fn daemon_text(daemon: &DaemonState) -> (line: String)
    ensures
        line@ == daemon_line(*daemon),
{
    match daemon {
        DaemonState::Unlocked => "daemon              : running, unlocked\n".to_owned(),
        DaemonState::Locked => "daemon              : running, locked\n".to_owned(),
        DaemonState::NotRunning => "daemon              : not running\n".to_owned(),
        DaemonState::Unknown(e) => {
            let mut out = "daemon              : probe failed (".to_owned();
            out.append(e.as_str());
            out.append(")\n");
            out
        },
    }
}

/// The report on encryption.
pub open spec fn encryption_said(facts: EncryptionFacts) -> Seq<char> {
    "config file         : "@ + facts.config_path@ + "\nencryption.enabled  : "@ + (
    if facts.enabled {
        "true"@
    } else {
        "false"@
    }) + "\npass_entry          : "@ + facts.entry@ + "\n"@ + pass_line(facts.pass) + store_lines(
        facts.db_path@,
        facts.store,
    ) + daemon_line(facts.daemon)
}

/// The report on encryption.
pub fn encryption_report(facts: &EncryptionFacts) -> (report: String)
    ensures
        report@ == encryption_said(*facts),
{
    let mut out = "config file         : ".to_owned();
    out.append(facts.config_path.as_str());
    out.append("\nencryption.enabled  : ");
    if facts.enabled {
        out.append("true");
    } else {
        out.append("false");
    }
    out.append("\npass_entry          : ");
    out.append(facts.entry.as_str());
    out.append("\n");
    out.append(pass_text(&facts.pass).as_str());
    out.append(store_text(facts.db_path.as_str(), &facts.store).as_str());
    out.append(daemon_text(&facts.daemon).as_str());
    out
}

} // verus!
