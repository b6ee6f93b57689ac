//! The daemon's configuration.

use crate::text;
use vstd::prelude::*;

verus! {

/// What is wrong with a configuration.
#[derive(Debug)]
pub enum ConfigError {
    /// The file could not be read.
    Io(String),
    /// The file is not TOML, or not of this shape.
    TomlParse(String),
    /// A setting makes no sense.
    Invalid(String),
}

impl ConfigError {
    /// What the error says to a reader.
    pub open spec fn spec_message(self) -> Seq<char> {
        match self {
            ConfigError::Io(e) => "IO error: "@ + e@,
            ConfigError::TomlParse(e) => "TOML parse error: "@ + e@,
            ConfigError::Invalid(e) => "Invalid config: "@ + e@,
        }
    }

    /// What the error says to a reader.
    pub fn message(&self) -> (message: String)
        ensures
            message@ == self.spec_message(),
    {
        let mut out = String::new();
        match self {
            ConfigError::Io(e) => {
                out.append("IO error: ");
                out.append(e.as_str());
            },
            ConfigError::TomlParse(e) => {
                out.append("TOML parse error: ");
                out.append(e.as_str());
            },
            ConfigError::Invalid(e) => {
                out.append("Invalid config: ");
                out.append(e.as_str());
            },
        }
        assert(out@ =~= self.spec_message());
        out
    }
}

/// A rule on incoming notifications. Every condition that is given has to hold.
#[derive(Debug, Clone)]
pub struct NotificationRule {
    pub name: String,
    pub app_name: Option<String>,
    pub summary: Option<String>,
    pub body: Option<String>,
    pub urgency: Option<String>,
    pub category: Option<String>,
    /// `clear`, `ignore` or `none`.
    pub action: String,
    /// Shell commands by the action that runs them.
    pub on_action: Option<Vec<(String, String)>>,
}

/// The whole configuration.
#[derive(Debug, Clone)]
pub struct Config {
    pub general: GeneralConfig,
    pub retention: RetentionConfig,
    pub notifications: NotificationConfig,
    pub encryption: EncryptionConfig,
    pub dnd: DndConfig,
    pub rules: Vec<NotificationRule>,
}

#[derive(Debug, Clone)]
pub struct GeneralConfig {
    /// Where the store is; a leading `~` stands for the home directory.
    pub db_path: Option<String>,
}

/// How long notifications are kept.
#[derive(Debug, Clone)]
pub struct RetentionConfig {
    /// Such as `30d`.
    pub max_age: String,
    pub max_count: i64,
    /// Such as `1h`.
    pub cleanup_interval: String,
}

/// Lifetimes in seconds; 0 for never.
#[derive(Debug, Clone)]
pub struct NotificationConfig {
    pub default_timeout: i32,
    pub timeout_low: i32,
    pub timeout_critical: i32,
}

/// Whether and how content is sealed.
#[derive(Debug, Clone)]
pub struct EncryptionConfig {
    pub enabled: bool,
    /// The entry of the password store that the data encryption key comes from.
    pub pass_entry: String,
    /// Seconds without activity after which the daemon locks itself; 0 for never.
    pub auto_lock_secs: u64,
}

/// What Do Not Disturb lets through.
#[derive(Debug, Clone)]
pub struct DndConfig {
    /// Whether critical notifications are shown all the same.
    pub allow_critical: bool,
}

impl Default for GeneralConfig {
    fn default() -> (c: GeneralConfig)
        ensures
            c.db_path is None,
    {
        GeneralConfig { db_path: None }
    }
}

impl Default for RetentionConfig {
    fn default() -> (c: RetentionConfig)
        ensures
            c.max_age@ == "30d"@,
            c.max_count == 10000,
            c.cleanup_interval@ == "1h"@,
    {
        RetentionConfig {
            max_age: "30d".to_owned(),
            max_count: 10000,
            cleanup_interval: "1h".to_owned(),
        }
    }
}

impl Default for NotificationConfig {
    fn default() -> (c: NotificationConfig)
        ensures
            c.default_timeout == 10,
            c.timeout_low == 5,
            c.timeout_critical == 0,
    {
        NotificationConfig { default_timeout: 10, timeout_low: 5, timeout_critical: 0 }
    }
}

impl Default for EncryptionConfig {
    fn default() -> (c: EncryptionConfig)
        ensures
            !c.enabled,
            c.pass_entry@ == "olha/db-key"@,
            c.auto_lock_secs == 300,
    {
        EncryptionConfig {
            enabled: false,
            pass_entry: "olha/db-key".to_owned(),
            auto_lock_secs: 300,
        }
    }
}

impl Default for DndConfig {
    fn default() -> (c: DndConfig)
        ensures
            !c.allow_critical,
    {
        DndConfig { allow_critical: false }
    }
}

impl Default for Config {
    fn default() -> (c: Config)
        ensures
            c.general.db_path is None,
            c.retention.max_age@ == "30d"@,
            c.retention.max_count == 10000,
            c.retention.cleanup_interval@ == "1h"@,
            c.notifications.default_timeout == 10,
            c.notifications.timeout_low == 5,
            c.notifications.timeout_critical == 0,
            !c.encryption.enabled,
            c.encryption.pass_entry@ == "olha/db-key"@,
            c.encryption.auto_lock_secs == 300,
            !c.dnd.allow_critical,
            c.rules@.len() == 0,
    {
        Config {
            general: GeneralConfig::default(),
            retention: RetentionConfig::default(),
            notifications: NotificationConfig::default(),
            encryption: EncryptionConfig::default(),
            dnd: DndConfig::default(),
            rules: Vec::new(),
        }
    }
}

// ---------- durations ----------

/// Seconds that one of a duration's unit has; nothing for an unknown unit.
pub open spec fn unit_secs(unit: char) -> Option<int> {
    if unit == 'd' {
        Some(86_400)
    } else if unit == 'h' {
        Some(3_600)
    } else if unit == 'm' {
        Some(60)
    } else if unit == 's' {
        Some(1)
    } else {
        None
    }
}

/// Whether every character is a decimal digit.
pub open spec fn all_digits(text: Seq<char>) -> bool {
    forall|i: int| 0 <= i < text.len() ==> text::is_digit(#[trigger] text[i])
}

/// A number's text without the `+` that it may begin with.
pub open spec fn without_plus(text: Seq<char>) -> Seq<char> {
    if text.len() > 0 && text[0] == '+' {
        text.skip(1)
    } else {
        text
    }
}

/// Whether a text is a natural number that fits in a `u64`: digits, a `+` before them at will.
pub open spec fn is_natural(text: Seq<char>) -> bool {
    &&& without_plus(text).len() > 0
    &&& all_digits(without_plus(text))
    &&& text::digits_value(without_plus(text)) <= u64::MAX
}

/// The number that a text denotes.
pub open spec fn natural(text: Seq<char>) -> int {
    text::digits_value(without_plus(text))
}

/// The seconds of a duration such as `30d`: a number and the letter of a unit, with white
/// space around them; nothing where they exceed a `u64`.
pub open spec fn duration_secs(s: Seq<char>) -> Option<int> {
    let t = text::trimmed(s);
    if t.len() == 0 || !is_natural(t.drop_last()) {
        None
    } else {
        match unit_secs(t.last()) {
            Some(secs) => if natural(t.drop_last()) * secs <= u64::MAX {
                Some(natural(t.drop_last()) * secs)
            } else {
                None
            },
            None => None,
        }
    }
}

proof fn digits_value_grows(digits: Seq<char>, n: int)
    requires
        0 <= n <= digits.len(),
        all_digits(digits),
    ensures
        0 <= text::digits_value(digits.take(n)) <= text::digits_value(digits),
    decreases digits.len(),
{
    if n == digits.len() {
        assert(digits.take(n) =~= digits);
        if digits.len() > 0 {
            let rest = digits.drop_last();
            digits_value_grows(rest, rest.len() as int);
            assert(rest.take(rest.len() as int) =~= rest);
            assert(text::is_digit(digits[digits.len() - 1]));
        }
    } else {
        let rest = digits.drop_last();
        digits_value_grows(rest, n);
        assert(rest.take(n) =~= digits.take(n));
        assert(text::is_digit(digits[digits.len() - 1]));
    }
}

fn parse_digits(chars: &Vec<char>, from: usize, to: usize) -> (n: Option<u64>)
    requires
        from <= to <= chars@.len(),
    ensures
        match n {
            Some(v) => {
                let digits = chars@.subrange(from as int, to as int);
                &&& digits.len() > 0
                &&& all_digits(digits)
                &&& text::digits_value(digits) == v
            },
            None => {
                let digits = chars@.subrange(from as int, to as int);
                ||| digits.len() == 0
                ||| !all_digits(digits)
                ||| text::digits_value(digits) > u64::MAX
            },
        },
{
    let ghost digits = chars@.subrange(from as int, to as int);
    if from == to {
        return None;
    }
    let mut j: usize = from;
    while j < to
        invariant
            from <= j <= to <= chars@.len(),
            digits == chars@.subrange(from as int, to as int),
            forall|i: int| 0 <= i < j - from ==> text::is_digit(#[trigger] digits[i]),
        decreases to - j,
    {
        let c = chars[j];
        assert(digits[j - from] == c);
        if c < '0' || c > '9' {
            return None;
        }
        j = j + 1;
    }
    let mut n: u64 = 0;
    let mut i: usize = from;
    assert(digits.take(0) =~= Seq::<char>::empty());
    while i < to
        invariant
            from <= i <= to <= chars@.len(),
            digits == chars@.subrange(from as int, to as int),
            all_digits(digits),
            n == text::digits_value(digits.take(i - from)),
        decreases to - i,
    {
        let c = chars[i];
        assert(digits[i - from] == c);
        let d: u64 = (c as u32 - 48) as u64;
        proof {
            assert(digits.take(i - from + 1).drop_last() =~= digits.take(i - from));
            assert(digits.take(i - from + 1).last() == c);
            digits_value_grows(digits, i - from + 1);
        }
        if n > (u64::MAX - d) / 10 {
            return None;
        }
        n = n * 10 + d;
        i = i + 1;
    }
    assert(digits.take(digits.len() as int) =~= digits);
    Some(n)
}

fn parse_natural(chars: &Vec<char>, to: usize) -> (n: Option<u64>)
    requires
        to <= chars@.len(),
    ensures
        match n {
            Some(v) => is_natural(chars@.take(to as int)) && natural(chars@.take(to as int)) == v,
            None => !is_natural(chars@.take(to as int)),
        },
{
    let ghost whole = chars@.take(to as int);
    assert(to > 0 ==> whole[0] == chars@[0]);
    if to > 0 && chars[0] == '+' {
        assert(whole.skip(1) =~= chars@.subrange(1, to as int));
        parse_digits(chars, 1, to)
    } else {
        assert(whole =~= chars@.subrange(0, to as int));
        parse_digits(chars, 0, to)
    }
}

/// The seconds of a duration such as `30d`, `7d`, `1h` or `30m`.
pub fn parse_duration(s: &str) -> (secs: Option<u64>)
    ensures
        match secs {
            Some(v) => duration_secs(s@) == Some(v as int),
            None => duration_secs(s@) is None,
        },
{
    let trimmed = text::trim(s);
    let chars = text::chars_of(trimmed.as_str());
    if chars.len() == 0 {
        return None;
    }
    let last: usize = chars.len() - 1;
    assert(chars@.take(last as int) =~= chars@.drop_last());
    let num = match parse_natural(&chars, last) {
        Some(n) => n,
        None => {
            return None;
        },
    };
    let unit = chars[last];
    let secs: u64 = if unit == 'd' {
        86_400
    } else if unit == 'h' {
        3_600
    } else if unit == 'm' {
        60
    } else if unit == 's' {
        1
    } else {
        return None;
    };
    assert(unit_secs(unit) == Some(secs as int));
    num.checked_mul(secs)
}

impl RetentionConfig {
    /// The age in seconds after which notifications go; 30 days where it cannot be read.
    pub fn max_age_secs(&self) -> (secs: u64)
        ensures
            secs == match duration_secs(self.max_age@) {
                Some(v) => v,
                None => 2_592_000int,
            },
    {
        match parse_duration(self.max_age.as_str()) {
            Some(v) => v,
            None => 2_592_000,
        }
    }

    /// The seconds between two runs of the cleanup; an hour where they cannot be read.
    pub fn cleanup_interval_secs(&self) -> (secs: u64)
        ensures
            secs == match duration_secs(self.cleanup_interval@) {
                Some(v) => v,
                None => 3_600int,
            },
    {
        match parse_duration(self.cleanup_interval.as_str()) {
            Some(v) => v,
            None => 3_600,
        }
    }
}

// ---------- the place of the store ----------

/// Whether a path stands below the home directory: it is `~`, or begins with `~/`.
pub open spec fn below_home(path: Seq<char>) -> bool {
    path.len() > 0 && path[0] == '~' && (path.len() == 1 || path[1] == '/')
}

/// A path with `~` at its beginning replaced by the home directory, where it stands below it
/// and the directory is known.
pub open spec fn expanded(path: Seq<char>, home: Option<Seq<char>>) -> Seq<char> {
    if below_home(path) && home is Some {
        home->0 + path.skip(1)
    } else {
        path
    }
}

/// A path with `~` at its beginning replaced by the home directory, whatever follows it, where
/// the directory is known.
pub open spec fn replaced(path: Seq<char>, home: Option<Seq<char>>) -> Seq<char> {
    if home is Some {
        home->0 + path.skip(1)
    } else {
        path
    }
}

/// Whether `~` stands before a backslash, which some systems take for a slash.
pub open spec fn before_backslash(path: Seq<char>) -> bool {
    path.len() > 1 && path[0] == '~' && path[1] == '\\'
}

/// Whether that is a path with `~` expanded: before a backslash it is replaced on some systems and
/// left on others, elsewhere it is replaced alone and before a slash.
pub open spec fn expands_to(path: Seq<char>, home: Option<Seq<char>>, out: Seq<char>) -> bool {
    if before_backslash(path) {
        out == path || out == replaced(path, home)
    } else {
        out == expanded(path, home)
    }
}

/// `shellexpand::tilde_with_context`: `~` at the beginning of a path, alone or before a slash,
/// becomes the home directory; any other path stays as it is. Before a backslash it depends on
/// the system, so that both are left open.
#[verifier::external_body]
fn expand_tilde(path: &str, home: Option<&str>) -> (out: String)
    ensures
        expands_to(
            path@,
            match home {
                Some(h) => Some(h@),
                None => None,
            },
            out@,
        ),
{
    shellexpand::tilde_with_context(path, || home).into_owned()
}

impl Config {
    /// Where the store is, by this configuration and the home directory; nothing where the
    /// configuration leaves it to the system.
    pub fn db_path(&self, home: Option<&str>) -> (path: Option<String>)
        ensures
            path is Some <==> self.general.db_path is Some,
            path is Some ==> expands_to(
                self.general.db_path->0@,
                match home {
                    Some(h) => Some(h@),
                    None => None,
                },
                path->0@,
            ),
    {
        match &self.general.db_path {
            Some(p) => Some(expand_tilde(p.as_str(), home)),
            None => None,
        }
    }
}

/// The file that a first run writes: every setting, commented out at its default.
pub const DEFAULT_CONFIG_TEMPLATE: &'static str =
    "# olha configuration. Every setting below is commented out at its default.

[general]
# Where notifications are stored.
# db_path = \"~/.local/share/olha/notifications.db\"

[retention]
# How long notifications are kept, how many at most, and how often to tidy.
# max_age = \"30d\"
# max_count = 10000
# cleanup_interval = \"1h\"

[notifications]
# Lifetimes in seconds; 0 for never.
# default_timeout = 10
# timeout_low = 5
# timeout_critical = 0

[encryption]
# Seal summary, body and hints at rest. Run `olha encryption init` first.
# enabled = false
# pass_entry = \"olha/db-key\"
# auto_lock_secs = 300

[dnd]
# Whether critical notifications are shown while Do Not Disturb is on.
# allow_critical = false

[popup]
# position = \"top-right\"
# max_visible = 5
# margin = 12
# gap = 8
# width = 380
# height = 120
# max_height = 240
# hide_content_when_locked = false

# [[rules]]
# name = \"quiet-slack\"
# app_name = \"^Slack$\"
# action = \"clear\"

# [[popup.rules]]
# name = \"demote-teams\"
# app_name = \"^Microsoft Teams$\"
# override_urgency = \"normal\"
";

} // verus!
