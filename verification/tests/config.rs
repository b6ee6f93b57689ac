//! The configuration: its defaults, durations, and the file itself.

use olha::config::{
    parse_duration, Config, ConfigError, DndConfig, RetentionConfig, DEFAULT_CONFIG_TEMPLATE,
};
use olha::settings::{
    db_path_from_config, home_relative, is_writable, read_encryption_config,
    set_encryption_enabled_in_config, take_edit,
};

#[test]
fn test_parse_duration() {
    assert_eq!(parse_duration("30d"), Some(30 * 24 * 3600));
    assert_eq!(parse_duration("1h"), Some(3600));
    assert_eq!(parse_duration("30m"), Some(1800));
    assert_eq!(parse_duration("60s"), Some(60));
}

#[test]
fn dnd_does_not_allow_critical_by_default() {
    assert!(!DndConfig::default().allow_critical);
}

fn number(doc: &toml::Table, table: &str, key: &str, default: i64) -> i64 {
    doc.get(table)
        .and_then(|t| t.get(key))
        .and_then(|v| v.as_integer())
        .unwrap_or(default)
}

fn text(doc: &toml::Table, table: &str, key: &str, default: &str) -> String {
    doc.get(table)
        .and_then(|t| t.get(key))
        .and_then(|v| v.as_str())
        .unwrap_or(default)
        .to_string()
}

fn flag(doc: &toml::Table, table: &str, key: &str, default: bool) -> bool {
    doc.get(table).and_then(|t| t.get(key)).and_then(|v| v.as_bool()).unwrap_or(default)
}

#[test]
fn default_config_template_parses_to_defaults() {
    let parsed: toml::Table = DEFAULT_CONFIG_TEMPLATE
        .parse()
        .expect("bundled config template must be valid TOML");
    let defaults = Config::default();
    assert_eq!(text(&parsed, "retention", "max_age", "30d"), defaults.retention.max_age);
    assert_eq!(number(&parsed, "retention", "max_count", 10000), defaults.retention.max_count);
    assert_eq!(
        text(&parsed, "retention", "cleanup_interval", "1h"),
        defaults.retention.cleanup_interval
    );
    assert_eq!(
        number(&parsed, "notifications", "default_timeout", 10),
        defaults.notifications.default_timeout as i64
    );
    assert_eq!(
        number(&parsed, "notifications", "timeout_low", 5),
        defaults.notifications.timeout_low as i64
    );
    assert_eq!(
        number(&parsed, "notifications", "timeout_critical", 0),
        defaults.notifications.timeout_critical as i64
    );
    assert_eq!(flag(&parsed, "encryption", "enabled", false), defaults.encryption.enabled);
    assert_eq!(
        text(&parsed, "encryption", "pass_entry", "olha/db-key"),
        defaults.encryption.pass_entry
    );
    assert_eq!(
        number(&parsed, "encryption", "auto_lock_secs", 300),
        defaults.encryption.auto_lock_secs as i64
    );
    assert_eq!(flag(&parsed, "dnd", "allow_critical", false), defaults.dnd.allow_critical);
    assert!(parsed.get("rules").is_none());
    assert!(defaults.rules.is_empty());
}

#[test]
fn the_template_comments_every_setting_at_its_default() {
    let mut bare = String::new();
    for line in DEFAULT_CONFIG_TEMPLATE.lines() {
        let line = line.strip_prefix("# ").unwrap_or(line);
        if line.starts_with('[') || line.contains(" = ") {
            bare.push_str(line);
            bare.push('\n');
        }
    }
    let doc: toml::Table = bare.parse().expect("the settings are valid TOML");
    let d = Config::default();
    assert_eq!(text(&doc, "retention", "max_age", ""), d.retention.max_age);
    assert_eq!(number(&doc, "retention", "max_count", -1), d.retention.max_count);
    assert_eq!(text(&doc, "retention", "cleanup_interval", ""), d.retention.cleanup_interval);
    assert_eq!(number(&doc, "notifications", "default_timeout", -1),
        d.notifications.default_timeout as i64);
    assert_eq!(number(&doc, "notifications", "timeout_low", -1),
        d.notifications.timeout_low as i64);
    assert_eq!(number(&doc, "notifications", "timeout_critical", -1),
        d.notifications.timeout_critical as i64);
    assert_eq!(flag(&doc, "encryption", "enabled", true), d.encryption.enabled);
    assert_eq!(text(&doc, "encryption", "pass_entry", ""), d.encryption.pass_entry);
    assert_eq!(number(&doc, "encryption", "auto_lock_secs", -1),
        d.encryption.auto_lock_secs as i64);
    assert_eq!(flag(&doc, "dnd", "allow_critical", true), d.dnd.allow_critical);
}

#[test]
fn durations_that_are_none() {
    assert_eq!(parse_duration(""), None);
    assert_eq!(parse_duration("d"), None);
    assert_eq!(parse_duration("10"), None);
    assert_eq!(parse_duration("10w"), None);
    assert_eq!(parse_duration("-1d"), None);
    assert_eq!(parse_duration("1.5h"), None);
    assert_eq!(parse_duration("99999999999999999999s"), None);
    assert_eq!(parse_duration("18446744073709551615s"), Some(u64::MAX));
    assert_eq!(parse_duration("18446744073709551615m"), None);
    assert_eq!(parse_duration("213503982334601d"), Some(213503982334601 * 86_400));
    assert_eq!(parse_duration("213503982334602d"), None);
    assert_eq!(parse_duration("0s"), Some(0));
    assert_eq!(parse_duration(" 5m "), Some(300));
}

#[test]
fn retention_falls_back_to_its_defaults() {
    let mut r = RetentionConfig::default();
    assert_eq!(r.max_age_secs(), 30 * 24 * 3600);
    assert_eq!(r.cleanup_interval_secs(), 3600);
    r.max_age = "2h".to_string();
    r.cleanup_interval = "5m".to_string();
    assert_eq!(r.max_age_secs(), 7200);
    assert_eq!(r.cleanup_interval_secs(), 300);
    r.max_age = "long".to_string();
    r.cleanup_interval = "often".to_string();
    assert_eq!(r.max_age_secs(), 30 * 24 * 3600);
    assert_eq!(r.cleanup_interval_secs(), 3600);
}

#[test]
fn switching_encryption_on_is_read_back() {
    let doc = "# mine\n[general]\ndb_path = \"~/n.db\"\n\n[encryption]\nauto_lock_secs = 60\n";
    let edited = set_encryption_enabled_in_config(doc, true, "work/\"key\"").unwrap();
    assert_eq!(read_encryption_config(&edited), Ok((true, "work/\"key\"".to_string())));
    // The rest of the file stays.
    assert!(edited.contains("# mine"));
    assert!(edited.contains("auto_lock_secs = 60"));
    assert_eq!(db_path_from_config(&edited), Ok(Some("~/n.db".to_string())));
    let off = set_encryption_enabled_in_config(&edited, false, "k").unwrap();
    assert_eq!(read_encryption_config(&off), Ok((false, "k".to_string())));
}

#[test]
fn an_empty_configuration_has_defaults() {
    assert_eq!(read_encryption_config(""), Ok((false, "olha/db-key".to_string())));
    assert_eq!(db_path_from_config(""), Ok(None));
    let edited = set_encryption_enabled_in_config("", true, "e").unwrap();
    assert_eq!(read_encryption_config(&edited), Ok((true, "e".to_string())));
}

#[test]
fn a_broken_configuration_is_reported() {
    assert!(read_encryption_config("[encryption").is_err());
    assert!(db_path_from_config("= 1").is_err());
    assert!(set_encryption_enabled_in_config("[encryption", true, "e").is_err());
    assert_eq!(
        set_encryption_enabled_in_config("encryption = 3", true, "e"),
        Err("[encryption] is not a table".to_string())
    );
}

#[test]
fn an_edit_is_taken_as_it_is() {
    // The first key makes the whole read as a date; the edit is given out all the same.
    let date = "\"$__toml_private_datetime\" = \"1979-05-27\"\n";
    let edited = set_encryption_enabled_in_config(date, true, "e").unwrap();
    assert!(edited.starts_with(date));
    assert!(edited.contains("[encryption]\nenabled = true\npass_entry = \"e\"\n"));
    assert_eq!(take_edit(Ok(Some("text".to_string()))), Ok("text".to_string()));
    assert_eq!(take_edit(Ok(None)), Err("[encryption] is not a table".to_string()));
    assert_eq!(take_edit(Err("line 1".to_string())), Err("line 1".to_string()));
}

#[test]
fn what_was_set_reads_back_from_odd_documents() {
    let docs = [
        "a = 1 # no line feed at the end",
        "# a comment alone",
        "encryption.auto_lock_secs = 5\n",
        "[encryption.sub]\ny = 2\n",
        "[a]\nx = 1\n[encryption.sub]\ny = 2\n[a.z]\n",
        "[[encryption.list]]\nz = 1\n[b]\n[encryption.other]\n",
        "[encryption]\n\"enabled\" = 7\n[[rules]]\napp_name = '^Slack$\\d'\n",
        "[encryption]\nenabled.x = 1\r\n",
        "[encryption]\n[encryption.enabled]\nx = 1\n[[encryption.pass_entry]]\n",
        "encryption.enabled = {a = 1}\n[b]\nc = 1979-05-27\n",
    ];
    for doc in docs {
        for entry in ["e", "", "a\nb", "\n", "it's \"x\"\\", "'''\"\"\"", "\u{7f}\r\t"] {
            let edited = set_encryption_enabled_in_config(doc, true, entry).unwrap();
            assert_eq!(read_encryption_config(&edited), Ok((true, entry.to_string())), "{}", doc);
        }
    }
}

#[test]
fn an_entry_may_have_so_many_quotes_in_a_row() {
    for quote in ["'", "\""] {
        let most = quote.repeat(255) + "x" + &quote.repeat(255);
        assert!(is_writable(&most));
        let edited = set_encryption_enabled_in_config("", true, &most).unwrap();
        assert_eq!(read_encryption_config(&edited), Ok((true, most)));
        assert!(!is_writable(&("x".to_string() + &quote.repeat(256))));
    }
}

#[test]
fn a_path_below_home() {
    assert_eq!(home_relative("~/a/b").as_deref(), Some("a/b"));
    assert_eq!(home_relative("~a/b"), None);
    assert_eq!(home_relative("/a"), None);
    assert_eq!(home_relative("~"), None);
}

#[test]
fn configuration_errors_have_messages() {
    assert_eq!(ConfigError::Io("denied".to_string()).message(), "IO error: denied");
    assert_eq!(
        ConfigError::TomlParse("line 1".to_string()).message(),
        "TOML parse error: line 1"
    );
    assert_eq!(ConfigError::Invalid("x".to_string()).message(), "Invalid config: x");
}

#[test]
fn the_store_stands_where_the_configuration_says() {
    let mut c = Config::default();
    assert_eq!(c.db_path(Some("/home/me")), None);
    c.general.db_path = Some("~/data/n.db".to_string());
    assert_eq!(c.db_path(Some("/home/me")).as_deref(), Some("/home/me/data/n.db"));
    assert_eq!(c.db_path(None).as_deref(), Some("~/data/n.db"));
    c.general.db_path = Some("~".to_string());
    assert_eq!(c.db_path(Some("/home/me")).as_deref(), Some("/home/me"));
    c.general.db_path = Some("~other/n.db".to_string());
    assert_eq!(c.db_path(Some("/home/me")).as_deref(), Some("~other/n.db"));
    c.general.db_path = Some("/n.db".to_string());
    assert_eq!(c.db_path(Some("/home/me")).as_deref(), Some("/n.db"));
    c.general.db_path = Some("n\\x.db".to_string());
    assert_eq!(c.db_path(Some("/home/me")).as_deref(), Some("n\\x.db"));
}
