//! The command line: its requests, and how answers look.

use olha::cli::{
    bulk_text, check_selection, completion_file, completion_instructions, count_request,
    count_text, dnd_enabled, dnd_target, dnd_text, is_service_unknown, list_request, status_text,
    subscribe_line, BulkAction, CompletionShell, CountFilter, DndAction, ListFilter,
};
use olha::daemon::control::{count_reply, dnd_reply, parse_filter};
use olha::json::{parse_json, render_json, Json};
use olha::notification::{NotificationStatus, Urgency};
use olha::output::{
    colorize_status, colorize_urgency, format_notification_detail, format_notification_table,
    format_timestamp, list_text, paint, show_text, stamp_text, table_rows, table_text, truncate, Look,
};
use olha::time::Timestamp;

#[test]
fn test_truncate_ascii() {
    assert_eq!(truncate("hello", 10), "hello");
    assert_eq!(truncate("hello world", 5), "hell…");
    assert_eq!(truncate("ab", 2), "ab");
    assert_eq!(truncate("abc", 2), "a…");
}

#[test]
fn test_truncate_multibyte() {
    // "héllo" is 5 chars but 6 bytes (é is 2 bytes in UTF-8).
    // Must not count bytes.
    assert_eq!(truncate("héllo", 5), "héllo");
    assert_eq!(truncate("héllo", 4), "hél…");
    // "éé" is 2 chars; truncating to 1 forces ellipsis.
    assert_eq!(truncate("éé", 1), "…");
    // CJK chars are 3 bytes each in UTF-8 but one char.
    assert_eq!(truncate("日本語", 3), "日本語");
    assert_eq!(truncate("日本語テスト", 4), "日本語…");
}

#[test]
fn test_table_empty() {
    let output = format_notification_table("[]");
    assert_eq!(output, "No notifications.\n");
}

#[test]
fn test_table_with_notifications() {
    let json = r#"[
        {
            "row_id": 1,
            "app_name": "Firefox",
            "summary": "Download complete",
            "status": "unread",
            "urgency": "normal",
            "created_at": "2024-01-15T10:30:45Z"
        }
    ]"#;
    let output = format_notification_table(json);
    assert!(output.contains("Firefox"));
    assert!(output.contains("Download complete"));
    assert!(output.contains("unread"));
    assert!(output.contains("1 notification(s)"));
    // Should use box-drawing chars from the preset.
    assert!(output.contains('─') || output.contains('│'));
}

#[test]
fn test_detail_not_found() {
    let output = format_notification_detail("null");
    assert_eq!(output, "Notification not found.\n");
}

#[test]
fn test_detail_with_notification() {
    let json = r#"{
        "row_id": 1,
        "dbus_id": 5,
        "app_name": "Firefox",
        "summary": "Download complete",
        "body": "document.pdf",
        "status": "unread",
        "urgency": "normal",
        "category": "transfer.complete",
        "actions": [{"id": "open", "label": "Open"}],
        "created_at": "2024-01-15T10:30:45Z",
        "updated_at": "2024-01-15T10:30:45Z"
    }"#;
    let output = format_notification_detail(json);
    assert!(output.contains("ID:"));
    assert!(output.contains("Firefox"));
    assert!(output.contains("Download complete"));
    assert!(output.contains("document.pdf"));
    assert!(output.contains("transfer.complete"));
    assert!(output.contains("open"));
    assert!(output.contains("Open"));
}

#[test]
fn test_detail_with_multiple_actions() {
    let json = r#"{
        "row_id": 1,
        "summary": "Test",
        "actions": [
            {"id": "reply", "label": "Reply"},
            {"id": "mark-read", "label": "Mark as Read"}
        ]
    }"#;
    let output = format_notification_detail(json);
    // Both actions should appear; new layout is one per line.
    assert!(output.contains("reply"));
    assert!(output.contains("Reply"));
    assert!(output.contains("mark-read"));
    assert!(output.contains("Mark as Read"));
    // Bulleted rendering.
    assert!(output.contains("•"));
}

#[test]
fn truncating_again_changes_nothing() {
    for max in 0..8 {
        let once = truncate("hello world", max);
        assert_eq!(truncate(&once, max), once);
        assert!(once.chars().count() <= max.max(1));
    }
}

#[test]
fn details_without_color() {
    let json = r#"{
        "row_id": 3,
        "dbus_id": 42,
        "app_name": "Firefox",
        "summary": "Download complete",
        "body": "",
        "status": "unread",
        "urgency": "critical",
        "actions": [{"id": "open", "label": "Open"}, {"id": "odd"}],
        "created_at": "2024-01-15T10:30:45Z",
        "closed_reason": "expired"
    }"#;
    assert_eq!(
        show_text(json, false),
        "ID:        3\n\
         App:       Firefox\n\
         Summary:   Download complete\n\
         Urgency:   critical\n\
         Status:    unread\n\
         Actions:  \n  \
         • open — Open\n\
         Created:   2024-01-15T10:30:45Z\n\
         D-Bus ID:  42\n\
         Closed:    expired\n"
    );
    assert_eq!(show_text("not json", true), "not json");
    assert_eq!(show_text("{}", false), "");
}

#[test]
fn colors_are_escape_codes() {
    assert_eq!(paint("x", Look::Bold, true), "\x1b[1mx\x1b[0m");
    assert_eq!(paint("x", Look::Dim, true), "\x1b[2mx\x1b[0m");
    assert_eq!(paint("x", Look::Bold, false), "x");
    assert_eq!(paint("x", Look::Plain, true), "x");
    assert_eq!(colorize_status("unread", true), "\x1b[1m\x1b[33munread\x1b[39m\x1b[0m");
    assert_eq!(colorize_status("read", true), "\x1b[2mread\x1b[0m");
    assert_eq!(colorize_status("cleared", true), "\x1b[2mcleared\x1b[0m");
    assert_eq!(colorize_status("odd", true), "odd");
    assert_eq!(colorize_urgency("critical", true), "\x1b[1m\x1b[31mcritical\x1b[39m\x1b[0m");
    assert_eq!(colorize_urgency("low", true), "\x1b[2mlow\x1b[0m");
    assert_eq!(colorize_urgency("normal", true), "normal");
    let shown = show_text("{\"summary\":\"s\"}", true);
    assert_eq!(shown, "\x1b[1mSummary:\x1b[0m   s\n");
}

fn at(secs: i64) -> Timestamp {
    Timestamp::new(secs, 0).unwrap()
}

#[test]
fn a_time_is_short_for_a_close_reader() {
    // 2024-01-15T10:30:45Z, a Monday.
    let t: i64 = 1_705_314_645;
    let day: i64 = 86_400;
    let stamp = |now: i64| stamp_text("iso", &at(t), Some(t), &at(now), Some(now));
    assert_eq!(stamp(t + 3600), "10:30");
    assert_eq!(stamp(t + day), "Mon 10:30");
    assert_eq!(stamp(t + 7 * day - 1), "Mon 10:30");
    assert_eq!(stamp(t + 7 * day), "Jan 15 10:30");
    // Less than a day ahead still counts as this week.
    assert_eq!(stamp(t - day + 1), "Mon 10:30");
    assert_eq!(stamp(t - day), "Jan 15 10:30");
    assert_eq!(stamp(t + 366 * day), "2024-01-15 10:30");
    assert_eq!(stamp_text("iso", &at(t), None, &at(t), Some(t)), "iso");
    // The wall clock decides, not the time in UTC.
    assert_eq!(stamp_text("iso", &at(t), Some(t + 7200), &at(t), Some(t + 7200)), "12:30");
}

#[test]
fn a_text_that_is_no_time_stays() {
    assert_eq!(format_timestamp("yesterday"), "yesterday");
    assert_ne!(format_timestamp("2001-02-03T04:05:06Z"), "2001-02-03T04:05:06Z");
    assert!(format_timestamp("2001-02-03T12:05:06Z").starts_with("2001-02-0"));
}

fn array(text: &str) -> Vec<Json> {
    match parse_json(text) {
        Some(Json::Array(items)) => items,
        _ => panic!("not an array"),
    }
}

#[test]
fn rows_of_the_table() {
    let notifs = array(r#"[{"row_id": 7, "status": "unread", "urgency": "low"}, {}]"#);
    let rows = table_rows(&notifs, &vec!["10:30".to_string(), String::new()]);
    let texts: Vec<Vec<&str>> =
        rows.iter().map(|r| r.iter().map(|c| c.text.as_str()).collect()).collect();
    assert_eq!(texts[0], vec!["7", "", "", "unread", "low", "10:30"]);
    assert_eq!(texts[1], vec!["-", "", "", "", "normal", ""]);
    assert_eq!(rows[0][0].look, Look::Right);
    assert_eq!(rows[0][3].look, Look::YellowBold);
    assert_eq!(rows[0][4].look, Look::Dim);
    assert_eq!(rows[1][4].look, Look::Plain);
}

#[test]
fn the_table_fits_its_width() {
    let notifs = array(r#"[{"row_id": 7, "app_name": "App", "summary": "one two three four five"}]"#);
    let created = vec!["10:30".to_string()];
    let wide = table_text(&notifs, &created, None, false);
    assert!(wide.contains("one two three four five"));
    assert!(wide.contains("│  7 ┆ App"));
    assert!(wide.ends_with("\n1 notification(s)\n"));
    assert!(!wide.contains('\x1b'));
    let narrow = table_text(&notifs, &created, Some(50), false);
    assert!(!narrow.contains("one two three four five"));
    assert!(narrow.lines().all(|l| l.chars().count() <= 50));
    let styled = table_text(&notifs, &created, None, true);
    assert!(styled.ends_with("\n1 notification(s)\n"));
}

#[test]
fn an_answer_that_is_no_array_is_shown_as_it_is() {
    assert_eq!(format_notification_table("oops"), "oops");
    assert_eq!(format_notification_table("{}"), "{}");
}

fn list_filter() -> ListFilter {
    ListFilter {
        app: Some("Fire\"fox".to_string()),
        urgency: Some("critical".to_string()),
        status: None,
        category: None,
        search: Some("x".to_string()),
        since: None,
        until: Some("2024-01-01T00:00:00Z".to_string()),
        limit: 3,
        json: false,
    }
}

#[test]
fn the_daemon_reads_what_was_asked_for() {
    let f = parse_filter(&list_request(&list_filter()));
    assert_eq!(f.app_name.as_deref(), Some("Fire\"fox"));
    assert_eq!(f.urgency, Some(Urgency::Critical));
    assert_eq!(f.status, None);
    assert_eq!(f.category, None);
    assert_eq!(f.search.as_deref(), Some("x"));
    assert_eq!(f.since, None);
    assert_eq!(f.until.as_deref(), Some("2024-01-01T00:00:00Z"));
    assert_eq!(f.limit, Some(3));
    let f = parse_filter(&count_request(&CountFilter {
        app: None,
        urgency: None,
        status: Some("read".to_string()),
        category: Some("im".to_string()),
        search: None,
        since: Some("s".to_string()),
        until: None,
        json: false,
    }));
    assert_eq!(f.app_name, None);
    assert_eq!(f.status, Some(NotificationStatus::Read));
    assert_eq!(f.category.as_deref(), Some("im"));
    assert_eq!(f.since.as_deref(), Some("s"));
    assert_eq!(f.limit, Some(50));
}

#[test]
fn counts_are_said() {
    assert_eq!(count_text(&count_reply(2, 7)), "Notifications: 2 unread, 7 total");
    assert_eq!(count_text("{}"), "Notifications: 0 unread, 0 total");
    assert_eq!(count_text("oops"), "oops");
}

#[test]
fn the_status_is_said_line_by_line() {
    let reply = r#"{"status":"running","version":"0.1.0","unread":1,"total":2,
        "db_path":"/n.db","rules_count":3,"dnd":{"enabled":true,"allow_critical":false}}"#;
    assert_eq!(
        status_text(reply),
        "olhad status:\n  Status: running\n  Version: 0.1.0\n  Unread: 1\n  Total: 2\n  \
         DB Path: /n.db\n  Rules: 3\n  DND: on\n"
    );
    assert_eq!(status_text("{\"unread\":\"x\"}"), "olhad status:\n");
    assert_eq!(status_text("oops"), "oops\n");
}

#[test]
fn a_notification_on_one_line() {
    assert_eq!(
        subscribe_line(
            r#"{"urgency":"normal","app_name":"Firefox","summary":"Done","body":"document.pdf"}"#
        ),
        "[normal] [Firefox] Done — document.pdf"
    );
    assert_eq!(
        subscribe_line(r#"{"urgency":"critical","app_name":"System","summary":"Battery low"}"#),
        "[critical] [System] Battery low"
    );
    assert_eq!(subscribe_line("{}"), "[normal] [] ");
    assert_eq!(subscribe_line("oops"), "oops");
}

#[test]
fn something_has_to_be_selected() {
    assert_eq!(check_selection(0, true), Ok(()));
    assert_eq!(check_selection(2, false), Ok(()));
    assert_eq!(
        check_selection(0, false),
        Err("Specify notification IDs or use --all".to_string())
    );
    assert_eq!(bulk_text(BulkAction::MarkRead, 2, false), "Marked 2 notification(s) as read");
    assert_eq!(bulk_text(BulkAction::MarkRead, 0, true), "Marked all notifications as read");
    assert_eq!(bulk_text(BulkAction::Clear, 1, false), "Cleared 1 notification(s)");
    assert_eq!(bulk_text(BulkAction::Clear, 0, true), "Cleared all notifications");
    assert_eq!(bulk_text(BulkAction::Delete, 10, false), "Deleted 10 notification(s)");
    assert_eq!(bulk_text(BulkAction::Delete, 0, true), "Deleted all notifications");
}

#[test]
fn do_not_disturb_from_the_command_line() {
    assert_eq!(dnd_target(DndAction::Status, true), None);
    assert_eq!(dnd_target(DndAction::On, false), Some(true));
    assert_eq!(dnd_target(DndAction::Off, true), Some(false));
    let once = dnd_target(DndAction::Toggle, true).unwrap();
    assert!(!once);
    assert_eq!(dnd_target(DndAction::Toggle, once), Some(true));
    assert!(dnd_enabled(&dnd_reply(true, false)));
    assert!(!dnd_enabled(&dnd_reply(false, true)));
    assert!(!dnd_enabled("oops"));
    assert_eq!(dnd_text(true), "DND: on");
    assert_eq!(dnd_text(false), "DND: off");
}

#[test]
fn a_missing_service_has_two_names() {
    assert!(is_service_unknown("org.freedesktop.DBus.Error.ServiceUnknown"));
    assert!(is_service_unknown("org.freedesktop.DBus.Error.NameHasNoOwner"));
    assert!(!is_service_unknown("org.freedesktop.DBus.Error.Failed"));
}

#[test]
fn completions_for_every_shell() {
    assert_eq!(completion_file(CompletionShell::Fish), "COMPLETE=fish olha | source\n");
    assert_eq!(
        completion_file(CompletionShell::Bash),
        "# olha completion\nsource <(COMPLETE=bash olha)\n"
    );
    assert_eq!(
        completion_file(CompletionShell::Zsh),
        "#compdef olha ola\n# olha completion\nsource <(COMPLETE=zsh olha)\n\
         zstyle ':completion:*:*:olha:*:*' sort false\ncompdef ola=olha\n"
    );
    assert!(completion_file(CompletionShell::PowerShell).contains("Invoke-Expression"));
    assert!(completion_file(CompletionShell::Elvish).contains("slurp"));
    assert_eq!(
        completion_instructions(CompletionShell::Bash),
        "Add the following line to ~/.bashrc AFTER any bash-completion setup:\n\n    \
         source <(COMPLETE=bash olha)\n\n\
         Then restart your shell or source the config file.\n"
    );
    assert!(completion_instructions(CompletionShell::Zsh).contains("    compinit\n    source"));
}

#[test]
fn json_goes_both_ways() {
    let v = parse_json(r#"{"b":true,"n":-3,"u":18446744073709551615,"f":1.5,"t":"é","z":null}"#)
        .unwrap();
    assert_eq!(v.get_bool("b"), Some(true));
    assert_eq!(v.get_i64("n"), Some(-3));
    assert_eq!(v.get_u64("n"), None);
    assert_eq!(v.get_u64("u"), Some(u64::MAX));
    assert_eq!(v.get_i64("u"), None);
    assert_eq!(v.get_i64("f"), None);
    assert_eq!(v.get_text("t"), Some("é"));
    assert_eq!(v.get_text("z"), None);
    let again: serde_json::Value = serde_json::from_str(&render_json(&v)).unwrap();
    assert_eq!(again["u"].as_u64(), Some(u64::MAX));
    assert_eq!(again["f"].as_f64(), Some(1.5));
    assert!(again["z"].is_null());
    assert!(parse_json("{").is_none());
}

#[test]
fn a_listing_fits_the_width_it_is_given() {
    let reply = r#"[{"row_id": 7, "app_name": "App", "summary": "one two three four five"}]"#;
    let wide = list_text(reply, None, false);
    assert!(wide.contains("one two three four five"));
    let narrow = list_text(reply, Some(50), false);
    assert!(narrow.lines().all(|l| l.chars().count() <= 50));
    assert!(narrow.ends_with("\n1 notification(s)\n"));
    assert_eq!(list_text("[]", Some(50), true), "No notifications.\n");
    assert_eq!(list_text("no JSON", Some(50), true), "no JSON");
}
