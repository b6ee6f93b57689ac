//! The tables of the store, and how older ones are brought up to date.

use crate::text;
use vstd::prelude::*;

verus! {

/// The version of the tables.
pub const SCHEMA_VERSION: i64 = 2;

/// Makes the tables where they are missing.
pub const CREATE_TABLES: &'static str =
    "
        CREATE TABLE IF NOT EXISTS notifications (
            id INTEGER PRIMARY KEY,
            dbus_id INTEGER NOT NULL,
            app_name TEXT NOT NULL DEFAULT '',
            app_icon TEXT NOT NULL DEFAULT '',
            summary TEXT NOT NULL DEFAULT '',
            body TEXT NOT NULL DEFAULT '',
            urgency INTEGER NOT NULL DEFAULT 1,
            category TEXT NOT NULL DEFAULT '',
            desktop_entry TEXT NOT NULL DEFAULT '',
            actions TEXT NOT NULL DEFAULT '[]',
            hints TEXT NOT NULL DEFAULT '{}',
            status TEXT NOT NULL DEFAULT 'unread',
            expire_timeout INTEGER NOT NULL DEFAULT -1,
            created_at TEXT NOT NULL,
            updated_at TEXT NOT NULL,
            closed_reason INTEGER
        );

        CREATE INDEX IF NOT EXISTS idx_notifications_status ON notifications(status);
        CREATE INDEX IF NOT EXISTS idx_notifications_app_name ON notifications(app_name);
        CREATE INDEX IF NOT EXISTS idx_notifications_urgency ON notifications(urgency);
        CREATE INDEX IF NOT EXISTS idx_notifications_created_at ON notifications(created_at);
        CREATE INDEX IF NOT EXISTS idx_notifications_category ON notifications(category);
        CREATE INDEX IF NOT EXISTS idx_notifications_dbus_id ON notifications(dbus_id);

        CREATE TABLE IF NOT EXISTS meta (
            key TEXT PRIMARY KEY,
            value TEXT NOT NULL
        );
        ";

/// Makes the table of settings where it is missing.
pub const CREATE_META: &'static str =
    "CREATE TABLE IF NOT EXISTS meta (key TEXT PRIMARY KEY, value TEXT NOT NULL);";

/// The columns that version 2 adds for sealed content.
pub open spec fn added_columns() -> Seq<Seq<char>> {
    seq![
        "ALTER TABLE notifications ADD COLUMN summary_enc BLOB"@,
        "ALTER TABLE notifications ADD COLUMN body_enc BLOB"@,
        "ALTER TABLE notifications ADD COLUMN hints_enc BLOB"@,
        "ALTER TABLE notifications ADD COLUMN enc_version INTEGER NOT NULL DEFAULT 0"@,
        "ALTER TABLE notifications ADD COLUMN key_id BLOB"@,
    ]
}

/// What brings tables up to date.
pub struct Migration {
    /// Statements that add columns, in order.
    pub columns: Vec<String>,
    /// The statement that notes the new version, where it changes.
    pub note_version: Option<String>,
}

/// The statement that notes the version of the tables.
pub open spec fn version_statement() -> Seq<char> {
    "PRAGMA user_version = "@ + text::signed_decimal(SCHEMA_VERSION as int)
}

/// What brings tables of a version up to date. Tables that are up to date stay as they are.
pub fn plan_migration(current_version: i64) -> (plan: Migration)
    ensures
        text::texts(plan.columns@) == if current_version < 2 {
            added_columns()
        } else {
            Seq::empty()
        },
        match plan.note_version {
            Some(s) => current_version != SCHEMA_VERSION && s@ == version_statement(),
            None => current_version == SCHEMA_VERSION,
        },
{
    let columns: Vec<String> = if current_version < 2 {
        vec![
            "ALTER TABLE notifications ADD COLUMN summary_enc BLOB".to_owned(),
            "ALTER TABLE notifications ADD COLUMN body_enc BLOB".to_owned(),
            "ALTER TABLE notifications ADD COLUMN hints_enc BLOB".to_owned(),
            "ALTER TABLE notifications ADD COLUMN enc_version INTEGER NOT NULL DEFAULT 0".to_owned(),
            "ALTER TABLE notifications ADD COLUMN key_id BLOB".to_owned(),
        ]
    } else {
        Vec::new()
    };
    assert(text::texts(columns@) =~= if current_version < 2 {
        added_columns()
    } else {
        Seq::empty()
    });
    let note_version = if current_version != SCHEMA_VERSION {
        let mut s = "PRAGMA user_version = ".to_owned();
        s.append(text::signed_text(SCHEMA_VERSION).as_str());
        Some(s)
    } else {
        None
    };
    Migration { columns, note_version }
}

/// Whether adding a column failed only because it was there.
pub fn is_duplicate_column(message: &str) -> (r: bool)
    ensures
        r == text::contains(message@, "duplicate column name"@),
{
    text::text_contains(message, "duplicate column name")
}

} // verus!
