//! How notifications are laid out in the store: which row is written for a notification,
//! and which notification a row is read as.

use crate::encryption;
use crate::encryption::{EncMode, EncryptionError, FieldTag, PublicKey, SkBytes};
use crate::json;
use crate::notification;
use crate::notification::{
    Action, ClosedReason, Notification, NotificationStatus, NotificationView, Urgency,
};
use crate::text;
use crate::time;
use crate::time::Timestamp;
use vstd::prelude::*;

verus! {

/// What is shown in place of content that cannot be read.
pub const PLACEHOLDER_ENCRYPTED: &'static str = "[encrypted]";

/// What a failed operation on the store reports.
#[derive(Debug)]
pub enum DbError {
    /// The database failed.
    Rusqlite(String),
    /// A file could not be read or made.
    Io(String),
    /// Content could not be sealed.
    Encryption(String),
}

impl DbError {
    /// What the error says to a reader.
    pub open spec fn spec_message(self) -> Seq<char> {
        match self {
            DbError::Rusqlite(e) => "Database error: "@ + e@,
            DbError::Io(e) => "IO error: "@ + e@,
            DbError::Encryption(e) => "Encryption error: "@ + e@,
        }
    }

    /// What the error says to a reader.
    pub fn message(&self) -> (message: String)
        ensures
            message@ == self.spec_message(),
    {
        let mut out = String::new();
        match self {
            DbError::Rusqlite(e) => {
                out.append("Database error: ");
                out.append(e.as_str());
            },
            DbError::Io(e) => {
                out.append("IO error: ");
                out.append(e.as_str());
            },
            DbError::Encryption(e) => {
                out.append("Encryption error: ");
                out.append(e.as_str());
            },
        }
        assert(out@ =~= self.spec_message());
        out
    }
}

/// A row that is to be written: every column but the row's number and the reason of closing,
/// which a new row lacks.
pub struct NewRow {
    pub dbus_id: u32,
    pub app_name: String,
    pub app_icon: String,
    pub summary: String,
    pub body: String,
    pub urgency: u32,
    pub category: String,
    pub desktop_entry: String,
    pub actions: Vec<Action>,
    pub hints: String,
    pub status: String,
    pub expire_timeout: i32,
    pub created_at: String,
    pub updated_at: String,
    pub summary_enc: Option<Vec<u8>>,
    pub body_enc: Option<Vec<u8>>,
    pub hints_enc: Option<Vec<u8>>,
    pub enc_version: i64,
    pub key_id: Option<Vec<u8>>,
}

/// A row that was read.
pub struct StoredRow {
    pub id: i64,
    pub dbus_id: u32,
    pub app_name: String,
    pub app_icon: String,
    pub summary: String,
    pub body: String,
    pub urgency: u32,
    pub category: String,
    pub desktop_entry: String,
    pub actions: Vec<Action>,
    pub hints: String,
    pub status: String,
    pub expire_timeout: i32,
    pub created_at: String,
    pub updated_at: String,
    pub closed_reason: Option<u32>,
    pub summary_enc: Option<Vec<u8>>,
    pub body_enc: Option<Vec<u8>>,
    pub hints_enc: Option<Vec<u8>>,
    pub enc_version: i64,
    pub key_id: Option<Vec<u8>>,
}

/// The row that is read where `row` was written under the number `id`.
pub open spec fn stored(row: NewRow, id: i64) -> StoredRow {
    StoredRow {
        id,
        dbus_id: row.dbus_id,
        app_name: row.app_name,
        app_icon: row.app_icon,
        summary: row.summary,
        body: row.body,
        urgency: row.urgency,
        category: row.category,
        desktop_entry: row.desktop_entry,
        actions: row.actions,
        hints: row.hints,
        status: row.status,
        expire_timeout: row.expire_timeout,
        created_at: row.created_at,
        updated_at: row.updated_at,
        closed_reason: None,
        summary_enc: row.summary_enc,
        body_enc: row.body_enc,
        hints_enc: row.hints_enc,
        enc_version: row.enc_version,
        key_id: row.key_id,
    }
}

/// The bytes of a column that may be empty.
pub open spec fn blob(column: Option<Vec<u8>>) -> Option<Seq<u8>> {
    match column {
        Some(b) => Some(b@),
        None => None,
    }
}

// ---------- reading ----------

/// The text that is read from a sealed column: empty without one, the placeholder where it
/// does not open or holds no text.
pub open spec fn opened_text(sk: Seq<u8>, pk: Seq<u8>, tag: FieldTag, column: Option<Seq<u8>>) -> Seq<
    char,
> {
    match column {
        None => Seq::empty(),
        Some(b) => match encryption::opened_field(sk, pk, tag, b) {
            Ok(bytes) => if vstd::utf8::valid_utf8(bytes) {
                vstd::utf8::decode_utf8(bytes)
            } else {
                PLACEHOLDER_ENCRYPTED@
            },
            Err(_) => PLACEHOLDER_ENCRYPTED@,
        },
    }
}

/// The hints that are read from a JSON text: an empty object where it is not JSON.
pub open spec fn read_hints(hints: Seq<char>) -> Seq<char> {
    match json::compact(hints) {
        Some(t) => t,
        None => "{}"@,
    }
}

/// The hints that are read from a sealed column: an empty object where it is absent, does
/// not open or holds no JSON.
pub open spec fn opened_hints(sk: Seq<u8>, pk: Seq<u8>, column: Option<Seq<u8>>) -> Seq<char> {
    match column {
        None => "{}"@,
        Some(b) => match encryption::opened_field(sk, pk, FieldTag::Hints, b) {
            Ok(bytes) => if vstd::utf8::valid_utf8(bytes) {
                read_hints(vstd::utf8::decode_utf8(bytes))
            } else {
                "{}"@
            },
            Err(_) => "{}"@,
        },
    }
}

/// Whether the row is sealed under the key that the mode has the secret of, going by the
/// fingerprint.
pub open spec fn opens(row: StoredRow, mode: EncMode) -> bool {
    &&& row.enc_version == encryption::ENC_VERSION
    &&& mode matches EncMode::Unlocked { key_id, .. }
    &&& blob(row.key_id) == Some(key_id@)
}

/// Whether a sealed column is there and opens.
pub open spec fn column_opens(sk: Seq<u8>, pk: Seq<u8>, tag: FieldTag, column: Option<Seq<u8>>) -> bool {
    column is Some && encryption::opened_field(sk, pk, tag, column->0) is Ok
}

/// Whether something of a row is decrypted: it is sealed under the key at hand, and one of its
/// columns opens.
pub open spec fn decrypts(row: StoredRow, mode: EncMode) -> bool {
    &&& opens(row, mode)
    &&& ({
        let sk = mode->Unlocked_sk@;
        let pk = mode->Unlocked_pk.bytes@;
        ||| column_opens(sk, pk, FieldTag::Summary, blob(row.summary_enc))
        ||| column_opens(sk, pk, FieldTag::Body, blob(row.body_enc))
        ||| column_opens(sk, pk, FieldTag::Hints, blob(row.hints_enc))
    })
}

/// Summary, body and hints that a row is read with.
pub open spec fn row_content(row: StoredRow, mode: EncMode) -> (Seq<char>, Seq<char>, Seq<char>) {
    if row.enc_version == 0 {
        (row.summary@, row.body@, read_hints(row.hints@))
    } else if opens(row, mode) {
        let sk = mode->Unlocked_sk@;
        let pk = mode->Unlocked_pk.bytes@;
        (
            opened_text(sk, pk, FieldTag::Summary, blob(row.summary_enc)),
            opened_text(sk, pk, FieldTag::Body, blob(row.body_enc)),
            opened_hints(sk, pk, blob(row.hints_enc)),
        )
    } else {
        (PLACEHOLDER_ENCRYPTED@, PLACEHOLDER_ENCRYPTED@, "{}"@)
    }
}

/// The point in time of a column; `now` where it holds none.
pub open spec fn read_time(column: Seq<char>, now: (int, int)) -> (int, int) {
    match time::rfc3339_time(column) {
        Some(t) => t,
        None => now,
    }
}

/// The notification that a row is read as, at the time `now`.
pub open spec fn read_row(row: StoredRow, mode: EncMode, now: (int, int)) -> NotificationView {
    let content = row_content(row, mode);
    NotificationView {
        row_id: Some(row.id),
        dbus_id: row.dbus_id,
        app_name: row.app_name@,
        app_icon: row.app_icon@,
        summary: content.0,
        body: content.1,
        urgency: notification::urgency_of(row.urgency as int % 256),
        category: row.category@,
        desktop_entry: row.desktop_entry@,
        actions: notification::action_pairs(row.actions@),
        hints: content.2,
        status: match notification::status_named(row.status@) {
            Some(s) => s,
            None => NotificationStatus::Unread,
        },
        expire_timeout: row.expire_timeout,
        created_at: read_time(row.created_at@, now),
        updated_at: read_time(row.updated_at@, now),
        closed_reason: match row.closed_reason {
            Some(code) => notification::reason_of(code as int),
            None => None,
        },
    }
}

fn open_text(sk: &SkBytes, pk: &PublicKey, tag: FieldTag, column: &Option<Vec<u8>>) -> (out: (
    String,
    bool,
))
    ensures
        out.0@ == opened_text(sk@, pk.bytes@, tag, blob(*column)),
        out.1 == column_opens(sk@, pk.bytes@, tag, blob(*column)),
{
    match column {
        None => (String::new(), false),
        Some(b) => match encryption::open_field(sk, pk, tag, b.as_slice()) {
            Ok(bytes) => match text::text_from_utf8(bytes) {
                Some(t) => (t, true),
                None => (PLACEHOLDER_ENCRYPTED.to_owned(), true),
            },
            Err(_) => (PLACEHOLDER_ENCRYPTED.to_owned(), false),
        },
    }
}

fn hints_or_empty(hints: &str) -> (out: String)
    ensures
        out@ == read_hints(hints@),
{
    match json::compact_json(hints) {
        Some(t) => t,
        None => "{}".to_owned(),
    }
}

fn open_hints(sk: &SkBytes, pk: &PublicKey, column: &Option<Vec<u8>>) -> (out: (String, bool))
    ensures
        out.0@ == opened_hints(sk@, pk.bytes@, blob(*column)),
        out.1 == column_opens(sk@, pk.bytes@, FieldTag::Hints, blob(*column)),
{
    match column {
        None => ("{}".to_owned(), false),
        Some(b) => match encryption::open_field(sk, pk, FieldTag::Hints, b.as_slice()) {
            Ok(bytes) => match text::text_from_utf8(bytes) {
                Some(t) => (hints_or_empty(t.as_str()), true),
                None => ("{}".to_owned(), true),
            },
            Err(_) => ("{}".to_owned(), false),
        },
    }
}

fn same_id(stored: &Vec<u8>, key_id: &[u8; 4]) -> (same: bool)
    ensures
        same == (stored@ == key_id@),
{
    if stored.len() != 4 {
        return false;
    }
    let same = stored[0] == key_id[0] && stored[1] == key_id[1] && stored[2] == key_id[2]
        && stored[3] == key_id[3];
    if same {
        assert(stored@ =~= key_id@);
    }
    same
}

/// Summary, body and hints of a sealed row, and whether something of it was decrypted.
pub fn decrypt_fields(row: &StoredRow, mode: &EncMode) -> (out: (String, String, String, bool))
    requires
        row.enc_version == encryption::ENC_VERSION,
    ensures
        (out.0@, out.1@, out.2@) == row_content(*row, *mode),
        out.3 == decrypts(*row, *mode),
{
    if let EncMode::Unlocked { pk, key_id, sk } = mode {
        if let Some(id) = &row.key_id {
            if same_id(id, key_id) {
                let summary = open_text(sk, pk, FieldTag::Summary, &row.summary_enc);
                let body = open_text(sk, pk, FieldTag::Body, &row.body_enc);
                let hints = open_hints(sk, pk, &row.hints_enc);
                return (summary.0, body.0, hints.0, summary.1 || body.1 || hints.1);
            }
        }
    }
    (PLACEHOLDER_ENCRYPTED.to_owned(), PLACEHOLDER_ENCRYPTED.to_owned(), "{}".to_owned(), false)
}

fn copy_actions(actions: &Vec<Action>) -> (out: Vec<Action>)
    ensures
        notification::action_pairs(out@) == notification::action_pairs(actions@),
{
    let mut out: Vec<Action> = Vec::new();
    let mut i: usize = 0;
    while i < actions.len()
        invariant
            i <= actions@.len(),
            out@.len() == i,
            forall|j: int|
                0 <= j < i ==> (#[trigger] out@[j]).id@ == actions@[j].id@ && out@[j].label@
                    == actions@[j].label@,
        decreases actions.len() - i,
    {
        out.push(Action { id: actions[i].id.clone(), label: actions[i].label.clone() });
        i = i + 1;
    }
    assert(notification::action_pairs(out@) =~= notification::action_pairs(actions@));
    out
}

/// A row as a notification.
pub struct ReadRow {
    pub notification: Notification,
    /// Whether something of it was decrypted, which starts the idle timer anew.
    pub decrypted: bool,
}

/// The notification that a row is read as. `now` stands in for a time that the row does not
/// hold.
pub fn notification_from_row(row: &StoredRow, mode: &EncMode, now: Timestamp) -> (read: ReadRow)
    ensures
        read.notification@ == read_row(*row, *mode, notification::moment(now)),
        read.decrypted == decrypts(*row, *mode),
{
    let (summary, body, hints, decrypted) = if row.enc_version == 0 {
        (row.summary.clone(), row.body.clone(), hints_or_empty(row.hints.as_str()), false)
    } else if row.enc_version == encryption::ENC_VERSION {
        decrypt_fields(row, mode)
    } else {
        (PLACEHOLDER_ENCRYPTED.to_owned(), PLACEHOLDER_ENCRYPTED.to_owned(), "{}".to_owned(), false)
    };
    let status = match NotificationStatus::from_str(row.status.as_str()) {
        Some(s) => s,
        None => NotificationStatus::Unread,
    };
    let created_at = match Timestamp::parse_rfc3339(row.created_at.as_str()) {
        Some(t) => t,
        None => now,
    };
    let updated_at = match Timestamp::parse_rfc3339(row.updated_at.as_str()) {
        Some(t) => t,
        None => now,
    };
    let closed_reason = match row.closed_reason {
        Some(code) => ClosedReason::from_code(code),
        None => None,
    };
    let notification = Notification {
        row_id: Some(row.id),
        dbus_id: row.dbus_id,
        app_name: row.app_name.clone(),
        app_icon: row.app_icon.clone(),
        summary,
        body,
        urgency: Urgency::from_u8((row.urgency % 256) as u8),
        category: row.category.clone(),
        desktop_entry: row.desktop_entry.clone(),
        actions: copy_actions(&row.actions),
        hints,
        status,
        expire_timeout: row.expire_timeout,
        created_at,
        updated_at,
        closed_reason,
    };
    ReadRow { notification, decrypted }
}

// ---------- writing ----------

/// What is read back of a notification that was stored at `now` under the number `id`.
pub open spec fn read_back(notif: NotificationView, id: i64, now: (int, int)) -> NotificationView {
    NotificationView {
        row_id: Some(id),
        hints: read_hints(notif.hints),
        updated_at: now,
        closed_reason: None,
        ..notif
    }
}

/// Whether the times that a row keeps lie in years that their texts can express.
pub open spec fn storable_times(notif: NotificationView, now: (int, int)) -> bool {
    time::four_digit_year(notif.created_at.0) && time::four_digit_year(now.0)
}

/// The bytes of a text.
pub open spec fn utf8(text: Seq<char>) -> Seq<u8> {
    vstd::utf8::encode_utf8(text)
}

/// The columns of a row that do not depend on sealing.
pub open spec fn common_columns(row: NewRow, notif: NotificationView, now: (int, int)) -> bool {
    &&& row.dbus_id == notif.dbus_id
    &&& row.app_name@ == notif.app_name
    &&& row.app_icon@ == notif.app_icon
    &&& row.urgency == notif.urgency.spec_number()
    &&& row.category@ == notif.category
    &&& row.desktop_entry@ == notif.desktop_entry
    &&& notification::action_pairs(row.actions@) == notif.actions
    &&& row.status@ == notif.status.spec_name()
    &&& row.expire_timeout == notif.expire_timeout
    &&& row.created_at@ == time::rfc3339_text(notif.created_at.0, notif.created_at.1)
    &&& row.updated_at@ == time::rfc3339_text(now.0, now.1)
}

/// Whether a row holds the notification as it is.
pub open spec fn plain_row(row: NewRow, notif: NotificationView) -> bool {
    &&& row.enc_version == 0
    &&& row.summary@ == notif.summary
    &&& row.body@ == notif.body
    &&& row.hints@ == notif.hints
    &&& row.summary_enc is None
    &&& row.body_enc is None
    &&& row.hints_enc is None
    &&& row.key_id is None
}

/// Whether a row holds the notification's content sealed under `pk`, and none of it in the
/// columns of plain text.
pub open spec fn sealed_row(row: NewRow, notif: NotificationView, pk: Seq<u8>, key_id: Seq<u8>) -> bool {
    &&& row.enc_version == encryption::ENC_VERSION
    &&& row.summary@ == Seq::<char>::empty()
    &&& row.body@ == Seq::<char>::empty()
    &&& row.hints@ == Seq::<char>::empty()
    &&& row.key_id is Some && row.key_id->0@ == key_id
    &&& row.summary_enc is Some && encryption::is_seal_of(
        pk,
        FieldTag::Summary,
        utf8(notif.summary),
        row.summary_enc->0@,
    )
    &&& row.body_enc is Some && encryption::is_seal_of(
        pk,
        FieldTag::Body,
        utf8(notif.body),
        row.body_enc->0@,
    )
    &&& row.hints_enc is Some && encryption::is_seal_of(
        pk,
        FieldTag::Hints,
        utf8(notif.hints),
        row.hints_enc->0@,
    )
}

/// Whether the content is short enough to be sealed.
pub open spec fn sealable(notif: NotificationView) -> bool {
    &&& utf8(notif.summary).len() <= crate::crypto::MAX_MESSAGE
    &&& utf8(notif.body).len() <= crate::crypto::MAX_MESSAGE
    &&& utf8(notif.hints).len() <= crate::crypto::MAX_MESSAGE
}

/// Whether reading a written row in that mode gives the notification back, whatever its
/// number and the time of reading.
pub open spec fn restores(row: NewRow, mode: EncMode, notif: NotificationView, now: (int, int)) -> bool {
    forall|id: i64, later: (int, int)|
        #[trigger] read_row(stored(row, id), mode, later) == read_back(notif, id, now)
}

fn seal(pk: &PublicKey, tag: FieldTag, content: &str) -> (sealed: Result<Vec<u8>, DbError>)
    ensures
        match sealed {
            Ok(b) => utf8(content@).len() <= crate::crypto::MAX_MESSAGE && encryption::is_seal_of(
                pk.bytes@,
                tag,
                utf8(content@),
                b@,
            ) && encryption::seals(pk.bytes@, tag, utf8(content@), b@),
            Err(e) => utf8(content@).len() > crate::crypto::MAX_MESSAGE && e is Encryption
                && e->Encryption_0@ == EncryptionError::Encrypt.spec_message(),
        },
{
    match encryption::seal_field(pk, tag, content.as_bytes()) {
        Ok(b) => Ok(b),
        Err(e) => Err(DbError::Encryption(e.message())),
    }
}

proof fn sealed_row_restores(
    row: NewRow,
    notif: NotificationView,
    now: (int, int),
    pk: PublicKey,
    key_id: [u8; 4],
    sk: SkBytes,
)
    requires
        common_columns(row, notif, now),
        sealed_row(row, notif, pk.bytes@, key_id@),
        encryption::seals(pk.bytes@, FieldTag::Summary, utf8(notif.summary), row.summary_enc->0@),
        encryption::seals(pk.bytes@, FieldTag::Body, utf8(notif.body), row.body_enc->0@),
        encryption::seals(pk.bytes@, FieldTag::Hints, utf8(notif.hints), row.hints_enc->0@),
        pk.bytes@ == crate::crypto::x25519_public(sk@),
        time::rfc3339_time(row.created_at@) == Some(notif.created_at),
        time::rfc3339_time(row.updated_at@) == Some(now),
    ensures
        restores(row, EncMode::Unlocked { pk, key_id, sk }, notif, now),
{
    let mode = EncMode::Unlocked { pk, key_id, sk };
    assert forall|id: i64, later: (int, int)|
        #[trigger] read_row(stored(row, id), mode, later) == read_back(notif, id, now) by {
        notification::urgency_round_trip(notif.urgency);
        notification::status_round_trip(notif.status);
        vstd::utf8::encode_utf8_valid_utf8(notif.summary);
        vstd::utf8::encode_utf8_decode_utf8(notif.summary);
        vstd::utf8::encode_utf8_valid_utf8(notif.body);
        vstd::utf8::encode_utf8_decode_utf8(notif.body);
        vstd::utf8::encode_utf8_valid_utf8(notif.hints);
        vstd::utf8::encode_utf8_decode_utf8(notif.hints);
        assert(opens(stored(row, id), mode));
    }
}

proof fn plain_row_restores(row: NewRow, notif: NotificationView, now: (int, int), mode: EncMode)
    requires
        common_columns(row, notif, now),
        plain_row(row, notif),
        time::rfc3339_time(row.created_at@) == Some(notif.created_at),
        time::rfc3339_time(row.updated_at@) == Some(now),
    ensures
        restores(row, mode, notif, now),
{
    notification::urgency_round_trip(notif.urgency);
    notification::status_round_trip(notif.status);
}

/// The row that stores a notification at `now`. Without encryption the row holds the content
/// as it is; otherwise it holds it sealed, which takes the public key alone. What was written
/// is read back: a plain row in every mode, a sealed one with the secret key.
pub fn encode(notif: &Notification, mode: &EncMode, now: Timestamp) -> (row: Result<NewRow, DbError>)
    ensures
        match row {
            Ok(r) => {
                &&& common_columns(r, notif@, notification::moment(now))
                &&& mode.spec_pk() is None ==> plain_row(r, notif@)
                &&& mode.spec_pk() is Some ==> sealable(notif@) && sealed_row(
                    r,
                    notif@,
                    mode.spec_pk()->0.bytes@,
                    mode.spec_key_id()->0@,
                )
                &&& storable_times(notif@, notification::moment(now)) && mode.spec_pk() is None
                    ==> forall|reading: EncMode|
                    #[trigger] restores(r, reading, notif@, notification::moment(now))
                &&& storable_times(notif@, notification::moment(now)) && mode.spec_pk() is Some
                    ==> forall|sk: SkBytes|
                    mode.spec_pk()->0.bytes@ == #[trigger] crate::crypto::x25519_public(sk@)
                        ==> restores(
                        r,
                        EncMode::Unlocked {
                            pk: mode.spec_pk()->0,
                            key_id: mode.spec_key_id()->0,
                            sk,
                        },
                        notif@,
                        notification::moment(now),
                    )
            },
            Err(e) => {
                &&& mode.spec_pk() is Some && !sealable(notif@)
                &&& e is Encryption && e->Encryption_0@ == EncryptionError::Encrypt.spec_message()
            },
        },
{
    let created_at = notif.created_at.to_rfc3339();
    let updated_at = now.to_rfc3339();
    let mut row = NewRow {
        dbus_id: notif.dbus_id,
        app_name: notif.app_name.clone(),
        app_icon: notif.app_icon.clone(),
        summary: String::new(),
        body: String::new(),
        urgency: notif.urgency.as_u32(),
        category: notif.category.clone(),
        desktop_entry: notif.desktop_entry.clone(),
        actions: copy_actions(&notif.actions),
        hints: String::new(),
        status: notif.status.as_str().to_owned(),
        expire_timeout: notif.expire_timeout,
        created_at,
        updated_at,
        summary_enc: None,
        body_enc: None,
        hints_enc: None,
        enc_version: 0,
        key_id: None,
    };
    if let Some(pk) = mode.pk() {
        let summary_enc = match seal(pk, FieldTag::Summary, notif.summary.as_str()) {
            Ok(b) => b,
            Err(e) => {
                return Err(e);
            },
        };
        let body_enc = match seal(pk, FieldTag::Body, notif.body.as_str()) {
            Ok(b) => b,
            Err(e) => {
                return Err(e);
            },
        };
        let hints_enc = match seal(pk, FieldTag::Hints, notif.hints.as_str()) {
            Ok(b) => b,
            Err(e) => {
                return Err(e);
            },
        };
        let key_id: Vec<u8> = match mode.key_id() {
            Some(id) => text::bytes_of(id.as_slice()),
            None => Vec::new(),
        };
        row.summary_enc = Some(summary_enc);
        row.body_enc = Some(body_enc);
        row.hints_enc = Some(hints_enc);
        row.enc_version = encryption::ENC_VERSION;
        row.key_id = Some(key_id);
        proof {
            if storable_times(notif@, notification::moment(now)) {
                assert forall|sk: SkBytes|
                    mode.spec_pk()->0.bytes@ == #[trigger] crate::crypto::x25519_public(
                        sk@,
                    ) implies restores(
                    row,
                    EncMode::Unlocked {
                        pk: mode.spec_pk()->0,
                        key_id: mode.spec_key_id()->0,
                        sk,
                    },
                    notif@,
                    notification::moment(now),
                ) by {
                    sealed_row_restores(
                        row,
                        notif@,
                        notification::moment(now),
                        mode.spec_pk()->0,
                        mode.spec_key_id()->0,
                        sk,
                    );
                }
            }
        }
        Ok(row)
    } else {
        row.summary = notif.summary.clone();
        row.body = notif.body.clone();
        row.hints = notif.hints.clone();
        proof {
            if storable_times(notif@, notification::moment(now)) {
                assert forall|reading: EncMode| #[trigger]
                    restores(row, reading, notif@, notification::moment(now)) by {
                    plain_row_restores(row, notif@, notification::moment(now), reading);
                }
            }
        }
        Ok(row)
    }
}

// ---------- what a locked reader sees ----------

/// A sealed row reads as the placeholder, with no hints, unless the secret key is at hand
/// and the row's fingerprint is that of the key.
pub proof fn sealed_rows_read_as_placeholders(row: StoredRow, mode: EncMode, now: (int, int))
    requires
        row.enc_version != 0,
        !opens(row, mode),
    ensures
        read_row(row, mode, now).summary == PLACEHOLDER_ENCRYPTED@,
        read_row(row, mode, now).body == PLACEHOLDER_ENCRYPTED@,
        read_row(row, mode, now).hints == "{}"@,
{
}

/// A daemon that is locked, or does not encrypt, opens no sealed row.
pub proof fn locked_readers_open_nothing(row: StoredRow, mode: EncMode)
    requires
        !(mode is Unlocked),
    ensures
        !opens(row, mode),
{
}

/// A plain row reads the same in every mode.
pub proof fn plain_rows_read_alike(row: StoredRow, a: EncMode, b: EncMode, now: (int, int))
    requires
        row.enc_version == 0,
    ensures
        read_row(row, a, now) == read_row(row, b, now),
        read_row(row, a, now).summary == row.summary@,
        read_row(row, a, now).body == row.body@,
{
}

/// Only the content depends on the mode: whoever reads a row sees the same of everything
/// else.
pub proof fn modes_differ_in_content_only(row: StoredRow, a: EncMode, b: EncMode, now: (int, int))
    ensures
        read_row(row, a, now) == (NotificationView {
            summary: read_row(row, a, now).summary,
            body: read_row(row, a, now).body,
            hints: read_row(row, a, now).hints,
            ..read_row(row, b, now)
        }),
{
}

} // verus!
