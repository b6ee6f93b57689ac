//! What the store is asked to run, from call to call.

use crate::daemon::startup;
use crate::encryption::EncMode;
use crate::keys::{PlainRow, SealedRow};
use crate::laws::storing;
use crate::notification::NotificationStatus;
use crate::queries;
use crate::queries::{CountPlan, Counted, NotificationFilter, SqlView, Statement};
use crate::notification;
use crate::schema;
use crate::schema::Migration;
use crate::store::{NewRow, StoredRow};
use crate::text;
use crate::time;
use crate::time::Timestamp;
use vstd::prelude::*;

verus! {

/// The text of a point in time, as the columns of times hold it.
pub open spec fn written(t: Timestamp) -> Seq<char> {
    time::rfc3339_text(t.spec_secs(), t.spec_nanos())
}

// ---------- changing rows ----------

/// A row gets the status that it is given, and no other row does.
pub proof fn a_status_is_given_to_that_row(
    row_id: i64,
    status: NotificationStatus,
    now: Timestamp,
    s: Statement,
)
    requires
        call_ensures(queries::update_status, (row_id, status, &now), s),
    ensures
        s.sql@ == "UPDATE notifications SET status = ?, updated_at = ? WHERE id = ?"@,
        s.bound().len() == 3,
        s.bound()[0] == SqlView::Text(
            match status {
                NotificationStatus::Unread => "unread"@,
                NotificationStatus::Read => "read"@,
                NotificationStatus::Cleared => "cleared"@,
            },
        ),
        s.bound()[1] == SqlView::Text(written(now)),
        s.bound()[2] == SqlView::Int(row_id as int),
{
}

/// Rows get the status that they are given: there is a mark for each of them, each is named once in
/// its place, and without rows there is nothing to run.
pub proof fn a_status_is_given_to_those_rows(
    row_ids: Vec<i64>,
    status: NotificationStatus,
    now: Timestamp,
    out: Option<Statement>,
)
    requires
        call_ensures(queries::update_statuses, (&row_ids, status, &now), out),
    ensures
        out is None <==> row_ids@.len() == 0,
        out matches Some(s) ==> {
            &&& queries::marks(s.sql@) == s.bound().len()
            &&& s.bound().len() == row_ids@.len() + 2
            &&& s.bound()[0] == SqlView::Text(status.spec_name())
            &&& s.bound()[1] == SqlView::Text(written(now))
            &&& forall|i: int|
                0 <= i < row_ids@.len() ==> s.bound()[i + 2] == SqlView::Int(
                    (#[trigger] row_ids@[i]) as int,
                )
        },
{
    if let Some(s) = out {
        queries::marks_of_lists(row_ids@.len());
        assert forall|i: int| 0 <= i < row_ids@.len() implies s.bound()[i + 2] == SqlView::Int(
            (#[trigger] row_ids@[i]) as int,
        ) by {
            assert(s.bound()[i + 2] == queries::id_values(row_ids@)[i]);
        }
    }
}

/// The rows that are deleted are those that were named, each once in its place.
pub proof fn those_rows_are_deleted(row_ids: Vec<i64>, out: Option<Statement>)
    requires
        call_ensures(queries::delete_notifications, (&row_ids,), out),
    ensures
        out is None <==> row_ids@.len() == 0,
        out matches Some(s) ==> {
            &&& queries::marks(s.sql@) == s.bound().len()
            &&& s.bound().len() == row_ids@.len()
            &&& forall|i: int|
                0 <= i < row_ids@.len() ==> s.bound()[i] == SqlView::Int(
                    (#[trigger] row_ids@[i]) as int,
                )
        },
{
    if let Some(s) = out {
        queries::marks_of_lists(row_ids@.len());
        assert forall|i: int| 0 <= i < row_ids@.len() implies s.bound()[i] == SqlView::Int(
            (#[trigger] row_ids@[i]) as int,
        ) by {
            assert(s.bound()[i] == queries::id_values(row_ids@)[i]);
        }
    }
}

/// Clearing everything turns what is unread or read into cleared; reading everything turns what is
/// unread into read, and leaves what is cleared alone.
pub proof fn changes_to_all_rows(now: Timestamp, cleared: Statement, read: Statement)
    requires
        call_ensures(queries::clear_all, (&now,), cleared),
        call_ensures(queries::mark_read_all, (&now,), read),
    ensures
        cleared.sql@ == "UPDATE notifications SET status = ?, updated_at = ? WHERE status IN (?,?)"@,
        cleared.bound() == seq![
            SqlView::Text("cleared"@),
            SqlView::Text(written(now)),
            SqlView::Text("unread"@),
            SqlView::Text("read"@),
        ],
        read.sql@ == "UPDATE notifications SET status = ?, updated_at = ? WHERE status IN (?)"@,
        read.bound() == seq![
            SqlView::Text("read"@),
            SqlView::Text(written(now)),
            SqlView::Text("unread"@),
        ],
{
}

/// Numbers that came over the bus name the rows with the same bits, each in its place.
pub proof fn numbers_name_their_rows(ids: Vec<u64>, row_ids: Vec<i64>, i: int)
    requires
        call_ensures(queries::to_row_ids, (&ids,), row_ids),
        0 <= i < ids@.len(),
    ensures
        row_ids@.len() == ids@.len(),
        (row_ids@[i] - ids@[i]) % 0x1_0000_0000_0000_0000 == 0,
        ids@[i] <= i64::MAX ==> row_ids@[i] == ids@[i],
{
    storing::a_sign_keeps_the_bits(ids@[i]);
}

/// A row is looked up by its number, and the newest of a number on the bus by that one.
pub proof fn a_row_is_looked_up_by_its_number(
    row_id: i64,
    dbus_id: u32,
    by_row: Statement,
    by_bus: Statement,
)
    requires
        call_ensures(queries::get_notification, (row_id,), by_row),
        call_ensures(queries::get_notification_by_dbus_id, (dbus_id,), by_bus),
    ensures
        by_row.sql@ == queries::SELECT_COLUMNS@ + " WHERE id = ?1"@,
        by_row.bound() == seq![SqlView::Int(row_id as int)],
        by_bus.sql@ == queries::SELECT_COLUMNS@
            + " WHERE dbus_id = ?1 ORDER BY created_at DESC LIMIT 1"@,
        by_bus.bound() == seq![SqlView::Int(dbus_id as int)],
{
}

/// A setting of the store is found under the name that it was given under.
pub proof fn a_setting_is_found_under_its_name(key: &str, value: &str, set: Statement, get: Statement)
    requires
        call_ensures(queries::set_meta, (key, value), set),
        call_ensures(queries::get_meta, (key,), get),
    ensures
        set.bound().len() == 2,
        set.bound()[0] == SqlView::Text(key@),
        set.bound()[1] == SqlView::Text(value@),
        get.bound().len() == 1,
        get.bound()[0] == set.bound()[0],
{
}

// ---------- tidying ----------

/// What is older than the age goes, going by the moment that lies that many seconds back, and of the
/// rest all but the newest so many.
pub proof fn what_is_too_old_goes(
    now: Timestamp,
    max_age: u64,
    max_count: i64,
    plan: Option<(Statement, Statement)>,
)
    requires
        call_ensures(queries::cleanup_old, (&now, max_age, max_count), plan),
        now.spec_nanos() < 1_000_000_000,
        max_age <= i64::MAX,
    ensures
        plan is Some <==> time::valid_time(now.spec_secs() - max_age, now.spec_nanos()),
        plan matches Some(p) ==> {
            &&& p.0.sql@ == "DELETE FROM notifications WHERE created_at < ?"@
            &&& p.0.bound() == seq![
                SqlView::Text(time::rfc3339_text(now.spec_secs() - max_age, now.spec_nanos())),
            ]
            &&& p.1.bound() == seq![SqlView::Int(max_count as int)]
        },
{
}

// ---------- writing rows ----------

/// What is written of a plain row is the row, each value at the mark of its own column.
pub proof fn a_plain_row_is_written_whole(row: NewRow, actions: String, s: Statement)
    requires
        call_ensures(queries::insert_row, (row, actions), s),
        row.enc_version == 0,
    ensures
        s.sql@ == queries::INSERT_PLAIN@,
        s.bound().len() == 14,
        s.bound()[0] == SqlView::Int(row.dbus_id as int),
        s.bound()[1] == SqlView::Text(row.app_name@),
        s.bound()[2] == SqlView::Text(row.app_icon@),
        s.bound()[3] == SqlView::Text(row.summary@),
        s.bound()[4] == SqlView::Text(row.body@),
        s.bound()[5] == SqlView::Int(row.urgency as int),
        s.bound()[6] == SqlView::Text(row.category@),
        s.bound()[7] == SqlView::Text(row.desktop_entry@),
        s.bound()[8] == SqlView::Text(actions@),
        s.bound()[9] == SqlView::Text(row.hints@),
        s.bound()[10] == SqlView::Text(row.status@),
        s.bound()[11] == SqlView::Int(row.expire_timeout as int),
        s.bound()[12] == SqlView::Text(row.created_at@),
        s.bound()[13] == SqlView::Text(row.updated_at@),
{
}

/// What is written of a sealed row is what was sealed, each value at the mark of its own column, and
/// nothing of the columns of plain text.
pub proof fn a_sealed_row_is_written_sealed(row: NewRow, actions: String, s: Statement)
    requires
        call_ensures(queries::insert_row, (row, actions), s),
        row.enc_version != 0,
        row.summary_enc is Some,
        row.body_enc is Some,
        row.hints_enc is Some,
        row.key_id is Some,
    ensures
        s.sql@ == queries::INSERT_SEALED@,
        s.bound().len() == 16,
        s.bound()[0] == SqlView::Int(row.dbus_id as int),
        s.bound()[1] == SqlView::Text(row.app_name@),
        s.bound()[2] == SqlView::Text(row.app_icon@),
        s.bound()[3] == SqlView::Int(row.urgency as int),
        s.bound()[4] == SqlView::Text(row.category@),
        s.bound()[5] == SqlView::Text(row.desktop_entry@),
        s.bound()[6] == SqlView::Text(actions@),
        s.bound()[7] == SqlView::Text(row.status@),
        s.bound()[8] == SqlView::Int(row.expire_timeout as int),
        s.bound()[9] == SqlView::Text(row.created_at@),
        s.bound()[10] == SqlView::Text(row.updated_at@),
        s.bound()[11] == SqlView::Blob(row.summary_enc->0@),
        s.bound()[12] == SqlView::Blob(row.body_enc->0@),
        s.bound()[13] == SqlView::Blob(row.hints_enc->0@),
        s.bound()[14] == SqlView::Int(row.enc_version as int),
        s.bound()[15] == SqlView::Blob(row.key_id->0@),
{
}

/// A row that is given back as plain text gets its own content and loses all that was sealed.
pub proof fn a_row_is_given_back_whole(row: PlainRow, s: Statement)
    requires
        call_ensures(queries::write_plain, (row,), s),
    ensures
        s.sql@ == "UPDATE notifications SET summary = ?1, body = ?2, hints = ?3,
                summary_enc = NULL, body_enc = NULL, hints_enc = NULL,
                enc_version = 0, key_id = NULL WHERE id = ?4"@,
        s.bound() == seq![
            SqlView::Text(row.summary@),
            SqlView::Text(row.body@),
            SqlView::Text(row.hints@),
            SqlView::Int(row.id as int),
        ],
{
}

/// A row that was sealed anew gets its three columns and the fingerprint of the key.
pub proof fn a_row_is_sealed_anew_whole(row: SealedRow, key_id: [u8; 4], s: Statement)
    requires
        call_ensures(queries::write_resealed, (row, &key_id), s),
    ensures
        s.sql@
            == "UPDATE notifications SET summary_enc = ?1, body_enc = ?2, hints_enc = ?3, key_id = ?4 WHERE id = ?5"@,
        s.bound().len() == 5,
        row.summary matches Some(b) ==> s.bound()[0] == SqlView::Blob(b@),
        row.body matches Some(b) ==> s.bound()[1] == SqlView::Blob(b@),
        row.hints matches Some(b) ==> s.bound()[2] == SqlView::Blob(b@),
        row.summary is None ==> s.bound()[0] is Null,
        row.body is None ==> s.bound()[1] is Null,
        row.hints is None ==> s.bound()[2] is Null,
        s.bound()[3] == SqlView::Blob(key_id@),
        s.bound()[4] == SqlView::Int(row.id as int),
{
}

// ---------- asking ----------

/// A query asks for each condition of its filter with its value, has a value for each mark, and
/// gives the newest first.
pub proof fn a_query_asks_for_its_filter(f: NotificationFilter, mode: EncMode, s: Statement)
    requires
        call_ensures(queries::plan_query, (&f, &mode), s),
    ensures
        queries::marks(s.sql@) == s.bound().len(),
        ({
            let by_reader = mode is Unlocked && f.search is Some;
            let page = (if f.limit is Some && !by_reader {
                " LIMIT "@ + text::signed_decimal(f.limit->0 as int)
            } else {
                Seq::empty()
            }) + (if f.offset is Some && !by_reader {
                " OFFSET "@ + text::signed_decimal(f.offset->0 as int)
            } else {
                Seq::empty()
            });
            s.sql@ == queries::SELECT_COLUMNS@ + " WHERE 1=1"@ + queries::where_text(f, by_reader)
                + " ORDER BY created_at DESC"@ + page
        }),
{
    let by_reader = mode is Unlocked && f.search is Some;
    queries::query_binds_every_mark(f, by_reader);
    let page = (if f.limit is Some && !by_reader {
        " LIMIT "@ + text::signed_decimal(f.limit->0 as int)
    } else {
        Seq::<char>::empty()
    }) + (if f.offset is Some && !by_reader {
        " OFFSET "@ + text::signed_decimal(f.offset->0 as int)
    } else {
        Seq::<char>::empty()
    });
    assert(page =~= queries::page_text(f, by_reader));
}

/// A count is left to the store, unless sealed content has to be searched.
pub proof fn a_count_is_left_to_the_store(f: NotificationFilter, mode: EncMode, plan: CountPlan)
    requires
        call_ensures(queries::plan_count, (&f, &mode), plan),
    ensures
        plan is Search <==> mode is Unlocked && f.search is Some,
        plan matches CountPlan::Ask(s) ==> s.sql@
            == "SELECT COUNT(*) FROM notifications WHERE 1=1"@ + queries::where_text(f, false)
            && s.bound() == queries::where_values(f, false),
        plan matches CountPlan::Search(s) ==> s.bound() == queries::where_values(f, true),
{
}

/// A count by searching is the number of notifications that the same search would list.
pub proof fn a_count_is_the_number_of_hits(
    rows: Vec<StoredRow>,
    f: NotificationFilter,
    needle: &str,
    mode: EncMode,
    now: Timestamp,
    listed: queries::Answer,
    counted: Counted,
)
    requires
        mode is Unlocked,
        f.search is Some && f.search->0@ == needle@,
        f.limit is None,
        f.offset is None,
        call_ensures(queries::query_notifications, (&rows, &f, &mode, now), listed),
        call_ensures(queries::count_notifications, (&rows, needle, &mode, now), counted),
        listed.notifications@.len() <= i64::MAX,
    ensures
        counted.count == listed.notifications@.len(),
        counted.decrypted == listed.decrypted,
{
    assert(queries::views(listed.notifications@).len() == listed.notifications@.len());
    let moment = notification::moment(now);
    storing::a_page_is_filled(rows@, f, mode, moment);
}

// ---------- tables ----------

/// Tables of an older version get the columns for sealed content, and tables of this version nothing;
/// the version is noted exactly where it was another.
pub proof fn old_tables_get_what_they_lack(version: i64, plan: Migration)
    requires
        call_ensures(schema::plan_migration, (version,), plan),
    ensures
        version < 2 ==> plan.columns@.len() == 5,
        version >= 2 ==> plan.columns@.len() == 0,
        plan.note_version is None <==> version == 2,
{
    assert(text::texts(plan.columns@).len() == plan.columns@.len());
}

// ---------- plain and sealed rows ----------

/// What is counted, read or deleted as sealed is what is not plain, and the other way round.
pub proof fn plain_and_sealed_rows_are_told_apart(
    plain: Statement,
    sealed: Statement,
    gone: Statement,
    read: Statement,
    all: Statement,
)
    requires
        call_ensures(queries::count_plain, (), plain),
        call_ensures(queries::count_sealed, (), sealed),
        call_ensures(queries::delete_plain, (), gone),
        call_ensures(queries::select_sealed, (), read),
        call_ensures(queries::delete_all, (), all),
    ensures
        plain.sql@ == "SELECT COUNT(*) FROM notifications WHERE enc_version = 0"@,
        sealed.sql@ == "SELECT COUNT(*) FROM notifications WHERE enc_version > 0"@,
        gone.sql@ == "DELETE FROM notifications WHERE enc_version = 0"@,
        read.sql@
            == "SELECT id, summary_enc, body_enc, hints_enc FROM notifications WHERE enc_version > 0"@,
        all.sql@ == "DELETE FROM notifications"@,
        plain.bound().len() == 0,
        sealed.bound().len() == 0,
        gone.bound().len() == 0,
        read.bound().len() == 0,
        all.bound().len() == 0,
{
}

/// Rows of the named statuses get the other one: there is a mark for each of them, each is named once
/// in its place, and without any there is nothing to run.
pub proof fn a_status_is_given_to_those_of_others(
    from: Vec<NotificationStatus>,
    to: NotificationStatus,
    now: Timestamp,
    out: Option<Statement>,
    i: int,
)
    requires
        call_ensures(queries::update_all_status, (&from, to, &now), out),
        0 <= i < from@.len(),
    ensures
        out matches Some(s) && s.bound().len() == from@.len() + 2 && s.bound()[0] == SqlView::Text(
            to.spec_name(),
        ) && s.bound()[1] == SqlView::Text(written(now)) && s.bound()[i + 2] == SqlView::Text(
            from@[i].spec_name(),
        ),
{
    if let Some(s) = out {
        assert(s.bound()[i + 2] == queries::status_values(from@)[i]);
    }
}

// ---------- columns ----------

/// The columns are named in the order in which their values are bound and read.
pub proof fn columns_stand_in_their_order()
    ensures
        queries::SELECT_COLUMNS@ == "SELECT id, dbus_id, app_name, app_icon, summary, body, urgency, category,
        desktop_entry, actions, hints, status, expire_timeout, created_at, updated_at,
        closed_reason, summary_enc, body_enc, hints_enc, enc_version, key_id
        FROM notifications"@,
        queries::INSERT_PLAIN@ == "INSERT INTO notifications (
                dbus_id, app_name, app_icon, summary, body, urgency, category,
                desktop_entry, actions, hints, status, expire_timeout, created_at, updated_at
             ) VALUES (?1, ?2, ?3, ?4, ?5, ?6, ?7, ?8, ?9, ?10, ?11, ?12, ?13, ?14)"@,
        queries::INSERT_SEALED@ == "INSERT INTO notifications (
                dbus_id, app_name, app_icon, summary, body, urgency, category,
                desktop_entry, actions, hints, status, expire_timeout, created_at, updated_at,
                summary_enc, body_enc, hints_enc, enc_version, key_id
             ) VALUES (?1, ?2, ?3, '', '', ?4, ?5, ?6, ?7, '', ?8, ?9, ?10, ?11, ?12, ?13, ?14, ?15, ?16)"@,
{
}

/// The settings of the store have the names that they always had.
pub proof fn settings_keep_their_names()
    ensures
        startup::META_ENC_PUBLIC_KEY@ == "enc_public_key"@,
        startup::META_ENC_WRAPPED_SECRET@ == "enc_wrapped_secret"@,
        startup::META_ENC_KEY_ID@ == "enc_key_id"@,
        startup::META_ENC_DEK_KID@ == "enc_dek_kid"@,
        startup::META_DND@ == "dnd_enabled"@,
{
}

} // verus!
