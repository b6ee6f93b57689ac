//! The statements that the store is asked to run, and what becomes of the rows it returns.

use crate::encryption::EncMode;
use crate::keys::{PlainRow, SealedRow};
use crate::notification;
use crate::notification::{Notification, NotificationStatus, NotificationView, Urgency};
use crate::store;
use crate::store::{NewRow, StoredRow};
use crate::text;
use crate::time;
use crate::time::Timestamp;
use vstd::prelude::*;

verus! {

/// A value bound to a statement.
#[derive(Debug, PartialEq, Eq)]
pub enum SqlValue {
    Null,
    Int(i64),
    Text(String),
    Blob(Vec<u8>),
}

/// What a bound value is.
pub enum SqlView {
    Null,
    Int(int),
    Text(Seq<char>),
    Blob(Seq<u8>),
}

impl View for SqlValue {
    type V = SqlView;

    open spec fn view(&self) -> SqlView {
        match *self {
            SqlValue::Null => SqlView::Null,
            SqlValue::Int(n) => SqlView::Int(n as int),
            SqlValue::Text(s) => SqlView::Text(s@),
            SqlValue::Blob(b) => SqlView::Blob(b@),
        }
    }
}

/// A statement and the values bound to it, in order.
#[derive(Debug, PartialEq, Eq)]
pub struct Statement {
    pub sql: String,
    pub params: Vec<SqlValue>,
}

/// What each bound value is.
pub open spec fn values(params: Seq<SqlValue>) -> Seq<SqlView> {
    params.map_values(|p: SqlValue| p@)
}

impl Statement {
    /// What the values are.
    pub open spec fn bound(self) -> Seq<SqlView> {
        values(self.params@)
    }
}

fn bind(params: &mut Vec<SqlValue>, value: SqlValue)
    ensures
        values(final(params)@) == values(old(params)@).push(value@),
{
    params.push(value);
    assert(values(params@) =~= values(old(params)@).push(value@));
}

/// Every column of a notification, in the order in which rows are read.
pub const SELECT_COLUMNS: &'static str =
    "SELECT id, dbus_id, app_name, app_icon, summary, body, urgency, category,
        desktop_entry, actions, hints, status, expire_timeout, created_at, updated_at,
        closed_reason, summary_enc, body_enc, hints_enc, enc_version, key_id
        FROM notifications";

/// Which notifications are asked for.
#[derive(Debug, Clone)]
pub struct NotificationFilter {
    pub app_name: Option<String>,
    pub urgency: Option<Urgency>,
    pub status: Option<NotificationStatus>,
    pub category: Option<String>,
    pub search: Option<String>,
    pub since: Option<String>,
    pub until: Option<String>,
    pub limit: Option<i64>,
    pub offset: Option<i64>,
}

impl Default for NotificationFilter {
    /// No condition, no limit.
    fn default() -> (f: NotificationFilter)
        ensures
            f.app_name is None,
            f.urgency is None,
            f.status is None,
            f.category is None,
            f.search is None,
            f.since is None,
            f.until is None,
            f.limit is None,
            f.offset is None,
    {
        NotificationFilter {
            app_name: None,
            urgency: None,
            status: None,
            category: None,
            search: None,
            since: None,
            until: None,
            limit: None,
            offset: None,
        }
    }
}

// ---------- conditions ----------

/// A piece of a statement that is there where the condition holds.
pub open spec fn piece(there: bool, sql: Seq<char>) -> Seq<char> {
    if there {
        sql
    } else {
        Seq::empty()
    }
}

/// A value bound where there is one.
pub open spec fn bound_value(value: Option<SqlView>) -> Seq<SqlView> {
    match value {
        Some(v) => seq![v],
        None => Seq::empty(),
    }
}

/// The text of an option, as a bound value.
pub open spec fn text_value(value: Option<String>) -> Option<SqlView> {
    match value {
        Some(s) => Some(SqlView::Text(s@)),
        None => None,
    }
}

/// A text as the column of times would hold it: that of the same moment in UTC, where the text is
/// a time; the text itself otherwise.
pub open spec fn moment_text(text: Seq<char>) -> Seq<char> {
    match time::rfc3339_time(text) {
        Some(t) => time::rfc3339_text(t.0, t.1),
        None => text,
    }
}

/// The moment of an option, as a bound value.
pub open spec fn moment_value(value: Option<String>) -> Option<SqlView> {
    match value {
        Some(s) => Some(SqlView::Text(moment_text(s@))),
        None => None,
    }
}

/// Two texts of the same moment ask for the same rows, whatever their offsets.
pub proof fn same_moment_is_bound_alike(a: Seq<char>, b: Seq<char>)
    ensures
        time::rfc3339_time(a) is Some && time::rfc3339_time(a) == time::rfc3339_time(b)
            ==> moment_text(a) == moment_text(b),
{
}

/// The pattern of a search: the text anywhere.
pub open spec fn like_pattern(search: Seq<char>) -> Seq<char> {
    "%"@ + search + "%"@
}

/// Whether the statement itself is to search.
pub open spec fn searches(f: NotificationFilter, skip_search: bool) -> bool {
    f.search is Some && !skip_search
}

/// The conditions of a filter, each after an `AND`.
pub open spec fn where_text(f: NotificationFilter, skip_search: bool) -> Seq<char> {
    piece(f.app_name is Some, " AND app_name = ?"@) + piece(
        f.urgency is Some,
        " AND urgency = ?"@,
    ) + piece(f.status is Some, " AND status = ?"@) + piece(
        f.category is Some,
        " AND category = ?"@,
    ) + piece(searches(f, skip_search), " AND (summary LIKE ? OR body LIKE ?)"@) + piece(
        f.since is Some,
        " AND created_at >= ?"@,
    ) + piece(f.until is Some, " AND created_at <= ?"@)
}

/// The values of a filter's conditions, in their order.
pub open spec fn where_values(f: NotificationFilter, skip_search: bool) -> Seq<SqlView> {
    bound_value(text_value(f.app_name)) + bound_value(
        match f.urgency {
            Some(u) => Some(SqlView::Int(u.spec_number() as int)),
            None => None,
        },
    ) + bound_value(
        match f.status {
            Some(s) => Some(SqlView::Text(s.spec_name())),
            None => None,
        },
    ) + bound_value(text_value(f.category)) + search_values(f, skip_search) + bound_value(
        moment_value(f.since),
    ) + bound_value(moment_value(f.until))
}

/// The values of a filter's search: its pattern, for the summary and for the body.
pub open spec fn search_values(f: NotificationFilter, skip_search: bool) -> Seq<SqlView> {
    if searches(f, skip_search) {
        seq![
            SqlView::Text(like_pattern(f.search->0@)),
            SqlView::Text(like_pattern(f.search->0@)),
        ]
    } else {
        Seq::empty()
    }
}

/// The end of a query that limits what it returns.
pub open spec fn page_text(f: NotificationFilter, skip_search: bool) -> Seq<char> {
    if skip_search {
        Seq::empty()
    } else {
        (match f.limit {
            Some(n) => " LIMIT "@ + text::signed_decimal(n as int),
            None => Seq::empty(),
        }) + (match f.offset {
            Some(n) => " OFFSET "@ + text::signed_decimal(n as int),
            None => Seq::empty(),
        })
    }
}

fn bind_value(sql: &mut String, params: &mut Vec<SqlValue>, clause: &str, value: Option<SqlValue>)
    ensures
        final(sql)@ == old(sql)@ + piece(value is Some, clause@),
        values(final(params)@) == values(old(params)@) + bound_value(
            match value {
                Some(v) => Some(v@),
                None => None,
            },
        ),
{
    match value {
        Some(v) => {
            sql.append(clause);
            bind(params, v);
        },
        None => {
            assert(sql@ =~= old(sql)@ + piece(value is Some, clause@));
            assert(values(params@) =~= values(old(params)@) + bound_value(None));
        },
    }
}

fn bind_text(sql: &mut String, params: &mut Vec<SqlValue>, clause: &str, value: &Option<String>)
    ensures
        final(sql)@ == old(sql)@ + piece(value is Some, clause@),
        values(final(params)@) == values(old(params)@) + bound_value(text_value(*value)),
{
    let owned = match value {
        Some(s) => Some(SqlValue::Text(s.clone())),
        None => None,
    };
    bind_value(sql, params, clause, owned);
}

fn bind_moment(sql: &mut String, params: &mut Vec<SqlValue>, clause: &str, value: &Option<String>)
    ensures
        final(sql)@ == old(sql)@ + piece(value is Some, clause@),
        values(final(params)@) == values(old(params)@) + bound_value(moment_value(*value)),
{
    let moment = match value {
        Some(s) => match Timestamp::parse_rfc3339(s.as_str()) {
            Some(t) => Some(SqlValue::Text(t.to_rfc3339())),
            None => Some(SqlValue::Text(s.clone())),
        },
        None => None,
    };
    bind_value(sql, params, clause, moment);
}

impl NotificationFilter {
    fn bind_search(&self, sql: &mut String, params: &mut Vec<SqlValue>, skip_search: bool)
        ensures
            final(sql)@ == old(sql)@ + piece(
                searches(*self, skip_search),
                " AND (summary LIKE ? OR body LIKE ?)"@,
            ),
            values(final(params)@) == values(old(params)@) + search_values(*self, skip_search),
    {
        if !skip_search {
            if let Some(search) = &self.search {
                sql.append(" AND (summary LIKE ? OR body LIKE ?)");
                let mut pattern = "%".to_owned();
                pattern.append(search.as_str());
                pattern.append("%");
                bind(params, SqlValue::Text(pattern.clone()));
                bind(params, SqlValue::Text(pattern));
                assert(values(params@) =~= values(old(params)@) + search_values(
                    *self,
                    skip_search,
                ));
                return ;
            }
        }
        assert(sql@ =~= old(sql)@ + Seq::<char>::empty());
        assert(values(params@) =~= values(old(params)@) + search_values(*self, skip_search));
    }

    fn conditions(&self, skip_search: bool) -> (s: Statement)
        ensures
            s.sql@ == where_text(*self, skip_search),
            s.bound() == where_values(*self, skip_search),
    {
        let mut sql = String::new();
        let mut params: Vec<SqlValue> = Vec::new();
        bind_text(&mut sql, &mut params, " AND app_name = ?", &self.app_name);
        assert(sql@ =~= piece(self.app_name is Some, " AND app_name = ?"@));
        assert(values(params@) =~= bound_value(text_value(self.app_name)));
        let urgency = match self.urgency {
            Some(u) => Some(SqlValue::Int(u.as_u32() as i64)),
            None => None,
        };
        bind_value(&mut sql, &mut params, " AND urgency = ?", urgency);
        let status = match self.status {
            Some(s) => Some(SqlValue::Text(s.as_str().to_owned())),
            None => None,
        };
        bind_value(&mut sql, &mut params, " AND status = ?", status);
        bind_text(&mut sql, &mut params, " AND category = ?", &self.category);
        self.bind_search(&mut sql, &mut params, skip_search);
        bind_moment(&mut sql, &mut params, " AND created_at >= ?", &self.since);
        bind_moment(&mut sql, &mut params, " AND created_at <= ?", &self.until);
        Statement { sql, params }
    }

    /// The query for the rows of a filter, newest first. Where the search is left to the
    /// reader, so are limit and offset.
    pub fn build_query(&self, skip_search_in_sql: bool) -> (s: Statement)
        ensures
            s.sql@ == SELECT_COLUMNS@ + " WHERE 1=1"@ + where_text(*self, skip_search_in_sql)
                + " ORDER BY created_at DESC"@ + page_text(*self, skip_search_in_sql),
            s.bound() == where_values(*self, skip_search_in_sql),
    {
        let conditions = self.conditions(skip_search_in_sql);
        let mut sql = SELECT_COLUMNS.to_owned();
        sql.append(" WHERE 1=1");
        sql.append(conditions.sql.as_str());
        sql.append(" ORDER BY created_at DESC");
        let mut page = String::new();
        if !skip_search_in_sql {
            if let Some(limit) = self.limit {
                page.append(" LIMIT ");
                page.append(text::signed_text(limit).as_str());
            }
            if let Some(offset) = self.offset {
                page.append(" OFFSET ");
                page.append(text::signed_text(offset).as_str());
            }
        }
        assert(page@ =~= page_text(*self, skip_search_in_sql));
        sql.append(page.as_str());
        Statement { sql, params: conditions.params }
    }

    /// The query for the number of rows of a filter, whatever its limit and offset.
    pub fn build_count_query(&self, skip_search_in_sql: bool) -> (s: Statement)
        ensures
            s.sql@ == "SELECT COUNT(*) FROM notifications WHERE 1=1"@ + where_text(
                *self,
                skip_search_in_sql,
            ),
            s.bound() == where_values(*self, skip_search_in_sql),
    {
        let conditions = self.conditions(skip_search_in_sql);
        let mut sql = "SELECT COUNT(*) FROM notifications WHERE 1=1".to_owned();
        sql.append(conditions.sql.as_str());
        Statement { sql, params: conditions.params }
    }
}

// ---------- listing ----------

/// Whether the search is left to the reader: sealed rows can be searched only once opened.
pub open spec fn post_filters(f: NotificationFilter, mode: EncMode) -> bool {
    mode is Unlocked && f.search is Some
}

/// Whether a notification's summary or body holds the text, whatever the case.
pub open spec fn matches(n: NotificationView, needle: Seq<char>) -> bool {
    text::contains(text::lowercase(n.summary), text::lowercase(needle)) || text::contains(
        text::lowercase(n.body),
        text::lowercase(needle),
    )
}

/// The notifications that hold the text, in order.
pub open spec fn hits(list: Seq<NotificationView>, needle: Seq<char>) -> Seq<NotificationView> {
    list.filter(|n: NotificationView| matches(n, needle))
}

/// A list without its first `offset` elements; an offset below zero counts as zero.
pub open spec fn from_offset<T>(list: Seq<T>, offset: Option<i64>) -> Seq<T> {
    match offset {
        Some(n) => if n <= 0 {
            list
        } else if n >= list.len() {
            Seq::empty()
        } else {
            list.skip(n as int)
        },
        None => list,
    }
}

/// A list cut to `limit` elements; a limit below zero counts as zero.
pub open spec fn up_to_limit<T>(list: Seq<T>, limit: Option<i64>) -> Seq<T> {
    match limit {
        Some(n) => if n <= 0 {
            Seq::empty()
        } else if n >= list.len() {
            list
        } else {
            list.take(n as int)
        },
        None => list,
    }
}

/// The notifications that rows are read as.
pub open spec fn read_all(rows: Seq<StoredRow>, mode: EncMode, now: (int, int)) -> Seq<
    NotificationView,
> {
    rows.map_values(|r: StoredRow| store::read_row(r, mode, now))
}

/// The notifications that a query answers with, given the rows that it returned.
pub open spec fn answer(
    rows: Seq<StoredRow>,
    f: NotificationFilter,
    mode: EncMode,
    now: (int, int),
) -> Seq<NotificationView> {
    let all = read_all(rows, mode, now);
    if post_filters(f, mode) {
        up_to_limit(from_offset(hits(all, f.search->0@), f.offset), f.limit)
    } else {
        all
    }
}

/// What notifications hold.
pub open spec fn views(list: Seq<Notification>) -> Seq<NotificationView> {
    list.map_values(|n: Notification| n@)
}

/// Whether the search of a query is left to the reader.
pub fn use_post_filter(f: &NotificationFilter, mode: &EncMode) -> (r: bool)
    ensures
        r == post_filters(*f, *mode),
{
    mode.is_unlocked() && f.search.is_some()
}

/// The query for the notifications of a filter.
pub fn plan_query(f: &NotificationFilter, mode: &EncMode) -> (s: Statement)
    ensures
        s.sql@ == SELECT_COLUMNS@ + " WHERE 1=1"@ + where_text(*f, post_filters(*f, *mode))
            + " ORDER BY created_at DESC"@ + page_text(*f, post_filters(*f, *mode)),
        s.bound() == where_values(*f, post_filters(*f, *mode)),
{
    let skip = use_post_filter(f, mode);
    f.build_query(skip)
}

fn holds(n: &Notification, needle_lower: &str, Ghost(needle): Ghost<Seq<char>>) -> (r: bool)
    requires
        needle_lower@ == text::lowercase(needle),
    ensures
        r == matches(n@, needle),
{
    let summary = text::to_lowercase(n.summary.as_str());
    if text::text_contains(summary.as_str(), needle_lower) {
        return true;
    }
    let body = text::to_lowercase(n.body.as_str());
    text::text_contains(body.as_str(), needle_lower)
}

/// Notifications that were read, and whether sealed fields were decrypted for them.
pub struct Answer {
    pub notifications: Vec<Notification>,
    pub decrypted: bool,
}

proof fn filter_step(list: Seq<NotificationView>, i: int, needle: Seq<char>)
    requires
        0 <= i < list.len(),
    ensures
        hits(list.take(i + 1), needle) == if matches(list[i], needle) {
            hits(list.take(i), needle).push(list[i])
        } else {
            hits(list.take(i), needle)
        },
{
    reveal(Seq::filter);
    assert(list.take(i + 1).drop_last() =~= list.take(i));
    assert(list.take(i + 1).last() == list[i]);
}

fn read_hits(rows: &Vec<StoredRow>, needle: &str, mode: &EncMode, now: Timestamp) -> (a: Answer)
    ensures
        views(a.notifications@) == hits(
            read_all(rows@, *mode, notification::moment(now)),
            needle@,
        ),
        a.decrypted == exists|i: int|
            0 <= i < rows@.len() && store::decrypts(#[trigger] rows@[i], *mode),
{
    let lower = text::to_lowercase(needle);
    let ghost all = read_all(rows@, *mode, notification::moment(now));
    let mut out: Vec<Notification> = Vec::new();
    let mut decrypted = false;
    let mut i: usize = 0;
    proof {
        reveal(Seq::filter);
        assert(all.take(0) =~= Seq::<NotificationView>::empty());
        assert(views(out@) =~= hits(all.take(0), needle@));
    }
    while i < rows.len()
        invariant
            i <= rows@.len(),
            lower@ == text::lowercase(needle@),
            all == read_all(rows@, *mode, notification::moment(now)),
            views(out@) == hits(all.take(i as int), needle@),
            decrypted == exists|j: int|
                0 <= j < i && store::decrypts(#[trigger] rows@[j], *mode),
        decreases rows.len() - i,
    {
        let read = store::notification_from_row(&rows[i], mode, now);
        proof {
            filter_step(all, i as int, needle@);
        }
        if read.decrypted {
            assert(store::decrypts(rows@[i as int], *mode));
            decrypted = true;
        }
        let ghost before = out@;
        if holds(&read.notification, lower.as_str(), Ghost(needle@)) {
            out.push(read.notification);
            assert(views(out@) =~= views(before).push(all[i as int]));
        }
        i = i + 1;
    }
    assert(all.take(all.len() as int) =~= all);
    Answer { notifications: out, decrypted }
}

fn read_rows(rows: &Vec<StoredRow>, mode: &EncMode, now: Timestamp) -> (a: Answer)
    ensures
        views(a.notifications@) == read_all(rows@, *mode, notification::moment(now)),
        a.decrypted == exists|i: int|
            0 <= i < rows@.len() && store::decrypts(#[trigger] rows@[i], *mode),
{
    let ghost all = read_all(rows@, *mode, notification::moment(now));
    let mut out: Vec<Notification> = Vec::new();
    let mut decrypted = false;
    let mut i: usize = 0;
    while i < rows.len()
        invariant
            i <= rows@.len(),
            all == read_all(rows@, *mode, notification::moment(now)),
            views(out@) == all.take(i as int),
            decrypted == exists|j: int|
                0 <= j < i && store::decrypts(#[trigger] rows@[j], *mode),
        decreases rows.len() - i,
    {
        let read = store::notification_from_row(&rows[i], mode, now);
        if read.decrypted {
            assert(store::decrypts(rows@[i as int], *mode));
            decrypted = true;
        }
        let ghost before = out@;
        out.push(read.notification);
        assert(views(out@) =~= views(before).push(all[i as int]));
        assert(all.take(i as int + 1) =~= all.take(i as int).push(all[i as int]));
        i = i + 1;
    }
    assert(all.take(all.len() as int) =~= all);
    Answer { notifications: out, decrypted }
}

/// The answer to a query whose rows these are. With the secret key at hand a search is done
/// here, on the opened content, and limit and offset after it.
pub fn query_notifications(
    rows: &Vec<StoredRow>,
    filter: &NotificationFilter,
    mode: &EncMode,
    now: Timestamp,
) -> (a: Answer)
    ensures
        views(a.notifications@) == answer(rows@, *filter, *mode, notification::moment(now)),
        a.decrypted == exists|i: int|
            0 <= i < rows@.len() && store::decrypts(#[trigger] rows@[i], *mode),
{
    if !mode.is_unlocked() {
        return read_rows(rows, mode, now);
    }
    let needle = match &filter.search {
        Some(s) => s,
        None => {
            return read_rows(rows, mode, now);
        },
    };
    let read = read_hits(rows, needle.as_str(), mode, now);
    let decrypted = read.decrypted;
    let mut list: Vec<Notification> = read.notifications;
    let ghost found = list@;
    if let Some(offset) = filter.offset {
        if offset > 0 {
            if offset as u64 >= list.len() as u64 {
                list.clear();
            } else {
                list = list.split_off(offset as usize);
            }
        }
    }
    assert(list@ =~= from_offset(found, filter.offset));
    let ghost paged = list@;
    if let Some(limit) = filter.limit {
        if limit <= 0 {
            list.clear();
        } else if (limit as u64) < list.len() as u64 {
            list.truncate(limit as usize);
        }
    }
    assert(list@ =~= up_to_limit(paged, filter.limit));
    assert(views(list@) =~= up_to_limit(from_offset(views(found), filter.offset), filter.limit));
    Answer { notifications: list, decrypted }
}

// ---------- counting ----------

/// How a count is found.
pub enum CountPlan {
    /// By the number that this query returns.
    Ask(Statement),
    /// By the rows that this query returns, once searched.
    Search(Statement),
}

/// How the notifications of a filter are counted: limit and offset play no part.
pub fn plan_count(f: &NotificationFilter, mode: &EncMode) -> (plan: CountPlan)
    ensures
        match plan {
            CountPlan::Ask(s) => !post_filters(*f, *mode) && s.sql@
                == "SELECT COUNT(*) FROM notifications WHERE 1=1"@ + where_text(*f, false)
                && s.bound() == where_values(*f, false),
            CountPlan::Search(s) => post_filters(*f, *mode) && s.sql@ == SELECT_COLUMNS@
                + " WHERE 1=1"@ + where_text(*f, true) + " ORDER BY created_at DESC"@ && s.bound()
                == where_values(*f, true),
        },
{
    if use_post_filter(f, mode) {
        let s = f.build_query(true);
        assert(s.sql@ =~= SELECT_COLUMNS@ + " WHERE 1=1"@ + where_text(*f, true)
            + " ORDER BY created_at DESC"@);
        CountPlan::Search(s)
    } else {
        CountPlan::Ask(f.build_count_query(false))
    }
}

/// A count that was found by searching rows.
pub struct Counted {
    pub count: i64,
    pub decrypted: bool,
}

/// The number of rows that hold the text, as a signed number holds it.
pub fn count_notifications(
    rows: &Vec<StoredRow>,
    needle: &str,
    mode: &EncMode,
    now: Timestamp,
) -> (c: Counted)
    ensures
        ({
            let found = hits(read_all(rows@, *mode, notification::moment(now)), needle@).len();
            &&& found <= u64::MAX
            &&& c.count == signed_bits(found as u64)
            &&& found <= i64::MAX ==> c.count == found
        }),
        c.decrypted == exists|i: int|
            0 <= i < rows@.len() && store::decrypts(#[trigger] rows@[i], *mode),
{
    let read = read_hits(rows, needle, mode, now);
    let found: usize = read.notifications.len();
    assert(views(read.notifications@).len() == found);
    Counted { count: to_signed(found as u64), decrypted: read.decrypted }
}

/// Where the search is left to the reader, a listing is a page of what is counted: it starts at
/// the offset, is no longer than the limit, and without both it is the whole.
pub proof fn listing_is_a_page_of_what_is_counted(
    rows: Seq<StoredRow>,
    f: NotificationFilter,
    mode: EncMode,
    now: (int, int),
)
    requires
        post_filters(f, mode),
    ensures
        ({
            let counted = hits(read_all(rows, mode, now), f.search->0@);
            let listed = answer(rows, f, mode, now);
            let start = if f.offset is Some && f.offset->0 > 0 {
                f.offset->0 as int
            } else {
                0
            };
            &&& listed.len() <= counted.len()
            &&& f.limit is Some ==> listed.len() <= if f.limit->0 > 0 {
                f.limit->0 as int
            } else {
                0
            }
            &&& forall|i: int|
                0 <= i < listed.len() ==> #[trigger] listed[i] == counted[start + i]
            &&& f.limit is None && f.offset is None ==> listed == counted
        }),
{
}

/// A filter without limit and offset.
pub open spec fn unpaged(f: NotificationFilter) -> NotificationFilter {
    NotificationFilter { limit: None, offset: None, ..f }
}

/// What is counted is what is listed without limit and offset: both are found by the same
/// conditions, limit and offset play no part in the count, and where the search is left to the
/// reader the listing is as long as the hits that are counted.
pub proof fn count_is_the_length_of_the_unpaged_listing(
    rows: Seq<StoredRow>,
    f: NotificationFilter,
    mode: EncMode,
    now: (int, int),
    skip_search: bool,
)
    ensures
        where_text(f, skip_search) == where_text(unpaged(f), skip_search),
        where_values(f, skip_search) == where_values(unpaged(f), skip_search),
        page_text(unpaged(f), skip_search).len() == 0,
        post_filters(f, mode) == post_filters(unpaged(f), mode),
        post_filters(f, mode) ==> answer(rows, unpaged(f), mode, now).len() == hits(
            read_all(rows, mode, now),
            f.search->0@,
        ).len(),
        !post_filters(f, mode) ==> answer(rows, unpaged(f), mode, now).len() == rows.len(),
{
}

// ---------- marks and values ----------

/// How many values a statement's text asks for.
pub open spec fn marks(sql: Seq<char>) -> nat
    decreases sql.len(),
{
    if sql.len() == 0 {
        0
    } else {
        marks(sql.drop_last()) + if sql.last() == '?' {
            1nat
        } else {
            0nat
        }
    }
}

/// The values that two texts ask for, one after the other, are those of both.
pub proof fn marks_of_parts(a: Seq<char>, b: Seq<char>)
    ensures
        marks(a + b) == marks(a) + marks(b),
{
    marks_of_sum(a, b);
}

proof fn marks_of_sum(a: Seq<char>, b: Seq<char>)
    ensures
        marks(a + b) == marks(a) + marks(b),
    decreases b.len(),
{
    if b.len() == 0 {
        assert(a + b =~= a);
    } else {
        marks_of_sum(a, b.drop_last());
        assert((a + b).drop_last() =~= a + b.drop_last());
        assert((a + b).last() == b.last());
    }
}

proof fn no_marks(sql: Seq<char>)
    requires
        forall|i: int| 0 <= i < sql.len() ==> sql[i] != '?',
    ensures
        marks(sql) == 0,
    decreases sql.len(),
{
    if sql.len() > 0 {
        no_marks(sql.drop_last());
    }
}

proof fn one_mark(sql: Seq<char>)
    requires
        sql.len() > 0,
        sql.last() == '?',
        forall|i: int| 0 <= i < sql.len() - 1 ==> sql[i] != '?',
    ensures
        marks(sql) == 1,
{
    no_marks(sql.drop_last());
}

proof fn decimal_has_no_marks(n: nat)
    ensures
        marks(text::decimal(n)) == 0,
    decreases n,
{
    reveal_with_fuel(marks, 2);
    if n < 10 {
        let one = text::decimal(n);
        assert(one.drop_last() =~= Seq::<char>::empty());
        assert(one.last() != '?');
    } else {
        decimal_has_no_marks(n / 10);
        let d = text::digit_char((n % 10) as int);
        assert(d != '?');
        assert(text::decimal(n).drop_last() =~= text::decimal(n / 10));
        assert(text::decimal(n).last() == d);
    }
}

proof fn signed_has_no_marks(n: int)
    ensures
        marks(text::signed_decimal(n)) == 0,
{
    if n < 0 {
        decimal_has_no_marks((-n) as nat);
        no_marks(seq!['-']);
        marks_of_sum(seq!['-'], text::decimal((-n) as nat));
    } else {
        decimal_has_no_marks(n as nat);
    }
}

proof fn search_has_two_marks()
    ensures
        marks(" AND (summary LIKE ? OR body LIKE ?)"@) == 2,
{
    reveal_strlit(" AND (summary LIKE ? OR body LIKE ?)");
    let whole = " AND (summary LIKE ? OR body LIKE ?)"@;
    let a = whole.subrange(0, 20);
    let b = whole.subrange(20, 35);
    let c = whole.subrange(35, 36);
    one_mark(a);
    one_mark(b);
    no_marks(c);
    marks_of_sum(a, b);
    marks_of_sum(a + b, c);
    assert(a + b + c =~= whole);
}

/// Each condition of a filter asks for as many values as are bound to it.
pub proof fn marks_of_conditions()
    ensures
        marks(Seq::<char>::empty()) == 0,
        marks(" AND app_name = ?"@) == 1,
        marks(" AND urgency = ?"@) == 1,
        marks(" AND status = ?"@) == 1,
        marks(" AND category = ?"@) == 1,
        marks(" AND (summary LIKE ? OR body LIKE ?)"@) == 2,
        marks(" AND created_at >= ?"@) == 1,
        marks(" AND created_at <= ?"@) == 1,
{
    reveal_strlit(" AND app_name = ?");
    reveal_strlit(" AND urgency = ?");
    reveal_strlit(" AND status = ?");
    reveal_strlit(" AND category = ?");
    reveal_strlit(" AND created_at >= ?");
    reveal_strlit(" AND created_at <= ?");
    one_mark(" AND app_name = ?"@);
    one_mark(" AND urgency = ?"@);
    one_mark(" AND status = ?"@);
    one_mark(" AND category = ?"@);
    one_mark(" AND created_at >= ?"@);
    one_mark(" AND created_at <= ?"@);
    search_has_two_marks();
}

/// The conditions of a filter ask for as many values as are bound to them.
pub proof fn conditions_bind_every_mark(f: NotificationFilter, skip_search: bool)
    ensures
        marks(where_text(f, skip_search)) == where_values(f, skip_search).len(),
{
    reveal_strlit(" AND app_name = ?");
    reveal_strlit(" AND urgency = ?");
    reveal_strlit(" AND status = ?");
    reveal_strlit(" AND category = ?");
    reveal_strlit(" AND created_at >= ?");
    reveal_strlit(" AND created_at <= ?");
    one_mark(" AND app_name = ?"@);
    one_mark(" AND urgency = ?"@);
    one_mark(" AND status = ?"@);
    one_mark(" AND category = ?"@);
    one_mark(" AND created_at >= ?"@);
    one_mark(" AND created_at <= ?"@);
    search_has_two_marks();
    let p1 = piece(f.app_name is Some, " AND app_name = ?"@);
    let p2 = piece(f.urgency is Some, " AND urgency = ?"@);
    let p3 = piece(f.status is Some, " AND status = ?"@);
    let p4 = piece(f.category is Some, " AND category = ?"@);
    let p5 = piece(searches(f, skip_search), " AND (summary LIKE ? OR body LIKE ?)"@);
    let p6 = piece(f.since is Some, " AND created_at >= ?"@);
    let p7 = piece(f.until is Some, " AND created_at <= ?"@);
    marks_of_sum(p1, p2);
    marks_of_sum(p1 + p2, p3);
    marks_of_sum(p1 + p2 + p3, p4);
    marks_of_sum(p1 + p2 + p3 + p4, p5);
    marks_of_sum(p1 + p2 + p3 + p4 + p5, p6);
    marks_of_sum(p1 + p2 + p3 + p4 + p5 + p6, p7);
}

/// The query of a filter asks for as many values as are bound to it.
pub proof fn query_binds_every_mark(f: NotificationFilter, skip_search: bool)
    ensures
        marks(
            SELECT_COLUMNS@ + " WHERE 1=1"@ + where_text(f, skip_search)
                + " ORDER BY created_at DESC"@ + page_text(f, skip_search),
        ) == where_values(f, skip_search).len(),
{
    conditions_bind_every_mark(f, skip_search);
    reveal_strlit(
        "SELECT id, dbus_id, app_name, app_icon, summary, body, urgency, category,
        desktop_entry, actions, hints, status, expire_timeout, created_at, updated_at,
        closed_reason, summary_enc, body_enc, hints_enc, enc_version, key_id
        FROM notifications",
    );
    no_marks(SELECT_COLUMNS@);
    reveal_strlit(" WHERE 1=1");
    no_marks(" WHERE 1=1"@);
    reveal_strlit(" ORDER BY created_at DESC");
    no_marks(" ORDER BY created_at DESC"@);
    marks_of_sum(SELECT_COLUMNS@, " WHERE 1=1"@);
    let a = SELECT_COLUMNS@ + " WHERE 1=1"@;
    marks_of_sum(a, where_text(f, skip_search));
    let b = a + where_text(f, skip_search);
    marks_of_sum(b, " ORDER BY created_at DESC"@);
    let c = b + " ORDER BY created_at DESC"@;
    marks_of_sum(c, page_text(f, skip_search));
    assert(marks(page_text(f, skip_search)) == 0) by {
        reveal_strlit(" LIMIT ");
        no_marks(" LIMIT "@);
        reveal_strlit(" OFFSET ");
        no_marks(" OFFSET "@);
        let limit = match f.limit {
            Some(n) => " LIMIT "@ + text::signed_decimal(n as int),
            None => Seq::<char>::empty(),
        };
        if f.limit is Some {
            signed_has_no_marks(f.limit->0 as int);
            marks_of_sum(" LIMIT "@, text::signed_decimal(f.limit->0 as int));
        }
        let offset = match f.offset {
            Some(n) => " OFFSET "@ + text::signed_decimal(n as int),
            None => Seq::<char>::empty(),
        };
        if f.offset is Some {
            signed_has_no_marks(f.offset->0 as int);
            marks_of_sum(" OFFSET "@, text::signed_decimal(f.offset->0 as int));
        }
        marks_of_sum(limit, offset);
    }
}

// ---------- statements ----------

fn statement(sql: &str) -> (s: Statement)
    ensures
        s.sql@ == sql@,
        s.bound() == Seq::<SqlView>::empty(),
{
    let params: Vec<SqlValue> = Vec::new();
    assert(values(params@) =~= Seq::<SqlView>::empty());
    Statement { sql: sql.to_owned(), params }
}

/// The statement that writes a sealed row.
pub const INSERT_SEALED: &'static str =
    "INSERT INTO notifications (
                dbus_id, app_name, app_icon, summary, body, urgency, category,
                desktop_entry, actions, hints, status, expire_timeout, created_at, updated_at,
                summary_enc, body_enc, hints_enc, enc_version, key_id
             ) VALUES (?1, ?2, ?3, '', '', ?4, ?5, ?6, ?7, '', ?8, ?9, ?10, ?11, ?12, ?13, ?14, ?15, ?16)";

/// The statement that writes a plain row.
pub const INSERT_PLAIN: &'static str =
    "INSERT INTO notifications (
                dbus_id, app_name, app_icon, summary, body, urgency, category,
                desktop_entry, actions, hints, status, expire_timeout, created_at, updated_at
             ) VALUES (?1, ?2, ?3, ?4, ?5, ?6, ?7, ?8, ?9, ?10, ?11, ?12, ?13, ?14)";

/// A column that may be empty, as a bound value.
pub open spec fn blob_value(column: Option<Vec<u8>>) -> SqlView {
    match column {
        Some(b) => SqlView::Blob(b@),
        None => SqlView::Null,
    }
}

/// The values of the statement that writes a row.
pub open spec fn insert_values(row: NewRow, actions_json: Seq<char>) -> Seq<SqlView> {
    if row.enc_version == 0 {
        seq![
            SqlView::Int(row.dbus_id as int),
            SqlView::Text(row.app_name@),
            SqlView::Text(row.app_icon@),
            SqlView::Text(row.summary@),
            SqlView::Text(row.body@),
            SqlView::Int(row.urgency as int),
            SqlView::Text(row.category@),
            SqlView::Text(row.desktop_entry@),
            SqlView::Text(actions_json),
            SqlView::Text(row.hints@),
            SqlView::Text(row.status@),
            SqlView::Int(row.expire_timeout as int),
            SqlView::Text(row.created_at@),
            SqlView::Text(row.updated_at@),
        ]
    } else {
        seq![
            SqlView::Int(row.dbus_id as int),
            SqlView::Text(row.app_name@),
            SqlView::Text(row.app_icon@),
            SqlView::Int(row.urgency as int),
            SqlView::Text(row.category@),
            SqlView::Text(row.desktop_entry@),
            SqlView::Text(actions_json),
            SqlView::Text(row.status@),
            SqlView::Int(row.expire_timeout as int),
            SqlView::Text(row.created_at@),
            SqlView::Text(row.updated_at@),
            blob_value(row.summary_enc),
            blob_value(row.body_enc),
            blob_value(row.hints_enc),
            SqlView::Int(row.enc_version as int),
            blob_value(row.key_id),
        ]
    }
}

fn blob_param(column: Option<Vec<u8>>) -> (value: SqlValue)
    ensures
        value@ == blob_value(column),
{
    match column {
        Some(b) => SqlValue::Blob(b),
        None => SqlValue::Null,
    }
}

/// The statement that writes a row; `actions_json` is the JSON text of its actions.
pub fn insert_row(row: NewRow, actions_json: String) -> (s: Statement)
    ensures
        s.sql@ == if row.enc_version == 0 {
            INSERT_PLAIN@
        } else {
            INSERT_SEALED@
        },
        s.bound() == insert_values(row, actions_json@),
{
    let ghost wanted = insert_values(row, actions_json@);
    if row.enc_version == 0 {
        let params: Vec<SqlValue> = vec![
            SqlValue::Int(row.dbus_id as i64),
            SqlValue::Text(row.app_name),
            SqlValue::Text(row.app_icon),
            SqlValue::Text(row.summary),
            SqlValue::Text(row.body),
            SqlValue::Int(row.urgency as i64),
            SqlValue::Text(row.category),
            SqlValue::Text(row.desktop_entry),
            SqlValue::Text(actions_json),
            SqlValue::Text(row.hints),
            SqlValue::Text(row.status),
            SqlValue::Int(row.expire_timeout as i64),
            SqlValue::Text(row.created_at),
            SqlValue::Text(row.updated_at),
        ];
        assert(values(params@) =~= wanted);
        Statement { sql: INSERT_PLAIN.to_owned(), params }
    } else {
        let params: Vec<SqlValue> = vec![
            SqlValue::Int(row.dbus_id as i64),
            SqlValue::Text(row.app_name),
            SqlValue::Text(row.app_icon),
            SqlValue::Int(row.urgency as i64),
            SqlValue::Text(row.category),
            SqlValue::Text(row.desktop_entry),
            SqlValue::Text(actions_json),
            SqlValue::Text(row.status),
            SqlValue::Int(row.expire_timeout as i64),
            SqlValue::Text(row.created_at),
            SqlValue::Text(row.updated_at),
            blob_param(row.summary_enc),
            blob_param(row.body_enc),
            blob_param(row.hints_enc),
            SqlValue::Int(row.enc_version),
            blob_param(row.key_id),
        ];
        assert(values(params@) =~= wanted);
        Statement { sql: INSERT_SEALED.to_owned(), params }
    }
}

/// The query for the row of that number.
pub fn get_notification(row_id: i64) -> (s: Statement)
    ensures
        s.sql@ == SELECT_COLUMNS@ + " WHERE id = ?1"@,
        s.bound() == seq![SqlView::Int(row_id as int)],
{
    let mut s = statement(SELECT_COLUMNS);
    s.sql.append(" WHERE id = ?1");
    bind(&mut s.params, SqlValue::Int(row_id));
    assert(s.bound() =~= seq![SqlView::Int(row_id as int)]);
    s
}

/// The query for the newest row of that number on the bus.
pub fn get_notification_by_dbus_id(dbus_id: u32) -> (s: Statement)
    ensures
        s.sql@ == SELECT_COLUMNS@ + " WHERE dbus_id = ?1 ORDER BY created_at DESC LIMIT 1"@,
        s.bound() == seq![SqlView::Int(dbus_id as int)],
{
    let mut s = statement(SELECT_COLUMNS);
    s.sql.append(" WHERE dbus_id = ?1 ORDER BY created_at DESC LIMIT 1");
    bind(&mut s.params, SqlValue::Int(dbus_id as i64));
    assert(s.bound() =~= seq![SqlView::Int(dbus_id as int)]);
    s
}

/// A list of `n` marks: `?` with commas between.
pub open spec fn mark_list(n: nat) -> Seq<char>
    decreases n,
{
    if n == 0 {
        Seq::empty()
    } else if n == 1 {
        "?"@
    } else {
        mark_list((n - 1) as nat) + ","@ + "?"@
    }
}

fn push_marks(sql: &mut String, n: usize)
    ensures
        final(sql)@ == old(sql)@ + mark_list(n as nat),
{
    let mut out = String::new();
    let mut i: usize = 0;
    while i < n
        invariant
            i <= n,
            out@ == mark_list(i as nat),
        decreases n - i,
    {
        if i > 0 {
            out.append(",");
        }
        out.append("?");
        assert(out@ =~= mark_list(i as nat + 1));
        i = i + 1;
    }
    sql.append(out.as_str());
}

/// A list of `n` marks asks for `n` values.
pub proof fn mark_list_has_that_many_marks(n: nat)
    ensures
        marks(mark_list(n)) == n,
    decreases n,
{
    reveal_strlit("?");
    reveal_strlit(",");
    one_mark("?"@);
    no_marks(","@);
    if n > 1 {
        mark_list_has_that_many_marks((n - 1) as nat);
        marks_of_sum(mark_list((n - 1) as nat), ","@);
        marks_of_sum(mark_list((n - 1) as nat) + ","@, "?"@);
    }
}

/// The statements that name several rows ask for a value for each of them, besides the status and
/// the time that an update gives.
pub proof fn marks_of_lists(n: nat)
    ensures
        marks(
            "UPDATE notifications SET status = ?, updated_at = ? WHERE id IN ("@ + mark_list(n)
                + ")"@,
        ) == n + 2,
        marks("DELETE FROM notifications WHERE id IN ("@ + mark_list(n) + ")"@) == n,
{
    reveal_strlit("UPDATE notifications SET status = ?, updated_at = ? WHERE id IN (");
    reveal_strlit("DELETE FROM notifications WHERE id IN (");
    reveal_strlit(")");
    let head = "UPDATE notifications SET status = ?, updated_at = ? WHERE id IN ("@;
    let a = head.subrange(0, 35);
    let b = head.subrange(35, 51);
    let c = head.subrange(51, head.len() as int);
    one_mark(a);
    one_mark(b);
    no_marks(c);
    marks_of_sum(a, b);
    marks_of_sum(a + b, c);
    assert(a + b + c =~= head);
    no_marks("DELETE FROM notifications WHERE id IN ("@);
    no_marks(")"@);
    mark_list_has_that_many_marks(n);
    marks_of_sum(head, mark_list(n));
    marks_of_sum(head + mark_list(n), ")"@);
    marks_of_sum("DELETE FROM notifications WHERE id IN ("@, mark_list(n));
    marks_of_sum("DELETE FROM notifications WHERE id IN ("@ + mark_list(n), ")"@);
}

/// The RFC 3339 text of a point in time.
pub open spec fn time_text(time: Timestamp) -> Seq<char> {
    time::rfc3339_text(time.spec_secs(), time.spec_nanos())
}

/// The names of statuses, as bound values.
pub open spec fn status_values(list: Seq<NotificationStatus>) -> Seq<SqlView> {
    list.map_values(|s: NotificationStatus| SqlView::Text(s.spec_name()))
}

/// Numbers of rows, as bound values.
pub open spec fn id_values(ids: Seq<i64>) -> Seq<SqlView> {
    ids.map_values(|id: i64| SqlView::Int(id as int))
}

/// The statement that gives `to_status` to all rows of the other statuses; none where there
/// are no other statuses.
pub fn update_all_status(
    from_statuses: &Vec<NotificationStatus>,
    to_status: NotificationStatus,
    now: &Timestamp,
) -> (s: Option<Statement>)
    ensures
        match s {
            None => from_statuses@.len() == 0,
            Some(s) => {
                &&& from_statuses@.len() > 0
                &&& s.sql@ == "UPDATE notifications SET status = ?, updated_at = ? WHERE status IN ("@
                    + mark_list(from_statuses@.len()) + ")"@
                &&& s.bound() == seq![
                    SqlView::Text(to_status.spec_name()),
                    SqlView::Text(time_text(*now)),
                ] + status_values(from_statuses@)
            },
        },
{
    if from_statuses.len() == 0 {
        return None;
    }
    let mut s = statement("UPDATE notifications SET status = ?, updated_at = ? WHERE status IN (");
    push_marks(&mut s.sql, from_statuses.len());
    s.sql.append(")");
    bind(&mut s.params, SqlValue::Text(to_status.as_str().to_owned()));
    bind(&mut s.params, SqlValue::Text(now.to_rfc3339()));
    let ghost head = s.bound();
    assert(head =~= seq![SqlView::Text(to_status.spec_name()), SqlView::Text(time_text(*now))]);
    let mut i: usize = 0;
    let ghost sql = s.sql@;
    assert(s.bound() =~= head + status_values(from_statuses@).take(0));
    while i < from_statuses.len()
        invariant
            i <= from_statuses@.len(),
            s.sql@ == sql,
            s.bound() == head + status_values(from_statuses@).take(i as int),
        decreases from_statuses.len() - i,
    {
        bind(&mut s.params, SqlValue::Text(from_statuses[i].as_str().to_owned()));
        assert(s.bound() =~= head + status_values(from_statuses@).take(i as int + 1));
        i = i + 1;
    }
    assert(status_values(from_statuses@).take(from_statuses@.len() as int) =~= status_values(
        from_statuses@,
    ));
    Some(s)
}

proof fn marks_of_bulk_updates()
    ensures
        "UPDATE notifications SET status = ?, updated_at = ? WHERE status IN ("@ + mark_list(1)
            + ")"@ == "UPDATE notifications SET status = ?, updated_at = ? WHERE status IN (?)"@,
        "UPDATE notifications SET status = ?, updated_at = ? WHERE status IN ("@ + mark_list(2)
            + ")"@ == "UPDATE notifications SET status = ?, updated_at = ? WHERE status IN (?,?)"@,
{
    reveal_with_fuel(mark_list, 3);
    reveal_strlit("UPDATE notifications SET status = ?, updated_at = ? WHERE status IN (");
    reveal_strlit("UPDATE notifications SET status = ?, updated_at = ? WHERE status IN (?)");
    reveal_strlit("UPDATE notifications SET status = ?, updated_at = ? WHERE status IN (?,?)");
    reveal_strlit("?");
    reveal_strlit(",");
    reveal_strlit(")");
    assert("UPDATE notifications SET status = ?, updated_at = ? WHERE status IN ("@ + mark_list(1)
        + ")"@ =~= "UPDATE notifications SET status = ?, updated_at = ? WHERE status IN (?)"@);
    assert("UPDATE notifications SET status = ?, updated_at = ? WHERE status IN ("@ + mark_list(2)
        + ")"@ =~= "UPDATE notifications SET status = ?, updated_at = ? WHERE status IN (?,?)"@);
}

fn set_all(from: Vec<NotificationStatus>, to: NotificationStatus, now: &Timestamp) -> (s: Statement)
    requires
        from@.len() > 0,
    ensures
        s.sql@ == "UPDATE notifications SET status = ?, updated_at = ? WHERE status IN ("@
            + mark_list(from@.len()) + ")"@,
        s.bound() == seq![SqlView::Text(to.spec_name()), SqlView::Text(time_text(*now))]
            + status_values(from@),
{
    match update_all_status(&from, to, now) {
        Some(s) => s,
        None => {
            assert(false);
            statement("")
        },
    }
}

/// The statement that clears every row that is not cleared yet.
pub fn clear_all(now: &Timestamp) -> (s: Statement)
    ensures
        s.sql@ == "UPDATE notifications SET status = ?, updated_at = ? WHERE status IN (?,?)"@,
        s.bound() == seq![
            SqlView::Text("cleared"@),
            SqlView::Text(time_text(*now)),
            SqlView::Text("unread"@),
            SqlView::Text("read"@),
        ],
{
    let from: Vec<NotificationStatus> = vec![NotificationStatus::Unread, NotificationStatus::Read];
    let s = set_all(from, NotificationStatus::Cleared, now);
    proof {
        marks_of_bulk_updates();
        assert(s.bound() =~= seq![
            SqlView::Text("cleared"@),
            SqlView::Text(time_text(*now)),
            SqlView::Text("unread"@),
            SqlView::Text("read"@),
        ]);
    }
    s
}

/// The statement that marks every unread row as read.
pub fn mark_read_all(now: &Timestamp) -> (s: Statement)
    ensures
        s.sql@ == "UPDATE notifications SET status = ?, updated_at = ? WHERE status IN (?)"@,
        s.bound() == seq![
            SqlView::Text("read"@),
            SqlView::Text(time_text(*now)),
            SqlView::Text("unread"@),
        ],
{
    let from: Vec<NotificationStatus> = vec![NotificationStatus::Unread];
    let s = set_all(from, NotificationStatus::Read, now);
    proof {
        marks_of_bulk_updates();
        assert(s.bound() =~= seq![
            SqlView::Text("read"@),
            SqlView::Text(time_text(*now)),
            SqlView::Text("unread"@),
        ]);
    }
    s
}

/// The statement that gives a row a status.
pub fn update_status(row_id: i64, status: NotificationStatus, now: &Timestamp) -> (s: Statement)
    ensures
        s.sql@ == "UPDATE notifications SET status = ?, updated_at = ? WHERE id = ?"@,
        s.bound() == seq![
            SqlView::Text(status.spec_name()),
            SqlView::Text(time_text(*now)),
            SqlView::Int(row_id as int),
        ],
{
    let mut s = statement("UPDATE notifications SET status = ?, updated_at = ? WHERE id = ?");
    bind(&mut s.params, SqlValue::Text(status.as_str().to_owned()));
    bind(&mut s.params, SqlValue::Text(now.to_rfc3339()));
    bind(&mut s.params, SqlValue::Int(row_id));
    assert(s.bound() =~= seq![
        SqlView::Text(status.spec_name()),
        SqlView::Text(time_text(*now)),
        SqlView::Int(row_id as int),
    ]);
    s
}

fn bind_ids(params: &mut Vec<SqlValue>, ids: &Vec<i64>)
    ensures
        values(final(params)@) == values(old(params)@) + id_values(ids@),
{
    let mut i: usize = 0;
    assert(values(params@) =~= values(old(params)@) + id_values(ids@).take(0));
    while i < ids.len()
        invariant
            i <= ids@.len(),
            values(params@) == values(old(params)@) + id_values(ids@).take(i as int),
        decreases ids.len() - i,
    {
        bind(params, SqlValue::Int(ids[i]));
        assert(values(params@) =~= values(old(params)@) + id_values(ids@).take(i as int + 1));
        i = i + 1;
    }
    assert(id_values(ids@).take(ids@.len() as int) =~= id_values(ids@));
}

/// The statement that gives rows a status; none where there are no rows.
pub fn update_statuses(row_ids: &Vec<i64>, status: NotificationStatus, now: &Timestamp) -> (s: Option<
    Statement,
>)
    ensures
        match s {
            None => row_ids@.len() == 0,
            Some(s) => {
                &&& row_ids@.len() > 0
                &&& s.sql@ == "UPDATE notifications SET status = ?, updated_at = ? WHERE id IN ("@
                    + mark_list(row_ids@.len()) + ")"@
                &&& s.bound() == seq![
                    SqlView::Text(status.spec_name()),
                    SqlView::Text(time_text(*now)),
                ] + id_values(row_ids@)
            },
        },
{
    if row_ids.len() == 0 {
        return None;
    }
    let mut s = statement("UPDATE notifications SET status = ?, updated_at = ? WHERE id IN (");
    push_marks(&mut s.sql, row_ids.len());
    s.sql.append(")");
    bind(&mut s.params, SqlValue::Text(status.as_str().to_owned()));
    bind(&mut s.params, SqlValue::Text(now.to_rfc3339()));
    assert(s.bound() =~= seq![SqlView::Text(status.spec_name()), SqlView::Text(time_text(*now))]);
    bind_ids(&mut s.params, row_ids);
    Some(s)
}

/// The statement that deletes rows; none where there are no rows.
pub fn delete_notifications(row_ids: &Vec<i64>) -> (s: Option<Statement>)
    ensures
        match s {
            None => row_ids@.len() == 0,
            Some(s) => {
                &&& row_ids@.len() > 0
                &&& s.sql@ == "DELETE FROM notifications WHERE id IN ("@ + mark_list(
                    row_ids@.len(),
                ) + ")"@
                &&& s.bound() == id_values(row_ids@)
            },
        },
{
    if row_ids.len() == 0 {
        return None;
    }
    let mut s = statement("DELETE FROM notifications WHERE id IN (");
    push_marks(&mut s.sql, row_ids.len());
    s.sql.append(")");
    bind_ids(&mut s.params, row_ids);
    assert(s.bound() =~= id_values(row_ids@));
    Some(s)
}

/// The statement that deletes every row.
pub fn delete_all() -> (s: Statement)
    ensures
        s.sql@ == "DELETE FROM notifications"@,
        s.bound() == Seq::<SqlView>::empty(),
{
    statement("DELETE FROM notifications")
}

/// A number's bits, taken with a sign: a row's number for one that came over the bus.
pub open spec fn signed_bits(id: u64) -> int {
    if id <= i64::MAX {
        id as int
    } else {
        id - 0x1_0000_0000_0000_0000
    }
}

/// A number's bits, taken with a sign.
pub fn to_signed(id: u64) -> (signed: i64)
    ensures
        signed == signed_bits(id),
{
    if id <= i64::MAX as u64 {
        id as i64
    } else {
        let below: u64 = u64::MAX - id;
        -(below as i64) - 1
    }
}

/// The numbers of rows for numbers on the bus.
pub fn to_row_ids(ids: &Vec<u64>) -> (row_ids: Vec<i64>)
    ensures
        row_ids@.len() == ids@.len(),
        forall|i: int| 0 <= i < ids@.len() ==> #[trigger] row_ids@[i] == signed_bits(ids@[i]),
{
    let mut out: Vec<i64> = Vec::new();
    let mut i: usize = 0;
    while i < ids.len()
        invariant
            i <= ids@.len(),
            out@.len() == i,
            forall|j: int| 0 <= j < i ==> #[trigger] out@[j] == signed_bits(ids@[j]),
        decreases ids.len() - i,
    {
        out.push(to_signed(ids[i]));
        i = i + 1;
    }
    out
}

/// The point in time before which rows are too old.
pub open spec fn cutoff(secs: int, nanos: int, max_age_secs: u64) -> Option<(int, int)> {
    time::earlier_time(secs, nanos, signed_bits(max_age_secs))
}

/// The statements that tidy the store: rows older than the age go, and of the rest all but
/// the newest `max_count`. Nothing where the age reaches beyond the calendar.
pub fn cleanup_old(now: &Timestamp, max_age_secs: u64, max_count: i64) -> (plan: Option<
    (Statement, Statement),
>)
    ensures
        plan is None <==> cutoff(now.spec_secs(), now.spec_nanos(), max_age_secs) is None,
        now.spec_nanos() < 1_000_000_000 ==> cutoff(
            now.spec_secs(),
            now.spec_nanos(),
            max_age_secs,
        ) == if time::valid_time(now.spec_secs() - signed_bits(max_age_secs), now.spec_nanos()) {
            Some((now.spec_secs() - signed_bits(max_age_secs), now.spec_nanos()))
        } else {
            None
        },
        plan matches Some(p) ==> {
            &&& p.0.sql@ == "DELETE FROM notifications WHERE created_at < ?"@
            &&& ({
                let oldest = cutoff(now.spec_secs(), now.spec_nanos(), max_age_secs)->0;
                p.0.bound() == seq![SqlView::Text(time::rfc3339_text(oldest.0, oldest.1))]
            })
            &&& p.1.sql@ == "DELETE FROM notifications WHERE id NOT IN (
            SELECT id FROM notifications ORDER BY created_at DESC LIMIT ?
        )"@
            &&& p.1.bound() == seq![SqlView::Int(max_count as int)]
        },
{
    let cutoff = match now.minus_seconds(to_signed(max_age_secs)) {
        Some(t) => t,
        None => {
            return None;
        },
    };
    let mut by_age = statement("DELETE FROM notifications WHERE created_at < ?");
    bind(&mut by_age.params, SqlValue::Text(cutoff.to_rfc3339()));
    let mut by_count = statement(
        "DELETE FROM notifications WHERE id NOT IN (
            SELECT id FROM notifications ORDER BY created_at DESC LIMIT ?
        )",
    );
    bind(&mut by_count.params, SqlValue::Int(max_count));
    assert(by_age.bound() =~= seq![SqlView::Text(time_text(cutoff))]);
    assert(by_count.bound() =~= seq![SqlView::Int(max_count as int)]);
    Some((by_age, by_count))
}

/// The query for a setting of the store.
pub fn get_meta(key: &str) -> (s: Statement)
    ensures
        s.sql@ == "SELECT value FROM meta WHERE key = ?1"@,
        s.bound() == seq![SqlView::Text(key@)],
{
    let mut s = statement("SELECT value FROM meta WHERE key = ?1");
    bind(&mut s.params, SqlValue::Text(key.to_owned()));
    assert(s.bound() =~= seq![SqlView::Text(key@)]);
    s
}

/// The statement that gives a setting of the store its value, whether or not it had one.
pub fn set_meta(key: &str, value: &str) -> (s: Statement)
    ensures
        s.sql@ == "INSERT INTO meta (key, value) VALUES (?1, ?2)
         ON CONFLICT(key) DO UPDATE SET value = excluded.value"@,
        s.bound() == seq![SqlView::Text(key@), SqlView::Text(value@)],
{
    let mut s = statement(
        "INSERT INTO meta (key, value) VALUES (?1, ?2)
         ON CONFLICT(key) DO UPDATE SET value = excluded.value",
    );
    bind(&mut s.params, SqlValue::Text(key.to_owned()));
    bind(&mut s.params, SqlValue::Text(value.to_owned()));
    assert(s.bound() =~= seq![SqlView::Text(key@), SqlView::Text(value@)]);
    s
}

// ---------- the rows behind the keys ----------

/// The query for the number of rows whose content is plain text.
pub fn count_plain() -> (s: Statement)
    ensures
        s.sql@ == "SELECT COUNT(*) FROM notifications WHERE enc_version = 0"@,
        s.bound() == Seq::<SqlView>::empty(),
{
    statement("SELECT COUNT(*) FROM notifications WHERE enc_version = 0")
}

/// The query for the number of rows whose content is sealed.
pub fn count_sealed() -> (s: Statement)
    ensures
        s.sql@ == "SELECT COUNT(*) FROM notifications WHERE enc_version > 0"@,
        s.bound() == Seq::<SqlView>::empty(),
{
    statement("SELECT COUNT(*) FROM notifications WHERE enc_version > 0")
}

/// The statement that deletes the rows whose content is plain text.
pub fn delete_plain() -> (s: Statement)
    ensures
        s.sql@ == "DELETE FROM notifications WHERE enc_version = 0"@,
        s.bound() == Seq::<SqlView>::empty(),
{
    statement("DELETE FROM notifications WHERE enc_version = 0")
}

/// The query for the number and the sealed columns of the rows whose content is sealed.
pub fn select_sealed() -> (s: Statement)
    ensures
        s.sql@
            == "SELECT id, summary_enc, body_enc, hints_enc FROM notifications WHERE enc_version > 0"@,
        s.bound() == Seq::<SqlView>::empty(),
{
    statement(
        "SELECT id, summary_enc, body_enc, hints_enc FROM notifications WHERE enc_version > 0",
    )
}

/// The statement that gives a row its content as plain text, in place of what was sealed.
pub fn write_plain(row: PlainRow) -> (s: Statement)
    ensures
        s.sql@ == "UPDATE notifications SET summary = ?1, body = ?2, hints = ?3,
                summary_enc = NULL, body_enc = NULL, hints_enc = NULL,
                enc_version = 0, key_id = NULL WHERE id = ?4"@,
        s.bound() == seq![
            SqlView::Text(row.summary@),
            SqlView::Text(row.body@),
            SqlView::Text(row.hints@),
            SqlView::Int(row.id as int),
        ],
{
    let params: Vec<SqlValue> = vec![
        SqlValue::Text(row.summary),
        SqlValue::Text(row.body),
        SqlValue::Text(row.hints),
        SqlValue::Int(row.id),
    ];
    let mut s = statement(
        "UPDATE notifications SET summary = ?1, body = ?2, hints = ?3,
                summary_enc = NULL, body_enc = NULL, hints_enc = NULL,
                enc_version = 0, key_id = NULL WHERE id = ?4",
    );
    s.params = params;
    assert(s.bound() =~= seq![
        SqlView::Text(row.summary@),
        SqlView::Text(row.body@),
        SqlView::Text(row.hints@),
        SqlView::Int(row.id as int),
    ]);
    s
}

/// The statement that gives a row its columns as they were sealed under the key of that
/// fingerprint.
pub fn write_resealed(row: SealedRow, key_id: &[u8; 4]) -> (s: Statement)
    ensures
        s.sql@
            == "UPDATE notifications SET summary_enc = ?1, body_enc = ?2, hints_enc = ?3, key_id = ?4 WHERE id = ?5"@,
        s.bound() == seq![
            blob_value(row.summary),
            blob_value(row.body),
            blob_value(row.hints),
            SqlView::Blob(key_id@),
            SqlView::Int(row.id as int),
        ],
{
    let params: Vec<SqlValue> = vec![
        blob_param(row.summary),
        blob_param(row.body),
        blob_param(row.hints),
        SqlValue::Blob(text::bytes_of(key_id.as_slice())),
        SqlValue::Int(row.id),
    ];
    let mut s = statement(
        "UPDATE notifications SET summary_enc = ?1, body_enc = ?2, hints_enc = ?3, key_id = ?4 WHERE id = ?5",
    );
    s.params = params;
    assert(s.bound() =~= seq![
        blob_value(row.summary),
        blob_value(row.body),
        blob_value(row.hints),
        SqlView::Blob(key_id@),
        SqlView::Int(row.id as int),
    ]);
    s
}

} // verus!
