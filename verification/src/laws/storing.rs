//! What the store keeps, what it is asked for and what is found in it.

use crate::encryption;
use crate::encryption::{EncMode, FieldTag};
use crate::notification;
use crate::notification::{ClosedReason, NotificationStatus, NotificationView, Urgency};
use crate::queries;
use crate::queries::{NotificationFilter, SqlView};
use crate::store;
use crate::store::{NewRow, StoredRow};
use crate::text;
use crate::time;
use vstd::prelude::*;

verus! {

// ---------- searching ----------

/// Whether a text stands within another, whatever the case of either.
pub open spec fn stands_in(needle: Seq<char>, text: Seq<char>) -> bool {
    exists|before: Seq<char>, after: Seq<char>|
        #![trigger before + text::lowercase(needle) + after]
        text::lowercase(text) == before + text::lowercase(needle) + after
}

proof fn standing_in_is_being_contained(needle: Seq<char>, text: Seq<char>)
    ensures
        stands_in(needle, text) <==> text::contains(
            text::lowercase(text),
            text::lowercase(needle),
        ),
{
    let pin = text::lowercase(needle);
    let hay = text::lowercase(text);
    if stands_in(needle, text) {
        let (before, after) = choose|before: Seq<char>, after: Seq<char>|
            #![trigger before + text::lowercase(needle) + after]
            hay == before + text::lowercase(needle) + after;
        let i = before.len() as int;
        assert(hay.subrange(i, i + pin.len()) =~= pin);
    }
    if text::contains(hay, pin) {
        let i = choose|i: int|
            0 <= i <= hay.len() - pin.len() && #[trigger] hay.subrange(i, i + pin.len()) == pin;
        let before = hay.take(i);
        let after = hay.skip(i + pin.len());
        assert(hay =~= before + pin + after);
    }
}

/// A search with the secret key at hand finds exactly the notifications that have the text in their
/// summary or in their body, whatever the case.
pub proof fn a_search_looks_at_summary_and_body(
    rows: Seq<StoredRow>,
    f: NotificationFilter,
    mode: EncMode,
    now: (int, int),
    n: NotificationView,
)
    requires
        mode is Unlocked,
        f.search is Some,
        f.limit is None,
        f.offset is None,
    ensures
        queries::answer(rows, f, mode, now).contains(n) <==> {
            &&& stands_in(f.search->0@, n.summary) || stands_in(f.search->0@, n.body)
            &&& exists|i: int|
                0 <= i < rows.len() && n == #[trigger] store::read_row(rows[i], mode, now)
        },
{
    let needle = f.search->0@;
    let all = queries::read_all(rows, mode, now);
    standing_in_is_being_contained(needle, n.summary);
    standing_in_is_being_contained(needle, n.body);
    hits_are_those_that_match(all, needle, n);
    if all.contains(n) {
        let i = choose|i: int| 0 <= i < all.len() && all[i] == n;
        assert(n == store::read_row(rows[i], mode, now));
    }
    if exists|i: int|
        0 <= i < rows.len() && n == #[trigger] store::read_row(rows[i], mode, now) {
        let i = choose|i: int|
            0 <= i < rows.len() && n == #[trigger] store::read_row(rows[i], mode, now);
        assert(all[i] == n);
    }
}

proof fn hits_are_those_that_match(list: Seq<NotificationView>, needle: Seq<char>, n: NotificationView)
    ensures
        queries::hits(list, needle).contains(n) <==> list.contains(n) && queries::matches(
            n,
            needle,
        ),
    decreases list.len(),
{
    reveal(Seq::filter);
    if list.len() > 0 {
        let rest = list.drop_last();
        let last = list.last();
        hits_are_those_that_match(rest, needle, n);
        assert(list =~= rest.push(last));
        contains_of_push(rest, last, n);
        contains_of_push(queries::hits(rest, needle), last, n);
    }
}

proof fn contains_of_push(list: Seq<NotificationView>, e: NotificationView, n: NotificationView)
    ensures
        list.push(e).contains(n) <==> list.contains(n) || e == n,
{
    let more = list.push(e);
    assert(more[list.len() as int] == e);
    if list.contains(n) {
        let i = choose|i: int| 0 <= i < list.len() && list[i] == n;
        assert(more[i] == n);
    }
    if more.contains(n) {
        let i = choose|i: int| 0 <= i < more.len() && more[i] == n;
        if i < list.len() {
            assert(list[i] == n);
        }
    }
}

/// What a search finds in two lists, one after the other, is what it finds in the first and then
/// what it finds in the second: the order is kept, and each notification is judged for itself.
pub proof fn a_search_keeps_the_order(
    a: Seq<NotificationView>,
    b: Seq<NotificationView>,
    needle: Seq<char>,
)
    ensures
        queries::hits(a + b, needle) == queries::hits(a, needle) + queries::hits(b, needle),
    decreases b.len(),
{
    reveal(Seq::filter);
    if b.len() == 0 {
        assert(a + b =~= a);
        assert(queries::hits(a, needle) + queries::hits(b, needle) =~= queries::hits(a, needle));
    } else {
        a_search_keeps_the_order(a, b.drop_last(), needle);
        assert((a + b).drop_last() =~= a + b.drop_last());
        assert((a + b).last() == b.last());
        assert(queries::hits(a + b, needle) =~= queries::hits(a, needle) + queries::hits(
            b,
            needle,
        ));
    }
}

/// A page of a search is as long as the limit allows and the hits last.
pub proof fn a_page_is_filled(
    rows: Seq<StoredRow>,
    f: NotificationFilter,
    mode: EncMode,
    now: (int, int),
)
    requires
        mode is Unlocked,
        f.search is Some,
    ensures
        ({
            let found = queries::hits(queries::read_all(rows, mode, now), f.search->0@).len() as int;
            let start = if f.offset is Some && f.offset->0 > 0 {
                f.offset->0 as int
            } else {
                0
            };
            let left = if start < found {
                found - start
            } else {
                0
            };
            let most = if f.limit is None || f.limit->0 > left {
                left
            } else if f.limit->0 > 0 {
                f.limit->0 as int
            } else {
                0
            };
            queries::answer(rows, f, mode, now).len() == most
        }),
{
}

/// Without the secret key, or without a search, the answer is what the rows read as, each in its
/// place.
pub proof fn an_answer_without_a_search_is_all_rows(
    rows: Seq<StoredRow>,
    f: NotificationFilter,
    mode: EncMode,
    now: (int, int),
)
    requires
        !(mode is Unlocked) || f.search is None,
    ensures
        queries::answer(rows, f, mode, now).len() == rows.len(),
        forall|i: int|
            0 <= i < rows.len() ==> #[trigger] queries::answer(rows, f, mode, now)[i]
                == store::read_row(rows[i], mode, now),
{
}

// ---------- what a query asks for ----------

/// Whether a statement's text and values fall apart into those parts, so that as many values stand
/// before `value` as there are marks before `clause`.
pub open spec fn falls_apart(
    sql: Seq<char>,
    bound: Seq<SqlView>,
    clause: Seq<char>,
    value: Seq<SqlView>,
    sql_before: Seq<char>,
    sql_after: Seq<char>,
    before: Seq<SqlView>,
    after: Seq<SqlView>,
) -> bool {
    &&& sql == sql_before + clause + sql_after
    &&& bound == before + value + after
    &&& queries::marks(sql_before) == before.len()
    &&& queries::marks(clause) == value.len()
}

/// Whether a statement has a clause, and its marks stand for those values.
pub open spec fn asks(
    sql: Seq<char>,
    bound: Seq<SqlView>,
    clause: Seq<char>,
    value: Seq<SqlView>,
) -> bool {
    exists|sql_before: Seq<char>, sql_after: Seq<char>, before: Seq<SqlView>, after: Seq<SqlView>|
        #[trigger]
        falls_apart(sql, bound, clause, value, sql_before, sql_after, before, after)
}

proof fn flat_push<T>(list: Seq<Seq<T>>, e: Seq<T>)
    ensures
        list.push(e).flatten() == list.flatten() + e,
{
    list.push(e).lemma_flatten_and_flatten_alt_are_equivalent();
    list.lemma_flatten_and_flatten_alt_are_equivalent();
    assert(list.push(e).drop_last() =~= list);
}

proof fn seven_parts<T>(
    a: Seq<T>,
    b: Seq<T>,
    c: Seq<T>,
    d: Seq<T>,
    e: Seq<T>,
    f: Seq<T>,
    g: Seq<T>,
)
    ensures
        seq![a, b, c, d, e, f, g].flatten() == a + b + c + d + e + f + g,
{
    let none = Seq::<Seq<T>>::empty();
    assert(none.flatten() =~= Seq::<T>::empty());
    flat_push(none, a);
    flat_push(seq![a], b);
    flat_push(seq![a, b], c);
    flat_push(seq![a, b, c], d);
    flat_push(seq![a, b, c, d], e);
    flat_push(seq![a, b, c, d, e], f);
    flat_push(seq![a, b, c, d, e, f], g);
    assert(none.push(a) =~= seq![a]);
    assert(seq![a].push(b) =~= seq![a, b]);
    assert(seq![a, b].push(c) =~= seq![a, b, c]);
    assert(seq![a, b, c].push(d) =~= seq![a, b, c, d]);
    assert(seq![a, b, c, d].push(e) =~= seq![a, b, c, d, e]);
    assert(seq![a, b, c, d, e].push(f) =~= seq![a, b, c, d, e, f]);
    assert(seq![a, b, c, d, e, f].push(g) =~= seq![a, b, c, d, e, f, g]);
    assert(Seq::<T>::empty() + a =~= a);
}

proof fn part_is_asked_for(ps: Seq<Seq<char>>, vs: Seq<Seq<SqlView>>)
    requires
        ps.len() == vs.len(),
        forall|i: int|
            0 <= i < ps.len() ==> queries::marks(#[trigger] ps[i]) == vs[i].len(),
    ensures
        queries::marks(ps.flatten()) == vs.flatten().len(),
        forall|i: int|
            0 <= i < ps.len() ==> asks(ps.flatten(), vs.flatten(), #[trigger] ps[i], vs[i]),
    decreases ps.len(),
{
    if ps.len() == 0 {
        queries::marks_of_conditions();
        assert(ps.flatten() =~= Seq::<char>::empty());
        assert(vs.flatten() =~= Seq::<SqlView>::empty());
    } else {
        let p = ps.drop_last();
        let v = vs.drop_last();
        let last = ps.last();
        let lastv = vs.last();
        part_is_asked_for(p, v);
        flat_push(p, last);
        flat_push(v, lastv);
        assert(ps =~= p.push(last));
        assert(vs =~= v.push(lastv));
        queries::marks_of_parts(p.flatten(), last);
        assert(queries::marks(ps[ps.len() - 1]) == vs[ps.len() - 1].len());
        assert forall|i: int| 0 <= i < ps.len() implies asks(
            ps.flatten(),
            vs.flatten(),
            #[trigger] ps[i],
            vs[i],
        ) by {
            if i < p.len() {
                assert(p[i] == ps[i] && v[i] == vs[i]);
                let (sb, sa, b, a) = choose|
                    sb: Seq<char>,
                    sa: Seq<char>,
                    b: Seq<SqlView>,
                    a: Seq<SqlView>,
                | #[trigger] falls_apart(p.flatten(), v.flatten(), p[i], v[i], sb, sa, b, a);
                assert(ps.flatten() =~= sb + ps[i] + (sa + last));
                assert(vs.flatten() =~= b + vs[i] + (a + lastv));
                assert(falls_apart(
                    ps.flatten(),
                    vs.flatten(),
                    ps[i],
                    vs[i],
                    sb,
                    sa + last,
                    b,
                    a + lastv,
                ));
            } else {
                let sa = Seq::<char>::empty();
                let a = Seq::<SqlView>::empty();
                assert(ps.flatten() =~= p.flatten() + ps[i] + sa);
                assert(vs.flatten() =~= v.flatten() + vs[i] + a);
                assert(falls_apart(
                    ps.flatten(),
                    vs.flatten(),
                    ps[i],
                    vs[i],
                    p.flatten(),
                    sa,
                    v.flatten(),
                    a,
                ));
            }
        }
    }
}

proof fn seven_are_asked_for(
    p1: Seq<char>,
    p2: Seq<char>,
    p3: Seq<char>,
    p4: Seq<char>,
    p5: Seq<char>,
    p6: Seq<char>,
    p7: Seq<char>,
    v1: Seq<SqlView>,
    v2: Seq<SqlView>,
    v3: Seq<SqlView>,
    v4: Seq<SqlView>,
    v5: Seq<SqlView>,
    v6: Seq<SqlView>,
    v7: Seq<SqlView>,
)
    requires
        queries::marks(p1) == v1.len(),
        queries::marks(p2) == v2.len(),
        queries::marks(p3) == v3.len(),
        queries::marks(p4) == v4.len(),
        queries::marks(p5) == v5.len(),
        queries::marks(p6) == v6.len(),
        queries::marks(p7) == v7.len(),
    ensures
        asks(p1 + p2 + p3 + p4 + p5 + p6 + p7, v1 + v2 + v3 + v4 + v5 + v6 + v7, p1, v1),
        asks(p1 + p2 + p3 + p4 + p5 + p6 + p7, v1 + v2 + v3 + v4 + v5 + v6 + v7, p2, v2),
        asks(p1 + p2 + p3 + p4 + p5 + p6 + p7, v1 + v2 + v3 + v4 + v5 + v6 + v7, p3, v3),
        asks(p1 + p2 + p3 + p4 + p5 + p6 + p7, v1 + v2 + v3 + v4 + v5 + v6 + v7, p4, v4),
        asks(p1 + p2 + p3 + p4 + p5 + p6 + p7, v1 + v2 + v3 + v4 + v5 + v6 + v7, p5, v5),
        asks(p1 + p2 + p3 + p4 + p5 + p6 + p7, v1 + v2 + v3 + v4 + v5 + v6 + v7, p6, v6),
        asks(p1 + p2 + p3 + p4 + p5 + p6 + p7, v1 + v2 + v3 + v4 + v5 + v6 + v7, p7, v7),
{
    let ps = seq![p1, p2, p3, p4, p5, p6, p7];
    let vs = seq![v1, v2, v3, v4, v5, v6, v7];
    seven_parts(p1, p2, p3, p4, p5, p6, p7);
    seven_parts(v1, v2, v3, v4, v5, v6, v7);
    part_is_asked_for(ps, vs);
    assert(ps[0] == p1 && vs[0] == v1);
    assert(ps[1] == p2 && vs[1] == v2);
    assert(ps[2] == p3 && vs[2] == v3);
    assert(ps[3] == p4 && vs[3] == v4);
    assert(ps[4] == p5 && vs[4] == v5);
    assert(ps[5] == p6 && vs[5] == v6);
    assert(ps[6] == p7 && vs[6] == v7);
}

/// Each condition that a filter sets is asked for, with the value that it sets, and no other value
/// stands for its mark.
pub proof fn each_condition_is_asked_for_with_its_value(f: NotificationFilter, skip_search: bool)
    ensures
        ({
            let sql = queries::where_text(f, skip_search);
            let bound = queries::where_values(f, skip_search);
            &&& f.app_name matches Some(t) ==> asks(
                sql,
                bound,
                " AND app_name = ?"@,
                seq![SqlView::Text(t@)],
            )
            &&& f.urgency matches Some(u) ==> asks(
                sql,
                bound,
                " AND urgency = ?"@,
                seq![
                    SqlView::Int(
                        match u {
                            Urgency::Low => 0,
                            Urgency::Normal => 1,
                            Urgency::Critical => 2,
                        },
                    ),
                ],
            )
            &&& f.status matches Some(s) ==> asks(
                sql,
                bound,
                " AND status = ?"@,
                seq![
                    SqlView::Text(
                        match s {
                            NotificationStatus::Unread => "unread"@,
                            NotificationStatus::Read => "read"@,
                            NotificationStatus::Cleared => "cleared"@,
                        },
                    ),
                ],
            )
            &&& f.category matches Some(t) ==> asks(
                sql,
                bound,
                " AND category = ?"@,
                seq![SqlView::Text(t@)],
            )
            &&& (f.search is Some && !skip_search ==> asks(
                sql,
                bound,
                " AND (summary LIKE ? OR body LIKE ?)"@,
                seq![
                    SqlView::Text(seq!['%'] + f.search->0@ + seq!['%']),
                    SqlView::Text(seq!['%'] + f.search->0@ + seq!['%']),
                ],
            ))
            &&& f.since matches Some(t) ==> asks(
                sql,
                bound,
                " AND created_at >= ?"@,
                seq![SqlView::Text(queries::moment_text(t@))],
            )
            &&& f.until matches Some(t) ==> asks(
                sql,
                bound,
                " AND created_at <= ?"@,
                seq![SqlView::Text(queries::moment_text(t@))],
            )
        }),
{
    reveal_strlit("%");
    assert("%"@ =~= seq!['%']);
    let p1 = queries::piece(f.app_name is Some, " AND app_name = ?"@);
    let p2 = queries::piece(f.urgency is Some, " AND urgency = ?"@);
    let p3 = queries::piece(f.status is Some, " AND status = ?"@);
    let p4 = queries::piece(f.category is Some, " AND category = ?"@);
    let p5 = queries::piece(
        queries::searches(f, skip_search),
        " AND (summary LIKE ? OR body LIKE ?)"@,
    );
    let p6 = queries::piece(f.since is Some, " AND created_at >= ?"@);
    let p7 = queries::piece(f.until is Some, " AND created_at <= ?"@);
    let v1 = queries::bound_value(queries::text_value(f.app_name));
    let v2 = queries::bound_value(
        match f.urgency {
            Some(u) => Some(SqlView::Int(u.spec_number() as int)),
            None => None,
        },
    );
    let v3 = queries::bound_value(
        match f.status {
            Some(s) => Some(SqlView::Text(s.spec_name())),
            None => None,
        },
    );
    let v4 = queries::bound_value(queries::text_value(f.category));
    let v5 = queries::search_values(f, skip_search);
    let v6 = queries::bound_value(queries::moment_value(f.since));
    let v7 = queries::bound_value(queries::moment_value(f.until));
    queries::marks_of_conditions();
    assert(queries::marks(p1) == v1.len());
    assert(queries::marks(p2) == v2.len());
    assert(queries::marks(p3) == v3.len());
    assert(queries::marks(p4) == v4.len());
    assert(queries::marks(p5) == v5.len());
    assert(queries::marks(p6) == v6.len());
    assert(queries::marks(p7) == v7.len());
    seven_are_asked_for(p1, p2, p3, p4, p5, p6, p7, v1, v2, v3, v4, v5, v6, v7);
    assert(f.search is Some && !skip_search ==> v5 =~= seq![
        SqlView::Text(seq!['%'] + f.search->0@ + seq!['%']),
        SqlView::Text(seq!['%'] + f.search->0@ + seq!['%']),
    ]);
}

/// A query has no conditions but those that the filter sets.
pub proof fn no_condition_is_added(f: NotificationFilter, skip_search: bool)
    ensures
        queries::where_text(f, skip_search).len() == (if f.app_name is Some {
            " AND app_name = ?"@.len()
        } else {
            0
        }) + (if f.urgency is Some {
            " AND urgency = ?"@.len()
        } else {
            0
        }) + (if f.status is Some {
            " AND status = ?"@.len()
        } else {
            0
        }) + (if f.category is Some {
            " AND category = ?"@.len()
        } else {
            0
        }) + (if f.search is Some && !skip_search {
            " AND (summary LIKE ? OR body LIKE ?)"@.len()
        } else {
            0
        }) + (if f.since is Some {
            " AND created_at >= ?"@.len()
        } else {
            0
        }) + (if f.until is Some {
            " AND created_at <= ?"@.len()
        } else {
            0
        }),
        f.app_name is None && f.urgency is None && f.status is None && f.category is None && (
        f.search is None || skip_search) && f.since is None && f.until is None
            ==> queries::where_text(f, skip_search).len() == 0 && queries::where_values(
            f,
            skip_search,
        ).len() == 0,
{
}

/// Times are bound as the column of times holds them: a text of a moment as that moment's own, and
/// any other text as it is.
pub proof fn a_moment_is_bound_as_the_column_holds_it(text: Seq<char>)
    ensures
        match time::rfc3339_time(text) {
            Some(t) => queries::moment_text(text) == time::rfc3339_text(t.0, t.1),
            None => queries::moment_text(text) == text,
        },
{
}

// ---------- rows ----------

/// Each field of a notification is read from its own column.
pub proof fn each_field_is_read_from_its_column(row: StoredRow, mode: EncMode, now: (int, int))
    ensures
        ({
            let n = store::read_row(row, mode, now);
            &&& n.row_id == Some(row.id)
            &&& n.dbus_id == row.dbus_id
            &&& n.app_name == row.app_name@
            &&& n.app_icon == row.app_icon@
            &&& n.urgency is Low <==> row.urgency % 256 == 0
            &&& n.urgency is Critical <==> row.urgency % 256 == 2
            &&& n.category == row.category@
            &&& n.desktop_entry == row.desktop_entry@
            &&& n.actions.len() == row.actions@.len()
            &&& forall|i: int|
                0 <= i < row.actions@.len() ==> (#[trigger] n.actions[i]).0 == row.actions@[i].id@
                    && n.actions[i].1 == row.actions@[i].label@
            &&& n.status is Read <==> row.status@ == "read"@
            &&& n.status is Cleared <==> row.status@ == "cleared"@
            &&& n.expire_timeout == row.expire_timeout
            &&& n.created_at == match time::rfc3339_time(row.created_at@) {
                Some(t) => t,
                None => now,
            }
            &&& n.updated_at == match time::rfc3339_time(row.updated_at@) {
                Some(t) => t,
                None => now,
            }
            &&& n.closed_reason is Some <==> row.closed_reason is Some && 1
                <= row.closed_reason->0 <= 4
            &&& n.closed_reason == Some(ClosedReason::Expired) <==> row.closed_reason == Some(1u32)
            &&& n.closed_reason == Some(ClosedReason::Dismissed) <==> row.closed_reason == Some(
                2u32,
            )
            &&& n.closed_reason == Some(ClosedReason::ClosedByCall) <==> row.closed_reason == Some(
                3u32,
            )
        }),
{
    reveal_strlit("unread");
    reveal_strlit("read");
    reveal_strlit("cleared");
    assert("unread"@.len() == 6 && "read"@.len() == 4 && "cleared"@.len() == 7);
}

/// With the key at hand that a row is sealed under, each part of the content is what its own column
/// opens to: text where it holds text, the placeholder where it does not open, nothing where it is
/// empty.
pub proof fn content_is_read_from_its_column(row: StoredRow, mode: EncMode, now: (int, int))
    requires
        mode is Unlocked,
        row.enc_version == 1,
        row.key_id is Some && row.key_id->0@ == mode->Unlocked_key_id@,
    ensures
        ({
            let n = store::read_row(row, mode, now);
            let sk = mode->Unlocked_sk@;
            let pk = mode->Unlocked_pk.bytes@;
            &&& is_text_of(
                n.summary,
                row.summary_enc,
                |blob: Seq<u8>| encryption::opened_field(sk, pk, FieldTag::Summary, blob),
            )
            &&& is_text_of(
                n.body,
                row.body_enc,
                |blob: Seq<u8>| encryption::opened_field(sk, pk, FieldTag::Body, blob),
            )
            &&& row.hints_enc matches Some(b) ==> encryption::opened_field(
                sk,
                pk,
                FieldTag::Hints,
                b@,
            ) matches Ok(bytes) ==> vstd::utf8::valid_utf8(bytes) ==> n.hints == store::read_hints(
                vstd::utf8::decode_utf8(bytes),
            )
            &&& row.hints_enc is None ==> n.hints == "{}"@
        }),
{
    assert(store::opens(row, mode));
}

/// Whether a text is what a column gives that `opened` opens.
pub open spec fn is_text_of(
    text: Seq<char>,
    column: Option<Vec<u8>>,
    opened: spec_fn(Seq<u8>) -> Result<Seq<u8>, encryption::EncryptionError>,
) -> bool {
    match column {
        None => text.len() == 0,
        Some(b) => match opened(b@) {
            Ok(bytes) => if vstd::utf8::valid_utf8(bytes) {
                text == vstd::utf8::decode_utf8(bytes)
            } else {
                text == "[encrypted]"@
            },
            Err(_) => text == "[encrypted]"@,
        },
    }
}

/// Each field of a notification is written to its own column.
pub proof fn each_field_is_written_to_its_column(
    row: NewRow,
    notif: NotificationView,
    now: (int, int),
)
    requires
        store::common_columns(row, notif, now),
    ensures
        row.dbus_id == notif.dbus_id,
        row.app_name@ == notif.app_name,
        row.app_icon@ == notif.app_icon,
        row.category@ == notif.category,
        row.desktop_entry@ == notif.desktop_entry,
        row.expire_timeout == notif.expire_timeout,
        notif.urgency is Low <==> row.urgency == 0,
        notif.urgency is Normal <==> row.urgency == 1,
        notif.urgency is Critical <==> row.urgency == 2,
        row.status@ == match notif.status {
            NotificationStatus::Unread => "unread"@,
            NotificationStatus::Read => "read"@,
            NotificationStatus::Cleared => "cleared"@,
        },
        row.created_at@ == time::rfc3339_text(notif.created_at.0, notif.created_at.1),
        row.updated_at@ == time::rfc3339_text(now.0, now.1),
        row.actions@.len() == notif.actions.len(),
        forall|i: int|
            0 <= i < notif.actions.len() ==> (#[trigger] row.actions@[i]).id@ == notif.actions[i].0
                && row.actions@[i].label@ == notif.actions[i].1,
{
    let pairs = notification::action_pairs(row.actions@);
    assert forall|i: int| 0 <= i < notif.actions.len() implies (#[trigger] row.actions@[i]).id@
        == notif.actions[i].0 && row.actions@[i].label@ == notif.actions[i].1 by {
        assert(pairs[i] == notif.actions[i]);
    }
}

/// A sealed row holds none of the content as it is, and a plain row all of it.
pub proof fn sealed_rows_hold_no_text(
    row: NewRow,
    notif: NotificationView,
    pk: Seq<u8>,
    key_id: Seq<u8>,
)
    ensures
        store::sealed_row(row, notif, pk, key_id) ==> {
            &&& row.summary@.len() == 0
            &&& row.body@.len() == 0
            &&& row.hints@.len() == 0
            &&& row.enc_version == 1
            &&& row.summary_enc is Some
            &&& row.body_enc is Some
            &&& row.hints_enc is Some
            &&& row.key_id is Some
            &&& row.key_id->0@ == key_id
        },
        store::plain_row(row, notif) ==> {
            &&& row.summary@ == notif.summary
            &&& row.body@ == notif.body
            &&& row.hints@ == notif.hints
            &&& row.enc_version == 0
            &&& row.summary_enc is None
            &&& row.body_enc is None
            &&& row.hints_enc is None
            &&& row.key_id is None
        },
{
}

/// What is read back of a notification is the notification: content, sender and state are those that
/// were stored.
pub proof fn what_was_stored_is_read_back(
    row: NewRow,
    mode: EncMode,
    notif: NotificationView,
    stored_at: (int, int),
    id: i64,
    later: (int, int),
)
    requires
        store::restores(row, mode, notif, stored_at),
    ensures
        ({
            let n = store::read_row(store::stored(row, id), mode, later);
            &&& n.summary == notif.summary
            &&& n.body == notif.body
            &&& n.hints == store::read_hints(notif.hints)
            &&& n.app_name == notif.app_name
            &&& n.app_icon == notif.app_icon
            &&& n.dbus_id == notif.dbus_id
            &&& n.urgency == notif.urgency
            &&& n.category == notif.category
            &&& n.desktop_entry == notif.desktop_entry
            &&& n.actions == notif.actions
            &&& n.status == notif.status
            &&& n.expire_timeout == notif.expire_timeout
            &&& n.created_at == notif.created_at
            &&& n.updated_at == stored_at
            &&& n.row_id == Some(id)
            &&& n.closed_reason is None
        }),
{
}

/// A row is read as it was written, column by column.
pub proof fn a_row_is_read_as_written(row: NewRow, id: i64)
    ensures
        ({
            let r = store::stored(row, id);
            &&& r.id == id
            &&& r.summary == row.summary
            &&& r.body == row.body
            &&& r.hints == row.hints
            &&& r.app_name == row.app_name
            &&& r.app_icon == row.app_icon
            &&& r.summary_enc == row.summary_enc
            &&& r.body_enc == row.body_enc
            &&& r.hints_enc == row.hints_enc
            &&& r.enc_version == row.enc_version
            &&& r.key_id == row.key_id
        }),
{
}

// ---------- numbers ----------

/// A number keeps its bits when it is taken with a sign: it changes by a multiple of two to the
/// 64th, and those that a sign leaves room for stay as they are.
pub proof fn a_sign_keeps_the_bits(id: u64)
    ensures
        i64::MIN <= queries::signed_bits(id) <= i64::MAX,
        (queries::signed_bits(id) - id) % 0x1_0000_0000_0000_0000 == 0,
        id <= i64::MAX ==> queries::signed_bits(id) == id,
{
}

/// Different numbers on the bus are different rows.
pub proof fn numbers_on_the_bus_are_told_apart(a: u64, b: u64)
    ensures
        queries::signed_bits(a) == queries::signed_bits(b) <==> a == b,
{
}

// ---------- rows that do not open ----------

/// A row that was sealed under another key, or by a version that is not known, reads as the
/// placeholder, with no hints.
pub proof fn a_foreign_row_reads_as_the_placeholder(row: StoredRow, mode: EncMode, now: (int, int))
    requires
        row.enc_version != 0,
        row.enc_version != 1 || row.key_id is None || !(mode is Unlocked) || row.key_id->0@
            != mode->Unlocked_key_id@,
    ensures
        store::read_row(row, mode, now).summary == "[encrypted]"@,
        store::read_row(row, mode, now).body == "[encrypted]"@,
        store::read_row(row, mode, now).hints == "{}"@,
        !store::decrypts(row, mode),
{
}

/// A read counts as a decryption exactly where a column that is there opens with the key at hand.
pub proof fn a_read_decrypts_where_a_column_opens(row: StoredRow, mode: EncMode)
    requires
        mode is Unlocked,
        row.enc_version == 1,
        row.key_id is Some && row.key_id->0@ == mode->Unlocked_key_id@,
    ensures
        ({
            let sk = mode->Unlocked_sk@;
            let pk = mode->Unlocked_pk.bytes@;
            let opens = |tag: FieldTag, column: Option<Vec<u8>>|
                column is Some && encryption::opened_field(sk, pk, tag, column->0@) is Ok;
            store::decrypts(row, mode) <==> opens(FieldTag::Summary, row.summary_enc) || opens(
                FieldTag::Body,
                row.body_enc,
            ) || opens(FieldTag::Hints, row.hints_enc)
        }),
{
    assert(store::opens(row, mode));
}

/// A plain row reads as it is, whoever reads it, and nothing of it is decrypted.
pub proof fn a_plain_row_reads_as_it_is(row: StoredRow, mode: EncMode, now: (int, int))
    requires
        row.enc_version == 0,
    ensures
        store::read_row(row, mode, now).summary == row.summary@,
        store::read_row(row, mode, now).body == row.body@,
        !store::decrypts(row, mode),
        match crate::json::json_value(row.hints@) {
            Some(tree) => store::read_row(row, mode, now).hints == crate::json::json_text(tree),
            None => store::read_row(row, mode, now).hints == "{}"@,
        },
{
}

/// The hints of a notification are kept under their names.
pub proof fn hints_are_kept_under_their_names(hints: Seq<notification::Hint>, i: int)
    requires
        notification::distinct_hints(hints),
        0 <= i < hints.len(),
    ensures
        notification::hints_tree(hints).get(hints[i].key@) == Some(
            crate::json::JsonTree::Text(hints[i].shown@),
        ),
{
    let fields = notification::hints_tree(hints)->Object_0;
    assert forall|a: int, b: int| 0 <= a < b < fields.len() implies (#[trigger] fields[a]).0 != (
    #[trigger] fields[b]).0 by {
        assert(hints[a].key@ != hints[b].key@);
    }
    assert(fields[i] == (hints[i].key@, crate::json::JsonTree::Text(hints[i].shown@)));
    crate::json::fields_are_found(fields, i);
}

} // verus!
