//! What a pop-up shows, for how long, and what the daemon hears of it.

use crate::popup::layout;
use crate::popup::model::{Notification, PopupState, Urgency};
use crate::popup::rules;
use crate::popup::stack;
use crate::popup::stack::{App, Command};
use vstd::prelude::*;

verus! {

// ---------- content ----------

/// Whether a text is another one, or a beginning of it with an ellipsis behind, or empty.
pub open spec fn shortens(shown: Seq<char>, whole: Seq<char>) -> bool {
    ||| shown == whole
    ||| shown.len() == 0
    ||| exists|n: int| 0 <= n < whole.len() && shown == #[trigger] whole.take(n).push('…')
}

/// What a pop-up shows of a body is the body, or a beginning of it, or nothing.
pub proof fn shown_bodies_shorten(body: Seq<char>, has_actions: bool, width: u32, height: int)
    ensures
        shortens(layout::shown_body(body, has_actions, width, height), body),
{
    layout::shown_body_is_the_longest_that_fits(body, has_actions, width, height);
    let shown = layout::shown_body(body, has_actions, width, height);
    if shown != body && shown.len() > 0 {
        let n = shown.len() - 1;
        assert(shown =~= shown.drop_last().push(shown.last()));
        assert(shown == body.take(n).push('…'));
    }
}

/// A pop-up is for its notification: it has its row, its application and its buttons; with the
/// daemon unlocked its summary too, and of its body as much as there is room for.
pub proof fn a_popup_shows_its_notification(app: App, n: Notification, now: u64, state: PopupState)
    requires
        stack::is_popup_for(app, n, now, state),
    ensures
        state.row_id == n.row_id,
        state.app_name@ == n.app_name@,
        state.actions@ == n.actions@,
        app.daemon_unlocked ==> state.summary@ == n.summary@,
        app.daemon_unlocked ==> shortens(state.body@, n.body@),
        state.height >= app.config.popup.height,
{
    let cfg = app.config.popup;
    shown_bodies_shorten(n.body@, n.actions@.len() > 0, cfg.width, state.height as int);
}

/// A locked daemon's pop-up shows content exactly where neither the rule that decides nor, where
/// that rule is silent, the configuration asks to hide it.
pub proof fn a_locked_popup_hides_where_it_is_asked_to(
    app: App,
    n: Notification,
    now: u64,
    state: PopupState,
)
    requires
        stack::is_popup_for(app, n, now, state),
        !app.daemon_unlocked,
    ensures
        ({
            let rule = rules::first_applying(app.rules@, n);
            let by_rule = match rule {
                Some(r) => r.hide_content_when_locked,
                None => None,
            };
            let asked = by_rule == Some(true) || by_rule is None
                && app.config.popup.hide_content_when_locked;
            &&& asked ==> state.summary@.len() == 0
            &&& asked ==> shortens(state.body@, "New notification"@)
            &&& !asked ==> state.summary@ == n.summary@
            &&& !asked ==> shortens(state.body@, n.body@)
        }),
{
    let cfg = app.config.popup;
    shown_bodies_shorten(n.body@, n.actions@.len() > 0, cfg.width, state.height as int);
    shown_bodies_shorten(
        "New notification"@,
        n.actions@.len() > 0,
        cfg.width,
        state.height as int,
    );
}

/// A pop-up has the urgency that the rule gives it which decides, or else its notification's.
pub proof fn a_popup_is_as_urgent_as_decided(app: App, n: Notification, now: u64, state: PopupState)
    requires
        stack::is_popup_for(app, n, now, state),
    ensures
        ({
            let rule = rules::first_applying(app.rules@, n);
            &&& rule is None ==> state.urgency == n.urgency
            &&& rule matches Some(r) ==> match r.override_urgency {
                Some(u) => state.urgency == u,
                None => state.urgency == n.urgency,
            }
        }),
{
}

// ---------- lifetime ----------

/// The moment that lies that many milliseconds after another, in nanoseconds, as far as the clock
/// goes.
pub open spec fn millis_after(now: u64, millis: int) -> u64 {
    if now + millis * 1_000_000 > u64::MAX {
        u64::MAX
    } else {
        (now + millis * 1_000_000) as u64
    }
}

/// A pop-up goes when the time is over that the deciding rule sets, in seconds; or else the sender,
/// in milliseconds; or else the configuration for its urgency, in seconds. 0 means that it stays.
pub proof fn a_popup_goes_when_its_time_is_over(
    app: App,
    n: Notification,
    now: u64,
    state: PopupState,
)
    requires
        stack::is_popup_for(app, n, now, state),
    ensures
        ({
            let rule = rules::first_applying(app.rules@, n);
            let by_rule = match rule {
                Some(r) => r.override_timeout_secs,
                None => None,
            };
            let by_urgency = if state.urgency is Low {
                app.config.notifications.timeout_low
            } else if state.urgency is Critical {
                app.config.notifications.timeout_critical
            } else {
                app.config.notifications.default_timeout
            };
            &&& by_rule matches Some(s) ==> state.expires_at == if s == 0 {
                None
            } else {
                Some(millis_after(now, s * 1000))
            }
            &&& by_rule is None && n.expire_timeout >= 0 ==> state.expires_at
                == if n.expire_timeout == 0 {
                None
            } else {
                Some(millis_after(now, n.expire_timeout as int))
            }
            &&& by_rule is None && n.expire_timeout < 0 ==> state.expires_at == if by_urgency == 0 {
                None
            } else {
                Some(millis_after(now, by_urgency * 1000))
            }
        }),
{
}

/// A pop-up is on the screen until its moment, and at no tick from then on.
pub proof fn a_popup_stays_until_its_moment(
    before: App,
    now: u64,
    after: App,
    cs: Seq<Command>,
    e: (u64, PopupState),
)
    requires
        stack::tick_done(before, now, after, cs),
        stack::entries(before.popups).contains(e),
    ensures
        stack::entries(after.popups).contains(e) <==> match e.1.expires_at {
            Some(t) => now < t,
            None => true,
        },
{
    stack::tick_keeps_exactly_the_living(stack::entries(before.popups), now, e);
}

// ---------- coming and going ----------

/// A notification that a rule suppresses changes nothing and tells nobody anything; any other gets
/// the first place in the stack.
pub proof fn only_a_rule_keeps_a_popup_away(
    before: App,
    n: Notification,
    id: u64,
    now: u64,
    after: App,
    cs: Seq<Command>,
)
    requires
        stack::incoming_done(before, n, id, now, after, cs),
    ensures
        ({
            let rule = rules::first_applying(before.rules@, n);
            let kept_away = rule is Some && rule->0.suppress;
            &&& kept_away ==> after == before && cs.len() == 0
            &&& !kept_away ==> {
                &&& stack::entries(after.popups).len() > 0
                &&& stack::entries(after.popups)[0].0 == id
                &&& stack::is_popup_for(before, n, now, stack::entries(after.popups)[0].1)
            }
        }),
{
}

proof fn without_is_no_addition(list: Seq<(u64, PopupState)>, id: u64, e: (u64, PopupState))
    ensures
        stack::without(list, id).contains(e) <==> list.contains(e) && e.0 != id,
    decreases list.len(),
{
    if list.len() > 0 {
        let rest = list.drop_last();
        let last = list.last();
        without_is_no_addition(rest, id, e);
        assert(list =~= rest.push(last));
        entry_of_push(rest, last, e);
        entry_of_push(stack::without(rest, id), last, e);
    }
}

proof fn entry_of_push(list: Seq<(u64, PopupState)>, last: (u64, PopupState), e: (u64, PopupState))
    ensures
        list.push(last).contains(e) <==> list.contains(e) || last == e,
{
    let more = list.push(last);
    assert(more[list.len() as int] == last);
    if list.contains(e) {
        let i = choose|i: int| 0 <= i < list.len() && list[i] == e;
        assert(more[i] == e);
    }
    if more.contains(e) {
        let i = choose|i: int| 0 <= i < more.len() && more[i] == e;
        if i < list.len() {
            assert(list[i] == e);
        }
    }
}

/// While there is room, a new pop-up sends no other away.
pub proof fn room_keeps_every_popup(
    before: App,
    n: Notification,
    id: u64,
    now: u64,
    after: App,
    cs: Seq<Command>,
    e: (u64, PopupState),
)
    requires
        stack::incoming_done(before, n, id, now, after, cs),
        stack::entries(before.popups).len() < before.config.popup.max_visible,
        stack::entries(before.popups).contains(e),
        e.0 != id,
    ensures
        stack::entries(after.popups).contains(e),
        forall|k: int|
            0 <= k < cs.len() ==> !((#[trigger] cs[k]) is Close),
{
    let was = stack::entries(before.popups);
    let is = stack::entries(after.popups);
    if !stack::suppressed(before, n) {
        without_is_no_addition(was, id, e);
        let rest = is.skip(1);
        let k = choose|k: int| 0 <= k < rest.len() && rest[k] == e;
        assert(is[k + 1] == e);
        assert forall|k: int| 0 <= k < cs.len() implies !((#[trigger] cs[k]) is Close) by {
            let moves = cs.subrange(0, cs.len() - 1);
            if k < cs.len() - 1 {
                assert(moves[k] == cs[k]);
                assert(stack::is_move(moves[k], is, 1 + k, before.config.popup));
            }
        }
    }
}

/// In a full stack a new pop-up sends one away, and one alone: the oldest that is not critical.
pub proof fn a_full_stack_sends_the_oldest_away(
    before: App,
    n: Notification,
    id: u64,
    now: u64,
    after: App,
    cs: Seq<Command>,
    oldest: int,
)
    requires
        before.wf(),
        stack::incoming_done(before, n, id, now, after, cs),
        !(rules::first_applying(before.rules@, n) is Some && rules::first_applying(
            before.rules@,
            n,
        )->0.suppress),
        stack::entries(before.popups).len() >= before.config.popup.max_visible,
        0 <= oldest < stack::entries(before.popups).len(),
        stack::entries(before.popups)[oldest].1.urgency != Urgency::Critical,
        forall|j: int|
            oldest < j < stack::entries(before.popups).len() ==> (#[trigger] stack::entries(
                before.popups,
            )[j]).1.urgency == Urgency::Critical,
    ensures
        ({
            let was = stack::entries(before.popups);
            let is = stack::entries(after.popups);
            &&& cs.len() > 0 && cs[0] == Command::Close(was[oldest].0)
            &&& was[oldest].0 != id ==> !(is.contains(was[oldest]))
            &&& forall|i: int|
                0 <= i < was.len() && i != oldest && was[i].0 != id ==> is.contains(
                    #[trigger] was[i],
                )
        }),
{
    let was = stack::entries(before.popups);
    let is = stack::entries(after.popups);
    stack::victim_is_the_oldest_noncritical(was);
    let v = stack::oldest_noncritical(was)->0;
    assert(was[v].1.urgency != Urgency::Critical);
    assert(v == oldest);
    let head = seq![Command::Close(was[oldest].0)];
    assert(cs.take(1) =~= head);
    assert(cs[0] == cs.take(1)[0]);
    let stay = was.remove(oldest);
    let rest = is.skip(1);
    assert forall|i: int| 0 <= i < was.len() && i != oldest && was[i].0 != id implies is.contains(
        #[trigger] was[i],
    ) by {
        if i < oldest {
            assert(stay[i] == was[i]);
        } else {
            assert(stay[i - 1] == was[i]);
        }
        assert(stay.contains(was[i]));
        without_is_no_addition(stay, id, was[i]);
        let k = choose|k: int| 0 <= k < rest.len() && rest[k] == was[i];
        assert(is[k + 1] == was[i]);
    }
    if was[oldest].0 != id && is.contains(was[oldest]) {
        let k = choose|k: int| 0 <= k < is.len() && is[k] == was[oldest];
        assert(k > 0);
        assert(rest[k - 1] == was[oldest]);
        without_is_no_addition(stay, id, was[oldest]);
        let j = choose|j: int| 0 <= j < stay.len() && stay[j] == was[oldest];
        if j < oldest {
            assert(was[j].0 != was[oldest].0);
        } else {
            assert(was[j + 1].0 != was[oldest].0);
        }
    }
}

/// A pop-up that is dismissed, acted on or closed goes, and no other does.
pub proof fn that_popup_goes_alone(before: App, id: u64, after: App, e: (u64, PopupState))
    requires
        stack::taken_out(before, id, after),
    ensures
        stack::entries(after.popups).contains(e) <==> stack::entries(before.popups).contains(e)
            && e.0 != id,
        after.config == before.config,
        after.rules == before.rules,
        after.daemon_unlocked == before.daemon_unlocked,
{
    without_is_no_addition(stack::entries(before.popups), id, e);
}

/// Whether a command is for the daemon.
pub open spec fn tells_the_daemon(c: Command) -> bool {
    c is Invoke || c is Dismiss
}

proof fn told_after_leaving(
    cs: Seq<Command>,
    before: App,
    after: App,
    id: u64,
    told: Seq<Command>,
    c: Command,
)
    requires
        stack::leaves(cs, before, after, id, told),
        tells_the_daemon(c),
    ensures
        cs.contains(c) <==> told.contains(c),
{
    let n = choose|n: int|
        {
            &&& 0 <= n <= cs.len()
            &&& #[trigger] cs.skip(n) == seq![Command::Close(id)] + told
            &&& if stack::holds_key(stack::entries(before.popups), id) {
                stack::moves_from(
                    cs.take(n),
                    stack::entries(after.popups),
                    0,
                    before.config.popup,
                )
            } else {
                n == 0
            }
        };
    let tail = seq![Command::Close(id)] + told;
    let rest = cs.skip(n);
    assert(rest == tail);
    assert(rest.len() == cs.len() - n);
    assert(tail.len() == told.len() + 1);
    if told.contains(c) {
        let k = choose|k: int| 0 <= k < told.len() && told[k] == c;
        assert(tail[k + 1] == c);
        assert(rest[k + 1] == cs[n + k + 1]);
        assert(cs[n + k + 1] == c);
    }
    if cs.contains(c) {
        let k = choose|k: int| 0 <= k < cs.len() && cs[k] == c;
        if k < n {
            assert(cs.take(n)[k] == c);
            assert(stack::is_move(
                cs.take(n)[k],
                stack::entries(after.popups),
                k,
                before.config.popup,
            ));
            assert(false);
        } else {
            assert(rest[k - n] == c);
            assert(tail[k - n] == c);
            assert(tail[0] == Command::Close(id));
            assert(k > n);
            assert(told[k - n - 1] == c);
        }
    }
}

proof fn row_of_shown(list: Seq<(u64, PopupState)>, i: int, row: Option<i64>)
    requires
        stack::distinct(list),
        0 <= i < list.len(),
        stack::row_of(list, list[i].0, row),
    ensures
        row == list[i].1.row_id,
{
    assert(stack::holds_key(list, list[i].0));
    let k = choose|k: int|
        0 <= k < list.len() && (#[trigger] list[k]).0 == list[i].0 && list[k].1.row_id == row;
    if k < i {
        assert(list[k].0 != list[i].0);
    } else if i < k {
        assert(list[i].0 != list[k].0);
    }
}

/// The daemon is told to dismiss the notification of the pop-up that was dismissed, once it has a
/// row, and is told nothing else.
pub proof fn the_daemon_hears_of_that_dismissal(
    before: App,
    i: int,
    after: App,
    cs: Seq<Command>,
    c: Command,
)
    requires
        before.wf(),
        0 <= i < stack::entries(before.popups).len(),
        stack::dismiss_done(before, stack::entries(before.popups)[i].0, after, cs),
        tells_the_daemon(c),
    ensures
        cs.contains(c) <==> match stack::entries(before.popups)[i].1.row_id {
            Some(row_id) => c == (Command::Dismiss { row_id }),
            None => false,
        },
{
    let was = stack::entries(before.popups);
    let id = was[i].0;
    let row = choose|row: Option<i64>| #[trigger]
        stack::row_of(was, id, row) && stack::leaves(
            cs,
            before,
            after,
            id,
            match row {
                Some(row_id) => seq![Command::Dismiss { row_id }],
                None => Seq::<Command>::empty(),
            },
        );
    row_of_shown(was, i, row);
    let told = match row {
        Some(row_id) => seq![Command::Dismiss { row_id }],
        None => Seq::<Command>::empty(),
    };
    told_after_leaving(cs, before, after, id, told, c);
    if row is Some {
        assert(told[0] == Command::Dismiss { row_id: row->0 });
    }
}

/// The daemon is told to invoke the action that was pressed, on the notification of the pop-up that
/// it was pressed on, once it has a row, and is told nothing else.
pub proof fn the_daemon_hears_of_that_action(
    before: App,
    i: int,
    key: String,
    after: App,
    cs: Seq<Command>,
    c: Command,
)
    requires
        before.wf(),
        0 <= i < stack::entries(before.popups).len(),
        stack::action_done(before, stack::entries(before.popups)[i].0, key, after, cs),
        tells_the_daemon(c),
    ensures
        cs.contains(c) <==> match stack::entries(before.popups)[i].1.row_id {
            Some(row_id) => c == (Command::Invoke { row_id, key }),
            None => false,
        },
{
    let was = stack::entries(before.popups);
    let id = was[i].0;
    let row = choose|row: Option<i64>| #[trigger]
        stack::row_of(was, id, row) && stack::leaves(
            cs,
            before,
            after,
            id,
            match row {
                Some(row_id) => seq![Command::Invoke { row_id, key }],
                None => Seq::<Command>::empty(),
            },
        );
    row_of_shown(was, i, row);
    let told = match row {
        Some(row_id) => seq![Command::Invoke { row_id, key }],
        None => Seq::<Command>::empty(),
    };
    told_after_leaving(cs, before, after, id, told, c);
    if row is Some {
        assert(told[0] == Command::Invoke { row_id: row->0, key });
    }
}

// ---------- layout ----------

/// Lines with a line feed between each two.
pub open spec fn joined(all: Seq<Seq<char>>) -> Seq<char>
    decreases all.len(),
{
    if all.len() == 0 {
        Seq::empty()
    } else if all.len() == 1 {
        all[0]
    } else {
        joined(all.drop_last()) + seq!['\n'] + all.last()
    }
}

/// The lines of a body are the body: with line feeds between them they give it back, and none holds
/// a line feed.
pub proof fn lines_make_up_the_body(body: Seq<char>)
    ensures
        layout::lines(body).len() > 0,
        joined(layout::lines(body)) == body,
        forall|i: int|
            0 <= i < layout::lines(body).len() ==> !(#[trigger] layout::lines(body)[i]).contains(
                '\n',
            ),
    decreases body.len(),
{
    let all = layout::lines(body);
    if body.len() == 0 {
        assert(joined(all) =~= body);
    } else {
        lines_make_up_the_body(body.drop_last());
        let before = layout::lines(body.drop_last());
        if body.last() == '\n' {
            assert(all.drop_last() =~= before);
            assert(joined(all) =~= body);
        } else {
            let longer = before.last().push(body.last());
            assert(all.drop_last() =~= before.drop_last());
            assert(all.last() == longer);
            assert(!longer.contains('\n')) by {
                assert(!before[before.len() - 1].contains('\n'));
                if longer.contains('\n') {
                    let k = choose|k: int| 0 <= k < longer.len() && longer[k] == '\n';
                    assert(k < before.last().len());
                    assert(before.last()[k] == '\n');
                }
            }
            assert forall|i: int| 0 <= i < all.len() implies !(#[trigger] all[i]).contains(
                '\n',
            ) by {
                if i < all.len() - 1 {
                    assert(all[i] == before[i]);
                }
            }
            if before.len() == 1 {
                assert(before.last() == before[0]);
                assert(all[0] == longer);
            }
            assert(joined(all) =~= body.drop_last().push(body.last()));
            assert(body.drop_last().push(body.last()) =~= body);
        }
    }
}

/// A line takes as few rows as its characters need, and at least one.
pub proof fn a_line_takes_the_rows_it_needs(line: Seq<char>, per_line: int)
    requires
        per_line > 0,
    ensures
        layout::rows(line, per_line) >= 1,
        line.len() <= layout::rows(line, per_line) * per_line,
        line.len() > 0 ==> (layout::rows(line, per_line) - 1) * per_line < line.len(),
        line.len() == 0 ==> layout::rows(line, per_line) == 1,
{
    let n = line.len() as int;
    let r = layout::rows(line, per_line);
    if n > 0 {
        vstd::arithmetic::div_mod::lemma_fundamental_div_mod(n + per_line - 1, per_line);
        let m = (n + per_line - 1) % per_line;
        assert(n <= r * per_line && (r - 1) * per_line < n && r >= 1) by (nonlinear_arith)
            requires
                n > 0,
                per_line > 0,
                n + per_line - 1 == per_line * r + m,
                0 <= m < per_line,
        ;
    } else {
        assert(0 <= 1 * per_line) by (nonlinear_arith)
            requires
                per_line > 0,
        ;
    }
}

/// A pop-up that may be as tall as its content asks for shows the whole body.
pub proof fn a_tall_enough_popup_shows_the_whole_body(
    body: Seq<char>,
    has_actions: bool,
    width: u32,
    min_height: u32,
    max_height: u32,
)
    requires
        layout::wanted_height(body, has_actions, width) <= max_height,
    ensures
        layout::shown_body(
            body,
            has_actions,
            width,
            layout::popup_height(body, has_actions, width, min_height, max_height),
        ) == body,
{
    let rows = layout::body_rows(body, layout::chars_per_line(width));
    let height = layout::popup_height(body, has_actions, width, min_height, max_height);
    if body.len() > 0 {
        rows_are_there(layout::lines(body), layout::chars_per_line(width));
        lines_make_up_the_body(body);
        assert(rows >= 1);
        let budget = height - layout::chrome_height(has_actions);
        assert(budget >= 4 + rows * 16);
        assert((budget - 4) / 16 >= rows);
    } else {
        assert(layout::shown_body(body, has_actions, width, height) =~= body);
    }
}

proof fn rows_are_there(all: Seq<Seq<char>>, per_line: int)
    requires
        per_line > 0,
    ensures
        layout::total_rows(all, per_line) >= all.len(),
    decreases all.len(),
{
    if all.len() > 0 {
        rows_are_there(all.drop_last(), per_line);
        a_line_takes_the_rows_it_needs(all.last(), per_line);
    }
}

/// Each further row of the body asks for as many pixels as every other, and buttons ask for the
/// same whatever the body.
pub proof fn height_grows_with_the_content(a: Seq<char>, b: Seq<char>, has_actions: bool, width: u32)
    requires
        a.len() > 0,
        b.len() > 0,
    ensures
        layout::wanted_height(a, has_actions, width) - layout::wanted_height(
            b,
            has_actions,
            width,
        ) == 16 * (layout::body_rows(a, layout::chars_per_line(width)) - layout::body_rows(
            b,
            layout::chars_per_line(width),
        )),
        layout::wanted_height(a, true, width) == layout::wanted_height(a, false, width) + 34,
        layout::wanted_height(Seq::empty(), true, width) == 94,
        layout::wanted_height(Seq::empty(), false, width) == 60,
{
    lines_make_up_the_body(a);
    lines_make_up_the_body(b);
    rows_are_there(layout::lines(a), layout::chars_per_line(width));
    rows_are_there(layout::lines(b), layout::chars_per_line(width));
}

/// A line holds as many glyphs as the width has room for beside the margins, and 20 where that is
/// less.
pub proof fn a_line_holds_what_the_width_gives(width: u32)
    ensures
        ({
            let per_line = layout::chars_per_line(width);
            &&& per_line >= 20
            &&& per_line > 20 ==> 7 * per_line <= width - 38
            &&& width - 38 < 7 * (per_line + 1)
        }),
{
}

/// The entries without that of a key are in the order that they were in.
pub proof fn without_keeps_the_order(list: Seq<(u64, PopupState)>, id: u64, a: int, b: int)
    requires
        0 <= a < b < list.len(),
        list[a].0 != id,
        list[b].0 != id,
    ensures
        exists|x: int, y: int|
            {
                &&& 0 <= x < y < stack::without(list, id).len()
                &&& #[trigger] stack::without(list, id)[x] == list[a]
                &&& #[trigger] stack::without(list, id)[y] == list[b]
            },
    decreases list.len(),
{
    let rest = list.drop_last();
    let earlier = stack::without(rest, id);
    let out = stack::without(list, id);
    if b < rest.len() {
        without_keeps_the_order(rest, id, a, b);
        let (x, y) = choose|x: int, y: int|
            {
                &&& 0 <= x < y < earlier.len()
                &&& #[trigger] earlier[x] == rest[a]
                &&& #[trigger] earlier[y] == rest[b]
            };
        assert(out[x] == list[a]);
        assert(out[y] == list[b]);
    } else {
        assert(rest[a] == list[a]);
        assert(rest.contains(rest[a]));
        without_is_no_addition(rest, id, rest[a]);
        let x = choose|x: int| 0 <= x < earlier.len() && earlier[x] == rest[a];
        assert(out[x] == list[a]);
        assert(out[earlier.len() as int] == list[b]);
    }
}

/// What a pop-up shows has room in it: with what is shown in place of the body, the content asks for
/// no more than the height.
pub proof fn what_is_shown_has_room(body: Seq<char>, has_actions: bool, width: u32, height: int)
    ensures
        ({
            let shown = layout::shown_body(body, has_actions, width, height);
            shown.len() > 0 ==> layout::wanted_height(shown, has_actions, width) <= height
        }),
{
    layout::shown_body_is_the_longest_that_fits(body, has_actions, width, height);
    let shown = layout::shown_body(body, has_actions, width, height);
    if shown.len() > 0 {
        let rows = layout::body_rows(shown, layout::chars_per_line(width));
        let fit = layout::fitting_rows(height, has_actions);
        let budget = height - layout::chrome_height(has_actions);
        assert(rows <= fit);
        assert(16 * fit <= budget - 4);
    }
}

/// A pop-up is as tall as its content asks for, where that is within the limits.
pub proof fn a_popup_is_as_tall_as_asked(
    body: Seq<char>,
    has_actions: bool,
    width: u32,
    min_height: u32,
    max_height: u32,
)
    requires
        min_height <= layout::wanted_height(body, has_actions, width) <= max_height,
    ensures
        layout::popup_height(body, has_actions, width, min_height, max_height)
            == layout::wanted_height(body, has_actions, width),
{
}

/// Every line takes its own rows, whatever the others take.
pub proof fn every_line_takes_its_rows(before: Seq<Seq<char>>, line: Seq<char>, per_line: int)
    ensures
        layout::total_rows(before.push(line), per_line) == layout::total_rows(before, per_line)
            + layout::rows(line, per_line),
        layout::body_rows(Seq::empty(), per_line) == 0,
{
    assert(before.push(line).drop_last() =~= before);
}

} // verus!
