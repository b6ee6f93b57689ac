//! What the screen shows, event by event.

use crate::popup::config::{PopupConfig, Position};
use crate::popup::model::{Notification, PopupState};
use crate::popup::stack;
use crate::popup::stack::{App, Command};
use vstd::prelude::*;

verus! {

// ---------- the screen ----------

/// The windows on the screen and the distances of each to the edges.
pub type Screen = Map<u64, (int, int, int, int)>;

/// The screen after a command.
pub open spec fn after_command(screen: Screen, c: Command) -> Screen {
    match c {
        Command::Close(id) => screen.remove(id),
        Command::Move { id, margin } => if screen.dom().contains(id) {
            screen.insert(id, stack::margin_ints(margin))
        } else {
            screen
        },
        Command::Open { id, width, height, anchor, margin } => screen.insert(
            id,
            stack::margin_ints(margin),
        ),
        _ => screen,
    }
}

/// The screen after commands, in order.
pub open spec fn after_commands(screen: Screen, cs: Seq<Command>) -> Screen
    decreases cs.len(),
{
    if cs.len() == 0 {
        screen
    } else {
        after_command(after_commands(screen, cs.drop_last()), cs.last())
    }
}

/// Where the pop-up at a place of the stack belongs.
pub open spec fn place(cfg: PopupConfig, list: Seq<(u64, PopupState)>, i: int) -> (
    int,
    int,
    int,
    int,
) {
    stack::margin_of(cfg.position, cfg.margin, stack::offset_at(list, i, cfg.gap) as u32)
}

/// Whether the windows on the screen are those of the stack.
pub open spec fn windows_are(screen: Screen, list: Seq<(u64, PopupState)>) -> bool {
    forall|id: u64| #[trigger] screen.dom().contains(id) <==> stack::holds_key(list, id)
}

/// Whether each pop-up of the stack is at its place.
pub open spec fn in_place(screen: Screen, cfg: PopupConfig, list: Seq<(u64, PopupState)>) -> bool {
    forall|i: int| 0 <= i < list.len() ==> screen[(#[trigger] list[i]).0] == place(cfg, list, i)
}

/// Whether the screen shows the stack: a window for each pop-up and no other, each at its
/// place.
pub open spec fn shows(screen: Screen, cfg: PopupConfig, list: Seq<(u64, PopupState)>) -> bool {
    windows_are(screen, list) && in_place(screen, cfg, list)
}

proof fn commands_in_parts(screen: Screen, a: Seq<Command>, b: Seq<Command>)
    ensures
        after_commands(screen, a + b) == after_commands(after_commands(screen, a), b),
    decreases b.len(),
{
    if b.len() == 0 {
        assert(a + b =~= a);
    } else {
        assert((a + b).drop_last() =~= a + b.drop_last());
        assert((a + b).last() == b.last());
        commands_in_parts(screen, a, b.drop_last());
    }
}

proof fn one_command(screen: Screen, c: Command)
    ensures
        after_commands(screen, seq![c]) == after_command(screen, c),
{
    assert(seq![c].drop_last() =~= Seq::<Command>::empty());
    assert(after_commands(screen, Seq::<Command>::empty()) == screen);
}

/// Moving the pop-ups from a place on puts those into place, and touches no other window.
proof fn moves_put_into_place(
    screen: Screen,
    cs: Seq<Command>,
    list: Seq<(u64, PopupState)>,
    start: int,
    cfg: PopupConfig,
    upto: int,
)
    requires
        stack::moves_from(cs, list, start, cfg),
        stack::distinct(list),
        0 <= start,
        0 <= upto <= cs.len(),
        forall|i: int| start <= i < list.len() ==> screen.dom().contains((#[trigger] list[i]).0),
    ensures
        ({
            let out = after_commands(screen, cs.take(upto));
            &&& out.dom() == screen.dom()
            &&& forall|i: int|
                start <= i < start + upto ==> out[(#[trigger] list[i]).0] == place(cfg, list, i)
            &&& forall|id: u64|
                (forall|i: int| start <= i < list.len() ==> (#[trigger] list[i]).0 != id)
                    ==> #[trigger] out[id] == screen[id]
        }),
    decreases upto,
{
    let now = cs.take(upto);
    if upto == 0 {
        assert(after_commands(screen, now) == screen);
    } else {
        moves_put_into_place(screen, cs, list, start, cfg, upto - 1);
        assert(now.drop_last() =~= cs.take(upto - 1));
        assert(now.last() == cs[upto - 1]);
        let at = start + upto - 1;
        assert(stack::is_move(cs[upto - 1], list, at, cfg));
        let prev = after_commands(screen, cs.take(upto - 1));
        let out = after_commands(screen, now);
        assert(screen.dom().contains(list[at].0));
        assert(out == prev.insert(list[at].0, place(cfg, list, at)));
        assert(out.dom() =~= screen.dom());
        assert forall|i: int| start <= i < start + upto implies out[(#[trigger] list[i]).0]
            == place(cfg, list, i) by {
            if i < at {
                assert(list[i].0 != list[at].0);
            }
        }
        assert forall|id: u64|
            (forall|i: int| start <= i < list.len() ==> (#[trigger] list[i]).0 != id) implies
            #[trigger] out[id] == screen[id] by {
            assert(list[at].0 != id);
            assert(prev[id] == screen[id]);
        }
    }
}

// ---------- the stack ----------

/// What is left without a key: the other entries, and nothing else.
pub proof fn without_takes_that_key_alone(list: Seq<(u64, PopupState)>, id: u64, other: u64)
    ensures
        stack::holds_key(stack::without(list, id), other) <==> stack::holds_key(list, other)
            && other != id,
    decreases list.len(),
{
    if list.len() > 0 {
        let rest = list.drop_last();
        without_takes_that_key_alone(rest, id, other);
        key_of_push(rest, list.last(), other);
        assert(list =~= rest.push(list.last()));
        if list.last().0 != id {
            key_of_push(stack::without(rest, id), list.last(), other);
        }
    }
}

proof fn key_of_push(list: Seq<(u64, PopupState)>, e: (u64, PopupState), id: u64)
    ensures
        stack::holds_key(list.push(e), id) <==> stack::holds_key(list, id) || e.0 == id,
{
    let more = list.push(e);
    if stack::holds_key(more, id) {
        let k = choose|k: int| 0 <= k < more.len() && (#[trigger] more[k]).0 == id;
        if k < list.len() {
            assert(list[k].0 == id);
        }
    }
    if stack::holds_key(list, id) {
        let k = choose|k: int| 0 <= k < list.len() && (#[trigger] list[k]).0 == id;
        assert(more[k].0 == id);
    }
    assert(more[list.len() as int] == e);
}

proof fn key_at(list: Seq<(u64, PopupState)>, i: int)
    requires
        0 <= i < list.len(),
    ensures
        stack::holds_key(list, list[i].0),
{
    assert(list[i].0 == list[i].0);
}

/// The whole stack moved into place, on a screen that has its windows and no other.
proof fn moved_stack_is_shown(
    screen: Screen,
    cs: Seq<Command>,
    list: Seq<(u64, PopupState)>,
    cfg: PopupConfig,
)
    requires
        stack::moves_from(cs, list, 0, cfg),
        stack::distinct(list),
        windows_are(screen, list),
    ensures
        shows(after_commands(screen, cs), cfg, list),
{
    assert forall|i: int| 0 <= i < list.len() implies screen.dom().contains(
        (#[trigger] list[i]).0,
    ) by {
        key_at(list, i);
    }
    moves_put_into_place(screen, cs, list, 0, cfg, cs.len() as int);
    assert(cs.take(cs.len() as int) =~= cs);
}

// ---------- pop-ups that go ----------

proof fn leaving_is_shown(
    screen: Screen,
    before: App,
    after: App,
    id: u64,
    told: Seq<Command>,
    cs: Seq<Command>,
)
    requires
        before.wf(),
        after.wf(),
        stack::taken_out(before, id, after),
        stack::leaves(cs, before, after, id, told),
        shows(screen, before.config.popup, stack::entries(before.popups)),
        told.len() <= 1,
        forall|k: int|
            0 <= k < told.len() ==> (#[trigger] told[k]) is Invoke || told[k] is Dismiss,
    ensures
        shows(
            after_commands(screen, cs),
            after.config.popup,
            stack::entries(after.popups),
        ),
{
    let was = stack::entries(before.popups);
    let is = stack::entries(after.popups);
    let cfg = before.config.popup;
    let n = choose|n: int|
        {
            &&& 0 <= n <= cs.len()
            &&& #[trigger] cs.skip(n) == seq![Command::Close(id)] + told
            &&& if stack::holds_key(was, id) {
                stack::moves_from(cs.take(n), is, 0, cfg)
            } else {
                n == 0
            }
        };
    assert(cs =~= cs.take(n) + (seq![Command::Close(id)] + told));
    let moved = after_commands(screen, cs.take(n));
    let closed = moved.remove(id);
    commands_in_parts(screen, cs.take(n), seq![Command::Close(id)] + told);
    commands_in_parts(moved, seq![Command::Close(id)], told);
    one_command(moved, Command::Close(id));
    assert(after_commands(closed, told) == closed) by {
        if told.len() == 1 {
            assert(told =~= seq![told[0]]);
            one_command(closed, told[0]);
        }
    }
    assert(after_commands(screen, cs) == closed);
    assert forall|other: u64|
        stack::holds_key(is, other) <==> stack::holds_key(was, other) && other != id by {
        without_takes_that_key_alone(was, id, other);
    }
    if stack::holds_key(was, id) {
        assert forall|i: int| 0 <= i < is.len() implies screen.dom().contains(
            (#[trigger] is[i]).0,
        ) by {
            key_at(is, i);
        }
        moves_put_into_place(screen, cs.take(n), is, 0, cfg, n);
        assert(cs.take(n).take(n) =~= cs.take(n));
    } else {
        stack::without_absent(was, id);
        assert(is =~= was);
        assert(moved == screen) by {
            assert(cs.take(0) =~= Seq::<Command>::empty());
        }
    }
    assert(windows_are(closed, is)) by {
        assert forall|other: u64| #[trigger]
            closed.dom().contains(other) <==> stack::holds_key(is, other) by {
            assert(moved.dom().contains(other) <==> stack::holds_key(was, other)) by {
                assert(screen.dom().contains(other) <==> stack::holds_key(was, other));
            }
        }
    }
    assert(in_place(closed, cfg, is)) by {
        assert forall|i: int| 0 <= i < is.len() implies closed[(#[trigger] is[i]).0] == place(
            cfg,
            is,
            i,
        ) by {
            key_at(is, i);
            assert(is[i].0 != id);
            assert(moved[is[i].0] == place(cfg, is, i));
        }
    }
}

/// A dismissed pop-up leaves no hole: the commands take its window off the screen, and bring each
/// of the others to its place in the stack that is left.
pub proof fn dismissing_leaves_no_hole(
    screen: Screen,
    before: App,
    id: u64,
    after: App,
    cs: Seq<Command>,
)
    requires
        before.wf(),
        after.wf(),
        stack::dismiss_done(before, id, after, cs),
        shows(screen, before.config.popup, stack::entries(before.popups)),
    ensures
        shows(after_commands(screen, cs), after.config.popup, stack::entries(after.popups)),
        forall|other: u64| #[trigger]
            after_commands(screen, cs).dom().contains(other) <==> screen.dom().contains(other)
                && other != id,
{
    let row = choose|row: Option<i64>| #[trigger]
        stack::row_of(stack::entries(before.popups), id, row) && stack::leaves(
            cs,
            before,
            after,
            id,
            match row {
                Some(row_id) => seq![Command::Dismiss { row_id }],
                None => Seq::<Command>::empty(),
            },
        );
    let told = match row {
        Some(row_id) => seq![Command::Dismiss { row_id }],
        None => Seq::<Command>::empty(),
    };
    leaving_is_shown(screen, before, after, id, told, cs);
    taken_windows(screen, before, id, after, cs);
}

/// A pop-up whose button was pressed leaves no hole.
pub proof fn acting_leaves_no_hole(
    screen: Screen,
    before: App,
    id: u64,
    key: String,
    after: App,
    cs: Seq<Command>,
)
    requires
        before.wf(),
        after.wf(),
        stack::action_done(before, id, key, after, cs),
        shows(screen, before.config.popup, stack::entries(before.popups)),
    ensures
        shows(after_commands(screen, cs), after.config.popup, stack::entries(after.popups)),
        forall|other: u64| #[trigger]
            after_commands(screen, cs).dom().contains(other) <==> screen.dom().contains(other)
                && other != id,
{
    let row = choose|row: Option<i64>| #[trigger]
        stack::row_of(stack::entries(before.popups), id, row) && stack::leaves(
            cs,
            before,
            after,
            id,
            match row {
                Some(row_id) => seq![Command::Invoke { row_id, key }],
                None => Seq::<Command>::empty(),
            },
        );
    let told = match row {
        Some(row_id) => seq![Command::Invoke { row_id, key }],
        None => Seq::<Command>::empty(),
    };
    leaving_is_shown(screen, before, after, id, told, cs);
    taken_windows(screen, before, id, after, cs);
}

proof fn taken_windows(screen: Screen, before: App, id: u64, after: App, cs: Seq<Command>)
    requires
        stack::taken_out(before, id, after),
        windows_are(screen, stack::entries(before.popups)),
        windows_are(after_commands(screen, cs), stack::entries(after.popups)),
    ensures
        forall|other: u64| #[trigger]
            after_commands(screen, cs).dom().contains(other) <==> screen.dom().contains(other)
                && other != id,
{
    assert forall|other: u64| #[trigger]
        after_commands(screen, cs).dom().contains(other) <==> screen.dom().contains(other) && other
            != id by {
        without_takes_that_key_alone(stack::entries(before.popups), id, other);
        assert(screen.dom().contains(other) <==> stack::holds_key(
            stack::entries(before.popups),
            other,
        ));
    }
}

/// A window that the screen has closed leaves no hole: the commands bring each of the others to its
/// place in the stack that is left.
pub proof fn closed_windows_leave_no_hole(
    screen: Screen,
    before: App,
    id: u64,
    after: App,
    cs: Seq<Command>,
)
    requires
        before.wf(),
        after.wf(),
        stack::window_closed_done(before, id, after, cs),
        shows(screen, before.config.popup, stack::entries(before.popups)),
    ensures
        shows(
            after_commands(screen.remove(id), cs),
            after.config.popup,
            stack::entries(after.popups),
        ),
{
    let was = stack::entries(before.popups);
    let is = stack::entries(after.popups);
    let left = screen.remove(id);
    assert(windows_are(left, is)) by {
        assert forall|other: u64| #[trigger]
            left.dom().contains(other) <==> stack::holds_key(is, other) by {
            without_takes_that_key_alone(was, id, other);
            assert(screen.dom().contains(other) <==> stack::holds_key(was, other));
        }
    }
    if stack::holds_key(was, id) {
        moved_stack_is_shown(left, cs, is, before.config.popup);
    } else {
        stack::without_absent(was, id);
        assert(is =~= was);
        assert(after_commands(left, cs) == left);
        assert forall|i: int| 0 <= i < is.len() implies left[(#[trigger] is[i]).0] == place(
            before.config.popup,
            is,
            i,
        ) by {
            key_at(is, i);
            assert(screen[was[i].0] == place(before.config.popup, was, i));
        }
    }
}

// ---------- pop-ups whose time is up ----------

proof fn living_keys(list: Seq<(u64, PopupState)>, now: u64, screen: Screen)
    requires
        stack::distinct(list),
    ensures
        ({
            let living = stack::survivors(list, now);
            let out = after_commands(screen, stack::closes(list, now));
            &&& forall|id: u64| #[trigger]
                out.dom().contains(id) <==> screen.dom().contains(id) && !(stack::holds_key(
                    list,
                    id,
                ) && !stack::holds_key(living, id))
            &&& forall|id: u64| #[trigger] out.dom().contains(id) ==> out[id] == screen[id]
            &&& forall|id: u64| #[trigger]
                stack::holds_key(living, id) ==> stack::holds_key(list, id)
            &&& stack::closes(list, now).len() == 0 ==> living == list
        }),
    decreases list.len(),
{
    let living = stack::survivors(list, now);
    let out = after_commands(screen, stack::closes(list, now));
    if list.len() == 0 {
        assert(out == screen);
    } else {
        let rest = list.drop_last();
        let last = list.last();
        assert(stack::distinct(rest)) by {
            assert forall|i: int, j: int| 0 <= i < j < rest.len() implies (#[trigger] rest[i]).0
                != (#[trigger] rest[j]).0 by {
                assert(rest[i] == list[i] && rest[j] == list[j]);
            }
        }
        living_keys(rest, now, screen);
        assert(!stack::holds_key(rest, last.0)) by {
            assert forall|i: int| 0 <= i < rest.len() implies (#[trigger] rest[i]).0 != last.0 by {
                assert(list[i] == rest[i]);
                assert(list[list.len() - 1] == last);
            }
        }
        assert(list =~= rest.push(last));
        let earlier = stack::survivors(rest, now);
        let prev = after_commands(screen, stack::closes(rest, now));
        if stack::expired(last.1, now) {
            let cs = stack::closes(rest, now).push(Command::Close(last.0));
            assert(cs.drop_last() =~= stack::closes(rest, now));
            assert(out == prev.remove(last.0));
        }
        assert forall|id: u64| #[trigger] stack::holds_key(living, id) implies stack::holds_key(
            list,
            id,
        ) by {
            key_of_push(rest, last, id);
            key_of_push(earlier, last, id);
            if stack::holds_key(earlier, id) {
                assert(stack::holds_key(rest, id));
            }
        }
        assert forall|id: u64| #[trigger]
            out.dom().contains(id) <==> screen.dom().contains(id) && !(stack::holds_key(list, id)
                && !stack::holds_key(living, id)) by {
            key_of_push(rest, last, id);
            key_of_push(earlier, last, id);
            assert(prev.dom().contains(id) <==> screen.dom().contains(id) && !(stack::holds_key(
                rest,
                id,
            ) && !stack::holds_key(earlier, id)));
            if stack::holds_key(earlier, id) {
                assert(stack::holds_key(rest, id));
            }
        }
        assert forall|id: u64| #[trigger] out.dom().contains(id) implies out[id] == screen[id] by {
            assert(prev.dom().contains(id));
        }
        if stack::closes(list, now).len() == 0 {
            assert(living =~= list);
        }
    }
}

/// Pop-ups whose time is up leave no hole: the commands take their windows off the screen, and bring
/// each of the others to its place in the stack that is left. A window that waits to be closed is
/// none of the stack.
pub proof fn ticking_leaves_no_hole(
    screen: Screen,
    before: App,
    now: u64,
    after: App,
    cs: Seq<Command>,
)
    requires
        before.wf(),
        after.wf(),
        stack::tick_done(before, now, after, cs),
        before.pending_close matches Some(p) ==> !stack::holds_key(
            stack::entries(before.popups),
            p,
        ),
        shows(screen, before.config.popup, stack::entries(before.popups)),
    ensures
        shows(after_commands(screen, cs), after.config.popup, stack::entries(after.popups)),
{
    let was = stack::entries(before.popups);
    let is = stack::entries(after.popups);
    let cfg = before.config.popup;
    let due = stack::closes(was, now);
    let pending = match before.pending_close {
        Some(id) => seq![Command::Close(id)],
        None => Seq::<Command>::empty(),
    };
    let head = pending + due;
    let first = after_commands(screen, pending);
    if before.pending_close is Some {
        let p = before.pending_close->0;
        one_command(screen, Command::Close(p));
        assert(!screen.dom().contains(p));
    }
    assert(first =~= screen);
    commands_in_parts(screen, pending, due);
    living_keys(was, now, screen);
    let closed = after_commands(screen, head);
    assert(closed == after_commands(screen, due));
    assert(windows_are(closed, is)) by {
        assert forall|id: u64| #[trigger]
            closed.dom().contains(id) <==> stack::holds_key(is, id) by {
            assert(screen.dom().contains(id) <==> stack::holds_key(was, id));
            if stack::holds_key(is, id) {
                assert(stack::holds_key(was, id));
            }
        }
    }
    let rest = cs.skip(head.len() as int);
    assert(cs =~= head + rest);
    commands_in_parts(screen, head, rest);
    if due.len() > 0 {
        moved_stack_is_shown(closed, rest, is, cfg);
    } else {
        assert(rest =~= Seq::<Command>::empty());
        assert(after_commands(closed, rest) == closed);
        assert(is == was);
        assert forall|i: int| 0 <= i < is.len() implies closed[(#[trigger] is[i]).0] == place(
            cfg,
            is,
            i,
        ) by {
            key_at(is, i);
            assert(closed.dom().contains(is[i].0));
            assert(screen[was[i].0] == place(cfg, was, i));
        }
    }
}

/// What goes at a tick are the pop-ups whose time has come, and no others; those that stay keep
/// their order.
pub proof fn ticking_keeps_the_order(
    before: App,
    now: u64,
    after: App,
    cs: Seq<Command>,
    a: int,
    b: int,
)
    requires
        stack::tick_done(before, now, after, cs),
        0 <= a < b < stack::entries(before.popups).len(),
        match stack::entries(before.popups)[a].1.expires_at {
            Some(t) => t > now,
            None => true,
        },
        match stack::entries(before.popups)[b].1.expires_at {
            Some(t) => t > now,
            None => true,
        },
    ensures
        exists|x: int, y: int|
            {
                &&& 0 <= x < y < stack::entries(after.popups).len()
                &&& #[trigger] stack::entries(after.popups)[x] == stack::entries(before.popups)[a]
                &&& #[trigger] stack::entries(after.popups)[y] == stack::entries(before.popups)[b]
            },
{
    ordered_survivors(stack::entries(before.popups), now, a, b);
}

proof fn ordered_survivors(list: Seq<(u64, PopupState)>, now: u64, a: int, b: int)
    requires
        0 <= a < b < list.len(),
        !stack::expired(list[a].1, now),
        !stack::expired(list[b].1, now),
    ensures
        exists|x: int, y: int|
            {
                &&& 0 <= x < y < stack::survivors(list, now).len()
                &&& #[trigger] stack::survivors(list, now)[x] == list[a]
                &&& #[trigger] stack::survivors(list, now)[y] == list[b]
            },
    decreases list.len(),
{
    let rest = list.drop_last();
    let earlier = stack::survivors(rest, now);
    let out = stack::survivors(list, now);
    if b < rest.len() {
        ordered_survivors(rest, now, a, b);
        let (x, y) = choose|x: int, y: int|
            {
                &&& 0 <= x < y < earlier.len()
                &&& #[trigger] earlier[x] == rest[a]
                &&& #[trigger] earlier[y] == rest[b]
            };
        assert(out[x] == list[a]);
        assert(out[y] == list[b]);
    } else {
        stack::tick_keeps_exactly_the_living(rest, now, rest[a]);
        assert(rest[a] == list[a]);
        assert(rest.contains(rest[a]));
        let x = choose|x: int| 0 <= x < earlier.len() && earlier[x] == rest[a];
        assert(out[x] == list[a]);
        assert(out[earlier.len() as int] == list[b]);
    }
}

// ---------- a new pop-up ----------

/// A new pop-up comes to the edge, and the others move on: after the commands the screen shows the
/// new stack.
pub proof fn arriving_keeps_the_stack_in_place(
    screen: Screen,
    before: App,
    n: Notification,
    id: u64,
    now: u64,
    after: App,
    cs: Seq<Command>,
)
    requires
        before.wf(),
        after.wf(),
        stack::incoming_done(before, n, id, now, after, cs),
        shows(screen, before.config.popup, stack::entries(before.popups)),
    ensures
        shows(after_commands(screen, cs), after.config.popup, stack::entries(after.popups)),
{
    let was = stack::entries(before.popups);
    let is = stack::entries(after.popups);
    let cfg = before.config.popup;
    if stack::suppressed(before, n) {
        assert(after_commands(screen, cs) == screen);
    } else {
        let out = stack::victim(was, cfg.max_visible);
        let stay = stack::after_eviction(was, cfg.max_visible);
        let head = if out is Some {
            seq![Command::Close(was[out->0].0)]
        } else {
            Seq::<Command>::empty()
        };
        stack::victim_is_the_oldest_noncritical(was);
        let left = after_commands(screen, head);
        if out is Some {
            one_command(screen, head[0]);
            stack::without_present(was, out->0);
        }
        assert forall|other: u64| #[trigger]
            left.dom().contains(other) <==> stack::holds_key(stay, other) by {
            assert(screen.dom().contains(other) <==> stack::holds_key(was, other));
            if out is Some {
                without_takes_that_key_alone(was, was[out->0].0, other);
            }
        }
        let moves = cs.subrange(head.len() as int, cs.len() - 1);
        let open = cs.last();
        assert(cs =~= head + (moves + seq![open]));
        commands_in_parts(screen, head, moves + seq![open]);
        commands_in_parts(left, moves, seq![open]);
        let tail = is.skip(1);
        assert forall|i: int| 1 <= i < is.len() implies left.dom().contains(
            (#[trigger] is[i]).0,
        ) by {
            assert(tail[i - 1] == is[i]);
            key_at(tail, i - 1);
            without_takes_that_key_alone(stay, id, is[i].0);
        }
        moves_put_into_place(left, moves, is, 1, cfg, moves.len() as int);
        assert(moves.take(moves.len() as int) =~= moves);
        let moved = after_commands(left, moves);
        one_command(moved, open);
        let done = after_commands(screen, cs);
        assert(done == after_command(moved, open));
        assert(stack::opens_window(open, id, is[0].1.height, cfg));
        assert(stack::offset_at(is, 0, cfg.gap) == 0);
        assert(done == moved.insert(id, place(cfg, is, 0)));
        assert(windows_are(done, is)) by {
            assert forall|other: u64| #[trigger]
                done.dom().contains(other) <==> stack::holds_key(is, other) by {
                without_takes_that_key_alone(stay, id, other);
                assert(left.dom().contains(other) <==> stack::holds_key(stay, other));
                if stack::holds_key(is, other) {
                    let k = choose|k: int| 0 <= k < is.len() && (#[trigger] is[k]).0 == other;
                    if k > 0 {
                        assert(tail[k - 1] == is[k]);
                        key_at(tail, k - 1);
                    }
                }
                if stack::holds_key(tail, other) {
                    let k = choose|k: int| 0 <= k < tail.len() && (#[trigger] tail[k]).0 == other;
                    assert(is[k + 1] == tail[k]);
                    key_at(is, k + 1);
                }
                key_at(is, 0);
            }
        }
        assert forall|i: int| 0 <= i < is.len() implies done[(#[trigger] is[i]).0] == place(
            cfg,
            is,
            i,
        ) by {
            if i > 0 {
                assert(is[0].0 != is[i].0);
            }
        }
    }
}

// ---------- places ----------

/// Pixels that the first pop-ups of a stack take up, with a gap after each.
pub open spec fn pixels(list: Seq<(u64, PopupState)>, gap: u32) -> int
    decreases list.len(),
{
    if list.len() == 0 {
        0
    } else {
        pixels(list.drop_last(), gap) + list.last().1.height + gap
    }
}

/// A pop-up lies as far from the edge as the pop-ups before it take up, where the screen's numbers
/// can say so.
pub proof fn popups_lie_behind_those_before(list: Seq<(u64, PopupState)>, i: int, gap: u32)
    requires
        0 <= i <= list.len(),
        pixels(list.take(i), gap) <= u32::MAX,
    ensures
        stack::offset_at(list, i, gap) == pixels(list.take(i), gap),
        pixels(list.take(i), gap) >= 0,
    decreases i,
{
    if i > 0 {
        assert(list.take(i).drop_last() =~= list.take(i - 1));
        assert(list.take(i).last() == list[i - 1]);
        popups_lie_behind_those_before(list, i - 1, gap);
    }
}

/// The edges that a pop-up clings to are those of the configured corner; it keeps the margin from
/// the one at its side, and the margin and the offset from the one that the stack begins at. The
/// other two distances are 0.
pub proof fn a_corner_fixes_two_edges(pos: Position, edge: u32, offset: u32)
    requires
        edge + offset <= i32::MAX,
    ensures
        ({
            let anchor = stack::anchor_of(pos);
            let margin = stack::margin_of(pos, edge, offset);
            &&& anchor.top <==> pos is TopRight || pos is TopLeft
            &&& anchor.bottom <==> pos is BottomRight || pos is BottomLeft
            &&& anchor.right <==> pos is TopRight || pos is BottomRight
            &&& anchor.left <==> pos is TopLeft || pos is BottomLeft
            &&& margin.0 == if anchor.top {
                edge + offset
            } else {
                0
            }
            &&& margin.1 == if anchor.right {
                edge as int
            } else {
                0
            }
            &&& margin.2 == if anchor.bottom {
                edge + offset
            } else {
                0
            }
            &&& margin.3 == if anchor.left {
                edge as int
            } else {
                0
            }
        }),
{
}

} // verus!
