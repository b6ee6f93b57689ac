//! What each event does to the pop-ups, from call to call.

use crate::laws::popups;
use crate::laws::showing;
use crate::popup::config::{AppConfig, PopupRule, Position};
use crate::popup::layout;
use crate::popup::model::{Notification, Urgency};
use crate::popup::rules;
use crate::popup::rules::{PopupRules, RuleDecision};
use crate::popup::stack;
use crate::popup::stack::{Anchor, App, Command, Event, Margin};
use vstd::prelude::*;

verus! {

/// Whether the screen is in step with the program: it has a window for each pop-up of the stack and
/// no other, each at its place, and none waits to be closed.
pub open spec fn in_step(screen: popups::Screen, app: App) -> bool {
    &&& app.wf()
    &&& app.pending_close is None
    &&& popups::shows(screen, app.config.popup, stack::entries(app.popups))
}

/// The screen once an event has happened, before anything is told: a window that was closed is gone.
pub open spec fn after_event(screen: popups::Screen, event: Event) -> popups::Screen {
    match event {
        Event::WindowClosed(id) => screen.remove(id),
        _ => screen,
    }
}

/// At the start the empty screen is in step.
pub proof fn the_program_starts_in_step(config: AppConfig, app: App)
    requires
        call_ensures(App::new, (config,), app),
    ensures
        in_step(Map::empty(), app),
        app.config == config,
        app.daemon_unlocked,
{
    let screen: popups::Screen = Map::empty();
    let list = stack::entries(app.popups);
    assert forall|id: u64| #[trigger] screen.dom().contains(id) <==> stack::holds_key(list, id) by {
        assert(!stack::holds_key(list, id));
    }
}

/// Whatever happens, the screen stays in step: once the commands are carried out, it has a window for
/// each pop-up of the new stack and no other, each at its place.
pub proof fn every_event_keeps_the_screen_in_step(
    screen: popups::Screen,
    app: &mut App,
    event: Event,
    fresh: u64,
    now: u64,
    cs: Vec<Command>,
)
    requires
        call_ensures(App::update, (app, event, fresh, now), cs),
        in_step(screen, *old(app)),
    ensures
        in_step(popups::after_commands(after_event(screen, event), cs@), *final(app)),
{
    let before = *old(app);
    let after = *final(app);
    match event {
        Event::Incoming(n) => {
            popups::arriving_keeps_the_stack_in_place(screen, before, n, fresh, now, after, cs@);
        },
        Event::Tick => {
            popups::ticking_leaves_no_hole(screen, before, now, after, cs@);
        },
        Event::ActionClicked(id, key) => {
            popups::acting_leaves_no_hole(screen, before, id, key, after, cs@);
        },
        Event::Dismiss(id) => {
            popups::dismissing_leaves_no_hole(screen, before, id, after, cs@);
        },
        Event::ActionResult(r) => {},
        Event::WindowClosed(id) => {
            popups::closed_windows_leave_no_hole(screen, before, id, after, cs@);
        },
        Event::DaemonUnlockedChanged(unlocked) => {},
    }
}

/// A dismissed pop-up leaves no hole.
pub proof fn a_dismissal_keeps_the_screen_in_step(
    screen: popups::Screen,
    app: &mut App,
    id: u64,
    cs: Vec<Command>,
)
    requires
        call_ensures(App::handle_dismiss, (app, id), cs),
        in_step(screen, *old(app)),
    ensures
        in_step(popups::after_commands(screen, cs@), *final(app)),
        !popups::after_commands(screen, cs@).dom().contains(id),
{
    popups::dismissing_leaves_no_hole(screen, *old(app), id, *final(app), cs@);
}

/// A pop-up whose button was pressed leaves no hole.
pub proof fn an_action_keeps_the_screen_in_step(
    screen: popups::Screen,
    app: &mut App,
    id: u64,
    key: String,
    cs: Vec<Command>,
)
    requires
        call_ensures(App::handle_action, (app, id, key), cs),
        in_step(screen, *old(app)),
    ensures
        in_step(popups::after_commands(screen, cs@), *final(app)),
        !popups::after_commands(screen, cs@).dom().contains(id),
{
    popups::acting_leaves_no_hole(screen, *old(app), id, key, *final(app), cs@);
}

/// A tick leaves no hole, and no pop-up whose time is over.
pub proof fn a_tick_keeps_the_screen_in_step(
    screen: popups::Screen,
    app: &mut App,
    now: u64,
    cs: Vec<Command>,
    i: int,
)
    requires
        call_ensures(App::handle_tick, (app, now), cs),
        in_step(screen, *old(app)),
        0 <= i < stack::entries(old(app).popups).len(),
    ensures
        in_step(popups::after_commands(screen, cs@), *final(app)),
        stack::entries(final(app).popups).contains(stack::entries(old(app).popups)[i])
            <==> match stack::entries(old(app).popups)[i].1.expires_at {
            Some(t) => now < t,
            None => true,
        },
{
    let was = stack::entries(old(app).popups);
    popups::ticking_leaves_no_hole(screen, *old(app), now, *final(app), cs@);
    assert(was.contains(was[i]));
    showing::a_popup_stays_until_its_moment(*old(app), now, *final(app), cs@, was[i]);
}

/// A window that was closed leaves no hole.
pub proof fn a_closed_window_keeps_the_screen_in_step(
    screen: popups::Screen,
    app: &mut App,
    id: u64,
    cs: Vec<Command>,
)
    requires
        call_ensures(App::handle_window_closed, (app, id), cs),
        in_step(screen, *old(app)),
    ensures
        in_step(popups::after_commands(screen.remove(id), cs@), *final(app)),
{
    popups::closed_windows_leave_no_hole(screen, *old(app), id, *final(app), cs@);
}

/// A notification that no rule suppresses gets a window, and the pop-up at the edge shows it.
pub proof fn an_arrival_is_shown(
    screen: popups::Screen,
    app: &mut App,
    n: Notification,
    id: u64,
    now: u64,
    cs: Vec<Command>,
)
    requires
        call_ensures(App::handle_incoming, (app, n, id, now), cs),
        in_step(screen, *old(app)),
        old(app).rules@.len() == 0,
        old(app).daemon_unlocked,
    ensures
        in_step(popups::after_commands(screen, cs@), *final(app)),
        popups::after_commands(screen, cs@).dom().contains(id),
        ({
            let list = stack::entries(final(app).popups);
            let shown = list[0].1;
            &&& list.len() > 0
            &&& list[0].0 == id
            &&& shown.row_id == n.row_id
            &&& shown.app_name@ == n.app_name@
            &&& shown.summary@ == n.summary@
            &&& showing::shortens(shown.body@, n.body@)
            &&& shown.actions@ == n.actions@
            &&& shown.urgency == n.urgency
            &&& n.expire_timeout == 0 ==> shown.expires_at is None
            &&& n.expire_timeout > 0 ==> shown.expires_at == Some(
                showing::millis_after(now, n.expire_timeout as int),
            )
        }),
{
    let before = *old(app);
    let after = *final(app);
    let list = stack::entries(after.popups);
    popups::arriving_keeps_the_stack_in_place(screen, before, n, id, now, after, cs@);
    showing::a_popup_shows_its_notification(before, n, now, list[0].1);
    showing::a_popup_goes_when_its_time_is_over(before, n, now, list[0].1);
    assert(stack::holds_key(list, list[0].0));
}

/// What the daemon is told of a dismissal is that of the notification that the pop-up was for.
pub proof fn a_dismissal_reaches_the_daemon(
    app: &mut App,
    i: int,
    id: u64,
    cs: Vec<Command>,
    c: Command,
)
    requires
        call_ensures(App::handle_dismiss, (app, id), cs),
        old(app).wf(),
        0 <= i < stack::entries(old(app).popups).len(),
        id == stack::entries(old(app).popups)[i].0,
        c is Invoke || c is Dismiss,
    ensures
        cs@.contains(c) <==> match stack::entries(old(app).popups)[i].1.row_id {
            Some(row_id) => c == (Command::Dismiss { row_id }),
            None => false,
        },
{
    showing::the_daemon_hears_of_that_dismissal(*old(app), i, *final(app), cs@, c);
}

/// What the daemon is told of an action is its key, and the notification that the pop-up was for.
pub proof fn an_action_reaches_the_daemon(
    app: &mut App,
    i: int,
    id: u64,
    key: String,
    cs: Vec<Command>,
    c: Command,
)
    requires
        call_ensures(App::handle_action, (app, id, key), cs),
        old(app).wf(),
        0 <= i < stack::entries(old(app).popups).len(),
        id == stack::entries(old(app).popups)[i].0,
        c is Invoke || c is Dismiss,
    ensures
        cs@.contains(c) <==> match stack::entries(old(app).popups)[i].1.row_id {
            Some(row_id) => c == (Command::Invoke { row_id, key }),
            None => false,
        },
{
    showing::the_daemon_hears_of_that_action(*old(app), i, key, *final(app), cs@, c);
}

/// A rule that suppresses, and whose conditions a notification meets, keeps its pop-up away.
pub proof fn a_suppressed_notification_is_not_shown(
    app: &mut App,
    n: Notification,
    id: u64,
    now: u64,
    cs: Vec<Command>,
)
    requires
        call_ensures(App::handle_incoming, (app, n, id, now), cs),
        old(app).wf(),
        old(app).rules@.len() == 1,
        rules::first_applying(old(app).rules@, n) is Some,
        old(app).rules@[0].suppress,
    ensures
        *final(app) == *old(app),
        cs@.len() == 0,
{
    reveal_with_fuel(rules::first_applying, 2);
}

/// The lifetime of a pop-up in nanoseconds: a rule's seconds, or else the sender's milliseconds, or
/// else the seconds configured for the urgency.
pub proof fn a_lifetime_is_that_of_the_first_to_say(
    app: App,
    urgency: Urgency,
    by_rule: Option<u32>,
    expire_timeout: i32,
    t: Option<u64>,
)
    requires
        call_ensures(App::timeout_for, (&app, urgency, by_rule, expire_timeout), t),
    ensures
        by_rule matches Some(s) ==> (t is None <==> s == 0) && (s > 0 ==> t->0 == s
            * 1_000_000_000),
        by_rule is None && expire_timeout >= 0 ==> (t is None <==> expire_timeout == 0) && (
        expire_timeout > 0 ==> t->0 == expire_timeout * 1_000_000),
        by_rule is None && expire_timeout < 0 && urgency is Normal ==> (t is None
            <==> app.config.notifications.default_timeout == 0) && (
        app.config.notifications.default_timeout > 0 ==> t->0
            == app.config.notifications.default_timeout * 1_000_000_000),
        by_rule is None && expire_timeout < 0 && urgency is Low ==> (t is None
            <==> app.config.notifications.timeout_low == 0) && (
        app.config.notifications.timeout_low > 0 ==> t->0 == app.config.notifications.timeout_low
            * 1_000_000_000),
        by_rule is None && expire_timeout < 0 && urgency is Critical ==> (t is None
            <==> app.config.notifications.timeout_critical == 0) && (
        app.config.notifications.timeout_critical > 0 ==> t->0
            == app.config.notifications.timeout_critical * 1_000_000_000),
{
}

/// A pop-up clings to the edges of its corner, and keeps its distances from them.
pub proof fn a_popup_clings_to_its_corner(
    pos: Position,
    edge: u32,
    offset: u32,
    out: (Anchor, Margin),
)
    requires
        call_ensures(stack::anchor_and_margin, (pos, edge, offset), out),
        edge + offset <= i32::MAX,
    ensures
        out.0.top == (pos is TopRight || pos is TopLeft),
        out.0.bottom == !out.0.top,
        out.0.right == (pos is TopRight || pos is BottomRight),
        out.0.left == !out.0.right,
        ({
            let m = stack::margin_ints(out.1);
            &&& m.0 == if out.0.top {
                edge + offset
            } else {
                0
            }
            &&& m.2 == if out.0.bottom {
                edge + offset
            } else {
                0
            }
            &&& m.1 == if out.0.right {
                edge as int
            } else {
                0
            }
            &&& m.3 == if out.0.left {
                edge as int
            } else {
                0
            }
        }),
{
    popups::a_corner_fixes_two_edges(pos, edge, offset);
}

/// A layout keeps to its limits and shows the body, or a beginning of it, or nothing.
pub proof fn a_layout_keeps_to_its_limits(
    body: &str,
    has_actions: bool,
    width: u32,
    min_height: u32,
    max_height: u32,
    out: (u32, String),
)
    requires
        call_ensures(
            layout::compute_layout,
            (body, has_actions, width, min_height, max_height),
            out,
        ),
        min_height <= max_height,
    ensures
        min_height <= out.0 <= max_height,
        showing::shortens(out.1@, body@),
{
    layout::height_is_within_limits(body@, has_actions, width, min_height, max_height);
    showing::shown_bodies_shorten(body@, has_actions, width, out.0 as int);
}

/// A rule on pop-ups decides nothing where one of its conditions is not met.
pub proof fn a_popup_rule_needs_every_condition(
    list: Vec<PopupRule>,
    engine: PopupRules,
    n: Notification,
    d: RuleDecision,
)
    requires
        call_ensures(PopupRules::new, (&list,), engine),
        call_ensures(PopupRules::evaluate, (&engine, &n), d),
        list@.len() == 1,
        crate::laws::deciding::unmet(list@[0].app_name, n.app_name@)
            || crate::laws::deciding::unmet(list@[0].summary, n.summary@)
            || crate::laws::deciding::unmet(list@[0].body, n.body@) || (list@[0].urgency is Some
            && list@[0].urgency->0 != n.urgency),
    ensures
        d.matched is None,
        !d.suppress,
        d.override_urgency is None,
        d.override_timeout_secs is None,
        d.hide_content_when_locked is None,
{
    assert(list@ =~= seq![list@[0]]);
    crate::laws::deciding::one_unmet_condition_keeps_a_popup_rule_off(list@[0], n);
}

/// The window that a new pop-up gets is as wide as configured and as tall as the pop-up, and clings to
/// the configured corner; no other window is opened.
pub proof fn a_window_has_the_size_of_its_popup(
    app: &mut App,
    n: Notification,
    id: u64,
    now: u64,
    cs: Vec<Command>,
    k: int,
)
    requires
        call_ensures(App::handle_incoming, (app, n, id, now), cs),
        old(app).wf(),
        0 <= k < cs@.len(),
    ensures
        cs@[k] is Open <==> k == cs@.len() - 1,
        cs@[k] matches Command::Open { id: window, width, height, anchor, margin } ==> {
            &&& window == id
            &&& width == old(app).config.popup.width
            &&& stack::entries(final(app).popups).len() > 0
            &&& height == stack::entries(final(app).popups)[0].1.height
            &&& anchor.top <==> old(app).config.popup.position is TopRight || old(
                app,
            ).config.popup.position is TopLeft
            &&& anchor.left <==> old(app).config.popup.position is TopLeft || old(
                app,
            ).config.popup.position is BottomLeft
            &&& anchor.bottom == !anchor.top
            &&& anchor.right == !anchor.left
        },
{
    let was = stack::entries(old(app).popups);
    let cfg = old(app).config.popup;
    let out = stack::victim(was, cfg.max_visible);
    let head = if out is Some {
        seq![Command::Close(was[out->0].0)]
    } else {
        Seq::<Command>::empty()
    };
    if k < head.len() {
        assert(cs@.take(head.len() as int)[k] == cs@[k]);
    } else if k < cs@.len() - 1 {
        let moves = cs@.subrange(head.len() as int, cs@.len() - 1);
        assert(moves[k - head.len()] == cs@[k]);
        assert(stack::is_move(
            moves[k - head.len()],
            stack::entries(final(app).popups),
            1 + (k - head.len()),
            cfg,
        ));
    } else {
        assert(cs@[k] == cs@.last());
    }
}

/// Word from the daemon that it was locked or unlocked changes nothing but what is known of it.
pub proof fn word_of_the_lock_changes_nothing_else(
    app: &mut App,
    unlocked: bool,
    fresh: u64,
    now: u64,
    cs: Vec<Command>,
)
    requires
        call_ensures(
            App::update,
            (app, Event::DaemonUnlockedChanged(unlocked), fresh, now),
            cs,
        ),
    ensures
        final(app).daemon_unlocked == unlocked,
        final(app).popups == old(app).popups,
        final(app).config == old(app).config,
        final(app).rules == old(app).rules,
        cs@.len() == 0,
{
}

/// A window that waits to be closed is closed at the next tick, and waits no longer.
pub proof fn a_waiting_window_is_closed(app: &mut App, now: u64, cs: Vec<Command>)
    requires
        call_ensures(App::handle_tick, (app, now), cs),
        old(app).pending_close is Some,
    ensures
        cs@.contains(Command::Close(old(app).pending_close->0)),
        final(app).pending_close is None,
{
    let due = stack::closes(stack::entries(old(app).popups), now);
    let head = seq![Command::Close(old(app).pending_close->0)] + due;
    assert(cs@.take(head.len() as int)[0] == head[0]);
    assert(cs@[0] == Command::Close(old(app).pending_close->0));
}

/// The pop-ups that stay keep their order when one is taken out.
pub proof fn the_others_keep_their_order(
    app: &mut App,
    id: u64,
    cs: Vec<Command>,
    a: int,
    b: int,
)
    requires
        call_ensures(App::handle_dismiss, (app, id), cs),
        old(app).wf(),
        0 <= a < b < stack::entries(old(app).popups).len(),
        stack::entries(old(app).popups)[a].0 != id,
        stack::entries(old(app).popups)[b].0 != id,
    ensures
        exists|x: int, y: int|
            {
                &&& 0 <= x < y < stack::entries(final(app).popups).len()
                &&& #[trigger] stack::entries(final(app).popups)[x] == stack::entries(
                    old(app).popups,
                )[a]
                &&& #[trigger] stack::entries(final(app).popups)[y] == stack::entries(
                    old(app).popups,
                )[b]
            },
{
    showing::without_keeps_the_order(stack::entries(old(app).popups), id, a, b);
}

/// Room is made by sending the oldest pop-up away that is not critical, only in a full stack, and only
/// where there is one.
pub proof fn room_is_made_in_a_full_stack(app: &mut App, closed: Option<u64>)
    requires
        call_ensures(App::evict_if_needed, (app,), closed),
        old(app).wf(),
    ensures
        stack::entries(old(app).popups).len() < old(app).config.popup.max_visible
            ==> closed is None,
        (forall|i: int|
            0 <= i < stack::entries(old(app).popups).len() ==> (#[trigger] stack::entries(
                old(app).popups,
            )[i]).1.urgency is Critical) ==> closed is None,
        closed is None ==> stack::entries(final(app).popups) == stack::entries(old(app).popups),
        closed is Some ==> stack::entries(final(app).popups).len() + 1 == stack::entries(
            old(app).popups,
        ).len() && !stack::holds_key(stack::entries(final(app).popups), closed->0),
{
    let was = stack::entries(old(app).popups);
    stack::victim_is_the_oldest_noncritical(was);
    if closed is Some {
        let v = stack::victim(was, old(app).config.popup.max_visible)->0;
        stack::without_present(was, v);
        stack::without_keeps(was, was[v].0);
    }
}

/// Moving the pop-ups from a place on moves each of them once, to its place, and none before.
pub proof fn moves_are_one_for_each(app: App, start: usize, cs: Vec<Command>, k: int)
    requires
        call_ensures(App::relayout_tasks, (&app, start), cs),
        0 <= k < cs@.len(),
    ensures
        start + cs@.len() == stack::entries(app.popups).len(),
        cs@[k] matches Command::Move { id, margin } && id == stack::entries(app.popups)[start
            + k].0 && stack::margin_ints(margin) == popups::place(
            app.config.popup,
            stack::entries(app.popups),
            start + k,
        ),
{
    assert(stack::is_move(cs@[k], stack::entries(app.popups), start + k, app.config.popup));
}

/// A rule on pop-ups whose conditions are all met decides as it is configured, and under its name.
pub proof fn a_popup_rule_decides_as_configured(
    list: Vec<PopupRule>,
    engine: PopupRules,
    n: Notification,
    d: RuleDecision,
)
    requires
        call_ensures(PopupRules::new, (&list,), engine),
        call_ensures(PopupRules::evaluate, (&engine, &n), d),
        list@.len() == 1,
        engine@.len() == 1,
        crate::laws::deciding::met(list@[0].app_name, n.app_name@),
        crate::laws::deciding::met(list@[0].summary, n.summary@),
        crate::laws::deciding::met(list@[0].body, n.body@),
        list@[0].urgency is Some ==> list@[0].urgency->0 == n.urgency,
    ensures
        d.suppress == list@[0].suppress,
        d.override_urgency == list@[0].override_urgency,
        d.override_timeout_secs == list@[0].override_timeout_secs,
        d.hide_content_when_locked == list@[0].hide_content_when_locked,
        d.matched is Some,
        list@[0].name@.len() > 0 ==> d.matched->0@ == list@[0].name@,
        list@[0].name@.len() == 0 ==> d.matched->0@ == "(unnamed)"@,
{
    assert(list@ =~= seq![list@[0]]);
    rules::every_rule_is_used_or_spoken_of(list@);
    crate::laws::deciding::all_met_conditions_make_a_popup_rule_decide(list@[0], n);
    reveal_with_fuel(rules::usable_rules, 2);
    reveal_with_fuel(rules::first_applying, 2);
    assert(seq![list@[0]].drop_last() =~= Seq::<PopupRule>::empty());
}

// ---------- events, as they come ----------

/// The program starts with the rules that are configured.
pub proof fn the_program_starts_with_its_rules(config: AppConfig, app: App, engine: PopupRules)
    requires
        call_ensures(App::new, (config,), app),
        call_ensures(PopupRules::new, (&config.popup.rules,), engine),
    ensures
        app.rules@ == engine@,
{
}

/// Each event is taken for what it is: a dismissal and a pressed button reach the daemon as such, for
/// the notification of their pop-up.
pub proof fn clicks_reach_the_daemon_as_such(
    app: &mut App,
    event: Event,
    fresh: u64,
    now: u64,
    cs: Vec<Command>,
    i: int,
    c: Command,
)
    requires
        call_ensures(App::update, (app, event, fresh, now), cs),
        old(app).wf(),
        0 <= i < stack::entries(old(app).popups).len(),
        c is Invoke || c is Dismiss,
    ensures
        ({
            let shown = stack::entries(old(app).popups)[i];
            &&& event matches Event::Dismiss(id) ==> id == shown.0 ==> (cs@.contains(c)
                <==> shown.1.row_id is Some && c == (Command::Dismiss {
                row_id: shown.1.row_id->0,
            }))
            &&& event matches Event::ActionClicked(id, key) ==> id == shown.0 ==> (cs@.contains(c)
                <==> shown.1.row_id is Some && c == (Command::Invoke {
                row_id: shown.1.row_id->0,
                key,
            }))
        }),
{
    let shown = stack::entries(old(app).popups)[i];
    if let Event::Dismiss(id) = event {
        if id == shown.0 {
            showing::the_daemon_hears_of_that_dismissal(*old(app), i, *final(app), cs@, c);
        }
    }
    if let Event::ActionClicked(id, key) = event {
        if id == shown.0 {
            showing::the_daemon_hears_of_that_action(*old(app), i, key, *final(app), cs@, c);
        }
    }
}

/// At a tick the pop-ups go whose time is over, and no others.
pub proof fn time_passes_for_every_popup(
    app: &mut App,
    fresh: u64,
    now: u64,
    cs: Vec<Command>,
    i: int,
)
    requires
        call_ensures(App::update, (app, Event::Tick, fresh, now), cs),
        0 <= i < stack::entries(old(app).popups).len(),
    ensures
        stack::entries(final(app).popups).contains(stack::entries(old(app).popups)[i])
            <==> match stack::entries(old(app).popups)[i].1.expires_at {
            Some(t) => now < t,
            None => true,
        },
{
    let was = stack::entries(old(app).popups);
    assert(was.contains(was[i]));
    showing::a_popup_stays_until_its_moment(*old(app), now, *final(app), cs@, was[i]);
}

/// A notification that comes in is shown first, unless a rule keeps it away.
pub proof fn what_comes_in_is_shown_first(
    app: &mut App,
    n: Notification,
    fresh: u64,
    now: u64,
    cs: Vec<Command>,
)
    requires
        call_ensures(App::update, (app, Event::Incoming(n), fresh, now), cs),
    ensures
        ({
            let rule = rules::first_applying(old(app).rules@, n);
            let list = stack::entries(final(app).popups);
            if rule is Some && rule->0.suppress {
                *final(app) == *old(app) && cs@.len() == 0
            } else {
                &&& list.len() > 0
                &&& list[0].0 == fresh
                &&& list[0].1.row_id == n.row_id
                &&& list[0].1.app_name@ == n.app_name@
                &&& list[0].1.actions@ == n.actions@
            }
        }),
{
    showing::only_a_rule_keeps_a_popup_away(*old(app), n, fresh, now, *final(app), cs@);
}

/// A pop-up that is closed, dismissed or acted on goes, and no other does.
pub proof fn a_click_takes_that_popup_alone(
    app: &mut App,
    event: Event,
    id: u64,
    fresh: u64,
    now: u64,
    cs: Vec<Command>,
    e: (u64, crate::popup::model::PopupState),
)
    requires
        call_ensures(App::update, (app, event, fresh, now), cs),
        match event {
            Event::Dismiss(w) => w == id,
            Event::WindowClosed(w) => w == id,
            Event::ActionClicked(w, key) => w == id,
            _ => false,
        },
    ensures
        stack::entries(final(app).popups).contains(e) <==> stack::entries(
            old(app).popups,
        ).contains(e) && e.0 != id,
{
    showing::that_popup_goes_alone(*old(app), id, *final(app), e);
}

} // verus!
