//! The stack of pop-ups: what an event does to it, and what the screen is told.

use crate::popup::config::{AppConfig, NotificationsConfig, PopupConfig, Position};
use crate::popup::layout;
use crate::popup::model::{Notification, PopupState, Urgency};
use crate::popup::rules;
use crate::popup::rules::PopupRules;
use vstd::prelude::*;

verus! {

// ---------- the map of pop-ups ----------

/// `indexmap::IndexMap`, a map that keeps its entries in order.
#[verifier::external_type_specification]
#[verifier::external_body]
#[verifier::reject_recursive_types(K)]
#[verifier::reject_recursive_types(V)]
#[verifier::reject_recursive_types(S)]
pub struct ExIndexMap<K, V, S>(indexmap::IndexMap<K, V, S>);

/// The entries of a map of pop-ups, in order.
pub uninterp spec fn entries(map: indexmap::IndexMap<u64, PopupState>) -> Seq<(u64, PopupState)>;

/// The entries without that of a key.
pub open spec fn without(list: Seq<(u64, PopupState)>, id: u64) -> Seq<(u64, PopupState)>
    decreases list.len(),
{
    if list.len() == 0 {
        Seq::empty()
    } else if list.last().0 == id {
        without(list.drop_last(), id)
    } else {
        without(list.drop_last(), id).push(list.last())
    }
}

/// Whether an entry of a key is there.
pub open spec fn holds_key(list: Seq<(u64, PopupState)>, id: u64) -> bool {
    exists|i: int| 0 <= i < list.len() && (#[trigger] list[i]).0 == id
}

/// Whether no two entries have the same key.
pub open spec fn distinct(list: Seq<(u64, PopupState)>) -> bool {
    forall|i: int, j: int|
        0 <= i < j < list.len() ==> (#[trigger] list[i]).0 != (#[trigger] list[j]).0
}

/// `indexmap::IndexMap::new`: a map without entries.
#[verifier::external_body]
fn empty_map() -> (map: indexmap::IndexMap<u64, PopupState>)
    ensures
        entries(map) == Seq::<(u64, PopupState)>::empty(),
{
    indexmap::IndexMap::new()
}

/// `indexmap::IndexMap::len`: the number of entries.
#[verifier::external_body]
fn map_len(map: &indexmap::IndexMap<u64, PopupState>) -> (n: usize)
    ensures
        n == entries(*map).len(),
{
    map.len()
}

/// `indexmap::IndexMap::get_index`: the entry at a place.
#[verifier::external_body]
fn entry_at(map: &indexmap::IndexMap<u64, PopupState>, i: usize) -> (entry: Option<
    (u64, &PopupState),
>)
    ensures
        match entry {
            Some(e) => i < entries(*map).len() && entries(*map)[i as int] == (e.0, *e.1),
            None => i >= entries(*map).len(),
        },
{
    map.get_index(i).map(|(id, state)| (*id, state))
}

/// `indexmap::IndexMap::get`: the value of a key.
#[verifier::external_body]
fn map_get(map: &indexmap::IndexMap<u64, PopupState>, id: u64) -> (state: Option<&PopupState>)
    ensures
        match state {
            Some(s) => exists|i: int|
                0 <= i < entries(*map).len() && #[trigger] entries(*map)[i] == (id, *s),
            None => !holds_key(entries(*map), id),
        },
{
    map.get(&id)
}

/// `indexmap::IndexMap::shift_insert` at the front: the entry comes first, before all others
/// in their order. An entry that the key had is gone.
#[verifier::external_body]
fn insert_first(map: &mut indexmap::IndexMap<u64, PopupState>, id: u64, state: PopupState)
    ensures
        entries(*final(map)) == seq![(id, state)] + without(entries(*old(map)), id),
{
    map.shift_insert(0, id, state);
}

/// `indexmap::IndexMap::shift_remove`: the entry of a key goes, the others keep their order.
/// Says whether there was one.
#[verifier::external_body]
fn remove(map: &mut indexmap::IndexMap<u64, PopupState>, id: u64) -> (there: bool)
    ensures
        there == holds_key(entries(*old(map)), id),
        entries(*final(map)) == without(entries(*old(map)), id),
{
    map.shift_remove(&id).is_some()
}

pub(crate) proof fn without_absent(list: Seq<(u64, PopupState)>, id: u64)
    requires
        !holds_key(list, id),
    ensures
        without(list, id) == list,
    decreases list.len(),
{
    if list.len() > 0 {
        assert(list[list.len() - 1] == list.last());
        assert forall|i: int| 0 <= i < list.drop_last().len() implies (
        #[trigger] list.drop_last()[i]).0 != id by {
            assert(list.drop_last()[i] == list[i]);
        }
        without_absent(list.drop_last(), id);
        assert(list.drop_last().push(list.last()) =~= list);
    }
}

pub(crate) proof fn without_present(list: Seq<(u64, PopupState)>, i: int)
    requires
        distinct(list),
        0 <= i < list.len(),
    ensures
        without(list, list[i].0) == list.remove(i),
    decreases list.len(),
{
    let id = list[i].0;
    let rest = list.drop_last();
    assert(distinct(rest)) by {
        assert forall|a: int, b: int| 0 <= a < b < rest.len() implies (#[trigger] rest[a]).0 != (
        #[trigger] rest[b]).0 by {
            assert(rest[a] == list[a] && rest[b] == list[b]);
        }
    }
    if i == list.len() - 1 {
        assert(!holds_key(rest, id)) by {
            assert forall|a: int| 0 <= a < rest.len() implies (#[trigger] rest[a]).0 != id by {
                assert(rest[a] == list[a]);
            }
        }
        without_absent(rest, id);
        assert(list.remove(i) =~= rest);
    } else {
        without_present(rest, i);
        assert(list.last() == list[list.len() - 1]);
        assert(list.remove(i) =~= rest.remove(i).push(list.last()));
    }
}

pub(crate) proof fn without_keeps(list: Seq<(u64, PopupState)>, id: u64)
    requires
        distinct(list),
    ensures
        distinct(without(list, id)),
        !holds_key(without(list, id), id),
{
    if holds_key(list, id) {
        let i = choose|i: int| 0 <= i < list.len() && (#[trigger] list[i]).0 == id;
        without_present(list, i);
        let out = list.remove(i);
        assert forall|a: int, b: int| 0 <= a < b < out.len() implies (#[trigger] out[a]).0 != (
        #[trigger] out[b]).0 by {
            let x = if a < i {
                a
            } else {
                a + 1
            };
            let y = if b < i {
                b
            } else {
                b + 1
            };
            assert(out[a] == list[x] && out[b] == list[y]);
        }
        assert forall|a: int| 0 <= a < out.len() implies (#[trigger] out[a]).0 != id by {
            let x = if a < i {
                a
            } else {
                a + 1
            };
            assert(out[a] == list[x]);
            assert(list[i].0 == id);
        }
    } else {
        without_absent(list, id);
    }
}

// ---------- where a pop-up is ----------

/// The edges of the screen that a pop-up clings to.
#[derive(Debug, Clone, Copy, PartialEq, Eq, Structural)]
pub struct Anchor {
    pub top: bool,
    pub right: bool,
    pub bottom: bool,
    pub left: bool,
}

/// Distances to the edges: top, right, bottom, left.
pub type Margin = (i32, i32, i32, i32);

/// A number's bits as an `i32` holds them.
pub open spec fn i32_of(n: int) -> int {
    (n + 0x8000_0000) % 0x1_0000_0000 - 0x8000_0000
}

/// The edges of a corner.
pub open spec fn anchor_of(pos: Position) -> Anchor {
    match pos {
        Position::TopRight => Anchor { top: true, right: true, bottom: false, left: false },
        Position::TopLeft => Anchor { top: true, right: false, bottom: false, left: true },
        Position::BottomRight => Anchor { top: false, right: true, bottom: true, left: false },
        Position::BottomLeft => Anchor { top: false, right: false, bottom: true, left: true },
    }
}

/// The distances of a pop-up that `offset` pixels of the stack lie before.
pub open spec fn margin_of(pos: Position, edge: u32, offset: u32) -> (int, int, int, int) {
    let m = i32_of(edge as int);
    let far = i32_of(edge + offset);
    match pos {
        Position::TopRight => (far, m, 0, 0),
        Position::TopLeft => (far, 0, 0, m),
        Position::BottomRight => (0, m, far, 0),
        Position::BottomLeft => (0, 0, far, m),
    }
}

/// Distances as numbers.
pub open spec fn margin_ints(m: Margin) -> (int, int, int, int) {
    (m.0 as int, m.1 as int, m.2 as int, m.3 as int)
}

fn signed32(n: u32) -> (r: i32)
    ensures
        r == i32_of(n as int),
{
    if n <= 0x7fff_ffff {
        n as i32
    } else {
        (n as i64 - 0x1_0000_0000) as i32
    }
}

/// The edges that a pop-up clings to and its distances to them. `offset` is how many pixels
/// of the stack lie between the edge and the pop-up.
pub fn anchor_and_margin(pos: Position, edge_margin: u32, offset: u32) -> (out: (Anchor, Margin))
    ensures
        out.0 == anchor_of(pos),
        margin_ints(out.1) == margin_of(pos, edge_margin, offset),
{
    let m: i32 = signed32(edge_margin);
    let far: i32 = signed32(edge_margin.wrapping_add(offset));
    match pos {
        Position::TopRight => (
            Anchor { top: true, right: true, bottom: false, left: false },
            (far, m, 0, 0),
        ),
        Position::TopLeft => (
            Anchor { top: true, right: false, bottom: false, left: true },
            (far, 0, 0, m),
        ),
        Position::BottomRight => (
            Anchor { top: false, right: true, bottom: true, left: false },
            (0, m, far, 0),
        ),
        Position::BottomLeft => (
            Anchor { top: false, right: false, bottom: true, left: true },
            (0, 0, far, m),
        ),
    }
}

/// Pixels of the stack that lie before the pop-up at a place: the heights of those nearer to
/// the edge, and a gap after each.
pub open spec fn offset_at(list: Seq<(u64, PopupState)>, i: int, gap: u32) -> int
    decreases i,
{
    if i <= 0 {
        0
    } else {
        let sum = offset_at(list, i - 1, gap) + list[i - 1].1.height + gap;
        if sum > u32::MAX {
            u32::MAX as int
        } else {
            sum
        }
    }
}

// ---------- commands ----------

/// What the screen or the daemon is told.
#[derive(Debug, PartialEq, Eq)]
pub enum Command {
    /// Close a pop-up's window.
    Close(u64),
    /// Move a pop-up.
    Move { id: u64, margin: Margin },
    /// Open a window for a new pop-up.
    Open { id: u64, width: u32, height: u32, anchor: Anchor, margin: Margin },
    /// Have the daemon invoke an action.
    Invoke { row_id: i64, key: String },
    /// Have the daemon dismiss a notification.
    Dismiss { row_id: i64 },
}

/// Whether a command moves a pop-up to its place.
pub open spec fn is_move(c: Command, list: Seq<(u64, PopupState)>, i: int, cfg: PopupConfig) -> bool {
    &&& c matches Command::Move { id, margin }
    &&& id == list[i].0
    &&& margin_ints(margin) == margin_of(
        cfg.position,
        cfg.margin,
        offset_at(list, i, cfg.gap) as u32,
    )
}

/// Whether commands move the pop-ups from a place on to their places, in order.
pub open spec fn moves_from(
    cs: Seq<Command>,
    list: Seq<(u64, PopupState)>,
    start: int,
    cfg: PopupConfig,
) -> bool {
    &&& cs.len() == if start < list.len() {
        list.len() - start
    } else {
        0
    }
    &&& forall|k: int| 0 <= k < cs.len() ==> is_move(#[trigger] cs[k], list, start + k, cfg)
}

// ---------- lifetimes and eviction ----------

/// The lifetime in seconds that is configured for an urgency; 0 for never.
pub open spec fn configured_secs(cfg: NotificationsConfig, urgency: Urgency) -> u32 {
    match urgency {
        Urgency::Low => cfg.timeout_low,
        Urgency::Normal => cfg.default_timeout,
        Urgency::Critical => cfg.timeout_critical,
    }
}

/// The lifetime in milliseconds: a rule's, or else the sender's, or else that of the urgency
/// where the sender leaves it open with a negative number; 0 for never.
pub open spec fn lifetime(
    cfg: NotificationsConfig,
    urgency: Urgency,
    override_secs: Option<u32>,
    expire_timeout: i32,
) -> int {
    match override_secs {
        Some(s) => s * 1000,
        None => if expire_timeout >= 0 {
            expire_timeout as int
        } else {
            configured_secs(cfg, urgency) * 1000
        },
    }
}

/// When a pop-up that is shown at `now` goes; never for a lifetime of 0.
pub open spec fn expiry(millis: int, now: u64) -> Option<u64> {
    if millis == 0 {
        None
    } else if now + millis * 1_000_000 > u64::MAX {
        Some(u64::MAX)
    } else {
        Some((now + millis * 1_000_000) as u64)
    }
}

/// The place of the oldest pop-up that is not critical.
pub open spec fn oldest_noncritical(list: Seq<(u64, PopupState)>) -> Option<int>
    decreases list.len(),
{
    if list.len() == 0 {
        None
    } else if list.last().1.urgency != Urgency::Critical {
        Some(list.len() - 1)
    } else {
        oldest_noncritical(list.drop_last())
    }
}

/// The place of the pop-up that makes room for a new one; none where there is room, or
/// nothing but critical ones.
pub open spec fn victim(list: Seq<(u64, PopupState)>, max_visible: usize) -> Option<int> {
    if list.len() < max_visible {
        None
    } else {
        oldest_noncritical(list)
    }
}

/// The pop-ups that stay when a new one is to come.
pub open spec fn after_eviction(list: Seq<(u64, PopupState)>, max_visible: usize) -> Seq<
    (u64, PopupState),
> {
    match victim(list, max_visible) {
        Some(i) => list.remove(i),
        None => list,
    }
}

/// Whether a pop-up's time is up.
pub open spec fn expired(state: PopupState, now: u64) -> bool {
    state.expires_at matches Some(t) && t <= now
}

/// The pop-ups whose time is not up, in order.
pub open spec fn survivors(list: Seq<(u64, PopupState)>, now: u64) -> Seq<(u64, PopupState)>
    decreases list.len(),
{
    if list.len() == 0 {
        Seq::empty()
    } else if expired(list.last().1, now) {
        survivors(list.drop_last(), now)
    } else {
        survivors(list.drop_last(), now).push(list.last())
    }
}

/// The commands that close the pop-ups whose time is up, in order.
pub open spec fn closes(list: Seq<(u64, PopupState)>, now: u64) -> Seq<Command>
    decreases list.len(),
{
    if list.len() == 0 {
        Seq::empty()
    } else if expired(list.last().1, now) {
        closes(list.drop_last(), now).push(Command::Close(list.last().0))
    } else {
        closes(list.drop_last(), now)
    }
}

// ---------- the program ----------

/// The pop-ups and what decides about them.
pub struct App {
    pub config: AppConfig,
    pub rules: PopupRules,
    /// The newest first, at the screen's edge.
    pub popups: indexmap::IndexMap<u64, PopupState>,
    /// A window that is to be closed at the next tick.
    pub pending_close: Option<u64>,
    /// Whether the daemon holds the secret key, as far as it has said.
    pub daemon_unlocked: bool,
}

/// What happened.
pub enum Event {
    /// A notification came in.
    Incoming(Notification),
    /// Some time has passed.
    Tick,
    /// A button of a pop-up was pressed.
    ActionClicked(u64, String),
    /// A pop-up was dismissed.
    Dismiss(u64),
    /// The daemon answered.
    ActionResult(Result<(), String>),
    /// A window was closed.
    WindowClosed(u64),
    /// The daemon was locked or unlocked.
    DaemonUnlockedChanged(bool),
}

/// Whether a pop-up hides its content: where a rule or else the configuration asks for it,
/// and the daemon is not unlocked.
pub open spec fn hides(app: App, rule: Option<rules::PopupRuleView>) -> bool {
    let asked = match rule {
        Some(r) => match r.hide_content_when_locked {
            Some(h) => h,
            None => app.config.popup.hide_content_when_locked,
        },
        None => app.config.popup.hide_content_when_locked,
    };
    asked && !app.daemon_unlocked
}

/// The urgency of a pop-up: a rule's, or the notification's.
pub open spec fn shown_urgency(rule: Option<rules::PopupRuleView>, n: Notification) -> Urgency {
    match rule {
        Some(r) => match r.override_urgency {
            Some(u) => u,
            None => n.urgency,
        },
        None => n.urgency,
    }
}

/// Whether a pop-up is the one for a notification that came in at `now`.
pub open spec fn is_popup_for(app: App, n: Notification, now: u64, state: PopupState) -> bool {
    let rule = rules::first_applying(app.rules@, n);
    let cfg = app.config.popup;
    let urgency = shown_urgency(rule, n);
    let override_secs = match rule {
        Some(r) => r.override_timeout_secs,
        None => None,
    };
    let body = if hides(app, rule) {
        "New notification"@
    } else {
        n.body@
    };
    &&& state.row_id == n.row_id
    &&& state.urgency == urgency
    &&& state.app_name == n.app_name
    &&& state.summary@ == if hides(app, rule) {
        Seq::empty()
    } else {
        n.summary@
    }
    &&& state.height == layout::popup_height(
        body,
        n.actions@.len() > 0,
        cfg.width,
        cfg.height,
        cfg.max_height,
    )
    &&& state.body@ == layout::shown_body(
        body,
        n.actions@.len() > 0,
        cfg.width,
        state.height as int,
    )
    &&& state.actions == n.actions
    &&& state.expires_at == expiry(
        lifetime(app.config.notifications, urgency, override_secs, n.expire_timeout),
        now,
    )
}

/// Whether a rule keeps a notification from being shown.
pub open spec fn suppressed(app: App, n: Notification) -> bool {
    rules::first_applying(app.rules@, n) matches Some(r) && r.suppress
}

/// Whether two states agree in all but their pop-ups.
pub open spec fn same_but_popups(a: App, b: App) -> bool {
    &&& a.config == b.config
    &&& a.rules == b.rules
    &&& a.daemon_unlocked == b.daemon_unlocked
}

impl App {
    /// No two pop-ups share a window.
    pub open spec fn wf(self) -> bool {
        distinct(entries(self.popups))
    }

    /// The state at the start: no pop-ups, the daemon taken to be unlocked.
    pub fn new(config: AppConfig) -> (app: App)
        ensures
            app.wf(),
            app.config == config,
            app.rules@ == rules::usable_rules(config.popup.rules@),
            entries(app.popups) == Seq::<(u64, PopupState)>::empty(),
            app.pending_close is None,
            app.daemon_unlocked,
    {
        let rules = PopupRules::new(&config.popup.rules);
        App { config, rules, popups: empty_map(), pending_close: None, daemon_unlocked: true }
    }

    /// The lifetime in nanoseconds of a pop-up; none where it never goes. A rule's comes first,
    /// then what the sender asks for in milliseconds, then that of the urgency.
    pub fn timeout_for(
        &self,
        urgency: Urgency,
        override_secs: Option<u32>,
        expire_timeout: i32,
    ) -> (t: Option<u64>)
        ensures
            ({
                let millis = lifetime(
                    self.config.notifications,
                    urgency,
                    override_secs,
                    expire_timeout,
                );
                match t {
                    Some(v) => millis > 0 && v == millis * 1_000_000,
                    None => millis == 0,
                }
            }),
    {
        let millis: u64 = match override_secs {
            Some(s) => s as u64 * 1000,
            None => if expire_timeout >= 0 {
                expire_timeout as u64
            } else {
                let secs: u32 = match urgency {
                    Urgency::Low => self.config.notifications.timeout_low,
                    Urgency::Normal => self.config.notifications.default_timeout,
                    Urgency::Critical => self.config.notifications.timeout_critical,
                };
                secs as u64 * 1000
            },
        };
        if millis == 0 {
            None
        } else {
            Some(millis * 1_000_000)
        }
    }

    /// The commands that move the pop-ups from a place on to their places.
    pub fn relayout_tasks(&self, start: usize) -> (cs: Vec<Command>)
        ensures
            moves_from(cs@, entries(self.popups), start as int, self.config.popup),
    {
        let n: usize = map_len(&self.popups);
        let gap: u32 = self.config.popup.gap;
        let mut cs: Vec<Command> = Vec::new();
        let mut offset: u32 = 0;
        let mut i: usize = 0;
        while i < n
            invariant
                i <= n,
                n == entries(self.popups).len(),
                gap == self.config.popup.gap,
                offset == offset_at(entries(self.popups), i as int, gap),
                cs@.len() == if start < i {
                    i - start
                } else {
                    0
                },
                forall|k: int|
                    0 <= k < cs@.len() ==> is_move(
                        #[trigger] cs@[k],
                        entries(self.popups),
                        start + k,
                        self.config.popup,
                    ),
            decreases n - i,
        {
            if let Some((id, state)) = entry_at(&self.popups, i) {
                if i >= start {
                    let (_, margin) = anchor_and_margin(
                        self.config.popup.position,
                        self.config.popup.margin,
                        offset,
                    );
                    let c = Command::Move { id, margin };
                    assert(is_move(c, entries(self.popups), i as int, self.config.popup));
                    cs.push(c);
                }
                offset = offset.saturating_add(state.height).saturating_add(gap);
            }
            i = i + 1;
        }
        cs
    }

    fn find_victim(&self) -> (id: Option<u64>)
        ensures
            match id {
                Some(v) => oldest_noncritical(entries(self.popups)) is Some && {
                    let i = oldest_noncritical(entries(self.popups))->0;
                    0 <= i < entries(self.popups).len() && entries(self.popups)[i].0 == v
                },
                None => oldest_noncritical(entries(self.popups)) is None,
            },
    {
        let mut i: usize = map_len(&self.popups);
        let ghost all = entries(self.popups);
        assert(all.take(i as int) =~= all);
        while i > 0
            invariant
                all == entries(self.popups),
                i <= all.len(),
                oldest_noncritical(all) == oldest_noncritical(all.take(i as int)),
            decreases i,
        {
            assert(all.take(i as int).last() == all[i - 1]);
            assert(all.take(i as int).drop_last() =~= all.take(i - 1));
            if let Some((id, state)) = entry_at(&self.popups, i - 1) {
                if state.urgency != Urgency::Critical {
                    return Some(id);
                }
            }
            i = i - 1;
        }
        None
    }

    /// Makes room for a new pop-up: the oldest that is not critical goes, where the stack is
    /// full.
    pub fn evict_if_needed(&mut self) -> (closed: Option<u64>)
        requires
            old(self).wf(),
        ensures
            final(self).wf(),
            same_but_popups(*final(self), *old(self)),
            final(self).pending_close == old(self).pending_close,
            entries(final(self).popups) == after_eviction(
                entries(old(self).popups),
                old(self).config.popup.max_visible,
            ),
            match closed {
                Some(id) => victim(
                    entries(old(self).popups),
                    old(self).config.popup.max_visible,
                ) is Some && id == entries(old(self).popups)[victim(
                    entries(old(self).popups),
                    old(self).config.popup.max_visible,
                )->0].0,
                None => victim(
                    entries(old(self).popups),
                    old(self).config.popup.max_visible,
                ) is None,
            },
    {
        if map_len(&self.popups) < self.config.popup.max_visible {
            return None;
        }
        match self.find_victim() {
            Some(id) => {
                let ghost i = oldest_noncritical(entries(self.popups))->0;
                proof {
                    without_present(entries(self.popups), i);
                    without_keeps(entries(self.popups), id);
                }
                remove(&mut self.popups, id);
                Some(id)
            },
            None => None,
        }
    }

    /// Shows a pop-up for a notification that came in at `now`, in the window `id`. It comes
    /// first; the others move on, and where the stack is full the oldest that is not critical
    /// goes. A rule may keep it from being shown, or change its urgency, its lifetime and
    /// whether its content is hidden; the sender may ask for a lifetime.
    pub fn handle_incoming(&mut self, notif: Notification, id: u64, now: u64) -> (cs: Vec<Command>)
        requires
            old(self).wf(),
        ensures
            final(self).wf(),
            incoming_done(*old(self), notif, id, now, *final(self), cs@),
    {
        let decision = self.rules.evaluate(&notif);
        let ghost rule = rules::first_applying(self.rules@, notif);
        if decision.suppress {
            return Vec::new();
        }
        let urgency = match decision.override_urgency {
            Some(u) => u,
            None => notif.urgency,
        };
        let evicted = self.evict_if_needed();
        let expires_at = match self.timeout_for(
            urgency,
            decision.override_timeout_secs,
            notif.expire_timeout,
        ) {
            Some(t) => Some(now.saturating_add(t)),
            None => None,
        };
        let asked = match decision.hide_content_when_locked {
            Some(h) => h,
            None => self.config.popup.hide_content_when_locked,
        };
        let hide = asked && !self.daemon_unlocked;
        let (summary, body) = if hide {
            (String::new(), "New notification".to_owned())
        } else {
            (notif.summary, notif.body)
        };
        let (height, shown) = layout::compute_layout(
            body.as_str(),
            notif.actions.len() > 0,
            self.config.popup.width,
            self.config.popup.height,
            self.config.popup.max_height,
        );
        let state = PopupState {
            row_id: notif.row_id,
            urgency,
            app_name: notif.app_name,
            summary,
            body: shown,
            actions: notif.actions,
            expires_at,
            height,
        };
        let ghost kept = entries(self.popups);
        proof {
            without_keeps(kept, id);
        }
        assert(is_popup_for(*old(self), notif, now, state));
        insert_first(&mut self.popups, id, state);
        let ghost after = entries(self.popups);
        proof {
            assert(after[0] == (id, state));
            assert(after.skip(1) =~= without(kept, id));
            assert forall|a: int, b: int| 0 <= a < b < after.len() implies (#[trigger] after[a]).0
                != (#[trigger] after[b]).0 by {
                assert(after[b] == without(kept, id)[b - 1]);
                if a > 0 {
                    assert(after[a] == without(kept, id)[a - 1]);
                }
            }
        }
        let mut cs: Vec<Command> = Vec::new();
        if let Some(out) = evicted {
            cs.push(Command::Close(out));
        }
        let ghost head = cs@;
        let mut moves = self.relayout_tasks(1);
        let ghost moved = moves@;
        cs.append(&mut moves);
        let (anchor, margin) = anchor_and_margin(
            self.config.popup.position,
            self.config.popup.margin,
            0,
        );
        let open = Command::Open { id, width: self.config.popup.width, height, anchor, margin };
        cs.push(open);
        proof {
            assert(cs@.take(head.len() as int) =~= head);
            assert(cs@.subrange(head.len() as int, cs@.len() - 1) =~= moved);
            assert(cs@.last() == open);
        }
        cs
    }

    fn close_expired(&mut self, now: u64) -> (closed: Vec<Command>)
        requires
            old(self).wf(),
        ensures
            final(self).wf(),
            same_but_popups(*final(self), *old(self)),
            final(self).pending_close == old(self).pending_close,
            entries(final(self).popups) == survivors(entries(old(self).popups), now),
            closed@ == closes(entries(old(self).popups), now),
    {
        let ghost all = entries(self.popups);
        let mut closed: Vec<Command> = Vec::new();
        let n: usize = map_len(&self.popups);
        let mut seen: usize = 0;
        let mut i: usize = 0;
        proof {
            assert(all.take(0) =~= Seq::<(u64, PopupState)>::empty());
            assert(survivors(all.take(0), now) + all.skip(0) =~= all);
        }
        while seen < n
            invariant
                n == all.len(),
                i <= seen <= n,
                i == survivors(all.take(seen as int), now).len(),
                distinct(entries(self.popups)),
                entries(self.popups) == survivors(all.take(seen as int), now) + all.skip(
                    seen as int,
                ),
                closed@ == closes(all.take(seen as int), now),
                same_but_popups(*self, *old(self)),
                self.pending_close == old(self).pending_close,
            decreases n - seen,
        {
            let ghost current = entries(self.popups);
            let ghost kept = survivors(all.take(seen as int), now);
            proof {
                assert(all.take(seen as int + 1).drop_last() =~= all.take(seen as int));
                assert(all.take(seen as int + 1).last() == all[seen as int]);
                assert(current[i as int] == all[seen as int]);
            }
            if let Some((id, state)) = entry_at(&self.popups, i) {
                let due = match state.expires_at {
                    Some(t) => t <= now,
                    None => false,
                };
                if due {
                    proof {
                        without_present(current, i as int);
                        without_keeps(current, id);
                        assert(current.remove(i as int) =~= kept + all.skip(seen as int + 1));
                    }
                    remove(&mut self.popups, id);
                    closed.push(Command::Close(id));
                } else {
                    assert(kept.push(all[seen as int]) + all.skip(seen as int + 1) =~= current);
                    i = i + 1;
                }
            }
            seen = seen + 1;
        }
        proof {
            assert(all.take(n as int) =~= all);
            assert(survivors(all, now) + all.skip(n as int) =~= survivors(all, now));
        }
        closed
    }

    /// Closes the pop-ups whose time is up at `now`, and a window that was left to be closed.
    /// The pop-ups that stay close the gaps.
    pub fn handle_tick(&mut self, now: u64) -> (cs: Vec<Command>)
        requires
            old(self).wf(),
        ensures
            final(self).wf(),
            tick_done(*old(self), now, *final(self), cs@),
    {
        let mut cs: Vec<Command> = Vec::new();
        if let Some(id) = self.pending_close {
            cs.push(Command::Close(id));
        }
        self.pending_close = None;
        let ghost pending = cs@;
        assert(pending =~= match old(self).pending_close {
            Some(id) => seq![Command::Close(id)],
            None => Seq::<Command>::empty(),
        });
        let mut closed = self.close_expired(now);
        let any = closed.len() > 0;
        cs.append(&mut closed);
        let ghost head = cs@;
        if any {
            let mut moves = self.relayout_tasks(0);
            let ghost moved = moves@;
            cs.append(&mut moves);
            assert(cs@.skip(head.len() as int) =~= moved);
        }
        assert(cs@.take(head.len() as int) =~= head);
        cs
    }

    fn take_out(&mut self, id: u64) -> (found: (bool, Option<i64>, Vec<Command>))
        requires
            old(self).wf(),
        ensures
            final(self).wf(),
            same_but_popups(*final(self), *old(self)),
            final(self).pending_close == old(self).pending_close,
            entries(final(self).popups) == without(entries(old(self).popups), id),
            found.0 == holds_key(entries(old(self).popups), id),
            row_of(entries(old(self).popups), id, found.1),
            if found.0 {
                moves_from(found.2@, entries(final(self).popups), 0, old(self).config.popup)
            } else {
                found.2@.len() == 0
            },
    {
        let row_id = match map_get(&self.popups, id) {
            Some(s) => s.row_id,
            None => None,
        };
        proof {
            without_keeps(entries(self.popups), id);
        }
        let there = remove(&mut self.popups, id);
        let moves = if there {
            self.relayout_tasks(0)
        } else {
            Vec::new()
        };
        (there, row_id, moves)
    }

    /// A button was pressed: the pop-up goes, and the daemon is to invoke the action on its
    /// row.
    pub fn handle_action(&mut self, id: u64, key: String) -> (cs: Vec<Command>)
        requires
            old(self).wf(),
        ensures
            final(self).wf(),
            action_done(*old(self), id, key, *final(self), cs@),
    {
        let (_, row_id, moves) = self.take_out(id);
        let mut cs: Vec<Command> = moves;
        let ghost moved = cs@;
        cs.push(Command::Close(id));
        let ghost closed = cs@;
        if let Some(row) = row_id {
            cs.push(Command::Invoke { row_id: row, key });
        }
        proof {
            let tail = match row_id {
                Some(r) => seq![Command::Invoke { row_id: r, key }],
                None => Seq::<Command>::empty(),
            };
            assert(cs@.take(moved.len() as int) =~= moved);
            assert(cs@.skip(moved.len() as int) =~= seq![Command::Close(id)] + tail);
            assert(leaves(cs@, *old(self), *self, id, tail));
        }
        cs
    }

    /// A pop-up was dismissed: it goes, and the daemon is to dismiss its row.
    pub fn handle_dismiss(&mut self, id: u64) -> (cs: Vec<Command>)
        requires
            old(self).wf(),
        ensures
            final(self).wf(),
            dismiss_done(*old(self), id, *final(self), cs@),
    {
        let (_, row_id, moves) = self.take_out(id);
        let mut cs: Vec<Command> = moves;
        let ghost moved = cs@;
        cs.push(Command::Close(id));
        if let Some(row) = row_id {
            cs.push(Command::Dismiss { row_id: row });
        }
        proof {
            let tail = match row_id {
                Some(r) => seq![Command::Dismiss { row_id: r }],
                None => Seq::<Command>::empty(),
            };
            assert(cs@.take(moved.len() as int) =~= moved);
            assert(cs@.skip(moved.len() as int) =~= seq![Command::Close(id)] + tail);
            assert(leaves(cs@, *old(self), *self, id, tail));
        }
        cs
    }

    /// A window was closed: where it was a pop-up's, the pop-up goes and the others close the
    /// gap.
    pub fn handle_window_closed(&mut self, id: u64) -> (cs: Vec<Command>)
        requires
            old(self).wf(),
        ensures
            final(self).wf(),
            window_closed_done(*old(self), id, *final(self), cs@),
    {
        let (_, _, moves) = self.take_out(id);
        moves
    }

    /// Takes an event. A notification that comes in is shown in the window `fresh`, and times
    /// are taken at `now`.
    pub fn update(&mut self, event: Event, fresh: u64, now: u64) -> (cs: Vec<Command>)
        requires
            old(self).wf(),
        ensures
            final(self).wf(),
            match event {
                Event::Incoming(n) => incoming_done(*old(self), n, fresh, now, *final(self), cs@),
                Event::Tick => tick_done(*old(self), now, *final(self), cs@),
                Event::ActionClicked(id, key) => action_done(
                    *old(self),
                    id,
                    key,
                    *final(self),
                    cs@,
                ),
                Event::Dismiss(id) => dismiss_done(*old(self), id, *final(self), cs@),
                Event::ActionResult(_) => *final(self) == *old(self) && cs@.len() == 0,
                Event::WindowClosed(id) => window_closed_done(*old(self), id, *final(self), cs@),
                Event::DaemonUnlockedChanged(unlocked) => *final(self) == (App {
                    daemon_unlocked: unlocked,
                    ..*old(self)
                }) && cs@.len() == 0,
            },
    {
        match event {
            Event::Incoming(n) => self.handle_incoming(n, fresh, now),
            Event::Tick => self.handle_tick(now),
            Event::ActionClicked(id, key) => self.handle_action(id, key),
            Event::Dismiss(id) => self.handle_dismiss(id),
            Event::ActionResult(_) => Vec::new(),
            Event::WindowClosed(id) => self.handle_window_closed(id),
            Event::DaemonUnlockedChanged(unlocked) => {
                self.daemon_unlocked = unlocked;
                Vec::new()
            },
        }
    }
}

/// Whether a command opens the window of a new pop-up at the screen's edge.
pub open spec fn opens_window(c: Command, id: u64, height: u32, cfg: PopupConfig) -> bool {
    &&& c matches Command::Open { id: i, width, height: h, anchor, margin }
    &&& i == id
    &&& width == cfg.width
    &&& h == height
    &&& anchor == anchor_of(cfg.position)
    &&& margin_ints(margin) == margin_of(cfg.position, cfg.margin, 0)
}

/// Whether that is the row of a pop-up: none where there is no such pop-up.
pub open spec fn row_of(list: Seq<(u64, PopupState)>, id: u64, row: Option<i64>) -> bool {
    if holds_key(list, id) {
        exists|i: int|
            0 <= i < list.len() && (#[trigger] list[i]).0 == id && list[i].1.row_id == row
    } else {
        row is None
    }
}

/// Whether the commands are those for a pop-up that goes: the others close the gap where it
/// was there, its window is closed, and then comes what the daemon is told.
pub open spec fn leaves(cs: Seq<Command>, before: App, after: App, id: u64, told: Seq<Command>) -> bool {
    exists|n: int|
        {
            &&& 0 <= n <= cs.len()
            &&& #[trigger] cs.skip(n) == seq![Command::Close(id)] + told
            &&& if holds_key(entries(before.popups), id) {
                moves_from(cs.take(n), entries(after.popups), 0, before.config.popup)
            } else {
                n == 0
            }
        }
}

// ---------- what events do ----------

/// What a notification that comes in does: nothing where a rule keeps it from being shown;
/// otherwise its pop-up comes first, the others keep their order without the one that makes
/// room, and the screen is told to close that one, to move the others and to open a window.
pub open spec fn incoming_done(
    before: App,
    n: Notification,
    id: u64,
    now: u64,
    after: App,
    cs: Seq<Command>,
) -> bool {
    let was = entries(before.popups);
    let is = entries(after.popups);
    let cfg = before.config.popup;
    let out = victim(was, cfg.max_visible);
    let head = if out is Some {
        seq![Command::Close(was[out->0].0)]
    } else {
        Seq::<Command>::empty()
    };
    if suppressed(before, n) {
        after == before && cs.len() == 0
    } else {
        &&& same_but_popups(after, before)
        &&& after.pending_close == before.pending_close
        &&& is.len() > 0
        &&& is[0].0 == id
        &&& is_popup_for(before, n, now, is[0].1)
        &&& is.skip(1) == without(after_eviction(was, cfg.max_visible), id)
        &&& cs.len() >= head.len() + 1
        &&& cs.take(head.len() as int) == head
        &&& moves_from(cs.subrange(head.len() as int, cs.len() - 1), is, 1, cfg)
        &&& opens_window(cs.last(), id, is[0].1.height, cfg)
    }
}

/// What a tick does: the pop-ups whose time is up go. The screen is told to close the window
/// that was left to be closed and theirs, and where there are any to move those that stay.
pub open spec fn tick_done(before: App, now: u64, after: App, cs: Seq<Command>) -> bool {
    let due = closes(entries(before.popups), now);
    let head = (match before.pending_close {
        Some(id) => seq![Command::Close(id)],
        None => Seq::<Command>::empty(),
    }) + due;
    &&& same_but_popups(after, before)
    &&& after.pending_close is None
    &&& entries(after.popups) == survivors(entries(before.popups), now)
    &&& cs.len() >= head.len()
    &&& cs.take(head.len() as int) == head
    &&& if due.len() > 0 {
        moves_from(
            cs.skip(head.len() as int),
            entries(after.popups),
            0,
            before.config.popup,
        )
    } else {
        cs.len() == head.len()
    }
}

/// Whether a pop-up was taken out and nothing else changed.
pub open spec fn taken_out(before: App, id: u64, after: App) -> bool {
    &&& same_but_popups(after, before)
    &&& after.pending_close == before.pending_close
    &&& entries(after.popups) == without(entries(before.popups), id)
}

/// What a pressed button does: the pop-up goes, and the daemon is told to invoke the action on
/// its row, where it has one.
pub open spec fn action_done(
    before: App,
    id: u64,
    key: String,
    after: App,
    cs: Seq<Command>,
) -> bool {
    &&& taken_out(before, id, after)
    &&& exists|row: Option<i64>| #[trigger]
        row_of(entries(before.popups), id, row) && leaves(
            cs,
            before,
            after,
            id,
            match row {
                Some(row_id) => seq![Command::Invoke { row_id, key }],
                None => Seq::<Command>::empty(),
            },
        )
}

/// What dismissing a pop-up does: it goes, and the daemon is told to dismiss its row, where it
/// has one.
pub open spec fn dismiss_done(before: App, id: u64, after: App, cs: Seq<Command>) -> bool {
    &&& taken_out(before, id, after)
    &&& exists|row: Option<i64>| #[trigger]
        row_of(entries(before.popups), id, row) && leaves(
            cs,
            before,
            after,
            id,
            match row {
                Some(row_id) => seq![Command::Dismiss { row_id }],
                None => Seq::<Command>::empty(),
            },
        )
}

/// What a closed window does: where it was a pop-up's, the pop-up goes and the others are
/// moved.
pub open spec fn window_closed_done(before: App, id: u64, after: App, cs: Seq<Command>) -> bool {
    &&& taken_out(before, id, after)
    &&& if holds_key(entries(before.popups), id) {
        moves_from(cs, entries(after.popups), 0, before.config.popup)
    } else {
        cs.len() == 0
    }
}

// ---------- laws ----------

/// The pop-up that makes room is not critical, and every older one is.
pub proof fn victim_is_the_oldest_noncritical(list: Seq<(u64, PopupState)>)
    ensures
        match oldest_noncritical(list) {
            Some(i) => {
                &&& 0 <= i < list.len()
                &&& list[i].1.urgency != Urgency::Critical
                &&& forall|j: int|
                    i < j < list.len() ==> (#[trigger] list[j]).1.urgency == Urgency::Critical
            },
            None => forall|j: int|
                0 <= j < list.len() ==> (#[trigger] list[j]).1.urgency == Urgency::Critical,
        },
    decreases list.len(),
{
    if list.len() > 0 {
        assert(list.last() == list[list.len() - 1]);
        if list.last().1.urgency == Urgency::Critical {
            let rest = list.drop_last();
            victim_is_the_oldest_noncritical(rest);
            assert forall|j: int| 0 <= j < rest.len() implies rest[j] == #[trigger] list[j] by {}
        }
    }
}

proof fn eviction_keeps(list: Seq<(u64, PopupState)>, max_visible: usize, i: int)
    requires
        0 <= i < list.len(),
        list[i].1.urgency == Urgency::Critical,
    ensures
        after_eviction(list, max_visible).contains(list[i]),
{
    victim_is_the_oldest_noncritical(list);
    match victim(list, max_visible) {
        Some(v) => {
            let out = list.remove(v);
            if i < v {
                assert(out[i] == list[i]);
            } else {
                assert(out[i - 1] == list[i]);
            }
        },
        None => {
            assert(list[i] == list[i]);
        },
    }
}

proof fn without_keeps_others(list: Seq<(u64, PopupState)>, id: u64, e: (u64, PopupState))
    requires
        list.contains(e),
        e.0 != id,
    ensures
        without(list, id).contains(e),
    decreases list.len(),
{
    let rest = list.drop_last();
    let k = choose|k: int| 0 <= k < list.len() && list[k] == e;
    if k < rest.len() {
        assert(rest[k] == e);
        without_keeps_others(rest, id, e);
        let kept = without(rest, id);
        let at = choose|at: int| 0 <= at < kept.len() && kept[at] == e;
        assert(kept.push(list.last())[at] == e);
    } else {
        let kept = without(rest, id);
        assert(kept.push(list.last())[kept.len() as int] == e);
    }
}

proof fn without_is_no_longer(list: Seq<(u64, PopupState)>, id: u64)
    ensures
        without(list, id).len() <= list.len(),
    decreases list.len(),
{
    if list.len() > 0 {
        without_is_no_longer(list.drop_last(), id);
    }
}

/// A critical pop-up is never taken away to make room for a new one.
pub proof fn critical_popups_stay(
    before: App,
    n: Notification,
    id: u64,
    now: u64,
    after: App,
    cs: Seq<Command>,
    i: int,
)
    requires
        incoming_done(before, n, id, now, after, cs),
        0 <= i < entries(before.popups).len(),
        entries(before.popups)[i].1.urgency == Urgency::Critical,
        entries(before.popups)[i].0 != id,
    ensures
        entries(after.popups).contains(entries(before.popups)[i]),
{
    let was = entries(before.popups);
    let is = entries(after.popups);
    if !suppressed(before, n) {
        let stay = after_eviction(was, before.config.popup.max_visible);
        eviction_keeps(was, before.config.popup.max_visible, i);
        without_keeps_others(stay, id, was[i]);
        let k = choose|k: int| 0 <= k < is.skip(1).len() && is.skip(1)[k] == was[i];
        assert(is[k + 1] == was[i]);
    } else {
        assert(is[i] == was[i]);
    }
}

/// A stack within its limit stays within it when a notification comes in, as long as there is
/// room or one of the shown pop-ups is not critical.
pub proof fn stack_stays_within_its_limit(
    before: App,
    n: Notification,
    id: u64,
    now: u64,
    after: App,
    cs: Seq<Command>,
)
    requires
        incoming_done(before, n, id, now, after, cs),
        entries(before.popups).len() <= before.config.popup.max_visible,
        entries(before.popups).len() < before.config.popup.max_visible || exists|i: int|
            0 <= i < entries(before.popups).len() && (#[trigger] entries(
                before.popups,
            )[i]).1.urgency != Urgency::Critical,
    ensures
        entries(after.popups).len() <= before.config.popup.max_visible,
{
    let was = entries(before.popups);
    victim_is_the_oldest_noncritical(was);
    without_is_no_longer(after_eviction(was, before.config.popup.max_visible), id);
}

/// A tick takes away a pop-up exactly when its time is up.
pub proof fn tick_keeps_exactly_the_living(list: Seq<(u64, PopupState)>, now: u64, e: (u64, PopupState))
    ensures
        survivors(list, now).contains(e) <==> list.contains(e) && !expired(e.1, now),
    decreases list.len(),
{
    if list.len() > 0 {
        let rest = list.drop_last();
        tick_keeps_exactly_the_living(rest, now, e);
        assert(list =~= rest.push(list.last()));
        if list.contains(e) {
            let k = choose|k: int| 0 <= k < list.len() && list[k] == e;
            if k < rest.len() {
                assert(rest[k] == e);
            }
        }
        if rest.contains(e) {
            let k = choose|k: int| 0 <= k < rest.len() && rest[k] == e;
            assert(list[k] == e);
        }
        assert(list[list.len() - 1] == list.last());
        let kept = survivors(rest, now);
        if !expired(list.last().1, now) {
            let out = kept.push(list.last());
            assert(out[out.len() - 1] == list.last());
            if kept.contains(e) {
                let k = choose|k: int| 0 <= k < kept.len() && kept[k] == e;
                assert(out[k] == e);
            }
            if out.contains(e) {
                let k = choose|k: int| 0 <= k < out.len() && out[k] == e;
                if k < kept.len() {
                    assert(kept[k] == e);
                }
            }
        }
    }
}

/// The sender's lifetime counts unless a rule sets another, whatever is configured for the
/// urgency; without one the configuration decides.
pub proof fn sender_is_heard_unless_a_rule_decides(
    cfg: NotificationsConfig,
    urgency: Urgency,
    expire_timeout: i32,
    secs: u32,
)
    ensures
        lifetime(cfg, urgency, Some(secs), expire_timeout) == secs * 1000,
        expire_timeout >= 0 ==> lifetime(cfg, urgency, None, expire_timeout) == expire_timeout,
        expire_timeout < 0 ==> lifetime(cfg, urgency, None, expire_timeout) == configured_secs(
            cfg,
            urgency,
        ) * 1000,
{
}

/// A pop-up with a lifetime of 0 never goes by itself.
pub proof fn lifetime_zero_never_expires(state: PopupState, shown_at: u64, now: u64)
    requires
        state.expires_at == expiry(0, shown_at),
    ensures
        !expired(state, now),
{
}

/// Pop-ups do not overlap: each lies beyond the one before it by that one's height and the
/// gap, as long as the stack is shorter than a `u32` counts.
pub proof fn popups_do_not_overlap(list: Seq<(u64, PopupState)>, i: int, gap: u32)
    requires
        0 <= i < list.len(),
        offset_at(list, i + 1, gap) < u32::MAX,
    ensures
        offset_at(list, i + 1, gap) == offset_at(list, i, gap) + list[i].1.height + gap,
{
}

/// While the daemon is locked, a pop-up whose content is hidden tells nothing of it: two such
/// pop-ups, both with buttons or both without, look alike whatever the notifications say.
pub proof fn hidden_popups_tell_nothing(
    app: App,
    a: Notification,
    b: Notification,
    now: u64,
    shown_a: PopupState,
    shown_b: PopupState,
)
    requires
        hides(app, rules::first_applying(app.rules@, a)),
        hides(app, rules::first_applying(app.rules@, b)),
        (a.actions@.len() > 0) == (b.actions@.len() > 0),
        is_popup_for(app, a, now, shown_a),
        is_popup_for(app, b, now, shown_b),
    ensures
        shown_a.summary@.len() == 0,
        shown_a.summary@ == shown_b.summary@,
        shown_a.body@ == shown_b.body@,
        shown_a.height == shown_b.height,
{
}

/// While the daemon is unlocked, no content is hidden.
pub proof fn unlocked_popups_hide_nothing(app: App, n: Notification)
    requires
        app.daemon_unlocked,
    ensures
        !hides(app, rules::first_applying(app.rules@, n)),
{
}

} // verus!
