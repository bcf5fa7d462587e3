//! The engine as a mathematical machine: its state, and what each request
//! makes of the state and asks of the world. The executable engine is
//! proved to do exactly what this machine does.

use vstd::prelude::*;
use crate::bus::CloseReason;
use crate::config::{ConfigView, SortOrder, TimeoutConfig};
use crate::dnd::DndState;
use crate::events::{ActionEventView, Effect};
use crate::history::{
    added, lemma_added_bounded, lemma_first_with_id, marked_dismissed, marked_expired, newest_first,
    HistoryEntryView,
};
use crate::notification::{has_action_key, NotificationView};
use crate::rules::with_rules;
use crate::urgency::Urgency;

verus! {

/// How long the engine waits before it looks again at a notification
/// whose time ran out while the pointer was over it, in milliseconds.
pub const HOVER_RETRY_MS: i32 = 500;

/// An active notification as the engine holds it.
pub struct SlotView {
    pub notification: NotificationView,
    /// The timeout in force, in milliseconds; 0 where it never expires.
    pub timeout: i32,
    /// The generation of its timer.
    pub epoch: u64,
}

/// The history as the engine holds it.
pub struct HistoryView {
    pub rows: Seq<HistoryEntryView>,
    pub limit: u32,
}

/// The state of the engine.
pub struct EngineView {
    /// The active notifications by identifier.
    pub entries: Map<u32, SlotView>,
    /// The identifiers of the active notifications in display order.
    pub order: Seq<u32>,
    /// The identifier that is given out next.
    pub next_id: u32,
    /// The timer generation that is given out next.
    pub next_epoch: u64,
    pub config: ConfigView,
    pub dnd: DndState,
    /// The history, where one is kept.
    pub history: Option<HistoryView>,
}

/// What the engine can be asked.
pub enum Input {
    /// A client submits a notification at the instant `now`.
    Submit { notification: NotificationView, now: i64 },
    /// A notification is to be closed for the given reason.
    Close { id: u32, reason: CloseReason },
    /// A person picked an action.
    Invoke { id: u32, action_key: Seq<char> },
    /// A person typed a reply.
    Reply { id: u32, text: Seq<char> },
    /// The pointer came over a notification or left it, at the instant `now`.
    SetHovered { id: u32, hovered: bool, now: i64 },
    /// The timer of generation `epoch` of a notification ran out.
    Tick { id: u32, epoch: u64 },
    /// Every notification is to be dismissed.
    DismissAll,
    /// Do-Not-Disturb is switched on by hand.
    EnableDnd,
    /// Do-Not-Disturb is switched off by hand.
    DisableDnd,
    /// Do-Not-Disturb is flipped by hand.
    ToggleDnd,
    /// The schedule asks for Do-Not-Disturb to be on or off.
    Schedule { on: bool },
    /// The configuration is replaced.
    Reload { config: ConfigView },
}

/// A state together with what was asked of the world on the way to it.
pub type Outcome = (EngineView, Seq<Effect>);

/// The identifier after `id`: after the largest comes 1.
pub open spec fn succ_id(id: u32) -> u32 {
    if id == u32::MAX {
        1
    } else {
        (id + 1) as u32
    }
}

/// The timer generation after `epoch`: after the largest comes 0.
pub open spec fn succ_epoch(epoch: u64) -> u64 {
    if epoch == u64::MAX {
        0
    } else {
        (epoch + 1) as u64
    }
}

/// The least identifier from `lo` to `hi` that is not live.
pub open spec fn least_free(lo: int, hi: int, live: Set<u32>) -> Option<u32>
    decreases hi - lo + 1,
{
    if lo > hi || lo < 0 || hi > u32::MAX {
        None
    } else if !live.contains(lo as u32) {
        Some(lo as u32)
    } else {
        least_free(lo + 1, hi, live)
    }
}

/// The identifier that a new notification gets: the first one from
/// `next_id` upwards that is not live, and where there is none, the first
/// one from 1 upwards. There is none only where every identifier is live.
pub open spec fn fresh_id(next_id: u32, live: Set<u32>) -> Option<u32> {
    match least_free(next_id as int, u32::MAX as int, live) {
        Some(id) => Some(id),
        None => least_free(1, next_id - 1, live),
    }
}

/// The timeout that a notification asks for: its own where it names one,
/// and else the default of its urgency.
pub open spec fn resolved_timeout(n: NotificationView, t: TimeoutConfig) -> i32 {
    if n.expire_timeout >= 0 {
        n.expire_timeout
    } else {
        match n.hints.urgency {
            Urgency::Low => t.low,
            Urgency::Normal => t.normal,
            Urgency::Critical => t.critical,
        }
    }
}

/// The timeout in force: the one asked for where it is positive, and
/// else 0, which stands for none.
pub open spec fn effective_timeout(n: NotificationView, t: TimeoutConfig) -> i32 {
    if resolved_timeout(n, t) > 0 {
        resolved_timeout(n, t)
    } else {
        0
    }
}

/// When a notification whose timeout starts at `now` expires.
pub open spec fn expiry(now: i64, timeout: i32) -> Option<i64> {
    if timeout > 0 {
        Some((now + timeout) as i64)
    } else {
        None
    }
}

/// Whether Do-Not-Disturb holds a notification of the given urgency back.
pub open spec fn held_back(dnd: DndState, urgency: Urgency) -> bool {
    dnd.enabled() && urgency != Urgency::Critical
}

/// The position, at or after `start`, of the first active notification
/// that is less urgent than `urgency`; the length where there is none.
pub open spec fn first_less_urgent(
    entries: Map<u32, SlotView>,
    order: Seq<u32>,
    urgency: Urgency,
    start: int,
) -> int
    decreases order.len() - start,
{
    if start < 0 || start >= order.len() {
        order.len() as int
    } else if entries[order[start]].notification.hints.urgency.level() < urgency.level() {
        start
    } else {
        first_less_urgent(entries, order, urgency, start + 1)
    }
}

/// Where a new notification of the given urgency goes in the display
/// order.
pub open spec fn insert_position(
    entries: Map<u32, SlotView>,
    order: Seq<u32>,
    policy: SortOrder,
    urgency: Urgency,
) -> int {
    match policy {
        SortOrder::NewestFirst => 0,
        SortOrder::OldestFirst => order.len() as int,
        SortOrder::UrgencyDescending => first_less_urgent(entries, order, urgency, 0),
    }
}

/// The history after a notification was accepted: it gets a record
/// unless it is transient.
pub open spec fn recorded(history: Option<HistoryView>, n: NotificationView, now: i64) -> Option<HistoryView> {
    match history {
        Some(h) => if n.hints.transient {
            history
        } else {
            Some(
                HistoryView {
                    rows: added(h.rows, HistoryEntryView::of(n, n.id, now), h.limit as int),
                    limit: h.limit,
                },
            )
        },
        None => None,
    }
}

/// The history after a notification was closed: its newest record is
/// marked as expired where its time ran out, and as dismissed otherwise.
pub open spec fn marked(history: Option<HistoryView>, id: u32, reason: CloseReason) -> Option<HistoryView> {
    match history {
        Some(h) => Some(
            HistoryView {
                rows: if reason == CloseReason::Expired {
                    marked_expired(h.rows, id)
                } else {
                    marked_dismissed(h.rows, id)
                },
                limit: h.limit,
            },
        ),
        None => None,
    }
}

/// The engine before anything happened.
pub open spec fn initial(config: ConfigView, history_limit: Option<u32>) -> EngineView {
    EngineView {
        entries: Map::empty(),
        order: Seq::empty(),
        next_id: 1,
        next_epoch: 0,
        config,
        dnd: DndState::with(false, false),
        history: match history_limit {
            Some(limit) => Some(HistoryView { rows: Seq::empty(), limit }),
            None => None,
        },
    }
}

/// What a submission makes of the engine, the identifier it returns, and
/// what it asks of the world.
///
/// The first rule that the notification meets is applied. The identifier
/// is that of the notification to replace where that one is active, and a
/// fresh one otherwise; where no identifier is free the submission is
/// dropped and 0 is returned. The notification is recorded in the history
/// unless it is transient. Where Do-Not-Disturb holds it back, nothing
/// else happens. Otherwise it takes the place of the one it replaces, or
/// its place in the display order, the presenter is told, and a timer is
/// asked for where it has a timeout.
pub open spec fn submit(s: EngineView, n0: NotificationView, now: i64) -> (EngineView, u32, Seq<Effect>) {
    let n1 = with_rules(n0, s.config.rules);
    let replacing = n1.replaces_id != 0 && s.entries.contains_key(n1.replaces_id);
    let picked = if replacing {
        Some(n1.replaces_id)
    } else {
        fresh_id(s.next_id, s.entries.dom())
    };
    match picked {
        None => (s, 0, Seq::empty()),
        Some(id) => {
            let next_id = if replacing {
                s.next_id
            } else {
                succ_id(id)
            };
            let timeout = effective_timeout(n1, s.config.timeouts);
            let n = NotificationView { id, expires_at: expiry(now, timeout), ..n1 };
            let history = recorded(s.history, n, now);
            if held_back(s.dnd, n.hints.urgency) {
                (EngineView { next_id, history, ..s }, id, Seq::empty())
            } else {
                let slot = SlotView { notification: n, timeout, epoch: s.next_epoch };
                let order = if replacing {
                    s.order
                } else {
                    s.order.insert(
                        insert_position(
                            s.entries,
                            s.order,
                            s.config.general.sort_order,
                            n.hints.urgency,
                        ),
                        id,
                    )
                };
                let shown = if replacing {
                    Effect::Update(id, n)
                } else {
                    Effect::Show(n)
                };
                let effects = if timeout > 0 {
                    seq![shown, Effect::ArmTimer { id, epoch: s.next_epoch, delay_ms: timeout }]
                } else {
                    seq![shown]
                };
                (
                    EngineView {
                        entries: s.entries.insert(id, slot),
                        order,
                        next_id,
                        next_epoch: succ_epoch(s.next_epoch),
                        history,
                        ..s
                    },
                    id,
                    effects,
                )
            }
        },
    }
}

/// What closing a notification makes of the engine. An active one leaves
/// the registry, its record is marked, the presenter is told and the bus
/// signal is sent, once. One that is not active changes nothing.
pub open spec fn close(s: EngineView, id: u32, reason: CloseReason) -> Outcome {
    if s.entries.contains_key(id) {
        (
            EngineView {
                entries: s.entries.remove(id),
                order: s.order.remove(s.order.index_of(id)),
                history: marked(s.history, id, reason),
                ..s
            },
            seq![Effect::Close(id), Effect::Closed { id, reason }],
        )
    } else {
        (s, Seq::empty())
    }
}

/// What a timer that ran out makes of the engine. It counts only for an
/// active notification and the generation that is in force. Then the
/// notification expires, unless the pointer is over it: in that case the
/// same timer is asked for again after a short while.
pub open spec fn tick(s: EngineView, id: u32, epoch: u64) -> Outcome {
    if s.entries.contains_key(id) && s.entries[id].epoch == epoch {
        if s.entries[id].notification.is_hovered {
            (s, seq![Effect::ArmTimer { id, epoch, delay_ms: HOVER_RETRY_MS }])
        } else {
            close(s, id, CloseReason::Expired)
        }
    } else {
        (s, Seq::empty())
    }
}

/// What a change of the hover state makes of the engine. The flag of an
/// active notification is set. Where the pointer leaves a notification
/// with a timeout, its time starts again at `now` under a new timer
/// generation.
pub open spec fn set_hovered(s: EngineView, id: u32, hovered: bool, now: i64) -> Outcome {
    if s.entries.contains_key(id) {
        let slot = s.entries[id];
        if slot.notification.is_hovered && !hovered && slot.timeout > 0 {
            let n = NotificationView {
                is_hovered: false,
                expires_at: expiry(now, slot.timeout),
                ..slot.notification
            };
            (
                EngineView {
                    entries: s.entries.insert(
                        id,
                        SlotView { notification: n, timeout: slot.timeout, epoch: s.next_epoch },
                    ),
                    next_epoch: succ_epoch(s.next_epoch),
                    ..s
                },
                seq![Effect::ArmTimer { id, epoch: s.next_epoch, delay_ms: slot.timeout }],
            )
        } else {
            let n = NotificationView { is_hovered: hovered, ..slot.notification };
            (
                EngineView {
                    entries: s.entries.insert(id, SlotView { notification: n, ..slot }),
                    ..s
                },
                Seq::empty(),
            )
        }
    } else {
        (s, Seq::empty())
    }
}

/// What an invoked action makes of the engine. It counts only for an
/// active notification that has the action. Then the bus signal is sent,
/// and the notification is dismissed unless it is resident.
pub open spec fn invoke(s: EngineView, id: u32, action_key: Seq<char>) -> Outcome {
    if s.entries.contains_key(id) && has_action_key(s.entries[id].notification.actions, action_key) {
        let signal = seq![Effect::ActionInvoked { id, action_key }];
        if s.entries[id].notification.hints.resident {
            (s, signal)
        } else {
            let (after, closing) = close(s, id, CloseReason::Dismissed);
            (after, signal + closing)
        }
    } else {
        (s, Seq::empty())
    }
}

/// Whether a notification takes a typed reply: it has the action
/// `inline-reply`, or the hint of that name.
pub open spec fn takes_reply(n: NotificationView) -> bool {
    n.hints.inline_reply || has_action_key(n.actions, "inline-reply"@)
}

/// What a typed reply makes of the engine. It counts only for an active
/// notification that takes replies. Then the action `inline-reply` is
/// signalled, the text is sent after it, and the notification is
/// dismissed.
pub open spec fn reply(s: EngineView, id: u32, text: Seq<char>) -> Outcome {
    if s.entries.contains_key(id) && takes_reply(s.entries[id].notification) {
        let (after, closing) = close(s, id, CloseReason::Dismissed);
        (
            after,
            seq![
                Effect::ActionInvoked { id, action_key: "inline-reply"@ },
                Effect::Replied { id, text },
            ] + closing,
        )
    } else {
        (s, Seq::empty())
    }
}

/// What dismissing everything makes of the engine: each active
/// notification is closed as dismissed, in display order.
pub open spec fn dismiss_all(s: EngineView) -> Outcome
    decreases s.order.len(),
{
    if s.order.len() == 0 || !s.entries.contains_key(s.order[0]) || !s.order.no_duplicates() {
        (s, Seq::empty())
    } else {
        let (after, first) = close(s, s.order[0], CloseReason::Dismissed);
        let (end, rest) = dismiss_all(after);
        (end, first + rest)
    }
}

/// What a report of the presenter makes of the engine: a picked action
/// is invoked, a click invokes the action `default`, a dismissal closes
/// the notification as dismissed, the pointer sets the hover state, a
/// reply is passed on, and a focus request is handed to the focus sink.
pub open spec fn intent(s: EngineView, event: ActionEventView, now: i64) -> Outcome {
    match event {
        ActionEventView::ActionInvoked { id, action_key } => invoke(s, id, action_key),
        ActionEventView::Dismissed { id } => close(s, id, CloseReason::Dismissed),
        ActionEventView::Hovered { id } => set_hovered(s, id, true, now),
        ActionEventView::Unhovered { id } => set_hovered(s, id, false, now),
        ActionEventView::InlineReply { id, text } => reply(s, id, text),
        ActionEventView::FocusApp { id, app_name } => (s, seq![Effect::Focus { app_name }]),
        ActionEventView::DefaultAction { id } => invoke(s, id, "default"@),
    }
}

/// What a request makes of the engine, and what it asks of the world.
pub open spec fn step(s: EngineView, input: Input) -> Outcome {
    match input {
        Input::Submit { notification, now } => (submit(s, notification, now).0, submit(
            s,
            notification,
            now,
        ).2),
        Input::Close { id, reason } => close(s, id, reason),
        Input::Invoke { id, action_key } => invoke(s, id, action_key),
        Input::Reply { id, text } => reply(s, id, text),
        Input::SetHovered { id, hovered, now } => set_hovered(s, id, hovered, now),
        Input::Tick { id, epoch } => tick(s, id, epoch),
        Input::DismissAll => dismiss_all(s),
        Input::EnableDnd => (EngineView { dnd: DndState::with(true, true), ..s }, Seq::empty()),
        Input::DisableDnd => (EngineView { dnd: DndState::with(false, true), ..s }, Seq::empty()),
        Input::ToggleDnd => (
            EngineView { dnd: DndState::with(!s.dnd.enabled(), true), ..s },
            Seq::empty(),
        ),
        Input::Schedule { on } => (EngineView { dnd: s.dnd.scheduled(on), ..s }, Seq::empty()),
        Input::Reload { config } => (EngineView { config, ..s }, Seq::empty()),
    }
}

/// What a series of requests makes of the engine, and everything it asks
/// of the world on the way, in order.
pub open spec fn run(s: EngineView, inputs: Seq<Input>) -> Outcome
    decreases inputs.len(),
{
    if inputs.len() == 0 {
        (s, Seq::empty())
    } else {
        let (before, earlier) = run(s, inputs.drop_last());
        let (after, latest) = step(before, inputs.last());
        (after, earlier + latest)
    }
}

/// The notifications that the presenter shows: the first `max_visible`
/// of the display order.
pub open spec fn visible(s: EngineView) -> Seq<NotificationView> {
    let shown = if s.order.len() <= s.config.general.max_visible {
        s.order
    } else {
        s.order.take(s.config.general.max_visible as int)
    };
    shown.map_values(|id: u32| s.entries[id].notification)
}

/// What holds of every state of the engine: the display order lists each
/// active notification once, every active notification goes by its own
/// identifier, which is not 0, and has an expiry exactly where it has a
/// timeout, and the history is in order and within its bound.
pub open spec fn wf(s: EngineView) -> bool {
    &&& s.order.no_duplicates()
    &&& s.entries.dom().finite()
    &&& forall|id: u32| s.entries.contains_key(id) <==> s.order.contains(id)
    &&& forall|id: u32| #[trigger]
        s.entries.contains_key(id) ==> {
            &&& id != 0
            &&& s.entries[id].notification.id == id
            &&& s.entries[id].timeout >= 0
            &&& s.entries[id].notification.expires_at is Some <==> s.entries[id].timeout > 0
        }
    &&& s.next_id >= 1
    &&& s.history matches Some(h) ==> newest_first(h.rows) && h.rows.len()
        <= h.limit
}

/// A list without repetitions stays one when an item leaves it, and
/// holds what it held but for that item.
pub proof fn lemma_remove_unique(order: Seq<u32>, i: int)
    requires
        order.no_duplicates(),
        0 <= i < order.len(),
    ensures
        order.remove(i).no_duplicates(),
        order.index_of(order[i]) == i,
        forall|x: u32| order.remove(i).contains(x) <==> (order.contains(x) && x != order[i]),
{
    let r = order.remove(i);
    assert forall|a: int, b: int| 0 <= a < r.len() && 0 <= b < r.len() && a != b implies r[a]
        != r[b] by {
        let a0 = if a < i {
            a
        } else {
            a + 1
        };
        let b0 = if b < i {
            b
        } else {
            b + 1
        };
    }
    assert forall|x: u32| r.contains(x) <==> (order.contains(x) && x != order[i]) by {
        if r.contains(x) {
            let a = choose|a: int| 0 <= a < r.len() && r[a] == x;
            let a0 = if a < i {
                a
            } else {
                a + 1
            };
        }
        if order.contains(x) && x != order[i] {
            let a0 = choose|a0: int| 0 <= a0 < order.len() && order[a0] == x;
            let a = if a0 < i {
                a0
            } else {
                a0 - 1
            };
            assert(r[a] == x);
        }
    }
}

/// A list without repetitions stays one when an item that it does not
/// hold enters it, and then holds that item besides what it held.
pub proof fn lemma_insert_unique(order: Seq<u32>, i: int, id: u32)
    requires
        order.no_duplicates(),
        0 <= i <= order.len(),
        !order.contains(id),
    ensures
        order.insert(i, id).no_duplicates(),
        forall|x: u32| order.insert(i, id).contains(x) <==> (order.contains(x) || x == id),
{
    let r = order.insert(i, id);
    assert forall|a: int, b: int| 0 <= a < r.len() && 0 <= b < r.len() && a != b implies r[a]
        != r[b] by {
        if a != i && b != i {
            let a0 = if a < i {
                a
            } else {
                a - 1
            };
            let b0 = if b < i {
                b
            } else {
                b - 1
            };
        } else if a == i {
            let b0 = if b < i {
                b
            } else {
                b - 1
            };
        } else {
            let a0 = if a < i {
                a
            } else {
                a - 1
            };
        }
    }
    assert forall|x: u32| r.contains(x) <==> (order.contains(x) || x == id) by {
        if r.contains(x) {
            let a = choose|a: int| 0 <= a < r.len() && r[a] == x;
            if a != i {
                let a0 = if a < i {
                    a
                } else {
                    a - 1
                };
            }
        }
        if order.contains(x) {
            let a0 = choose|a0: int| 0 <= a0 < order.len() && order[a0] == x;
            let a = if a0 < i {
                a0
            } else {
                a0 + 1
            };
            assert(r[a] == x);
        }
        if x == id {
            assert(r[i] == x);
        }
    }
}

/// What the least free identifier of a range is: it lies in the range, it
/// is not live, and every identifier of the range before it is live.
/// Where there is none, every identifier of the range is live.
pub proof fn lemma_least_free(lo: int, hi: int, live: Set<u32>)
    requires
        0 <= lo,
        hi <= u32::MAX,
    ensures
        match least_free(lo, hi, live) {
            Some(id) => lo <= id <= hi && !live.contains(id) && forall|j: u32|
                lo <= j < id ==> live.contains(j),
            None => forall|j: u32| lo <= j <= hi ==> live.contains(j),
        },
    decreases hi - lo + 1,
{
    if lo <= hi && live.contains(lo as u32) {
        lemma_least_free(lo + 1, hi, live);
    }
}

/// A fresh identifier is not live and is not 0.
pub proof fn lemma_fresh_id(next_id: u32, live: Set<u32>)
    requires
        next_id >= 1,
    ensures
        fresh_id(next_id, live) matches Some(id) ==> id >= 1 && !live.contains(id),
        fresh_id(next_id, live) is None ==> forall|j: u32| j >= 1 ==> live.contains(j),
{
    lemma_least_free(next_id as int, u32::MAX as int, live);
    lemma_least_free(1, next_id - 1, live);
    if fresh_id(next_id, live) is None {
        assert forall|j: u32| j >= 1 implies live.contains(j) by {
            if j >= next_id {
            } else {
            }
        }
    }
}

/// Marking a record keeps the order and the number of the records.
pub proof fn lemma_marked_ordered(rows: Seq<HistoryEntryView>, id: u32)
    requires
        newest_first(rows),
    ensures
        newest_first(marked_dismissed(rows, id)),
        newest_first(marked_expired(rows, id)),
        marked_dismissed(rows, id).len() == rows.len(),
        marked_expired(rows, id).len() == rows.len(),
{
    lemma_first_with_id(rows, id, 0);
}

/// The first less urgent notification at or after a position stands at
/// or after that position, and within the display order or at its end.
pub proof fn lemma_first_less_urgent_bounds(
    entries: Map<u32, SlotView>,
    order: Seq<u32>,
    urgency: Urgency,
    start: int,
)
    requires
        0 <= start <= order.len(),
    ensures
        start <= first_less_urgent(entries, order, urgency, start) <= order.len(),
    decreases order.len() - start,
{
    if start < order.len() && !(entries[order[start]].notification.hints.urgency.level()
        < urgency.level()) {
        lemma_first_less_urgent_bounds(entries, order, urgency, start + 1);
    }
}

/// Where a new notification goes in the display order is a position of
/// that order, or its end.
pub proof fn lemma_insert_position_bounds(
    entries: Map<u32, SlotView>,
    order: Seq<u32>,
    policy: SortOrder,
    urgency: Urgency,
)
    ensures
        0 <= insert_position(entries, order, policy, urgency) <= order.len(),
{
    lemma_first_less_urgent_bounds(entries, order, urgency, 0);
}

/// Recording a notification keeps the history in order and within its
/// bound.
pub proof fn lemma_recorded_ordered(history: Option<HistoryView>, n: NotificationView, now: i64)
    requires
        history matches Some(h) ==> newest_first(h.rows) && h.rows.len() <= h.limit,
    ensures
        recorded(history, n, now) matches Some(h) ==> newest_first(h.rows) && h.rows.len()
            <= h.limit,
        recorded(history, n, now) is Some == history is Some,
{
    if let Some(h) = history {
        lemma_added_bounded(h.rows, HistoryEntryView::of(n, n.id, now), h.limit as int);
    }
}

/// A submission leaves a valid state valid.
pub proof fn lemma_submit_wf(s: EngineView, n: NotificationView, now: i64)
    requires
        wf(s),
    ensures
        wf(submit(s, n, now).0),
{
    let n1 = with_rules(n, s.config.rules);
    let replacing = n1.replaces_id != 0 && s.entries.contains_key(n1.replaces_id);
    let picked = if replacing {
        Some(n1.replaces_id)
    } else {
        fresh_id(s.next_id, s.entries.dom())
    };
    if let Some(id) = picked {
        if !replacing {
            lemma_fresh_id(s.next_id, s.entries.dom());
        }
        let timeout = effective_timeout(n1, s.config.timeouts);
        let nn = NotificationView { id, expires_at: expiry(now, timeout), ..n1 };
        lemma_recorded_ordered(s.history, nn, now);
        let after = submit(s, n, now).0;
        if !held_back(s.dnd, nn.hints.urgency) {
            if !replacing {
                lemma_insert_position_bounds(
                    s.entries,
                    s.order,
                    s.config.general.sort_order,
                    nn.hints.urgency,
                );
                let pos = insert_position(
                    s.entries,
                    s.order,
                    s.config.general.sort_order,
                    nn.hints.urgency,
                );
                lemma_insert_unique(s.order, pos, id);
            }
            assert forall|x: u32| after.entries.contains_key(x) <==> after.order.contains(x) by {
                assert(s.entries.contains_key(x) <==> s.order.contains(x));
            }
            assert forall|x: u32| #[trigger] after.entries.contains_key(x) implies x != 0
                && after.entries[x].notification.id == x && after.entries[x].timeout >= 0 && (
            after.entries[x].notification.expires_at is Some <==> after.entries[x].timeout
                > 0) by {
                if x != id {
                }
            }
        }
    }
}

/// Closing a notification leaves a valid state valid.
pub proof fn lemma_close_wf(s: EngineView, id: u32, reason: CloseReason)
    requires
        wf(s),
    ensures
        wf(close(s, id, reason).0),
        s.entries.contains_key(id) ==> close(s, id, reason).0.order.len() == s.order.len() - 1,
        !close(s, id, reason).0.entries.contains_key(id),
        forall|x: u32|
            x != id ==> (close(s, id, reason).0.entries.contains_key(x) <==> s.entries.contains_key(
                x,
            )),
{
    if s.entries.contains_key(id) {
        assert(s.order.contains(id));
        let i = s.order.index_of(id);
        lemma_remove_unique(s.order, i);
        let after = close(s, id, reason).0;
        if let Some(h) = s.history {
            lemma_marked_ordered(h.rows, id);
        }
        assert forall|x: u32| after.entries.contains_key(x) <==> after.order.contains(x) by {
            assert(s.entries.contains_key(x) <==> s.order.contains(x));
        }
        assert forall|x: u32| #[trigger] after.entries.contains_key(x) implies x != 0
            && after.entries[x].notification.id == x && after.entries[x].timeout >= 0 && (
        after.entries[x].notification.expires_at is Some <==> after.entries[x].timeout > 0) by {
        }
    }
}

/// A change of the hover state leaves a valid state valid, and the
/// display order as it was.
pub proof fn lemma_set_hovered_wf(s: EngineView, id: u32, hovered: bool, now: i64)
    requires
        wf(s),
    ensures
        wf(set_hovered(s, id, hovered, now).0),
        set_hovered(s, id, hovered, now).0.order == s.order,
        forall|x: u32|
            set_hovered(s, id, hovered, now).0.entries.contains_key(x) <==> s.entries.contains_key(
                x,
            ),
{
    let after = set_hovered(s, id, hovered, now).0;
    if s.entries.contains_key(id) {
        assert forall|x: u32| after.entries.contains_key(x) <==> after.order.contains(x) by {
        }
        assert forall|x: u32| #[trigger] after.entries.contains_key(x) implies x != 0
            && after.entries[x].notification.id == x && after.entries[x].timeout >= 0 && (
        after.entries[x].notification.expires_at is Some <==> after.entries[x].timeout > 0) by {
        }
    }
}

/// Dismissing everything leaves a valid state valid and nothing active.
pub proof fn lemma_dismiss_all_wf(s: EngineView)
    requires
        wf(s),
    ensures
        wf(dismiss_all(s).0),
        dismiss_all(s).0.order.len() == 0,
        forall|x: u32| !dismiss_all(s).0.entries.contains_key(x),
    decreases s.order.len(),
{
    if s.order.len() > 0 {
        assert(s.order.contains(s.order[0]));
        lemma_close_wf(s, s.order[0], CloseReason::Dismissed);
        lemma_dismiss_all_wf(close(s, s.order[0], CloseReason::Dismissed).0);
    } else {
        assert forall|x: u32| !s.entries.contains_key(x) by {
            assert(s.entries.contains_key(x) <==> s.order.contains(x));
        }
    }
}

/// Every request leaves a valid state valid.
pub proof fn lemma_step_wf(s: EngineView, input: Input)
    requires
        wf(s),
    ensures
        wf(step(s, input).0),
{
    match input {
        Input::Submit { notification, now } => {
            lemma_submit_wf(s, notification, now);
        },
        Input::Close { id, reason } => {
            lemma_close_wf(s, id, reason);
        },
        Input::Invoke { id, action_key } => {
            lemma_close_wf(s, id, CloseReason::Dismissed);
        },
        Input::Reply { id, text } => {
            lemma_close_wf(s, id, CloseReason::Dismissed);
        },
        Input::SetHovered { id, hovered, now } => {
            lemma_set_hovered_wf(s, id, hovered, now);
        },
        Input::Tick { id, epoch } => {
            lemma_close_wf(s, id, CloseReason::Expired);
        },
        Input::DismissAll => {
            lemma_dismiss_all_wf(s);
        },
        _ => {},
    }
}

/// The engine starts in a valid state.
pub proof fn lemma_initial_wf(config: ConfigView, history_limit: Option<u32>)
    ensures
        wf(initial(config, history_limit)),
{
    let s = initial(config, history_limit);
    assert forall|id: u32| s.entries.contains_key(id) <==> s.order.contains(id) by {}
}

/// Dismissing everything leaves the next identifier as it was.
pub proof fn lemma_dismiss_all_frame(s: EngineView)
    requires
        wf(s),
    ensures
        dismiss_all(s).0.next_id == s.next_id,
        dismiss_all(s).0.next_epoch == s.next_epoch,
        dismiss_all(s).0.config == s.config,
        dismiss_all(s).0.dnd == s.dnd,
    decreases s.order.len(),
{
    if s.order.len() > 0 {
        assert(s.order.contains(s.order[0]));
        lemma_close_wf(s, s.order[0], CloseReason::Dismissed);
        lemma_dismiss_all_frame(close(s, s.order[0], CloseReason::Dismissed).0);
    }
}

} // verus!
