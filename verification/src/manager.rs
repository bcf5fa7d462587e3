//! The engine itself: it owns the active notifications, gives out
//! identifiers, keeps the display order, consults the Do-Not-Disturb switch
//! and the rules, writes the history, and collects what is to be told to
//! the presenter, the bus and the timers.

use std::collections::HashMap;
use vstd::prelude::*;
use crate::bus::CloseReason;
use crate::config::{Config, SortOrder, Weekday};
use crate::dnd::{after_tick, DndScheduler, DndState};
use crate::events::{effects_of, ActionEvent, ActionEventView, Effect, Outbound, UiEvent};
use crate::history::{entry_views, HistoryEntry, HistoryStore};
use crate::model::{
    close, dismiss_all, first_less_urgent, fresh_id, initial, insert_position, intent, invoke,
    least_free, lemma_close_wf, lemma_remove_unique, lemma_set_hovered_wf, lemma_submit_wf, marked,
    recorded, reply, resolved_timeout, set_hovered, submit, succ_epoch, tick, visible, wf,
    EngineView, HistoryView, SlotView, HOVER_RETRY_MS,
};
use crate::notification::{current_time_millis, Notification, NotificationView, MAX_TIMESTAMP_MS};
use crate::rules::RuleMatcher;
use crate::urgency::Urgency;

verus! {

broadcast use vstd::std_specs::hash::group_hash_axioms;

/// An active notification with its timeout and timer generation.
struct Slot {
    notification: Notification,
    timeout: i32,
    epoch: u64,
}

impl View for Slot {
    type V = SlotView;

    closed spec fn view(&self) -> SlotView {
        SlotView { notification: self.notification@, timeout: self.timeout, epoch: self.epoch }
    }
}

/// The engine.
pub struct NotificationManager {
    notifications: HashMap<u32, Slot>,
    display_order: Vec<u32>,
    next_id: u32,
    next_epoch: u64,
    config: Config,
    dnd: DndState,
    history: Option<HistoryStore>,
    outbox: Vec<Outbound>,
}

impl View for NotificationManager {
    type V = EngineView;

    closed spec fn view(&self) -> EngineView {
        EngineView {
            entries: self.notifications@.map_values(|s: Slot| s@),
            order: self.display_order@,
            next_id: self.next_id,
            next_epoch: self.next_epoch,
            config: self.config@,
            dnd: self.dnd,
            history: match self.history {
                Some(h) => Some(HistoryView { rows: h.rows(), limit: h.limit() }),
                None => None,
            },
        }
    }
}

impl NotificationManager {
    /// What the engine has asked of the world and has not handed out yet,
    /// in order.
    pub closed spec fn pending(&self) -> Seq<Effect> {
        effects_of(self.outbox@)
    }

    /// What holds of every engine.
    pub closed spec fn wf(&self) -> bool {
        &&& wf(self@)
        &&& self.history matches Some(h) ==> h.wf()
    }

    /// The state of a valid engine is a valid state of the machine.
    pub proof fn lemma_wf(&self)
        requires
            self.wf(),
        ensures
            wf(self@),
    {
    }

    /// An engine with the given configuration, without history and with
    /// nothing active.
    pub fn new(config: Config) -> (r: NotificationManager)
        ensures
            r.wf(),
            r@ == initial(config@, None),
            r.pending() == Seq::<Effect>::empty(),
    {
        let r = NotificationManager {
            notifications: HashMap::new(),
            display_order: Vec::new(),
            next_id: 1,
            next_epoch: 0,
            config,
            dnd: DndState::new(),
            history: None,
            outbox: Vec::new(),
        };
        assert(r@.entries =~= Map::<u32, SlotView>::empty());
        r
    }

    /// The same engine, keeping its history in the given store.
    pub fn with_history(self, store: HistoryStore) -> (r: NotificationManager)
        requires
            self.wf(),
            store.wf(),
        ensures
            r.wf(),
            r@ == (EngineView {
                history: Some(HistoryView { rows: store.rows(), limit: store.limit() }),
                ..self@
            }),
            r.pending() == self.pending(),
    {
        let mut r = self;
        r.history = Some(store);
        r
    }

    /// How many notifications are active.
    pub fn count(&self) -> (r: usize)
        ensures
            r == self@.order.len(),
    {
        self.display_order.len()
    }

    /// Whether Do-Not-Disturb is on.
    pub fn dnd_enabled(&self) -> (r: bool)
        ensures
            r == self@.dnd.enabled(),
    {
        self.dnd.is_enabled()
    }

    /// The Do-Not-Disturb switch.
    pub fn dnd_state(&self) -> (r: DndState)
        ensures
            r == self@.dnd,
    {
        self.dnd
    }

    /// The active notification with the given identifier.
    pub fn get_notification(&self, id: u32) -> (r: Option<Notification>)
        ensures
            match r {
                Some(n) => self@.entries.contains_key(id) && n@ == self@.entries[id].notification,
                None => !self@.entries.contains_key(id),
            },
    {
        match self.notifications.get(&id) {
            Some(slot) => Some(slot.notification.clone()),
            None => None,
        }
    }

    /// Whether the notification with the given identifier is active.
    pub fn is_live(&self, id: u32) -> (r: bool)
        ensures
            r == self@.entries.contains_key(id),
    {
        self.notifications.contains_key(&id)
    }

    /// The notifications that the presenter shows, in display order.
    pub fn get_visible_notifications(&self) -> (r: Vec<Notification>)
        requires
            self.wf(),
        ensures
            r@.map_values(|n: Notification| n@) == visible(self@),
            r.len() <= self@.config.general.max_visible,
    {
        let max: usize = self.config.general.max_visible as usize;
        let n: usize = if self.display_order.len() <= max {
            self.display_order.len()
        } else {
            max
        };
        let mut out: Vec<Notification> = Vec::new();
        let mut i: usize = 0;
        while i < n
            invariant
                0 <= i <= n <= self.display_order.len(),
                self.wf(),
                out.len() == i,
                forall|j: int|
                    0 <= j < i ==> out@[j]@ == self@.entries[self@.order[j]].notification,
            decreases n - i,
        {
            let id = self.display_order[i];
            assert(self@.order.contains(id));
            match self.notifications.get(&id) {
                Some(slot) => {
                    out.push(slot.notification.clone());
                },
                None => {
                    assert(false);
                },
            }
            i += 1;
        }
        out
    }

    /// Hands out what the engine has asked of the world since the last
    /// time, in order.
    pub fn take_outbox(&mut self) -> (r: Vec<Outbound>)
        ensures
            effects_of(r@) == old(self).pending(),
            final(self).pending() == Seq::<Effect>::empty(),
            final(self)@ == old(self)@,
            final(self).wf() == old(self).wf(),
    {
        let mut out: Vec<Outbound> = Vec::new();
        std::mem::swap(&mut out, &mut self.outbox);
        out
    }

    /// Adds to what the engine asks of the world.
    fn emit(&mut self, item: Outbound)
        ensures
            final(self).pending() == old(self).pending().push(item@),
            final(self)@ == old(self)@,
            final(self).wf() == old(self).wf(),
    {
        self.outbox.push(item);
    }

    /// The identifier that a new notification gets.
    fn pick_fresh_id(&self) -> (r: Option<u32>)
        requires
            self.wf(),
        ensures
            r == fresh_id(self@.next_id, self@.entries.dom()),
    {
        let ghost live = self@.entries.dom();
        let mut c: u32 = self.next_id;
        loop
            invariant
                self.next_id <= c,
                live == self@.entries.dom(),
                least_free(self.next_id as int, u32::MAX as int, live) == least_free(
                    c as int,
                    u32::MAX as int,
                    live,
                ),
            ensures
                c == u32::MAX,
                least_free(self.next_id as int, u32::MAX as int, live) is None,
            decreases u32::MAX - c,
        {
            if !self.notifications.contains_key(&c) {
                return Some(c);
            }
            if c == u32::MAX {
                break;
            }
            c += 1;
        }
        let mut d: u32 = 1;
        while d < self.next_id
            invariant
                1 <= d <= self.next_id,
                live == self@.entries.dom(),
                least_free(self.next_id as int, u32::MAX as int, live) is None,
                least_free(1, self.next_id - 1, live) == least_free(
                    d as int,
                    self.next_id - 1,
                    live,
                ),
            decreases self.next_id - d,
        {
            if !self.notifications.contains_key(&d) {
                return Some(d);
            }
            d += 1;
        }
        None
    }

    /// The position of an identifier in the display order.
    fn position_of(&self, id: u32) -> (r: usize)
        requires
            self.wf(),
            self@.entries.contains_key(id),
        ensures
            r < self@.order.len(),
            self@.order[r as int] == id,
            self@.order.index_of(id) == r,
    {
        let mut i: usize = 0;
        while i < self.display_order.len()
            invariant
                0 <= i <= self.display_order.len(),
                self.wf(),
                self@.order == self.display_order@,
                self@.order.contains(id),
                forall|j: int| 0 <= j < i ==> self.display_order@[j] != id,
            decreases self.display_order.len() - i,
        {
            if self.display_order[i] == id {
                proof {
                    lemma_remove_unique(self@.order, i as int);
                }
                return i;
            }
            i += 1;
        }
        proof {
            let k = choose|k: int| 0 <= k < self@.order.len() && self@.order[k] == id;
            assert(false);
        }
        0
    }

    /// Marks the newest record of a closed notification in the history.
    fn mark_history(&mut self, id: u32, reason: CloseReason)
        requires
            old(self).history matches Some(h) ==> h.wf(),
        ensures
            final(self).history matches Some(h) ==> h.wf(),
            final(self)@ == (EngineView {
                history: marked(old(self)@.history, id, reason),
                ..old(self)@
            }),
            final(self).pending() == old(self).pending(),
    {
        let taken = self.history.take();
        match taken {
            Some(mut h) => {
                match reason {
                    CloseReason::Expired => {
                        h.mark_expired(id);
                    },
                    _ => {
                        h.mark_dismissed(id);
                    },
                }
                self.history = Some(h);
            },
            None => {},
        }
    }

    /// Closes a notification for the given reason. Closing one that is
    /// not active does nothing.
    pub fn close_notification(&mut self, id: u32, reason: CloseReason)
        requires
            old(self).wf(),
        ensures
            final(self).wf(),
            final(self)@ == close(old(self)@, id, reason).0,
            final(self).pending() == old(self).pending() + close(old(self)@, id, reason).1,
    {
        if !self.notifications.contains_key(&id) {
            return ;
        }
        let pos = self.position_of(id);
        let ghost before = self@;
        self.notifications.remove(&id);
        self.display_order.remove(pos);
        assert(self@.entries =~= before.entries.remove(id));
        self.mark_history(id, reason);
        proof {
            lemma_close_wf(before, id, reason);
        }
        self.emit(Outbound::Ui(UiEvent::Close(id)));
        self.emit(Outbound::Closed { id, reason });
    }

    /// The timeout that a notification asks for under the configuration
    /// in force.
    pub fn calculate_timeout(&self, notification: &Notification) -> (r: i32)
        ensures
            r == resolved_timeout(notification@, self@.config.timeouts),
    {
        if notification.expire_timeout >= 0 {
            return notification.expire_timeout;
        }
        match notification.hints.urgency {
            Urgency::Low => self.config.timeouts.low,
            Urgency::Normal => self.config.timeouts.normal,
            Urgency::Critical => self.config.timeouts.critical,
        }
    }

    /// Where a new notification of the given urgency goes in the display
    /// order.
    fn position_for(&self, urgency: Urgency) -> (r: usize)
        requires
            self.wf(),
        ensures
            r == insert_position(
                self@.entries,
                self@.order,
                self@.config.general.sort_order,
                urgency,
            ),
            r <= self@.order.len(),
    {
        match self.config.general.sort_order {
            SortOrder::NewestFirst => 0,
            SortOrder::OldestFirst => self.display_order.len(),
            SortOrder::UrgencyDescending => {
                let mut i: usize = 0;
                while i < self.display_order.len()
                    invariant
                        0 <= i <= self.display_order.len(),
                        self.wf(),
                        self@.order == self.display_order@,
                        self@.config.general.sort_order == SortOrder::UrgencyDescending,
                        first_less_urgent(self@.entries, self@.order, urgency, 0)
                            == first_less_urgent(self@.entries, self@.order, urgency, i as int),
                    decreases self.display_order.len() - i,
                {
                    let other = self.display_order[i];
                    assert(self@.order.contains(other));
                    match self.notifications.get(&other) {
                        Some(slot) => {
                            if slot.notification.hints.urgency.as_u8() < urgency.as_u8() {
                                return i;
                            }
                        },
                        None => {
                            assert(false);
                        },
                    }
                    i += 1;
                }
                i
            },
        }
    }

    /// Records an accepted notification in the history.
    fn record(&mut self, notification: &Notification, now: i64)
        requires
            old(self).history matches Some(h) ==> h.wf(),
        ensures
            final(self).history matches Some(h) ==> h.wf(),
            final(self)@ == (EngineView {
                history: recorded(old(self)@.history, notification@, now),
                ..old(self)@
            }),
            final(self).pending() == old(self).pending(),
    {
        if notification.hints.transient {
            return ;
        }
        let taken = self.history.take();
        match taken {
            Some(mut h) => {
                let entry = HistoryEntry::of_notification(notification, notification.id, now);
                h.add(&entry);
                self.history = Some(h);
            },
            None => {},
        }
    }

    /// What registering a notification asks of the world: that the
    /// presenter shows it, and a timer where it has a timeout.
    spec fn registering(n: NotificationView, timeout: i32, epoch: u64, replacing: bool) -> Seq<Effect> {
        let shown = if replacing {
            Effect::Update(n.id, n)
        } else {
            Effect::Show(n)
        };
        if timeout > 0 {
            seq![shown, Effect::ArmTimer { id: n.id, epoch, delay_ms: timeout }]
        } else {
            seq![shown]
        }
    }

    /// Puts a notification into the registry, in place of the active one
    /// with its identifier or at its place in the display order.
    fn register(&mut self, n: Notification, timeout: i32, replacing: bool)
        requires
            old(self).wf(),
        ensures
            final(self)@ == (EngineView {
                entries: old(self)@.entries.insert(
                    n.id,
                    SlotView { notification: n@, timeout, epoch: old(self)@.next_epoch },
                ),
                order: if replacing {
                    old(self)@.order
                } else {
                    old(self)@.order.insert(
                        insert_position(
                            old(self)@.entries,
                            old(self)@.order,
                            old(self)@.config.general.sort_order,
                            n@.hints.urgency,
                        ),
                        n.id,
                    )
                },
                next_epoch: succ_epoch(old(self)@.next_epoch),
                ..old(self)@
            }),
            final(self).pending() == old(self).pending() + NotificationManager::registering(
                n@,
                timeout,
                old(self)@.next_epoch,
                replacing,
            ),
    {
        let ghost before = self@;
        let id = n.id;
        let epoch = self.next_epoch;
        self.next_epoch = if epoch == u64::MAX {
            0
        } else {
            epoch + 1
        };
        let ghost slot = SlotView { notification: n@, timeout, epoch };
        if replacing {
            self.notifications.insert(id, Slot { notification: n.clone(), timeout, epoch });
            assert(self@.entries =~= before.entries.insert(id, slot));
            self.emit(Outbound::Ui(UiEvent::Update(id, n)));
        } else {
            let pos = self.position_for(n.hints.urgency);
            self.notifications.insert(id, Slot { notification: n.clone(), timeout, epoch });
            self.display_order.insert(pos, id);
            assert(self@.entries =~= before.entries.insert(id, slot));
            self.emit(Outbound::Ui(UiEvent::Show(n)));
        }
        if timeout > 0 {
            self.emit(Outbound::ArmTimer { id, epoch, delay_ms: timeout });
        }
    }

    /// Takes in a notification at the instant `now` and returns its
    /// identifier; 0 where no identifier is free.
    pub fn submit(&mut self, notification: Notification, now: i64) -> (id: u32)
        requires
            old(self).wf(),
            now <= MAX_TIMESTAMP_MS,
        ensures
            final(self).wf(),
            final(self)@ == submit(old(self)@, notification@, now).0,
            id == submit(old(self)@, notification@, now).1,
            final(self).pending() == old(self).pending() + submit(old(self)@, notification@, now).2,
    {
        let ghost before = self@;
        let mut n = notification;
        RuleMatcher::apply_rules(&mut n, self.config.rules.as_slice());
        let replacing = n.replaces_id != 0 && self.notifications.contains_key(&n.replaces_id);
        let id = if replacing {
            n.replaces_id
        } else {
            match self.pick_fresh_id() {
                Some(id) => id,
                None => {
                    return 0;
                },
            }
        };
        proof {
            lemma_submit_wf(before, notification@, now);
        }
        let resolved = self.calculate_timeout(&n);
        let timeout: i32 = if resolved > 0 {
            resolved
        } else {
            0
        };
        n.id = id;
        n.expires_at = if timeout > 0 {
            Some(now + timeout as i64)
        } else {
            None
        };
        self.record(&n, now);
        if !replacing {
            self.next_id = if id == u32::MAX {
                1
            } else {
                id + 1
            };
        }
        if self.dnd.is_enabled() && n.hints.urgency != Urgency::Critical {
            return id;
        }
        self.register(n, timeout, replacing);
        id
    }

    /// Whether the engine went from one state to another as a submission
    /// at the instant `now` makes it.
    pub open spec fn submitted(
        before: EngineView,
        pending_before: Seq<Effect>,
        notification: NotificationView,
        now: i64,
        after: EngineView,
        pending_after: Seq<Effect>,
        id: u32,
    ) -> bool {
        &&& after == submit(before, notification, now).0
        &&& id == submit(before, notification, now).1
        &&& pending_after == pending_before + submit(before, notification, now).2
    }

    /// Takes in a notification now, by the clock, and returns its
    /// identifier. What happens is what `submit` states, at an instant
    /// that the clock gave.
    pub fn add_notification(&mut self, notification: Notification) -> (id: u32)
        requires
            old(self).wf(),
        ensures
            final(self).wf(),
            exists|now: i64|
                0 <= now <= MAX_TIMESTAMP_MS && #[trigger] NotificationManager::submitted(
                    old(self)@,
                    old(self).pending(),
                    notification@,
                    now,
                    final(self)@,
                    final(self).pending(),
                    id,
                ),
    {
        let now = current_time_millis();
        let id = self.submit(notification, now);
        assert(NotificationManager::submitted(
            old(self)@,
            old(self).pending(),
            notification@,
            now,
            self@,
            self.pending(),
            id,
        ));
        id
    }

    /// Reports that the timer of generation `epoch` of a notification ran
    /// out.
    pub fn expire(&mut self, id: u32, epoch: u64)
        requires
            old(self).wf(),
        ensures
            final(self).wf(),
            final(self)@ == tick(old(self)@, id, epoch).0,
            final(self).pending() == old(self).pending() + tick(old(self)@, id, epoch).1,
    {
        let hovered = match self.notifications.get(&id) {
            Some(slot) => {
                if slot.epoch != epoch {
                    return ;
                }
                slot.notification.is_hovered
            },
            None => {
                return ;
            },
        };
        if hovered {
            self.emit(Outbound::ArmTimer { id, epoch, delay_ms: HOVER_RETRY_MS });
        } else {
            self.close_notification(id, CloseReason::Expired);
        }
    }

    /// Sets the hover state of a notification at the instant `now`.
    pub fn set_hovered_at(&mut self, id: u32, hovered: bool, now: i64)
        requires
            old(self).wf(),
            now <= MAX_TIMESTAMP_MS,
        ensures
            final(self).wf(),
            final(self)@ == set_hovered(old(self)@, id, hovered, now).0,
            final(self).pending() == old(self).pending() + set_hovered(
                old(self)@,
                id,
                hovered,
                now,
            ).1,
    {
        let ghost before = self@;
        let ghost want = set_hovered(before, id, hovered, now);
        proof {
            lemma_set_hovered_wf(before, id, hovered, now);
        }
        match self.notifications.remove(&id) {
            Some(slot) => {
                let mut slot = slot;
                if slot.notification.is_hovered && !hovered && slot.timeout > 0 {
                    let epoch = self.next_epoch;
                    let timeout = slot.timeout;
                    self.next_epoch = if epoch == u64::MAX {
                        0
                    } else {
                        epoch + 1
                    };
                    slot.notification.is_hovered = false;
                    slot.notification.expires_at = Some(now + timeout as i64);
                    slot.epoch = epoch;
                    self.notifications.insert(id, slot);
                    assert(self@.entries =~= want.0.entries);
                    self.emit(Outbound::ArmTimer { id, epoch, delay_ms: timeout });
                } else {
                    slot.notification.is_hovered = hovered;
                    self.notifications.insert(id, slot);
                    assert(self@.entries =~= want.0.entries);
                }
            },
            None => {
                assert(self@.entries =~= before.entries);
            },
        }
    }

    /// Whether the engine went from one state to another as a change of
    /// the hover state at the instant `now` makes it.
    pub open spec fn hovered_at(
        before: EngineView,
        pending_before: Seq<Effect>,
        id: u32,
        hovered: bool,
        now: i64,
        after: EngineView,
        pending_after: Seq<Effect>,
    ) -> bool {
        &&& after == set_hovered(before, id, hovered, now).0
        &&& pending_after == pending_before + set_hovered(before, id, hovered, now).1
    }

    /// Sets the hover state of a notification now, by the clock.
    pub fn set_hovered(&mut self, id: u32, hovered: bool)
        requires
            old(self).wf(),
        ensures
            final(self).wf(),
            exists|now: i64|
                0 <= now <= MAX_TIMESTAMP_MS && #[trigger] NotificationManager::hovered_at(
                    old(self)@,
                    old(self).pending(),
                    id,
                    hovered,
                    now,
                    final(self)@,
                    final(self).pending(),
                ),
    {
        let now = current_time_millis();
        self.set_hovered_at(id, hovered, now);
        assert(NotificationManager::hovered_at(
            old(self)@,
            old(self).pending(),
            id,
            hovered,
            now,
            self@,
            self.pending(),
        ));
    }

    /// Reports that a person picked an action of a notification.
    pub fn invoke_action(&mut self, id: u32, action_key: &str)
        requires
            old(self).wf(),
        ensures
            final(self).wf(),
            final(self)@ == invoke(old(self)@, id, action_key@).0,
            final(self).pending() == old(self).pending() + invoke(old(self)@, id, action_key@).1,
    {
        let resident = match self.notifications.get(&id) {
            Some(slot) => {
                if !slot.notification.has_action(action_key) {
                    return ;
                }
                slot.notification.is_resident()
            },
            None => {
                return ;
            },
        };
        self.emit(Outbound::ActionInvoked { id, action_key: action_key.to_string() });
        if !resident {
            self.close_notification(id, CloseReason::Dismissed);
        }
    }

    /// Reports that a person typed a reply into a notification.
    pub fn inline_reply(&mut self, id: u32, text: &str)
        requires
            old(self).wf(),
        ensures
            final(self).wf(),
            final(self)@ == reply(old(self)@, id, text@).0,
            final(self).pending() == old(self).pending() + reply(old(self)@, id, text@).1,
    {
        let takes = match self.notifications.get(&id) {
            Some(slot) => {
                slot.notification.hints.inline_reply || slot.notification.has_action(
                    "inline-reply",
                )
            },
            None => false,
        };
        if !takes {
            return ;
        }
        self.emit(Outbound::ActionInvoked { id, action_key: "inline-reply".to_string() });
        self.emit(Outbound::Replied { id, text: text.to_string() });
        self.close_notification(id, CloseReason::Dismissed);
    }

    /// Dismisses every active notification, in display order.
    pub fn dismiss_all(&mut self)
        requires
            old(self).wf(),
        ensures
            final(self).wf(),
            final(self)@ == dismiss_all(old(self)@).0,
            final(self).pending() == old(self).pending() + dismiss_all(old(self)@).1,
            final(self)@.order.len() == 0,
    {
        let ghost want = dismiss_all(self@);
        let ghost pending = self.pending();
        while self.display_order.len() > 0
            invariant
                self.wf(),
                dismiss_all(self@).0 == want.0,
                self.pending() + dismiss_all(self@).1 == pending + want.1,
            decreases self.display_order.len(),
        {
            let ghost s = self@;
            let id = self.display_order[0];
            assert(s.order.contains(id));
            proof {
                lemma_remove_unique(s.order, 0);
            }
            self.close_notification(id, CloseReason::Dismissed);
        }
    }

    /// Acts on a report of the presenter at the instant `now`.
    pub fn handle_action_event_at(&mut self, event: ActionEvent, now: i64)
        requires
            old(self).wf(),
            now <= MAX_TIMESTAMP_MS,
        ensures
            final(self).wf(),
            final(self)@ == intent(old(self)@, event@, now).0,
            final(self).pending() == old(self).pending() + intent(
                old(self)@,
                event@,
                now,
            ).1,
    {
        match event {
            ActionEvent::ActionInvoked { id, action_key } => {
                self.invoke_action(id, action_key.as_str());
            },
            ActionEvent::Dismissed { id } => {
                self.close_notification(id, CloseReason::Dismissed);
            },
            ActionEvent::Hovered { id } => {
                self.set_hovered_at(id, true, now);
            },
            ActionEvent::Unhovered { id } => {
                self.set_hovered_at(id, false, now);
            },
            ActionEvent::InlineReply { id, text } => {
                self.inline_reply(id, text.as_str());
            },
            ActionEvent::FocusApp { id, app_name } => {
                self.emit(Outbound::Focus { app_name });
            },
            ActionEvent::DefaultAction { id } => {
                self.invoke_action(id, "default");
            },
        }
    }

    /// Whether the engine went from one state to another as a report of
    /// the presenter at the instant `now` makes it.
    pub open spec fn handled_at(
        before: EngineView,
        pending_before: Seq<Effect>,
        event: ActionEventView,
        now: i64,
        after: EngineView,
        pending_after: Seq<Effect>,
    ) -> bool {
        &&& after == intent(before, event, now).0
        &&& pending_after == pending_before + intent(before, event, now).1
    }

    /// Acts on a report of the presenter now, by the clock.
    pub fn handle_action_event(&mut self, event: ActionEvent)
        requires
            old(self).wf(),
        ensures
            final(self).wf(),
            exists|now: i64|
                0 <= now <= MAX_TIMESTAMP_MS && #[trigger] NotificationManager::handled_at(
                    old(self)@,
                    old(self).pending(),
                    event@,
                    now,
                    final(self)@,
                    final(self).pending(),
                ),
    {
        let now = current_time_millis();
        let ghost e = event@;
        self.handle_action_event_at(event, now);
        assert(NotificationManager::handled_at(
            old(self)@,
            old(self).pending(),
            e,
            now,
            self@,
            self.pending(),
        ));
    }

    /// Switches Do-Not-Disturb on by hand.
    pub fn enable_dnd(&mut self)
        requires
            old(self).wf(),
        ensures
            final(self).wf(),
            final(self)@ == (EngineView { dnd: DndState::with(true, true), ..old(self)@ }),
            final(self).pending() == old(self).pending(),
    {
        self.dnd.enable();
    }

    /// Switches Do-Not-Disturb off by hand.
    pub fn disable_dnd(&mut self)
        requires
            old(self).wf(),
        ensures
            final(self).wf(),
            final(self)@ == (EngineView { dnd: DndState::with(false, true), ..old(self)@ }),
            final(self).pending() == old(self).pending(),
    {
        self.dnd.disable();
    }

    /// Flips Do-Not-Disturb by hand and returns whether it is on now.
    pub fn toggle_dnd(&mut self) -> (r: bool)
        requires
            old(self).wf(),
        ensures
            final(self).wf(),
            final(self)@ == (EngineView {
                dnd: DndState::with(!old(self)@.dnd.enabled(), true),
                ..old(self)@
            }),
            r == !old(self)@.dnd.enabled(),
            final(self).pending() == old(self).pending(),
    {
        self.dnd.toggle();
        proof {
            broadcast use DndState::lemma_flags;
        }
        self.dnd.is_enabled()
    }

    /// Sets Do-Not-Disturb as the schedule asks for at the given day and
    /// time of day.
    pub fn apply_schedule(
        &mut self,
        scheduler: &DndScheduler,
        day: Weekday,
        hour: u32,
        minute: u32,
    )
        requires
            old(self).wf(),
            hour < 24,
            minute < 60,
        ensures
            final(self).wf(),
            final(self)@ == (EngineView {
                dnd: after_tick(
                    scheduler.period(),
                    scheduler.config().schedule_days@,
                    old(self)@.dnd,
                    day,
                    hour * 60 + minute,
                ),
                ..old(self)@
            }),
            final(self).pending() == old(self).pending(),
    {
        scheduler.apply(&mut self.dnd, day, hour, minute);
    }

    /// Reads the local clock and sets Do-Not-Disturb as the schedule asks
    /// for now.
    pub fn tick_schedule(&mut self, scheduler: &DndScheduler)
        requires
            old(self).wf(),
        ensures
            final(self).wf(),
            final(self).pending() == old(self).pending(),
            exists|day: Weekday, hour: u32, minute: u32|
                hour < 24 && minute < 60 && final(self)@ == (EngineView {
                    dnd: #[trigger] after_tick(
                        scheduler.period(),
                        scheduler.config().schedule_days@,
                        old(self)@.dnd,
                        day,
                        hour * 60 + minute,
                    ),
                    ..old(self)@
                }),
    {
        scheduler.tick(&mut self.dnd);
        proof {
            let days = scheduler.config().schedule_days@;
            let (day, hour, minute) = choose|day: Weekday, hour: u32, minute: u32|
                hour < 24 && minute < 60 && self@.dnd == #[trigger] after_tick(
                    scheduler.period(),
                    days,
                    old(self)@.dnd,
                    day,
                    hour * 60 + minute,
                );
            assert(self@ == (EngineView {
                dnd: after_tick(scheduler.period(), days, old(self)@.dnd, day, hour * 60 + minute),
                ..old(self)@
            }));
        }
    }

    /// Replaces the configuration. Notifications that are active keep
    /// their place and their timers.
    pub fn reload_config(&mut self, config: Config)
        requires
            old(self).wf(),
        ensures
            final(self).wf(),
            final(self)@ == (EngineView { config: config@, ..old(self)@ }),
            final(self).pending() == old(self).pending(),
    {
        self.config = config;
    }

    /// Asks the presenter to show the panel of past notifications.
    pub fn show_center(&mut self)
        ensures
            final(self).wf() == old(self).wf(),
            final(self)@ == old(self)@,
            final(self).pending() == old(self).pending().push(Effect::ShowCenter),
    {
        self.emit(Outbound::Ui(UiEvent::ShowCenter));
    }

    /// Asks the presenter to hide the panel of past notifications.
    pub fn hide_center(&mut self)
        ensures
            final(self).wf() == old(self).wf(),
            final(self)@ == old(self)@,
            final(self).pending() == old(self).pending().push(Effect::HideCenter),
    {
        self.emit(Outbound::Ui(UiEvent::HideCenter));
    }

    /// Asks the presenter to show the panel if it is hidden, and to hide
    /// it if it is shown.
    pub fn toggle_center(&mut self)
        ensures
            final(self).wf() == old(self).wf(),
            final(self)@ == old(self)@,
            final(self).pending() == old(self).pending().push(Effect::ToggleCenter),
    {
        self.emit(Outbound::Ui(UiEvent::ToggleCenter));
    }

    /// How many records the history holds; 0 where none is kept.
    pub fn history_count(&self) -> (r: u32)
        requires
            self.wf(),
        ensures
            r == match self@.history {
                Some(h) => h.rows.len(),
                None => 0,
            },
    {
        match &self.history {
            Some(h) => h.count(),
            None => 0,
        }
    }

    /// The records of the history, newest first; none where no history
    /// is kept.
    pub fn history_entries(&self) -> (r: Vec<HistoryEntry>)
        ensures
            entry_views(r@) == match self@.history {
                Some(h) => h.rows,
                None => Seq::empty(),
            },
    {
        match &self.history {
            Some(h) => h.get_all(),
            None => {
                let out: Vec<HistoryEntry> = Vec::new();
                out
            },
        }
    }
}

} // verus!
