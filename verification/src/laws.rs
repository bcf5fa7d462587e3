//! What holds of the engine whatever is asked of it, proved of the
//! machine that the executable engine follows.

use vstd::prelude::*;
use crate::bus::CloseReason;
use crate::config::ConfigView;
use crate::events::{ActionEventView, Effect};
use crate::history::{added, lemma_first_not_newer, HistoryEntryView};
use crate::ipc::{handled, IpcCommandView, ResponseView};
use crate::model::{
    close, effective_timeout, expiry, initial, intent, lemma_dismiss_all_frame,
    lemma_dismiss_all_wf, lemma_fresh_id, lemma_initial_wf, lemma_step_wf, recorded, run,
    set_hovered, step, submit, tick, visible, wf, EngineView, HistoryView, HOVER_RETRY_MS, Input,
};
use crate::notification::NotificationView;
use crate::rules::with_rules;
use crate::urgency::Urgency;

verus! {

/// No two active notifications share an identifier, whatever was asked of
/// the engine: the display order lists each active notification once,
/// and each goes by its own identifier. The history stays within its
/// bound, and no more notifications are shown than the configuration
/// allows.
pub proof fn lemma_run_wf(s: EngineView, inputs: Seq<Input>)
    requires
        wf(s),
    ensures
        wf(run(s, inputs).0),
        run(s, inputs).0.order.no_duplicates(),
        forall|id: u32| #[trigger]
            run(s, inputs).0.entries.contains_key(id) ==> run(
                s,
                inputs,
            ).0.entries[id].notification.id == id,
        run(s, inputs).0.history matches Some(h) ==> h.rows.len() <= h.limit,
        visible(run(s, inputs).0).len() <= run(s, inputs).0.config.general.max_visible,
    decreases inputs.len(),
{
    if inputs.len() > 0 {
        lemma_run_wf(s, inputs.drop_last());
        lemma_step_wf(run(s, inputs.drop_last()).0, inputs.last());
    }
}

/// A submission that names an active notification to replace returns
/// that notification's identifier, and leaves the display order and the
/// set of active notifications as they were.
pub proof fn lemma_replacement_keeps_identity(s: EngineView, n: NotificationView, now: i64)
    requires
        wf(s),
        n.replaces_id != 0,
        s.entries.contains_key(n.replaces_id),
    ensures
        submit(s, n, now).1 == n.replaces_id,
        submit(s, n, now).0.order == s.order,
        submit(s, n, now).0.entries.dom() == s.entries.dom(),
        submit(s, n, now).0.next_id == s.next_id,
        forall|i: int| 0 <= i < submit(s, n, now).2.len() ==> !(submit(s, n, now).2[i] is Closed),
{
    let after = submit(s, n, now).0;
    assert(after.entries.dom() =~= s.entries.dom());
}

/// The reason that is signalled is the cause of the closing: a timer
/// that runs out gives 1, a dismissal by the control protocol or by the
/// presenter gives 2, and a `CloseNotification` call gives 3.
pub proof fn lemma_reasons(s: EngineView, id: u32, epoch: u64, now: i64)
    requires
        s.entries.contains_key(id),
    ensures
        CloseReason::Expired.number() == 1,
        CloseReason::Dismissed.number() == 2,
        CloseReason::CloseCall.number() == 3,
        CloseReason::Undefined.number() == 4,
        s.entries[id].epoch == epoch && !s.entries[id].notification.is_hovered ==> tick(
            s,
            id,
            epoch,
        ).1 == seq![Effect::Close(id), Effect::Closed { id, reason: CloseReason::Expired }],
        handled(s, IpcCommandView::Dismiss { id }).1 == seq![
            Effect::Close(id),
            Effect::Closed { id, reason: CloseReason::Dismissed },
        ],
        intent(s, ActionEventView::Dismissed { id }, now).1 == seq![
            Effect::Close(id),
            Effect::Closed { id, reason: CloseReason::Dismissed },
        ],
        close(s, id, CloseReason::CloseCall).1 == seq![
            Effect::Close(id),
            Effect::Closed { id, reason: CloseReason::CloseCall },
        ],
{
}

/// While Do-Not-Disturb is on, a notification that is not critical once
/// the rules were applied is not shown: nothing is asked of the world and
/// the registry stays as it was. It is recorded in the history unless it
/// is transient, and where it is the newest and the history keeps
/// anything, its record stands first.
pub proof fn lemma_dnd_suppresses(s: EngineView, n: NotificationView, now: i64)
    requires
        wf(s),
        s.dnd.enabled(),
        with_rules(n, s.config.rules).hints.urgency != Urgency::Critical,
    ensures
        submit(s, n, now).2 == Seq::<Effect>::empty(),
        submit(s, n, now).0.entries == s.entries,
        submit(s, n, now).0.order == s.order,
        submit(s, n, now).1 != 0 ==> ({
            let id = submit(s, n, now).1;
            let accepted = NotificationView {
                id,
                expires_at: expiry(
                    now,
                    effective_timeout(with_rules(n, s.config.rules), s.config.timeouts),
                ),
                ..with_rules(n, s.config.rules)
            };
            &&& submit(s, n, now).0.history == recorded(s.history, accepted, now)
            &&& (s.history matches Some(h) && !accepted.hints.transient && h.limit > 0 && (forall|
                i: int,
            |
                0 <= i < h.rows.len() ==> h.rows[i].timestamp <= now)) ==> submit(
                s,
                n,
                now,
            ).0.history->0.rows[0] == HistoryEntryView::of(accepted, id, now)
        }),
{
    let n1 = with_rules(n, s.config.rules);
    let replacing = n1.replaces_id != 0 && s.entries.contains_key(n1.replaces_id);
    if !replacing {
        lemma_fresh_id(s.next_id, s.entries.dom());
    }
    if submit(s, n, now).1 != 0 {
        if let Some(h) = s.history {
            lemma_first_not_newer(h.rows, now, 0);
        }
    }
}

/// While Do-Not-Disturb is on, a critical notification is shown all the
/// same, and where it has a timeout it expires when its timer runs out:
/// the timer is asked for, and its report closes the notification for
/// the reason that its time ran out.
pub proof fn lemma_dnd_critical_bypass(s: EngineView, n: NotificationView, now: i64)
    requires
        wf(s),
        s.dnd.enabled(),
        with_rules(n, s.config.rules).hints.urgency == Urgency::Critical,
        submit(s, n, now).1 != 0,
    ensures
        ({
            let (after, id, effects) = submit(s, n, now);
            let timeout = effective_timeout(with_rules(n, s.config.rules), s.config.timeouts);
            &&& after.entries.contains_key(id)
            &&& effects.len() > 0
            &&& (effects[0] is Show || effects[0] is Update)
            &&& timeout > 0 ==> effects.len() == 2 && effects[1] == (Effect::ArmTimer {
                id,
                epoch: s.next_epoch,
                delay_ms: timeout,
            })
            &&& timeout > 0 && !after.entries[id].notification.is_hovered ==> tick(
                after,
                id,
                s.next_epoch,
            ).1 == seq![Effect::Close(id), Effect::Closed { id, reason: CloseReason::Expired }]
        }),
{
    let n1 = with_rules(n, s.config.rules);
    let replacing = n1.replaces_id != 0 && s.entries.contains_key(n1.replaces_id);
    if !replacing {
        lemma_fresh_id(s.next_id, s.entries.dom());
    }
}

/// While the pointer is over a notification, a timer that runs out does
/// not close it: the state stays as it is, nothing is signalled, and the
/// same timer is asked for again. When the pointer leaves, the time of a
/// notification with a timeout starts again under a new timer, and the
/// old timer does not count any more.
pub proof fn lemma_hover_freezes(s: EngineView, id: u32, epoch: u64, now: i64)
    requires
        wf(s),
        s.entries.contains_key(id),
        s.entries[id].notification.is_hovered,
    ensures
        tick(s, id, epoch).0 == s,
        forall|i: int| 0 <= i < tick(s, id, epoch).1.len() ==> !(tick(s, id, epoch).1[i] is Closed),
        s.entries[id].epoch == epoch ==> tick(s, id, epoch).1 == seq![
            Effect::ArmTimer { id, epoch, delay_ms: HOVER_RETRY_MS },
        ],
        s.entries[id].timeout > 0 ==> ({
            let (after, effects) = set_hovered(s, id, false, now);
            &&& after.entries.contains_key(id)
            &&& !after.entries[id].notification.is_hovered
            &&& after.entries[id].notification.expires_at == Some(
                (now + s.entries[id].timeout) as i64,
            )
            &&& after.entries[id].epoch == s.next_epoch
            &&& effects == seq![
                Effect::ArmTimer { id, epoch: s.next_epoch, delay_ms: s.entries[id].timeout },
            ]
            &&& epoch != s.next_epoch ==> tick(after, id, epoch) == (after, Seq::<Effect>::empty())
        }),
{
}

/// No more notifications are shown than the configuration allows, and
/// they are the first of the display order.
pub proof fn lemma_visible_bound(s: EngineView)
    ensures
        visible(s).len() <= s.config.general.max_visible,
        visible(s).len() <= s.order.len(),
        forall|i: int|
            0 <= i < visible(s).len() ==> visible(s)[i] == s.entries[s.order[i]].notification,
{
}

/// Switching Do-Not-Disturb on twice is switching it on once.
pub proof fn lemma_enable_dnd_idempotent(s: EngineView)
    ensures
        step(step(s, Input::EnableDnd).0, Input::EnableDnd) == step(s, Input::EnableDnd),
        handled(handled(s, IpcCommandView::EnableDnd).0, IpcCommandView::EnableDnd) == handled(
            s,
            IpcCommandView::EnableDnd,
        ),
{
}

/// Dismissing a notification that is not active changes nothing, asks
/// nothing of the world, and is answered with success.
pub proof fn lemma_dismiss_absent(s: EngineView, id: u32)
    requires
        !s.entries.contains_key(id),
    ensures
        handled(s, IpcCommandView::Dismiss { id }) == (s, Seq::<Effect>::empty(), ResponseView::done()),
        step(s, Input::Close { id, reason: CloseReason::Dismissed }) == (s, Seq::<Effect>::empty()),
{
}

/// Replacing the configuration by the one in force changes nothing.
pub proof fn lemma_reload_same(s: EngineView)
    ensures
        step(s, Input::Reload { config: s.config }) == (s, Seq::<Effect>::empty()),
{
}

/// A notification gets a record in the history exactly where it is
/// accepted and not transient: a submission that is dropped for want of
/// an identifier, or of a transient notification, leaves the history as
/// it was, and every other one adds the record of the notification as it
/// was accepted, whether Do-Not-Disturb holds it back or not.
pub proof fn lemma_submit_records(s: EngineView, n: NotificationView, now: i64)
    requires
        wf(s),
    ensures
        ({
            let (after, id, effects) = submit(s, n, now);
            let ruled = with_rules(n, s.config.rules);
            let accepted = NotificationView {
                id,
                expires_at: expiry(now, effective_timeout(ruled, s.config.timeouts)),
                ..ruled
            };
            &&& id == 0 ==> after == s
            &&& id != 0 && accepted.hints.transient ==> after.history == s.history
            &&& id != 0 && !accepted.hints.transient ==> match s.history {
                Some(h) => after.history == Some(
                    HistoryView {
                        rows: added(h.rows, HistoryEntryView::of(accepted, id, now), h.limit as int),
                        limit: h.limit,
                    },
                ),
                None => after.history is None,
            }
        }),
{
    let ruled = with_rules(n, s.config.rules);
    let replacing = ruled.replaces_id != 0 && s.entries.contains_key(ruled.replaces_id);
    if !replacing {
        lemma_fresh_id(s.next_id, s.entries.dom());
    }
}

/// Whether every timer generation in force was given out before the
/// next one.
pub open spec fn epochs_below(s: EngineView) -> bool {
    forall|x: u32| #[trigger] s.entries.contains_key(x) ==> s.entries[x].epoch < s.next_epoch
}

/// After fewer requests than there are timer generations, to an engine
/// that started with nothing active, every timer generation in force was
/// given out before the next one.
pub proof fn lemma_epochs_fresh(config: ConfigView, history_limit: Option<u32>, inputs: Seq<Input>)
    requires
        inputs.len() < u64::MAX,
    ensures
        wf(run(initial(config, history_limit), inputs).0),
        epochs_below(run(initial(config, history_limit), inputs).0),
        run(initial(config, history_limit), inputs).0.next_epoch <= inputs.len(),
    decreases inputs.len(),
{
    let s0 = initial(config, history_limit);
    if inputs.len() == 0 {
        lemma_initial_wf(config, history_limit);
    } else {
        lemma_epochs_fresh(config, history_limit, inputs.drop_last());
        let before = run(s0, inputs.drop_last()).0;
        lemma_step_wf(before, inputs.last());
        lemma_step_epochs(before, inputs.last());
    }
}

/// One more request gives out at most the next timer generation, and to
/// nothing but the notification that it arms a timer for.
pub proof fn lemma_step_epochs(s: EngineView, input: Input)
    requires
        wf(s),
        epochs_below(s),
        s.next_epoch < u64::MAX,
    ensures
        epochs_below(step(s, input).0),
        s.next_epoch <= step(s, input).0.next_epoch <= s.next_epoch + 1,
{
    let after = step(s, input).0;
    match input {
        Input::Submit { notification, now } => {
            assert forall|x: u32| #[trigger] after.entries.contains_key(x) implies after.entries[
                x
            ].epoch < after.next_epoch by {
                if after.entries[x] != s.entries[x] || !s.entries.contains_key(x) {
                } else {
                    assert(s.entries.contains_key(x));
                }
            }
        },
        Input::Close { id, reason } => {
            lemma_close_epochs(s, id, reason);
        },
        Input::Invoke { id, action_key } => {
            lemma_close_epochs(s, id, CloseReason::Dismissed);
        },
        Input::Reply { id, text } => {
            lemma_close_epochs(s, id, CloseReason::Dismissed);
        },
        Input::SetHovered { id, hovered, now } => {
            assert forall|x: u32| #[trigger] after.entries.contains_key(x) implies after.entries[
                x
            ].epoch < after.next_epoch by {
                if x != id {
                    assert(s.entries.contains_key(x));
                } else {
                    assert(s.entries.contains_key(id));
                }
            }
        },
        Input::Tick { id, epoch } => {
            lemma_close_epochs(s, id, CloseReason::Expired);
        },
        Input::DismissAll => {
            lemma_dismiss_all_wf(s);
            lemma_dismiss_all_frame(s);
        },
        _ => {
            assert forall|x: u32| #[trigger] after.entries.contains_key(x) implies after.entries[
                x
            ].epoch < after.next_epoch by {
                assert(s.entries.contains_key(x));
            }
        },
    }
}

/// Closing a notification leaves the timer generations of the others as
/// they were.
pub proof fn lemma_close_epochs(s: EngineView, id: u32, reason: CloseReason)
    requires
        epochs_below(s),
    ensures
        epochs_below(close(s, id, reason).0),
        close(s, id, reason).0.next_epoch == s.next_epoch,
{
    let after = close(s, id, reason).0;
    assert forall|x: u32| #[trigger] after.entries.contains_key(x) implies after.entries[x].epoch
        < after.next_epoch by {
        assert(s.entries.contains_key(x));
    }
}

/// A timer that was set for a notification does not count any more once
/// the notification was replaced or its time started again: its report
/// changes nothing and asks nothing of the world.
pub proof fn lemma_stale_timer_is_ignored(s: EngineView, n: NotificationView, id: u32, now: i64)
    requires
        wf(s),
        epochs_below(s),
        s.entries.contains_key(id),
    ensures
        n.replaces_id == id && submit(s, n, now).2.len() > 0 ==> tick(
            submit(s, n, now).0,
            id,
            s.entries[id].epoch,
        ) == (submit(s, n, now).0, Seq::<Effect>::empty()),
        set_hovered(s, id, false, now).1.len() > 0 ==> tick(
            set_hovered(s, id, false, now).0,
            id,
            s.entries[id].epoch,
        ) == (set_hovered(s, id, false, now).0, Seq::<Effect>::empty()),
        !close(s, id, CloseReason::Dismissed).0.entries.contains_key(id),
        tick(close(s, id, CloseReason::Dismissed).0, id, s.entries[id].epoch) == (
            close(s, id, CloseReason::Dismissed).0,
            Seq::<Effect>::empty(),
        ),
{
}

} // verus!
