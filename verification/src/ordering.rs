//! The order in which notifications are shown where the newest comes
//! first.

use vstd::prelude::*;
use crate::bus::CloseReason;
use crate::config::{ConfigView, SortOrder};
use crate::model::{
    close, dismiss_all, initial, lemma_close_wf, lemma_dismiss_all_frame, lemma_dismiss_all_wf, lemma_fresh_id,
    lemma_initial_wf, lemma_remove_unique, lemma_set_hovered_wf, lemma_step_wf, run, step, submit,
    visible, wf, EngineView, Input,
};
use crate::laws::lemma_visible_bound;
use crate::rules::with_rules;

verus! {

/// Whether the display order runs from the notification that was created
/// last to the one that was created first.
pub open spec fn newest_shown_first(s: EngineView) -> bool {
    forall|i: int, j: int|
        0 <= i <= j < s.order.len() ==> s.entries[s.order[i]].notification.created_at
            >= s.entries[s.order[j]].notification.created_at
}

/// The latest instant at which a notification among the requests was
/// created; the earliest instant there is where none was submitted.
pub open spec fn latest_created(inputs: Seq<Input>) -> int
    decreases inputs.len(),
{
    if inputs.len() == 0 {
        i64::MIN as int
    } else {
        match inputs.last() {
            Input::Submit { notification, .. } => if notification.created_at >= latest_created(
                inputs.drop_last(),
            ) {
                notification.created_at as int
            } else {
                latest_created(inputs.drop_last())
            },
            _ => latest_created(inputs.drop_last()),
        }
    }
}

/// Whether the requests keep the newest first: every submission asks
/// for a new notification that was created no earlier than those
/// submitted before it, and every configuration that is loaded orders
/// the newest first.
pub open spec fn arrive_in_order(inputs: Seq<Input>) -> bool
    decreases inputs.len(),
{
    if inputs.len() == 0 {
        true
    } else {
        &&& arrive_in_order(inputs.drop_last())
        &&& match inputs.last() {
            Input::Submit { notification, .. } => notification.replaces_id == 0
                && notification.created_at >= latest_created(inputs.drop_last()),
            Input::Reload { config } => config.general.sort_order == SortOrder::NewestFirst,
            _ => true,
        }
    }
}

/// Whether a request fits a state whose newest notification was created
/// at or before `latest`, in the sense of `arrive_in_order`.
pub open spec fn arrives_after(input: Input, latest: int) -> bool {
    match input {
        Input::Submit { notification, .. } => notification.replaces_id == 0
            && notification.created_at >= latest,
        Input::Reload { config } => config.general.sort_order == SortOrder::NewestFirst,
        _ => true,
    }
}

/// The latest instant of creation after one more request.
pub open spec fn latest_after(input: Input, latest: int) -> int {
    match input {
        Input::Submit { notification, .. } => if notification.created_at >= latest {
            notification.created_at as int
        } else {
            latest
        },
        _ => latest,
    }
}

/// What holds of an engine that orders the newest first, after requests
/// that arrive in order: it is valid, still orders the newest first, its
/// display order runs from the newest to the oldest, and none of its
/// notifications was created after `latest`.
pub open spec fn keeps_newest_first(s: EngineView, latest: int) -> bool {
    &&& wf(s)
    &&& s.config.general.sort_order == SortOrder::NewestFirst
    &&& newest_shown_first(s)
    &&& forall|x: u32| #[trigger]
        s.entries.contains_key(x) ==> s.entries[x].notification.created_at <= latest
}

/// Closing a notification keeps the display order running from the
/// newest to the oldest.
pub proof fn lemma_close_newest_first(s: EngineView, id: u32, reason: CloseReason, latest: int)
    requires
        keeps_newest_first(s, latest),
    ensures
        keeps_newest_first(close(s, id, reason).0, latest),
{
    let after = close(s, id, reason).0;
    lemma_close_wf(s, id, reason);
    if s.entries.contains_key(id) {
        assert(s.order.contains(id));
        let k = s.order.index_of(id);
        lemma_remove_unique(s.order, k);
        assert forall|i: int, j: int| 0 <= i <= j < after.order.len() implies after.entries[
            after.order[i]
        ].notification.created_at >= after.entries[after.order[j]].notification.created_at by {
            let i0 = if i < k {
                i
            } else {
                i + 1
            };
            let j0 = if j < k {
                j
            } else {
                j + 1
            };
            assert(after.order[i] == s.order[i0]);
            assert(after.order[j] == s.order[j0]);
            assert(s.order[i0] != id);
            assert(s.order[j0] != id);
        }
        assert forall|x: u32| #[trigger] after.entries.contains_key(x) implies after.entries[
            x
        ].notification.created_at <= latest by {
            assert(s.entries.contains_key(x));
        }
    }
}

/// Dismissing everything keeps the display order running from the newest
/// to the oldest.
pub proof fn lemma_dismiss_all_newest_first(s: EngineView, latest: int)
    requires
        keeps_newest_first(s, latest),
    ensures
        keeps_newest_first(dismiss_all(s).0, latest),
{
    lemma_dismiss_all_wf(s);
    lemma_dismiss_all_frame(s);
}

/// One more request that arrives in order keeps the display order
/// running from the newest to the oldest.
pub proof fn lemma_step_newest_first(s: EngineView, input: Input, latest: int)
    requires
        keeps_newest_first(s, latest),
        arrives_after(input, latest),
    ensures
        keeps_newest_first(step(s, input).0, latest_after(input, latest)),
{
    let after = step(s, input).0;
    lemma_step_wf(s, input);
    match input {
        Input::Submit { notification, now } => {
            let n1 = with_rules(notification, s.config.rules);
            lemma_fresh_id(s.next_id, s.entries.dom());
            let id = submit(s, notification, now).1;
            if after.order.len() > s.order.len() {
                assert(after.order =~= s.order.insert(0, id));
                assert(!s.entries.contains_key(id));
                assert forall|i: int, j: int| 0 <= i <= j < after.order.len() implies after.entries[
                    after.order[i]
                ].notification.created_at >= after.entries[
                    after.order[j]
                ].notification.created_at by {
                    if i > 0 {
                        assert(after.order[i] == s.order[i - 1]);
                        assert(after.order[j] == s.order[j - 1]);
                        assert(s.order.contains(s.order[i - 1]));
                        assert(s.order.contains(s.order[j - 1]));
                    } else if j > 0 {
                        assert(after.order[j] == s.order[j - 1]);
                        assert(s.order.contains(s.order[j - 1]));
                        assert(s.entries.contains_key(s.order[j - 1]));
                    }
                }
                assert forall|x: u32| #[trigger] after.entries.contains_key(x) implies after.entries[
                    x
                ].notification.created_at <= latest_after(input, latest) by {
                    if x != id {
                        assert(s.entries.contains_key(x));
                    }
                }
            }
        },
        Input::Close { id, reason } => {
            lemma_close_newest_first(s, id, reason, latest);
        },
        Input::Invoke { id, action_key } => {
            lemma_close_newest_first(s, id, CloseReason::Dismissed, latest);
        },
        Input::Reply { id, text } => {
            lemma_close_newest_first(s, id, CloseReason::Dismissed, latest);
        },
        Input::SetHovered { id, hovered, now } => {
            lemma_set_hovered_wf(s, id, hovered, now);
            assert forall|i: int, j: int| 0 <= i <= j < after.order.len() implies after.entries[
                after.order[i]
            ].notification.created_at >= after.entries[after.order[j]].notification.created_at by {
                assert(s.order.contains(s.order[i]));
                assert(s.order.contains(s.order[j]));
                assert(s.entries[s.order[i]].notification.created_at >= s.entries[
                    s.order[j]
                ].notification.created_at);
            }
            assert forall|x: u32| #[trigger] after.entries.contains_key(x) implies after.entries[
                x
            ].notification.created_at <= latest by {
                assert(s.entries.contains_key(x));
            }
        },
        Input::Tick { id, epoch } => {
            lemma_close_newest_first(s, id, CloseReason::Expired, latest);
        },
        Input::DismissAll => {
            lemma_dismiss_all_newest_first(s, latest);
        },
        _ => {},
    }
}

/// With the newest ordered first, the notifications that are shown run
/// from the one created last to the one created first. This holds after
/// requests that arrive in order, to an engine that started with nothing
/// active: each submission asks for a new notification, created no
/// earlier than those submitted before it.
pub proof fn lemma_newest_first(
    config: ConfigView,
    history_limit: Option<u32>,
    inputs: Seq<Input>,
)
    requires
        config.general.sort_order == SortOrder::NewestFirst,
        arrive_in_order(inputs),
    ensures
        keeps_newest_first(run(initial(config, history_limit), inputs).0, latest_created(inputs)),
        forall|i: int, j: int|
            0 <= i <= j < visible(run(initial(config, history_limit), inputs).0).len() ==> visible(
                run(initial(config, history_limit), inputs).0,
            )[i].created_at >= visible(run(initial(config, history_limit), inputs).0)[j].created_at,
    decreases inputs.len(),
{
    let s0 = initial(config, history_limit);
    if inputs.len() == 0 {
        lemma_initial_wf(config, history_limit);
    } else {
        lemma_newest_first(config, history_limit, inputs.drop_last());
        lemma_step_newest_first(
            run(s0, inputs.drop_last()).0,
            inputs.last(),
            latest_created(inputs.drop_last()),
        );
    }
    let s = run(s0, inputs).0;
    lemma_visible_bound(s);
}

} // verus!
