//! What the engine tells the world over a whole run: the closing of a
//! notification is signalled exactly once, and what is said of a
//! notification comes in the order of its life.

use vstd::prelude::*;
use crate::bus::CloseReason;
use crate::config::ConfigView;
use crate::events::Effect;
use crate::model::{
    close, dismiss_all, initial, least_free, lemma_close_wf, lemma_dismiss_all_frame, lemma_dismiss_all_wf, lemma_fresh_id,
    lemma_initial_wf, lemma_set_hovered_wf, lemma_step_wf, run, step, submit, wf, EngineView,
    Input,
};
use crate::notification::NotificationView;
use crate::rules::with_rules;

verus! {

/// Whether an effect is the bus signal that the notification with the
/// given identifier was closed.
pub open spec fn closes(e: Effect, id: u32) -> bool {
    e matches Effect::Closed { id: x, .. } && x == id
}

/// Whether an effect asks the presenter to show a new notification with
/// the given identifier.
pub open spec fn shows(e: Effect, id: u32) -> bool {
    e matches Effect::Show(n) && n.id == id
}

/// How many times the effects signal that the notification with the
/// given identifier was closed.
pub open spec fn closed_count(effects: Seq<Effect>, id: u32) -> nat
    decreases effects.len(),
{
    if effects.len() == 0 {
        0
    } else {
        closed_count(effects.drop_last(), id) + if closes(effects.last(), id) {
            1nat
        } else {
            0nat
        }
    }
}

/// Whether the effects ask the presenter to show a new notification with
/// the given identifier.
pub open spec fn was_shown(effects: Seq<Effect>, id: u32) -> bool {
    exists|i: int| 0 <= i < effects.len() && shows(#[trigger] effects[i], id)
}

/// Whether the effects of a change of state match the change: the
/// closing of a notification is signalled once where it leaves the
/// registry and not otherwise, and the presenter is asked to show a new
/// notification exactly where one enters the registry.
pub open spec fn signals_match(s: EngineView, after: EngineView, effects: Seq<Effect>) -> bool {
    &&& forall|x: u32| #[trigger]
        closed_count(effects, x) == (if s.entries.contains_key(x) && !after.entries.contains_key(
            x,
        ) {
            1nat
        } else {
            0nat
        })
    &&& forall|x: u32| #[trigger]
        was_shown(effects, x) <==> (!s.entries.contains_key(x) && after.entries.contains_key(x))
}

/// The close signals of two lists of effects add up.
pub proof fn lemma_count_concat(a: Seq<Effect>, b: Seq<Effect>, id: u32)
    ensures
        closed_count(a + b, id) == closed_count(a, id) + closed_count(b, id),
    decreases b.len(),
{
    if b.len() == 0 {
        assert(a + b =~= a);
    } else {
        assert((a + b).drop_last() =~= a + b.drop_last());
        assert((a + b).last() == b.last());
        lemma_count_concat(a, b.drop_last(), id);
    }
}

/// A notification is shown by two lists of effects where it is shown by
/// one of them.
pub proof fn lemma_shown_concat(a: Seq<Effect>, b: Seq<Effect>, id: u32)
    ensures
        was_shown(a + b, id) <==> (was_shown(a, id) || was_shown(b, id)),
{
    if was_shown(a + b, id) {
        let i = choose|i: int| 0 <= i < (a + b).len() && shows(#[trigger] (a + b)[i], id);
        if i < a.len() {
            assert(shows(a[i], id));
        } else {
            assert(shows(b[i - a.len()], id));
        }
    }
    if was_shown(a, id) {
        let i = choose|i: int| 0 <= i < a.len() && shows(#[trigger] a[i], id);
        assert(shows((a + b)[i], id));
    }
    if was_shown(b, id) {
        let i = choose|i: int| 0 <= i < b.len() && shows(#[trigger] b[i], id);
        assert(shows((a + b)[i + a.len()], id));
    }
}

/// The close signals of a list of effects, counted one effect at a time
/// from its end.
pub proof fn lemma_count_push(a: Seq<Effect>, e: Effect, id: u32)
    ensures
        closed_count(a.push(e), id) == closed_count(a, id) + if closes(e, id) {
            1nat
        } else {
            0nat
        },
{
    assert(a.push(e).drop_last() =~= a);
}

/// Effects that hold neither a close signal nor a request to show a new
/// notification count for nothing.
pub proof fn lemma_silent(effects: Seq<Effect>, id: u32)
    requires
        forall|i: int|
            0 <= i < effects.len() ==> !((#[trigger] effects[i]) is Closed) && !(effects[i] is Show),
    ensures
        closed_count(effects, id) == 0,
        !was_shown(effects, id),
    decreases effects.len(),
{
    if effects.len() > 0 {
        lemma_silent(effects.drop_last(), id);
    }
}

/// Two changes of state in a row, of which neither lets a notification
/// enter the registry, match their effects taken together.
pub proof fn lemma_signals_compose(
    s: EngineView,
    mid: EngineView,
    end: EngineView,
    first: Seq<Effect>,
    second: Seq<Effect>,
)
    requires
        signals_match(s, mid, first),
        signals_match(mid, end, second),
        forall|x: u32| mid.entries.contains_key(x) ==> s.entries.contains_key(x),
        forall|x: u32| end.entries.contains_key(x) ==> mid.entries.contains_key(x),
    ensures
        signals_match(s, end, first + second),
{
    assert forall|x: u32| #[trigger]
        closed_count(first + second, x) == (if s.entries.contains_key(x)
            && !end.entries.contains_key(x) {
            1nat
        } else {
            0nat
        }) by {
        lemma_count_concat(first, second, x);
        assert(closed_count(first, x) == (if s.entries.contains_key(x)
            && !mid.entries.contains_key(x) {
            1nat
        } else {
            0nat
        }));
        assert(closed_count(second, x) == (if mid.entries.contains_key(x)
            && !end.entries.contains_key(x) {
            1nat
        } else {
            0nat
        }));
    }
    assert forall|x: u32| #[trigger]
        was_shown(first + second, x) <==> (!s.entries.contains_key(x) && end.entries.contains_key(
            x,
        )) by {
        lemma_shown_concat(first, second, x);
        assert(was_shown(first, x) <==> (!s.entries.contains_key(x) && mid.entries.contains_key(
            x,
        )));
        assert(was_shown(second, x) <==> (!mid.entries.contains_key(x) && end.entries.contains_key(
            x,
        )));
    }
}

/// Effects that are silent match a change of state that lets no
/// notification enter or leave the registry.
pub proof fn lemma_silent_matches(s: EngineView, after: EngineView, effects: Seq<Effect>)
    requires
        forall|i: int|
            0 <= i < effects.len() ==> !((#[trigger] effects[i]) is Closed) && !(effects[i] is Show),
        forall|x: u32| after.entries.contains_key(x) <==> s.entries.contains_key(x),
    ensures
        signals_match(s, after, effects),
{
    assert forall|x: u32| #[trigger]
        closed_count(effects, x) == (if s.entries.contains_key(x) && !after.entries.contains_key(
            x,
        ) {
            1nat
        } else {
            0nat
        }) by {
        lemma_silent(effects, x);
    }
    assert forall|x: u32| #[trigger]
        was_shown(effects, x) <==> (!s.entries.contains_key(x) && after.entries.contains_key(
            x,
        )) by {
        lemma_silent(effects, x);
    }
}

/// The effects of closing a notification match the change.
pub proof fn lemma_close_signals(s: EngineView, id: u32, reason: CloseReason)
    requires
        wf(s),
    ensures
        signals_match(s, close(s, id, reason).0, close(s, id, reason).1),
{
    let (after, effects) = close(s, id, reason);
    lemma_close_wf(s, id, reason);
    if s.entries.contains_key(id) {
        let one = seq![Effect::Close(id)];
        assert(effects =~= one.push(Effect::Closed { id, reason }));
        assert forall|x: u32| #[trigger]
            closed_count(effects, x) == (if s.entries.contains_key(x)
                && !after.entries.contains_key(x) {
                1nat
            } else {
                0nat
            }) by {
            lemma_count_push(one, Effect::Closed { id, reason }, x);
            lemma_silent(one, x);
        }
        assert forall|x: u32| #[trigger]
            was_shown(effects, x) <==> (!s.entries.contains_key(x) && after.entries.contains_key(
                x,
            )) by {
            if was_shown(effects, x) {
                let i = choose|i: int| 0 <= i < effects.len() && shows(#[trigger] effects[i], x);
                assert(false);
            }
        }
    } else {
        lemma_silent_matches(s, after, effects);
    }
}

/// The effects of dismissing everything match the change.
pub proof fn lemma_dismiss_all_signals(s: EngineView)
    requires
        wf(s),
    ensures
        signals_match(s, dismiss_all(s).0, dismiss_all(s).1),
    decreases s.order.len(),
{
    if s.order.len() > 0 {
        assert(s.order.contains(s.order[0]));
        let (mid, first) = close(s, s.order[0], CloseReason::Dismissed);
        lemma_close_wf(s, s.order[0], CloseReason::Dismissed);
        lemma_close_signals(s, s.order[0], CloseReason::Dismissed);
        lemma_dismiss_all_signals(mid);
        lemma_dismiss_all_wf(mid);
        lemma_signals_compose(s, mid, dismiss_all(mid).0, first, dismiss_all(mid).1);
    } else {
        lemma_silent_matches(s, s, Seq::empty());
    }
}

/// The effects of a submission match the change.
pub proof fn lemma_submit_signals(s: EngineView, n: NotificationView, now: i64)
    requires
        wf(s),
    ensures
        signals_match(s, submit(s, n, now).0, submit(s, n, now).2),
{
    let (after, id, effects) = submit(s, n, now);
    let n1 = with_rules(n, s.config.rules);
    let replacing = n1.replaces_id != 0 && s.entries.contains_key(n1.replaces_id);
    if !replacing {
        lemma_fresh_id(s.next_id, s.entries.dom());
    }
    if effects.len() > 0 && effects[0] is Show {
        assert forall|x: u32| #[trigger]
            closed_count(effects, x) == (if s.entries.contains_key(x)
                && !after.entries.contains_key(x) {
                1nat
            } else {
                0nat
            }) by {
            if effects.len() == 1 {
                assert(effects =~= Seq::<Effect>::empty().push(effects[0]));
                lemma_count_push(Seq::<Effect>::empty(), effects[0], x);
            } else {
                assert(effects =~= Seq::<Effect>::empty().push(effects[0]).push(effects[1]));
                lemma_count_push(Seq::<Effect>::empty(), effects[0], x);
                lemma_count_push(Seq::<Effect>::empty().push(effects[0]), effects[1], x);
            }
        }
        assert forall|x: u32| #[trigger]
            was_shown(effects, x) <==> (!s.entries.contains_key(x) && after.entries.contains_key(
                x,
            )) by {
            if was_shown(effects, x) {
                let i = choose|i: int| 0 <= i < effects.len() && shows(#[trigger] effects[i], x);
                assert(i == 0);
            }
            if !s.entries.contains_key(x) && after.entries.contains_key(x) {
                assert(x == id);
                assert(shows(effects[0], x));
            }
        }
    } else {
        lemma_silent_matches(s, after, effects);
    }
}

/// The effects of every request match the change of state that the
/// request makes: the closing of a notification is signalled once when it
/// leaves the registry, and never otherwise.
pub proof fn lemma_step_signals(s: EngineView, input: Input)
    requires
        wf(s),
    ensures
        signals_match(s, step(s, input).0, step(s, input).1),
{
    let (after, effects) = step(s, input);
    match input {
        Input::Submit { notification, now } => {
            lemma_submit_signals(s, notification, now);
        },
        Input::Close { id, reason } => {
            lemma_close_signals(s, id, reason);
        },
        Input::Invoke { id, action_key } => {
            let signal = seq![Effect::ActionInvoked { id, action_key }];
            if effects.len() > 1 {
                lemma_close_wf(s, id, CloseReason::Dismissed);
                lemma_close_signals(s, id, CloseReason::Dismissed);
                lemma_silent_matches(s, s, signal);
                lemma_signals_compose(
                    s,
                    s,
                    after,
                    signal,
                    close(s, id, CloseReason::Dismissed).1,
                );
            } else {
                lemma_silent_matches(s, after, effects);
            }
        },
        Input::Reply { id, text } => {
            let signal = seq![
                Effect::ActionInvoked { id, action_key: "inline-reply"@ },
                Effect::Replied { id, text },
            ];
            if effects.len() > 0 {
                lemma_close_wf(s, id, CloseReason::Dismissed);
                lemma_close_signals(s, id, CloseReason::Dismissed);
                lemma_silent_matches(s, s, signal);
                lemma_signals_compose(
                    s,
                    s,
                    after,
                    signal,
                    close(s, id, CloseReason::Dismissed).1,
                );
            } else {
                lemma_silent_matches(s, after, effects);
            }
        },
        Input::SetHovered { id, hovered, now } => {
            lemma_set_hovered_wf(s, id, hovered, now);
            lemma_silent_matches(s, after, effects);
        },
        Input::Tick { id, epoch } => {
            if s.entries.contains_key(id) && s.entries[id].epoch == epoch
                && !s.entries[id].notification.is_hovered {
                lemma_close_signals(s, id, CloseReason::Expired);
            } else {
                lemma_silent_matches(s, after, effects);
            }
        },
        Input::DismissAll => {
            lemma_dismiss_all_signals(s);
        },
        _ => {
            lemma_silent_matches(s, after, effects);
        },
    }
}

/// What holds after a number of requests to an engine whose identifiers
/// have not run out: the identifiers given out so far lie below the next
/// one, every notification that is or was active was shown once under an
/// identifier below the next one, and its closing was signalled once if
/// it is not active any more, and not at all if it is.
pub open spec fn closed_once(s: EngineView, effects: Seq<Effect>, steps: int) -> bool {
    &&& wf(s)
    &&& s.next_id <= steps + 1
    &&& forall|x: u32| was_shown(effects, x) ==> 1 <= x < s.next_id
    &&& forall|x: u32| s.entries.contains_key(x) ==> was_shown(effects, x)
    &&& forall|x: u32| #[trigger]
        closed_count(effects, x) == (if was_shown(effects, x) && !s.entries.contains_key(x) {
            1nat
        } else {
            0nat
        })
}

/// One more request keeps what `closed_once` states, as long as the
/// identifiers do not run out.
pub proof fn lemma_step_closed_once(s: EngineView, effects: Seq<Effect>, steps: int, input: Input)
    requires
        closed_once(s, effects, steps),
        steps + 1 < u32::MAX,
    ensures
        closed_once(step(s, input).0, effects + step(s, input).1, steps + 1),
{
    let (after, delta) = step(s, input);
    lemma_step_wf(s, input);
    lemma_step_signals(s, input);
    assert forall|x: u32| s.entries.contains_key(x) implies x < s.next_id by {
        assert(was_shown(effects, x));
    }
    lemma_step_identifiers(s, input);
    let all = effects + delta;
    assert forall|x: u32| was_shown(all, x) implies 1 <= x < after.next_id by {
        lemma_shown_concat(effects, delta, x);
    }
    assert forall|x: u32| after.entries.contains_key(x) implies was_shown(all, x) by {
        lemma_shown_concat(effects, delta, x);
    }
    assert forall|x: u32| #[trigger]
        closed_count(all, x) == (if was_shown(all, x) && !after.entries.contains_key(x) {
            1nat
        } else {
            0nat
        }) by {
        lemma_shown_concat(effects, delta, x);
        lemma_count_concat(effects, delta, x);
        assert(closed_count(delta, x) == (if s.entries.contains_key(x)
            && !after.entries.contains_key(x) {
            1nat
        } else {
            0nat
        }));
        assert(was_shown(delta, x) <==> (!s.entries.contains_key(x) && after.entries.contains_key(
            x,
        )));
        assert(closed_count(effects, x) == (if was_shown(effects, x) && !s.entries.contains_key(
            x,
        ) {
            1nat
        } else {
            0nat
        }));
    }
}

/// While the identifiers have not run out, a request gives out at most
/// the next identifier: a notification that enters the registry does so
/// under the identifier that was next, and the next identifier never
/// goes down.
pub proof fn lemma_step_identifiers(s: EngineView, input: Input)
    requires
        wf(s),
        s.next_id < u32::MAX,
        forall|x: u32| s.entries.contains_key(x) ==> x < s.next_id,
    ensures
        s.next_id <= step(s, input).0.next_id <= s.next_id + 1,
        forall|x: u32|
            !s.entries.contains_key(x) && step(s, input).0.entries.contains_key(x) ==> s.next_id
                <= x < step(s, input).0.next_id,
{
    let after = step(s, input).0;
    match input {
        Input::Submit { notification, now } => {
            lemma_fresh_id(s.next_id, s.entries.dom());
            assert(!s.entries.dom().contains(s.next_id));
            assert(least_free(s.next_id as int, u32::MAX as int, s.entries.dom())
                == Some(s.next_id));
        },
        Input::Close { id, reason } => {
            lemma_close_wf(s, id, reason);
        },
        Input::Invoke { id, action_key } => {
            lemma_close_wf(s, id, CloseReason::Dismissed);
        },
        Input::Reply { id, text } => {
            lemma_close_wf(s, id, CloseReason::Dismissed);
        },
        Input::SetHovered { id, hovered, now } => {
            lemma_set_hovered_wf(s, id, hovered, now);
        },
        Input::Tick { id, epoch } => {
            lemma_close_wf(s, id, CloseReason::Expired);
        },
        Input::DismissAll => {
            lemma_dismiss_all_wf(s);
            lemma_dismiss_all_frame(s);
        },
        _ => {},
    }
}

/// The closing of a notification is signalled exactly once. After fewer
/// requests than there are identifiers, to an engine that started with
/// nothing active: the closing of a notification that was shown and is
/// not active any more was signalled once, and the closing of any other
/// was not signalled.
pub proof fn lemma_closed_exactly_once(
    config: ConfigView,
    history_limit: Option<u32>,
    inputs: Seq<Input>,
)
    requires
        inputs.len() < u32::MAX,
    ensures
        closed_once(
            run(initial(config, history_limit), inputs).0,
            run(initial(config, history_limit), inputs).1,
            inputs.len() as int,
        ),
        forall|x: u32| #[trigger]
            closed_count(run(initial(config, history_limit), inputs).1, x) == (if was_shown(
                run(initial(config, history_limit), inputs).1,
                x,
            ) && !run(initial(config, history_limit), inputs).0.entries.contains_key(x) {
                1nat
            } else {
                0nat
            }),
    decreases inputs.len(),
{
    let s0 = initial(config, history_limit);
    if inputs.len() == 0 {
        lemma_initial_wf(config, history_limit);
        lemma_silent_matches(s0, s0, Seq::empty());
    } else {
        lemma_closed_exactly_once(config, history_limit, inputs.drop_last());
        let (before, earlier) = run(s0, inputs.drop_last());
        lemma_step_closed_once(before, earlier, inputs.len() - 1, inputs.last());
    }
}

/// Whether an effect asks the presenter to show a notification in place
/// of the one with the given identifier.
pub open spec fn updates(e: Effect, id: u32) -> bool {
    e matches Effect::Update(x, _) && x == id
}

/// Whether what the effects say of a notification comes in the order of
/// its life: it is shown as new once, it is updated only after that, and
/// once its closing was signalled nothing more is said of it.
pub open spec fn in_life_order(effects: Seq<Effect>, id: u32) -> bool {
    &&& forall|i: int, j: int|
        0 <= i < j < effects.len() && closes(#[trigger] effects[i], id) ==> !shows(
            #[trigger] effects[j],
            id,
        ) && !updates(effects[j], id) && !closes(effects[j], id)
    &&& forall|i: int, j: int|
        0 <= i < j < effects.len() && shows(#[trigger] effects[i], id) ==> !shows(
            #[trigger] effects[j],
            id,
        )
    &&& forall|j: int|
        0 <= j < effects.len() && updates(#[trigger] effects[j], id) ==> was_shown(
            effects.take(j),
            id,
        )
}

/// A close signal in a list of effects counts.
pub proof fn lemma_count_at_least(effects: Seq<Effect>, id: u32, i: int)
    requires
        0 <= i < effects.len(),
        closes(effects[i], id),
    ensures
        closed_count(effects, id) >= 1,
    decreases effects.len(),
{
    if i < effects.len() - 1 {
        lemma_count_at_least(effects.drop_last(), id, i);
    }
}

/// Two close signals in a list of effects count twice.
pub proof fn lemma_count_twice(effects: Seq<Effect>, id: u32, i: int, j: int)
    requires
        0 <= i < j < effects.len(),
        closes(effects[i], id),
        closes(effects[j], id),
    ensures
        closed_count(effects, id) >= 2,
    decreases effects.len(),
{
    if j < effects.len() - 1 {
        lemma_count_twice(effects.drop_last(), id, i, j);
    } else {
        lemma_count_at_least(effects.drop_last(), id, i);
    }
}

/// Dismissing everything asks for nothing but closings.
pub proof fn lemma_dismiss_all_shape(s: EngineView)
    requires
        wf(s),
    ensures
        forall|j: int|
            0 <= j < dismiss_all(s).1.len() ==> (#[trigger] dismiss_all(s).1[j]) is Close
                || dismiss_all(s).1[j] is Closed,
    decreases s.order.len(),
{
    if s.order.len() > 0 {
        assert(s.order.contains(s.order[0]));
        let (mid, first) = close(s, s.order[0], CloseReason::Dismissed);
        lemma_close_wf(s, s.order[0], CloseReason::Dismissed);
        lemma_dismiss_all_shape(mid);
        let rest = dismiss_all(mid).1;
        assert forall|j: int| 0 <= j < dismiss_all(s).1.len() implies (#[trigger] dismiss_all(
            s,
        ).1[j]) is Close || dismiss_all(s).1[j] is Closed by {
            if j >= first.len() {
                assert(dismiss_all(s).1[j] == rest[j - first.len()]);
            }
        }
    }
}

/// Whether effects ask the presenter for no new or updated state of a
/// notification.
pub open spec fn shows_nothing(effects: Seq<Effect>) -> bool {
    forall|j: int|
        0 <= j < effects.len() ==> !((#[trigger] effects[j]) is Show) && !(effects[j] is Update)
}

/// Whether effects have the shape of what one request asks for: an
/// update only of a notification that is active in the given state, and
/// a new or updated state only first, and then without any close signal.
pub open spec fn one_request(s: EngineView, effects: Seq<Effect>) -> bool {
    &&& forall|j: int, id: u32|
        0 <= j < effects.len() && #[trigger] updates(effects[j], id) ==> s.entries.contains_key(id)
    &&& forall|j: int|
        0 <= j < effects.len() && ((#[trigger] effects[j]) is Show || effects[j] is Update) ==> j
            == 0
    &&& (effects.len() > 0 && (effects[0] is Show || effects[0] is Update)) ==> forall|i: int|
        0 <= i < effects.len() ==> !((#[trigger] effects[i]) is Closed)
}

/// Effects that ask the presenter for no state of a notification have
/// the shape of one request.
pub proof fn lemma_shows_nothing(s: EngineView, effects: Seq<Effect>)
    requires
        shows_nothing(effects),
    ensures
        one_request(s, effects),
{
}

/// A submission asks for what has the shape of one request.
pub proof fn lemma_submit_shape(s: EngineView, n: NotificationView, now: i64)
    ensures
        one_request(s, submit(s, n, now).2),
{
    let effects = submit(s, n, now).2;
    let ruled = with_rules(n, s.config.rules);
    if effects.len() > 0 {
        assert forall|j: int, id: u32|
            0 <= j < effects.len() && #[trigger] updates(effects[j], id) implies s.entries.contains_key(
            id,
        ) by {
            assert(j == 0);
        }
    }
}

/// Every request asks for what has the shape of one request.
pub proof fn lemma_step_shape(s: EngineView, input: Input)
    requires
        wf(s),
    ensures
        one_request(s, step(s, input).1),
{
    let effects = step(s, input).1;
    match input {
        Input::Submit { notification, now } => {
            lemma_submit_shape(s, notification, now);
        },
        Input::DismissAll => {
            lemma_dismiss_all_shape(s);
            lemma_shows_nothing(s, effects);
        },
        Input::Invoke { id, action_key } => {
            assert(shows_nothing(effects));
            lemma_shows_nothing(s, effects);
        },
        Input::Reply { id, text } => {
            assert(shows_nothing(effects));
            lemma_shows_nothing(s, effects);
        },
        _ => {
            assert(shows_nothing(effects));
            lemma_shows_nothing(s, effects);
        },
    }
}

/// What `closed_once` states, and that what was said of every
/// notification so far came in the order of its life.
pub open spec fn lives_in_order(s: EngineView, effects: Seq<Effect>, steps: int) -> bool {
    &&& closed_once(s, effects, steps)
    &&& forall|id: u32| in_life_order(effects, id)
}

/// One more request keeps what `lives_in_order` states, as long as the
/// identifiers do not run out.
pub proof fn lemma_step_lives_in_order(s: EngineView, effects: Seq<Effect>, steps: int, input: Input)
    requires
        lives_in_order(s, effects, steps),
        steps + 1 < u32::MAX,
    ensures
        lives_in_order(step(s, input).0, effects + step(s, input).1, steps + 1),
{
    let (after, delta) = step(s, input);
    let all = effects + delta;
    let n = effects.len() as int;
    lemma_step_closed_once(s, effects, steps, input);
    lemma_step_signals(s, input);
    lemma_step_shape(s, input);
    assert forall|x: u32| s.entries.contains_key(x) implies x < s.next_id by {
        assert(was_shown(effects, x));
    }
    lemma_step_identifiers(s, input);
    assert forall|id: u32| in_life_order(all, id) by {
        assert(in_life_order(effects, id));
        assert(closed_count(effects, id) == (if was_shown(effects, id) && !s.entries.contains_key(
            id,
        ) {
            1nat
        } else {
            0nat
        }));
        assert(closed_count(delta, id) == (if s.entries.contains_key(id)
            && !after.entries.contains_key(id) {
            1nat
        } else {
            0nat
        }));
        assert(was_shown(delta, id) <==> (!s.entries.contains_key(id) && after.entries.contains_key(
            id,
        )));
        assert forall|i: int, j: int|
            0 <= i < j < all.len() && closes(#[trigger] all[i], id) implies !shows(
            #[trigger] all[j],
            id,
        ) && !updates(all[j], id) && !closes(all[j], id) by {
            if j < n {
                assert(all[i] == effects[i] && all[j] == effects[j]);
            } else if i < n {
                assert(all[i] == effects[i] && all[j] == delta[j - n]);
                lemma_count_at_least(effects, id, i);
                if shows(delta[j - n], id) {
                    assert(was_shown(delta, id));
                }
                if closes(delta[j - n], id) {
                    lemma_count_at_least(delta, id, j - n);
                }
            } else {
                assert(all[i] == delta[i - n] && all[j] == delta[j - n]);
                assert(delta[i - n] is Closed);
                if closes(delta[j - n], id) {
                    lemma_count_twice(delta, id, i - n, j - n);
                }
            }
        }
        assert forall|i: int, j: int|
            0 <= i < j < all.len() && shows(#[trigger] all[i], id) implies !shows(
            #[trigger] all[j],
            id,
        ) by {
            if j < n {
                assert(all[i] == effects[i] && all[j] == effects[j]);
            } else if i < n {
                assert(all[i] == effects[i] && all[j] == delta[j - n]);
                assert(was_shown(effects, id));
                if shows(delta[j - n], id) {
                    assert(was_shown(delta, id));
                }
            } else {
                assert(all[i] == delta[i - n] && all[j] == delta[j - n]);
            }
        }
        assert forall|j: int| 0 <= j < all.len() && updates(#[trigger] all[j], id) implies was_shown(
            all.take(j),
            id,
        ) by {
            if j < n {
                assert(all[j] == effects[j]);
                assert(all.take(j) =~= effects.take(j));
            } else {
                assert(all[j] == delta[j - n]);
                assert(s.entries.contains_key(id));
                assert(was_shown(effects, id));
                let i = choose|i: int| 0 <= i < effects.len() && shows(#[trigger] effects[i], id);
                assert(all.take(j)[i] == effects[i]);
            }
        }
    }
}

/// What is said of a notification comes in the order of its life. After
/// fewer requests than there are identifiers, to an engine that started
/// with nothing active: every notification is shown as new once, is
/// updated only after that, and once its closing was signalled nothing
/// more is said of it.
pub proof fn lemma_lives_in_order(
    config: ConfigView,
    history_limit: Option<u32>,
    inputs: Seq<Input>,
)
    requires
        inputs.len() < u32::MAX,
    ensures
        lives_in_order(
            run(initial(config, history_limit), inputs).0,
            run(initial(config, history_limit), inputs).1,
            inputs.len() as int,
        ),
        forall|id: u32| in_life_order(run(initial(config, history_limit), inputs).1, id),
    decreases inputs.len(),
{
    let s0 = initial(config, history_limit);
    if inputs.len() == 0 {
        lemma_closed_exactly_once(config, history_limit, inputs);
    } else {
        lemma_lives_in_order(config, history_limit, inputs.drop_last());
        let (before, earlier) = run(s0, inputs.drop_last());
        lemma_step_lives_in_order(before, earlier, inputs.len() - 1, inputs.last());
    }
}

} // verus!
