//! What holds of the tray state controller on every input.

use crate::controller::{
    accepts, request_next, request_outcome, shown_after, state_after, Transition, TrayEvent,
};
use crate::icon::icon_path_text;
use crate::state::{Theme, TrayState};
use vstd::prelude::*;

verus! {

/// Every state gives way to itself: asking for what is shown already is never
/// turned down.
pub proof fn law_self_request_accepted(state: TrayState)
    ensures
        accepts(state, state),
        request_next(state, state) == state,
{
}

/// The two idle states give way to every request.
pub proof fn law_idle_accepts_all(requested: TrayState)
    ensures
        accepts(TrayState::Ready, requested),
        accepts(TrayState::Disconnected, requested),
{
}

/// A recording and a matching are never turned down, whatever is current:
/// where requests for the two reach the controller at nearly the same time,
/// both are honoured in whichever order they are served.
pub proof fn law_drawing_and_recognizing_always_accepted(
    current: TrayState,
    requested: TrayState,
)
    requires
        requested is Drawing || requested is Recognizing,
    ensures
        accepts(current, requested),
        request_next(current, requested) == requested,
{
}

/// A request that is turned down changes nothing; one that is honoured makes
/// the requested state current.
pub proof fn law_request_takes_effect_iff_accepted(current: TrayState, requested: TrayState)
    ensures
        accepts(current, requested) ==> request_next(current, requested) == requested,
        !accepts(current, requested) ==> request_next(current, requested) == current,
        request_outcome(current, requested) is Accepted <==> accepts(current, requested),
{
}

/// The state that an answer puts on display, if it puts one.
pub open spec fn shown_by(answer: Transition) -> Option<TrayState> {
    match answer {
        Transition::Accepted { state, .. } => Some(state),
        Transition::Rejected => None,
    }
}

/// Asking twice in a row for a state that is accepted the first time is
/// accepted both times and leaves that state current. Both answers are the
/// same, and what they put on display has the same tooltip and the same icon
/// under any one theme.
pub proof fn law_repeated_request(current: TrayState, requested: TrayState, theme: Theme)
    requires
        accepts(current, requested),
    ensures
        ({
            let first = request_outcome(current, requested);
            let second = request_outcome(request_next(current, requested), requested);
            &&& first is Accepted
            &&& second is Accepted
            &&& second == first
            &&& request_next(request_next(current, requested), requested) == requested
            &&& shown_by(first)->0.tooltip_text() == shown_by(second)->0.tooltip_text()
            &&& icon_path_text(shown_by(first)->0, theme) == icon_path_text(
                shown_by(second)->0,
                theme,
            )
        }),
{
}

/// Entering `NotRecognized` arms a timer of 300 ms and entering `Recognized`
/// one of 3000 ms; no other state arms one.
pub proof fn law_timer_armed(current: TrayState, requested: TrayState)
    requires
        accepts(current, requested),
    ensures
        request_outcome(current, requested) == (Transition::Accepted {
            state: requested,
            revert_after_ms: if requested is NotRecognized {
                Some(300u64)
            } else if requested is Recognized {
                Some(3000u64)
            } else {
                None
            },
        }),
{
}

/// Once a reversion timer fires, `Ready` is current and on display, whatever
/// happened before: the timer is not held to the priority table.
pub proof fn law_reversion_forces_ready(start: TrayState, events: Seq<TrayEvent>)
    ensures
        state_after(start, events.push(TrayEvent::ReversionDue)) == TrayState::Ready,
        shown_after(start, start, events.push(TrayEvent::ReversionDue)) == TrayState::Ready,
{
    assert(events.push(TrayEvent::ReversionDue).last() == TrayEvent::ReversionDue);
}

/// The events that a sequence of requests amounts to.
pub open spec fn requests(states: Seq<TrayState>) -> Seq<TrayEvent> {
    Seq::new(states.len(), |i: int| TrayEvent::Request(states[i]))
}

/// A state that reverts is followed by `Ready` when its timer fires and no
/// request was accepted in between.
pub proof fn law_reversion_after_rejected_requests(
    current: TrayState,
    entered: TrayState,
    between: Seq<TrayState>,
)
    requires
        accepts(current, entered),
        entered.revert_delay() is Some,
        forall|i: int| 0 <= i < between.len() ==> !accepts(entered, #[trigger] between[i]),
    ensures
        state_after(request_next(current, entered), requests(between)) == entered,
        state_after(request_next(current, entered), requests(between).push(TrayEvent::ReversionDue))
            == TrayState::Ready,
    decreases between.len(),
{
    if between.len() > 0 {
        law_reversion_after_rejected_requests(current, entered, between.drop_last());
        assert(requests(between).drop_last() =~= requests(between.drop_last()));
    }
    law_reversion_forces_ready(request_next(current, entered), requests(between));
}

/// Two requests that reach an idle controller one after the other, in either
/// order, leave one of the two states current: the second where the first
/// gives way to it, else the first. What is on display is that same state.
pub proof fn law_two_requests_from_idle(start: TrayState, first: TrayState, second: TrayState)
    requires
        start is Ready || start is Disconnected,
    ensures
        ({
            let end = request_next(request_next(start, first), second);
            &&& end == first || end == second
            &&& end == (if accepts(first, second) {
                second
            } else {
                first
            })
            &&& shown_after(
                start,
                start,
                seq![TrayEvent::Request(first), TrayEvent::Request(second)],
            ) == end
        }),
{
    let both = seq![TrayEvent::Request(first), TrayEvent::Request(second)];
    law_display_tracks_state(start, both);
    assert(both.drop_last() =~= seq![TrayEvent::Request(first)]);
    assert(state_after(start, both.drop_last().drop_last()) == start);
}

/// What is on display is always the current state: the tooltip and icon are
/// those of the last event that was accepted, never of one that was turned
/// down.
pub proof fn law_display_tracks_state(start: TrayState, events: Seq<TrayEvent>)
    ensures
        shown_after(start, start, events) == state_after(start, events),
    decreases events.len(),
{
    if events.len() > 0 {
        law_display_tracks_state(start, events.drop_last());
    }
}

} // verus!
