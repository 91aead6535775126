//! The tray state controller: which requests to change the visible status are
//! honoured, and when the status falls back to idle by itself.
//!
//! The controller is a plain value. Callers that share it between threads put
//! it behind one lock; every operation here takes it by `&mut`, so a request is
//! read, decided and written in one step.

use crate::state::TrayState;
use vstd::prelude::*;

verus! {

/// The answer to a request for a state.
#[derive(Clone, Copy, PartialEq, Eq, Debug)]
pub enum Transition {
    /// The request was honoured: `state` is now current and is to be shown.
    /// Where `revert_after_ms` holds a delay, a one-shot timer of that many
    /// milliseconds is to be armed, and [`TrayController::expire_reversion`]
    /// called when it fires.
    Accepted { state: TrayState, revert_after_ms: Option<u64> },
    /// The request was dropped: nothing changed and nothing is to be shown.
    Rejected,
}

/// What can happen to the controller.
#[derive(Clone, Copy, PartialEq, Eq, Debug)]
pub enum TrayEvent {
    /// Somebody asks for a state.
    Request(TrayState),
    /// A reversion timer has fired.
    ReversionDue,
}

/// A request named a state that does not exist.
#[derive(Clone, Copy, PartialEq, Eq, Debug)]
pub struct UnknownState;

/// The priority table: whether a request for `requested` is honoured while
/// `current` is shown.
///
/// A gesture in progress gives way only to its own next step or to a new
/// recording. An outcome gives way to anything but the two idle states. The
/// idle states give way to everything.
pub open spec fn accepts(current: TrayState, requested: TrayState) -> bool {
    match current {
        TrayState::Drawing => requested is Drawing || requested is Recognizing,
        TrayState::Recognizing => {
            ||| requested is Recognizing
            ||| requested is Recognized
            ||| requested is NotRecognized
            ||| requested is Drawing
        },
        TrayState::Recognized | TrayState::NotRecognized => {
            !(requested is Ready) && !(requested is Disconnected)
        },
        TrayState::Ready | TrayState::Disconnected => true,
    }
}

/// The answer that a request gets while `current` is shown.
pub open spec fn request_outcome(current: TrayState, requested: TrayState) -> Transition {
    if accepts(current, requested) {
        Transition::Accepted { state: requested, revert_after_ms: requested.revert_delay() }
    } else {
        Transition::Rejected
    }
}

/// The state that is current after a request.
pub open spec fn request_next(current: TrayState, requested: TrayState) -> TrayState {
    if accepts(current, requested) {
        requested
    } else {
        current
    }
}

/// The answer that an event gets while `current` is shown. A timer that fires
/// is never turned down.
pub open spec fn event_outcome(current: TrayState, event: TrayEvent) -> Transition {
    match event {
        TrayEvent::Request(requested) => request_outcome(current, requested),
        TrayEvent::ReversionDue => Transition::Accepted {
            state: TrayState::Ready,
            revert_after_ms: None,
        },
    }
}

/// The state that is current after an event.
pub open spec fn event_next(current: TrayState, event: TrayEvent) -> TrayState {
    match event {
        TrayEvent::Request(requested) => request_next(current, requested),
        TrayEvent::ReversionDue => TrayState::Ready,
    }
}

/// The state that is current after a run of events, taken one after another.
pub open spec fn state_after(start: TrayState, events: Seq<TrayEvent>) -> TrayState
    decreases events.len(),
{
    if events.len() == 0 {
        start
    } else {
        event_next(state_after(start, events.drop_last()), events.last())
    }
}

/// The state whose tooltip and icon are on display after a run of events, where
/// `shown` was on display before it: that of the last event that was accepted.
pub open spec fn shown_after(shown: TrayState, start: TrayState, events: Seq<TrayEvent>) -> TrayState
    decreases events.len(),
{
    if events.len() == 0 {
        shown
    } else {
        match event_outcome(state_after(start, events.drop_last()), events.last()) {
            Transition::Accepted { state, .. } => state,
            Transition::Rejected => shown_after(shown, start, events.drop_last()),
        }
    }
}

/// Holds the status that the tray icon shows.
pub struct TrayController {
    current: TrayState,
}

impl TrayController {
    /// The state that is current.
    pub closed spec fn state(&self) -> TrayState {
        self.current
    }

    /// A controller as it is at process start: the backend is not reached yet.
    pub fn new() -> (r: TrayController)
        ensures
            r.state() == TrayState::Disconnected,
    {
        TrayController { current: TrayState::Disconnected }
    }

    /// A controller that starts out showing `state`.
    pub fn with_state(state: TrayState) -> (r: TrayController)
        ensures
            r.state() == state,
    {
        TrayController { current: state }
    }

    /// The state that is current.
    pub fn current(&self) -> (r: TrayState)
        ensures
            r == self.state(),
    {
        self.current
    }

    /// Whether a request for `requested` would be honoured now.
    pub fn would_accept(&self, requested: TrayState) -> (r: bool)
        ensures
            r == accepts(self.state(), requested),
    {
        match self.current {
            TrayState::Ready | TrayState::Disconnected => true,
            TrayState::Drawing => match requested {
                TrayState::Drawing | TrayState::Recognizing => true,
                _ => false,
            },
            TrayState::Recognizing => match requested {
                TrayState::Ready | TrayState::Disconnected => false,
                _ => true,
            },
            TrayState::Recognized | TrayState::NotRecognized => match requested {
                TrayState::Ready | TrayState::Disconnected => false,
                _ => true,
            },
        }
    }

    /// Asks for `requested`. The request is judged by the priority table. If it
    /// is honoured, `requested` becomes current; if not, nothing changes.
    pub fn request_transition(&mut self, requested: TrayState) -> (r: Transition)
        ensures
            r == request_outcome(old(self).state(), requested),
            final(self).state() == request_next(old(self).state(), requested),
    {
        if self.would_accept(requested) {
            self.current = requested;
            Transition::Accepted { state: requested, revert_after_ms: requested.revert_after_ms() }
        } else {
            Transition::Rejected
        }
    }

    /// Asks for the state called `name`. A name that no state has is refused
    /// and changes nothing.
    pub fn request_state(&mut self, name: &str) -> (r: Result<Transition, UnknownState>)
        ensures
            match TrayState::parse(name@) {
                Some(requested) => {
                    &&& r == Ok::<Transition, UnknownState>(
                        request_outcome(old(self).state(), requested),
                    )
                    &&& final(self).state() == request_next(old(self).state(), requested)
                },
                None => r is Err && final(self).state() == old(self).state(),
            },
    {
        match TrayState::from_name(name) {
            Some(requested) => Ok(self.request_transition(requested)),
            None => Err(UnknownState),
        }
    }

    /// Tells the controller that the application has started: asks for `Ready`.
    pub fn startup_complete(&mut self) -> (r: Transition)
        ensures
            r == request_outcome(old(self).state(), TrayState::Ready),
            final(self).state() == request_next(old(self).state(), TrayState::Ready),
    {
        self.request_transition(TrayState::Ready)
    }

    /// A reversion timer has fired: `Ready` becomes current whatever was
    /// current, without asking the priority table, and is to be shown.
    pub fn expire_reversion(&mut self) -> (r: Transition)
        ensures
            r == (Transition::Accepted { state: TrayState::Ready, revert_after_ms: None }),
            final(self).state() == TrayState::Ready,
    {
        self.current = TrayState::Ready;
        Transition::Accepted { state: TrayState::Ready, revert_after_ms: None }
    }

    /// Takes one event, a request or a timer that fired.
    pub fn handle(&mut self, event: TrayEvent) -> (r: Transition)
        ensures
            r == event_outcome(old(self).state(), event),
            final(self).state() == event_next(old(self).state(), event),
    {
        match event {
            TrayEvent::Request(requested) => self.request_transition(requested),
            TrayEvent::ReversionDue => self.expire_reversion(),
        }
    }
}

} // verus!
