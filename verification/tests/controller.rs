use aircut_desktop::controller::{Transition, TrayController, TrayEvent, UnknownState};
use aircut_desktop::state::TrayState;
use std::sync::{Arc, Mutex};

const ALL: [TrayState; 6] = [
    TrayState::Ready,
    TrayState::Drawing,
    TrayState::Recognizing,
    TrayState::Recognized,
    TrayState::NotRecognized,
    TrayState::Disconnected,
];

// Rows are the current state, columns the requested one, both in the order of `ALL`.
const TABLE: [[bool; 6]; 6] = [
    // requested: Ready, Drawing, Recognizing, Recognized, NotRecognized, Disconnected
    [true, true, true, true, true, true],       // Ready
    [false, true, true, false, false, false],   // Drawing
    [false, true, true, true, true, false],     // Recognizing
    [false, true, true, true, true, false],     // Recognized
    [false, true, true, true, true, false],     // NotRecognized
    [true, true, true, true, true, true],       // Disconnected
];

fn index_of(state: TrayState) -> usize {
    ALL.iter().position(|s| *s == state).unwrap()
}

fn table(current: TrayState, requested: TrayState) -> bool {
    TABLE[index_of(current)][index_of(requested)]
}

fn accepted(state: TrayState) -> Transition {
    let revert_after_ms = match state {
        TrayState::NotRecognized => Some(300),
        TrayState::Recognized => Some(3000),
        _ => None,
    };
    Transition::Accepted { state, revert_after_ms }
}

#[test]
fn starts_disconnected() {
    assert_eq!(TrayController::new().current(), TrayState::Disconnected);
}

#[test]
fn with_state_starts_there() {
    for s in ALL {
        assert_eq!(TrayController::with_state(s).current(), s);
    }
}

#[test]
fn priority_table_all_pairs() {
    let mut pairs = 0;
    for current in ALL {
        for requested in ALL {
            let mut c = TrayController::with_state(current);
            assert_eq!(c.would_accept(requested), table(current, requested));
            let t = c.request_transition(requested);
            if table(current, requested) {
                assert_eq!(t, accepted(requested), "{:?} -> {:?}", current, requested);
                assert_eq!(c.current(), requested);
            } else {
                assert_eq!(t, Transition::Rejected, "{:?} -> {:?}", current, requested);
                assert_eq!(c.current(), current);
            }
            pairs += 1;
        }
    }
    assert_eq!(pairs, 36);
}

#[test]
fn drawing_accepts_only_drawing_and_recognizing() {
    let accepted_from_drawing: Vec<TrayState> = ALL
        .iter()
        .copied()
        .filter(|r| TrayController::with_state(TrayState::Drawing).would_accept(*r))
        .collect();
    assert_eq!(accepted_from_drawing, vec![TrayState::Drawing, TrayState::Recognizing]);
}

#[test]
fn recognizing_accepts_itself_and_outcomes_and_drawing() {
    let got: Vec<TrayState> = ALL
        .iter()
        .copied()
        .filter(|r| TrayController::with_state(TrayState::Recognizing).would_accept(*r))
        .collect();
    assert_eq!(
        got,
        vec![
            TrayState::Drawing,
            TrayState::Recognizing,
            TrayState::Recognized,
            TrayState::NotRecognized
        ]
    );
}

#[test]
fn outcomes_refuse_idle_states() {
    for current in [TrayState::Recognized, TrayState::NotRecognized] {
        for requested in [TrayState::Ready, TrayState::Disconnected] {
            let mut c = TrayController::with_state(current);
            assert_eq!(c.request_transition(requested), Transition::Rejected);
            assert_eq!(c.current(), current);
        }
        let mut c = TrayController::with_state(current);
        assert_eq!(c.request_transition(TrayState::Drawing), accepted(TrayState::Drawing));
    }
}

#[test]
fn same_request_twice_is_accepted_twice() {
    for current in ALL {
        for requested in ALL {
            if !table(current, requested) {
                continue;
            }
            let mut c = TrayController::with_state(current);
            let first = c.request_transition(requested);
            let second = c.request_transition(requested);
            assert_eq!(first, accepted(requested));
            assert_eq!(second, first);
            assert_eq!(c.current(), requested);
        }
    }
}

#[test]
fn not_recognized_reverts_after_300_ms() {
    let mut c = TrayController::with_state(TrayState::Recognizing);
    assert_eq!(
        c.request_transition(TrayState::NotRecognized),
        Transition::Accepted { state: TrayState::NotRecognized, revert_after_ms: Some(300) }
    );
    assert_eq!(
        c.expire_reversion(),
        Transition::Accepted { state: TrayState::Ready, revert_after_ms: None }
    );
    assert_eq!(c.current(), TrayState::Ready);
}

#[test]
fn recognized_reverts_after_3000_ms() {
    let mut c = TrayController::with_state(TrayState::Recognizing);
    assert_eq!(
        c.request_transition(TrayState::Recognized),
        Transition::Accepted { state: TrayState::Recognized, revert_after_ms: Some(3000) }
    );
    assert_eq!(c.request_transition(TrayState::Ready), Transition::Rejected);
    assert_eq!(c.current(), TrayState::Recognized);
    c.expire_reversion();
    assert_eq!(c.current(), TrayState::Ready);
}

#[test]
fn only_outcomes_arm_a_timer() {
    for s in ALL {
        let expected = match s {
            TrayState::NotRecognized => Some(300),
            TrayState::Recognized => Some(3000),
            _ => None,
        };
        assert_eq!(s.revert_after_ms(), expected);
    }
}

#[test]
fn reversion_is_not_held_to_the_table() {
    for current in ALL {
        let mut c = TrayController::with_state(current);
        c.expire_reversion();
        assert_eq!(c.current(), TrayState::Ready);
    }
}

#[test]
fn stale_timer_snaps_a_new_recording_back_to_ready() {
    let mut c = TrayController::with_state(TrayState::Recognizing);
    c.request_transition(TrayState::Recognized);
    assert_eq!(c.request_transition(TrayState::Drawing), accepted(TrayState::Drawing));
    c.expire_reversion();
    assert_eq!(c.current(), TrayState::Ready);
}

#[test]
fn drawing_overrides_recognizing() {
    let mut c = TrayController::new();
    assert_eq!(c.request_transition(TrayState::Recognizing), accepted(TrayState::Recognizing));
    let t = c.request_transition(TrayState::Drawing);
    assert_eq!(t, Transition::Accepted { state: TrayState::Drawing, revert_after_ms: None });
    assert_eq!(c.current(), TrayState::Drawing);
}

#[test]
fn two_requests_from_ready_in_either_order() {
    let mut c = TrayController::with_state(TrayState::Ready);
    c.request_transition(TrayState::Drawing);
    c.request_transition(TrayState::Recognizing);
    assert_eq!(c.current(), TrayState::Recognizing);

    let mut c = TrayController::with_state(TrayState::Ready);
    c.request_transition(TrayState::Recognizing);
    c.request_transition(TrayState::Drawing);
    assert_eq!(c.current(), TrayState::Drawing);
}

#[test]
fn shared_controller_serves_two_callers_in_either_order() {
    for order in [
        [TrayState::Drawing, TrayState::Recognizing],
        [TrayState::Recognizing, TrayState::Drawing],
    ] {
        let shared = Arc::new(Mutex::new(TrayController::with_state(TrayState::Ready)));
        let callers = [Arc::clone(&shared), Arc::clone(&shared)];
        let mut shown = Vec::new();
        for (caller, requested) in callers.iter().zip(order) {
            let mut guard = caller.lock().unwrap();
            if let Transition::Accepted { state, .. } = guard.request_transition(requested) {
                shown.push(state);
            }
        }
        let end = shared.lock().unwrap().current();
        assert!(end == TrayState::Drawing || end == TrayState::Recognizing);
        assert_eq!(shown, order.to_vec());
        assert_eq!(*shown.last().unwrap(), end);
    }
}

#[test]
fn request_by_name() {
    let mut c = TrayController::new();
    assert_eq!(c.request_state("drawing"), Ok(accepted(TrayState::Drawing)));
    assert_eq!(c.request_state("ready"), Ok(Transition::Rejected));
    assert_eq!(c.request_state("not_recognized"), Ok(Transition::Rejected));
    assert_eq!(c.request_state("recognizing"), Ok(accepted(TrayState::Recognizing)));
    assert_eq!(c.request_state("not_recognized"), Ok(accepted(TrayState::NotRecognized)));
    assert_eq!(c.current(), TrayState::NotRecognized);
}

#[test]
fn unknown_name_is_refused_and_changes_nothing() {
    for current in ALL {
        let mut c = TrayController::with_state(current);
        assert_eq!(c.request_state("sleeping"), Err(UnknownState));
        assert_eq!(c.request_state(""), Err(UnknownState));
        assert_eq!(c.request_state("Ready"), Err(UnknownState));
        assert_eq!(c.current(), current);
    }
}

#[test]
fn startup_complete_asks_for_ready() {
    let mut c = TrayController::new();
    assert_eq!(c.startup_complete(), accepted(TrayState::Ready));
    assert_eq!(c.current(), TrayState::Ready);

    let mut c = TrayController::with_state(TrayState::Drawing);
    assert_eq!(c.startup_complete(), Transition::Rejected);
    assert_eq!(c.current(), TrayState::Drawing);
}

#[test]
fn handle_takes_requests_and_timers() {
    let mut c = TrayController::new();
    assert_eq!(
        c.handle(TrayEvent::Request(TrayState::Recognized)),
        accepted(TrayState::Recognized)
    );
    assert_eq!(c.handle(TrayEvent::Request(TrayState::Disconnected)), Transition::Rejected);
    assert_eq!(c.handle(TrayEvent::ReversionDue), accepted(TrayState::Ready));
    assert_eq!(c.current(), TrayState::Ready);
}

#[test]
fn display_follows_the_last_accepted_event() {
    let events = [
        TrayEvent::Request(TrayState::Drawing),
        TrayEvent::Request(TrayState::Ready),
        TrayEvent::Request(TrayState::Recognizing),
        TrayEvent::Request(TrayState::Disconnected),
        TrayEvent::Request(TrayState::NotRecognized),
        TrayEvent::Request(TrayState::Ready),
        TrayEvent::ReversionDue,
        TrayEvent::Request(TrayState::Disconnected),
    ];
    let mut c = TrayController::new();
    let mut shown = c.current();
    for e in events {
        if let Transition::Accepted { state, .. } = c.handle(e) {
            shown = state;
        }
        assert_eq!(shown, c.current());
    }
    assert_eq!(c.current(), TrayState::Disconnected);
}

#[test]
fn drawing_and_recognizing_are_never_refused() {
    for current in ALL {
        for requested in [TrayState::Drawing, TrayState::Recognizing] {
            let mut c = TrayController::with_state(current);
            assert_eq!(c.request_transition(requested), accepted(requested));
            assert_eq!(c.current(), requested);
        }
    }
}
