use tagoio_mqtt_relay::session::{Phase, SessionAction, SessionEvent, SessionState, MAX_RETRIES};

/// Drives one refused connection: link lost, pump stopped, backoff over.
/// Returns the action taken once the pump stopped.
fn refuse_once(s: &mut SessionState, topics: usize) -> SessionAction {
    assert_eq!(s.step(SessionEvent::LinkLost, topics), SessionAction::StopPump);
    let decision = s.step(SessionEvent::PumpStopped, topics);
    if let SessionAction::Sleep(_) = decision {
        assert_eq!(s.step(SessionEvent::BackoffElapsed, topics), SessionAction::Connect);
    }
    decision
}

#[test]
fn backoff_progression_over_refused_connects() {
    let mut s = SessionState::new();
    let mut sleeps = Vec::new();
    for _ in 0..6 {
        match refuse_once(&mut s, 2) {
            SessionAction::Sleep(secs) => sleeps.push(secs),
            other => panic!("unexpected {:?}", other),
        }
    }
    assert_eq!(sleeps, vec![5, 10, 20, 40, 60, 60]);
}

#[test]
fn twenty_first_consecutive_failure_ends_session() {
    let mut s = SessionState::new();
    for k in 0..MAX_RETRIES {
        assert!(matches!(refuse_once(&mut s, 1), SessionAction::Sleep(_)), "failure {}", k + 1);
        assert_eq!(s.attempts, k + 1);
    }
    assert_eq!(refuse_once(&mut s, 1), SessionAction::Exit);
    assert_eq!(s.phase, Phase::Failed);
    assert!(s.is_failed());
    // A failed session ignores everything.
    assert_eq!(s.step(SessionEvent::ConnAck, 1), SessionAction::Ignore);
    // The supervisor's replacement starts over.
    let fresh = SessionState::new();
    assert_eq!(fresh.attempts, 0);
    assert_eq!(fresh.phase, Phase::Connecting);
}

#[test]
fn empty_subscribe_list_connects_without_subscribing() {
    let mut s = SessionState::new();
    assert_eq!(s.step(SessionEvent::ConnAck, 0), SessionAction::StartPump);
    assert_eq!(s.phase, Phase::Connected);
}

#[test]
fn topics_are_subscribed_before_connected() {
    let mut s = SessionState::new();
    assert_eq!(s.step(SessionEvent::ConnAck, 2), SessionAction::Subscribe);
    assert_eq!(s.phase, Phase::Subscribing);
    assert_eq!(s.step(SessionEvent::Subscribed, 2), SessionAction::StartPump);
    assert_eq!(s.phase, Phase::Connected);
}

#[test]
fn connecting_resets_attempts() {
    let mut s = SessionState::new();
    for _ in 0..3 {
        refuse_once(&mut s, 1);
    }
    assert_eq!(s.attempts, 3);
    assert_eq!(s.step(SessionEvent::ConnAck, 1), SessionAction::Subscribe);
    assert_eq!(s.attempts, 3);
    assert_eq!(s.step(SessionEvent::Subscribed, 1), SessionAction::StartPump);
    assert_eq!(s.attempts, 0);
    // Losing the link after a connection backs off from the start again.
    assert_eq!(refuse_once(&mut s, 1), SessionAction::Sleep(5));
    assert_eq!(s.attempts, 1);
}

#[test]
fn events_out_of_place_are_ignored() {
    let mut s = SessionState::new();
    assert_eq!(s.step(SessionEvent::Subscribed, 1), SessionAction::Ignore);
    assert_eq!(s.step(SessionEvent::BackoffElapsed, 1), SessionAction::Ignore);
    assert_eq!(s.step(SessionEvent::PumpStopped, 1), SessionAction::Ignore);
    assert_eq!(s, SessionState::new());
}
