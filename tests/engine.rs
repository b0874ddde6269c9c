use dm_ticket::engine::{
    AttemptOutcome, EngineAction, EngineEvent, EngineState, OrderEngine, Phase, RetryPolicy,
    RunOutcome,
};

fn policy(retry_times: u64) -> RetryPolicy {
    RetryPolicy { retry_times, retry_interval: 100, wait_for_submit_interval: 30 }
}

fn transient() -> EngineEvent {
    EngineEvent::Attempted(AttemptOutcome::RetryableFailure("RGV587_ERROR::SM::busy".to_string()))
}

fn is_sleep_within(a: &EngineAction, lo: u64, hi: u64) -> bool {
    match a {
        EngineAction::Sleep(ms) => *ms >= lo && *ms < hi,
        _ => false,
    }
}

#[test]
fn scenario_a_two_transient_build_failures_then_success() {
    let mut e = OrderEngine::new(policy(3));
    assert_eq!(e.action(), EngineAction::Build);
    let a = e.on_event(transient());
    assert!(is_sleep_within(&a, 80, 110));
    assert_eq!(e.on_event(EngineEvent::Woke), EngineAction::Build);
    let a = e.on_event(transient());
    assert!(is_sleep_within(&a, 80, 110));
    assert_eq!(e.on_event(EngineEvent::Woke), EngineAction::Build);
    let a = e.on_event(EngineEvent::Attempted(AttemptOutcome::Success));
    assert!(is_sleep_within(&a, 24, 33));
    assert_eq!(e.state, EngineState::InterPhase);
    assert_eq!(e.on_event(EngineEvent::Woke), EngineAction::Submit);
    let a = e.on_event(EngineEvent::Attempted(AttemptOutcome::Success));
    assert_eq!(a, EngineAction::Finish(RunOutcome::Success));
    assert_eq!(e.build_attempts, 3);
    assert_eq!(e.submit_attempts, 1);
}

#[test]
fn scenario_b_terminal_build_failure_never_submits() {
    let mut e = OrderEngine::new(policy(3));
    let reason = "B-00203-200-008::对不起，您选购的商品库存不足，请重新选购".to_string();
    let a = e.on_event(EngineEvent::Attempted(AttemptOutcome::TerminalFailure(reason.clone())));
    assert_eq!(a, EngineAction::Finish(RunOutcome::TerminalFailure(reason.clone())));
    assert_eq!(e.build_attempts, 1);
    assert_eq!(e.submit_attempts, 0);
    // nothing reported afterwards reopens the run
    assert_eq!(e.on_event(EngineEvent::Woke), EngineAction::Finish(RunOutcome::TerminalFailure(reason)));
    assert_eq!(e.submit_attempts, 0);
}

#[test]
fn build_recovers_after_one_failure() {
    let mut e = OrderEngine::new(policy(4));
    e.on_event(transient());
    e.on_event(EngineEvent::Woke);
    e.on_event(EngineEvent::Attempted(AttemptOutcome::Success));
    assert_eq!(e.build_attempts, 2);
    assert_eq!(e.state, EngineState::InterPhase);
    assert_eq!(e.on_event(EngineEvent::Woke), EngineAction::Submit);
}

#[test]
fn build_exhausted_reports_last_reason_without_submit() {
    let mut e = OrderEngine::new(policy(2));
    e.on_event(EngineEvent::Attempted(AttemptOutcome::RetryableFailure("first".to_string())));
    e.on_event(EngineEvent::Woke);
    let a = e.on_event(EngineEvent::Attempted(AttemptOutcome::RetryableFailure("second".to_string())));
    assert_eq!(a, EngineAction::Finish(RunOutcome::RetryableFailure("second".to_string())));
    assert_eq!(e.build_attempts, 2);
    assert_eq!(e.submit_attempts, 0);
}

#[test]
fn zero_retry_times_means_three_attempts() {
    assert_eq!(policy(0).attempt_limit(), 3);
    assert_eq!(policy(5).attempt_limit(), 5);
    let mut e = OrderEngine::new(policy(0));
    for _ in 0..2 {
        e.on_event(transient());
        assert_eq!(e.on_event(EngineEvent::Woke), EngineAction::Build);
    }
    let a = e.on_event(transient());
    assert!(matches!(a, EngineAction::Finish(RunOutcome::RetryableFailure(_))));
    assert_eq!(e.build_attempts, 3);
}

#[test]
fn submit_retries_then_exhausts() {
    let mut e = OrderEngine::new(policy(2));
    e.on_event(EngineEvent::Attempted(AttemptOutcome::Success));
    e.on_event(EngineEvent::Woke);
    let a = e.on_event(EngineEvent::Attempted(AttemptOutcome::RetryableFailure("x".to_string())));
    assert!(is_sleep_within(&a, 80, 110));
    assert_eq!(e.on_event(EngineEvent::Woke), EngineAction::Submit);
    let a = e.on_event(EngineEvent::Attempted(AttemptOutcome::RetryableFailure("y".to_string())));
    assert_eq!(a, EngineAction::Finish(RunOutcome::RetryableFailure("y".to_string())));
    assert_eq!(e.submit_attempts, 2);
}

#[test]
fn cancellation_wins_during_backoff() {
    let mut e = OrderEngine::new(policy(3));
    e.on_event(transient());
    assert_eq!(e.on_event(EngineEvent::Cancelled), EngineAction::Finish(RunOutcome::Cancelled));
    assert_eq!(e.on_event(EngineEvent::Woke), EngineAction::Finish(RunOutcome::Cancelled));
    assert_eq!(e.state, EngineState::Done(RunOutcome::Cancelled));
}

#[test]
fn cancellation_wins_during_inter_phase_wait() {
    let mut e = OrderEngine::new(policy(3));
    e.on_event(EngineEvent::Attempted(AttemptOutcome::Success));
    assert_eq!(e.on_event(EngineEvent::Cancelled), EngineAction::Finish(RunOutcome::Cancelled));
    assert_eq!(e.submit_attempts, 0);
}

#[test]
fn unexpected_event_is_ignored() {
    let mut e = OrderEngine::new(policy(3));
    assert_eq!(e.on_event(EngineEvent::Woke), EngineAction::Build);
    assert_eq!(e.build_attempts, 0);
}

#[test]
fn outcome_helpers() {
    assert!(RunOutcome::Success.is_success());
    assert!(!RunOutcome::Cancelled.is_success());
    let o = RunOutcome::TerminalFailure("t".to_string());
    assert_eq!(o.duplicate(), o);
}

#[test]
fn attempt_records_follow_the_phase() {
    let mut e = OrderEngine::new(policy(3));
    let r = e.attempt_record(12, AttemptOutcome::Success).unwrap();
    assert_eq!(r.phase, Phase::Build);
    assert_eq!(r.index, 1);
    assert_eq!(r.elapsed_ms, 12);
    e.on_event(transient());
    assert!(e.attempt_record(1, AttemptOutcome::Success).is_none());
    e.on_event(EngineEvent::Woke);
    assert_eq!(e.attempt_record(1, AttemptOutcome::Success).unwrap().index, 2);
    e.on_event(EngineEvent::Attempted(AttemptOutcome::Success));
    e.on_event(EngineEvent::Woke);
    let r = e.attempt_record(5, AttemptOutcome::Success).unwrap();
    assert_eq!((r.phase, r.index), (Phase::Submit, 1));
}
