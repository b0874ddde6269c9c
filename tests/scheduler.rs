use dm_ticket::config::{Account, Ticket};
use dm_ticket::scheduler::{ms_to_hms, ScheduleEvent, ScheduleSignal, ScheduleState, Scheduler};

#[test]
fn past_trigger_fires_without_polling() {
    let (s, sig) = Scheduler::start(1_000, 1_500);
    assert_eq!(sig, ScheduleSignal::Trigger);
    assert_eq!(s.state, ScheduleState::Triggered);
    assert_eq!(s.polls, 0);
}

#[test]
fn trigger_at_exact_time_fires() {
    let (s, sig) = Scheduler::start(1_000, 1_000);
    assert_eq!(sig, ScheduleSignal::Trigger);
    assert_eq!(s.polls, 0);
}

#[test]
fn future_trigger_waits_until_reached() {
    let (mut s, sig) = Scheduler::start(10_000, 7_000);
    assert_eq!(sig, ScheduleSignal::Countdown(3_000));
    assert_eq!(s.state, ScheduleState::Waiting);
    assert_eq!(s.on_event(ScheduleEvent::Tick(9_999)), ScheduleSignal::Countdown(1));
    assert_eq!(s.state, ScheduleState::Waiting);
    assert_eq!(s.on_event(ScheduleEvent::Tick(10_000)), ScheduleSignal::Trigger);
    assert_eq!(s.state, ScheduleState::Triggered);
    assert_eq!(s.polls, 2);
    // the trigger is signalled once only
    assert_eq!(s.on_event(ScheduleEvent::Tick(10_050)), ScheduleSignal::Idle);
    assert!(s.begin_execution());
    assert_eq!(s.state, ScheduleState::Executing);
    s.finish();
    assert_eq!(s.state, ScheduleState::Done);
    assert!(!s.cancelled);
}

#[test]
fn cancellation_overrides_pending_trigger() {
    let (mut s, _) = Scheduler::start(10_000, 0);
    assert_eq!(s.on_event(ScheduleEvent::Cancel), ScheduleSignal::Cancelled);
    assert_eq!(s.state, ScheduleState::Done);
    assert!(s.cancelled);
    assert_eq!(s.on_event(ScheduleEvent::Tick(20_000)), ScheduleSignal::Idle);
    assert_eq!(s.state, ScheduleState::Done);
    assert!(!s.begin_execution());
}

#[test]
fn cancellation_after_trigger_before_execution() {
    let (mut s, _) = Scheduler::start(5, 10);
    assert_eq!(s.on_event(ScheduleEvent::Cancel), ScheduleSignal::Cancelled);
    assert!(!s.begin_execution());
    assert!(s.cancelled);
}

#[test]
fn extreme_times_do_not_overflow() {
    let (_, sig) = Scheduler::start(i64::MAX, i64::MIN);
    assert_eq!(sig, ScheduleSignal::Countdown(u64::MAX));
}

#[test]
fn ms_to_hms_splits_exactly() {
    assert_eq!(ms_to_hms(0), (0, 0, 0));
    assert_eq!(ms_to_hms(3_723_456), (1, 2, 3_456));
    assert_eq!(ms_to_hms(59_999), (0, 0, 59_999));
    assert_eq!(ms_to_hms(86_400_000), (24, 0, 0));
}

#[test]
fn unconfigured_account_never_fires_before_sale_time() {
    let account = Account {
        cookie: String::new(),
        remark: String::new(),
        ticket: Ticket { id: "1".to_string(), num: 1, sessions: 1, grade: 1 },
        interval: None,
        earliest_submit_time: None,
        request_time: None,
        retry_times: None,
        retry_interval: None,
    };
    let sale = 1_700_000_000_000;
    let trigger = account.trigger_time(sale).unwrap();
    let (mut s, sig) = Scheduler::start(trigger, sale - 1);
    assert_eq!(sig, ScheduleSignal::Countdown(1));
    assert_eq!(s.on_event(ScheduleEvent::Tick(sale - 1)), ScheduleSignal::Countdown(1));
    assert_eq!(s.on_event(ScheduleEvent::Tick(sale)), ScheduleSignal::Trigger);
}
