use std::cell::{Cell, RefCell};
use std::collections::VecDeque;

use bdo_optimizer_launcher::fps::{
    is_target_present_event, prune_and_count, replace_owned_session, stop_owned_session, ClaimCounter,
    Error, FpsSession, SessionOwner, PRESENT_START_EVENT_ID,
};

#[test]
fn present_event_must_belong_to_the_target_game_pid() {
    assert!(is_target_present_event(42, 700, 700));
    assert!(!is_target_present_event(42, 701, 700));
    assert!(!is_target_present_event(41, 700, 700));
}

#[test]
fn fps_decays_after_present_event_ttl() {
    let now: u64 = 10_000;
    let mut timestamps = VecDeque::from([now - 1001, now - 999, now - 400]);
    assert_eq!(prune_and_count(&mut timestamps, now), 2);
    assert_eq!(prune_and_count(&mut timestamps, now + 1000), 0);
}

#[test]
fn stale_session_drop_cannot_stop_the_latest_named_trace() {
    let mut owner = SessionOwner::<&'static str>::default();
    let mut latest_claim = ClaimCounter::new();
    let stopped: RefCell<Vec<&'static str>> = RefCell::new(Vec::new());

    let first_claim = latest_claim.advance_start_claim();
    let current = latest_claim.start_claim_is_current(first_claim);
    let first = replace_owned_session(&mut owner, || current, |trace| stopped.borrow_mut().push(trace), || {
        Ok::<_, ()>("first")
    })
    .unwrap()
    .unwrap();
    let second_claim = latest_claim.advance_start_claim();
    let current = latest_claim.start_claim_is_current(second_claim);
    let second = replace_owned_session(&mut owner, || current, |trace| stopped.borrow_mut().push(trace), || {
        Ok::<_, ()>("second")
    })
    .unwrap()
    .unwrap();

    stop_owned_session(&mut owner, first, |trace| stopped.borrow_mut().push(trace));
    assert_eq!(owner.session, Some("second"));

    stop_owned_session(&mut owner, second, |trace| stopped.borrow_mut().push(trace));
    assert_eq!(*stopped.borrow(), ["first", "second"]);
}

#[test]
fn late_stale_start_cannot_replace_the_latest_claimed_session() {
    let mut owner = SessionOwner::<&'static str>::default();
    let mut latest_claim = ClaimCounter::new();
    let stopped: RefCell<Vec<&'static str>> = RefCell::new(Vec::new());

    let stale_claim = latest_claim.advance_start_claim();
    latest_claim.advance_start_claim();
    let current_claim = latest_claim.advance_start_claim();
    let current = latest_claim.start_claim_is_current(current_claim);
    let current_generation =
        replace_owned_session(&mut owner, || current, |trace| stopped.borrow_mut().push(trace), || Ok::<_, ()>("latest"))
            .unwrap()
            .expect("latest claim must start");

    let stale = latest_claim.start_claim_is_current(stale_claim);
    let late = replace_owned_session(&mut owner, || stale, |trace| stopped.borrow_mut().push(trace), || Ok::<_, ()>("stale"));
    assert_eq!(late.unwrap(), None);
    assert_eq!(owner.session, Some("latest"));
    assert!(stopped.borrow().is_empty());

    stop_owned_session(&mut owner, current_generation, drop);
    assert_eq!(owner.session, None);
}

#[test]
fn invalidated_start_claim_cannot_mutate_an_empty_owner() {
    let mut owner = SessionOwner::<&'static str>::default();
    let mut latest_claim = ClaimCounter::new();
    let stop_calls = Cell::new(0);
    let start_calls = Cell::new(0);
    let stale_claim = latest_claim.advance_start_claim();
    latest_claim.advance_start_claim();

    let current = latest_claim.start_claim_is_current(stale_claim);
    let result = replace_owned_session(&mut owner, || current, |_| stop_calls.set(stop_calls.get() + 1), || {
        start_calls.set(start_calls.get() + 1);
        Ok::<_, ()>("stale")
    })
    .unwrap();

    assert_eq!(result, None);
    assert_eq!(stop_calls.get(), 0);
    assert_eq!(start_calls.get(), 0);
    assert_eq!(owner.generation, 0);
    assert_eq!(owner.session, None);
}

#[test]
fn a_failed_start_leaves_no_session_but_a_new_number() {
    let mut owner = SessionOwner::<&'static str> { generation: 4, session: Some("old") };
    let stopped: RefCell<Vec<&'static str>> = RefCell::new(Vec::new());
    let r = replace_owned_session(&mut owner, || true, |t| stopped.borrow_mut().push(t), || Err::<&str, _>("boom"));
    assert_eq!(r, Err("boom"));
    assert_eq!(owner.generation, 5);
    assert_eq!(owner.session, None);
    assert_eq!(*stopped.borrow(), ["old"]);
}

#[test]
fn claim_numbers_wrap_around() {
    let mut c = ClaimCounter { generation: u64::MAX };
    assert_eq!(c.advance_start_claim(), 0);
    assert!(c.start_claim_is_current(0));
}

#[test]
fn session_counts_only_the_game_presents_as_frames() {
    let mut s = FpsSession::new(700, 3);
    s.record_event(PRESENT_START_EVENT_ID, 700, 1000);
    s.record_event(PRESENT_START_EVENT_ID, 701, 1100);
    s.record_event(7, 700, 1200);
    s.record_event(PRESENT_START_EVENT_ID, 700, 1500);
    assert_eq!(s.total_events(), 4);
    assert_eq!(s.present_events(), 2);
    assert_eq!(s.current_fps(1600), 2);
    assert_eq!(s.current_fps(2000), 1);
    assert_eq!(s.current_fps(2500), 0);
    assert_eq!(s.generation, 3);
}

#[test]
fn pruning_twice_at_the_same_instant_drops_nothing_more() {
    let mut ts = VecDeque::from([0u64, 100, 1500, 1900]);
    assert_eq!(prune_and_count(&mut ts, 2000), 2);
    assert_eq!(prune_and_count(&mut ts, 2000), 2);
    assert_eq!(ts, VecDeque::from([1500, 1900]));
}

#[test]
fn fps_error_messages() {
    assert_eq!(Error::EtwStart("denied".into()).message(), "ETW 세션 시작 실패: denied");
    assert_eq!(Error::StaleStart.message(), "ETW 세션 시작 요청이 최신 요청으로 대체되었습니다.");
}
