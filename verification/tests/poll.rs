use sidecar_supervisor::poll::{PollState, Poller, ReadinessOutcome, ReadinessTarget};

/// Drives a poller against a simulated listener that starts accepting
/// connections `bind_ms` after polling begins; a probe made at elapsed time
/// `e` succeeds exactly when `bind_ms <= e`. Returns the resolved poller.
fn run_against_bind(mut p: Poller, bind_ms: u64) -> Poller {
    let mut guard: u32 = 0;
    while p.should_probe() {
        let connected = p.elapsed_ms >= bind_ms;
        p.step(connected);
        guard += 1;
        assert!(guard < 1_000_000, "poller failed to resolve");
    }
    p
}

#[test]
fn listener_already_bound_ready_on_first_probe() {
    let mut p = Poller::new(10_000, 100);
    assert!(p.should_probe());
    let st = p.step(true);
    assert_eq!(st, PollState::Ready);
    assert_eq!(p.elapsed_ms, 0, "no sleep is incurred");
    assert_eq!(p.outcome(), Some(ReadinessOutcome::Ready));
    assert!(!p.should_probe());
}

#[test]
fn no_listener_times_out_within_one_interval_of_deadline() {
    let p = run_against_bind(Poller::new(10_000, 100), u64::MAX);
    assert_eq!(p.state, PollState::TimedOut);
    assert_eq!(p.outcome(), Some(ReadinessOutcome::TimedOut));
    assert!(10_000 <= p.elapsed_ms && p.elapsed_ms < 10_100);
    assert_eq!(p.elapsed_ms, 10_000);
}

#[test]
fn listener_binds_midway_ready_within_one_interval_of_bind() {
    let p = run_against_bind(Poller::new(1_000, 100), 500);
    assert_eq!(p.state, PollState::Ready);
    assert_eq!(p.elapsed_ms, 500, "resolves at the bind time, not the deadline");
}

#[test]
fn listener_binds_at_250_ready_at_300() {
    let p = run_against_bind(Poller::new(10_000, 100), 250);
    assert_eq!(p.state, PollState::Ready);
    assert_eq!(p.outcome(), Some(ReadinessOutcome::Ready));
    assert_eq!(p.elapsed_ms, 300, "ready within one interval of the bind");
}

#[test]
fn uneven_deadline_times_out_just_past_it() {
    let p = run_against_bind(Poller::new(250, 100), u64::MAX);
    assert_eq!(p.state, PollState::TimedOut);
    assert_eq!(p.elapsed_ms, 300);
    assert!(250 <= p.elapsed_ms && p.elapsed_ms < 350);
}

#[test]
fn deadline_shorter_than_interval_times_out_after_one_failed_probe() {
    let p = run_against_bind(Poller::new(50, 100), u64::MAX);
    assert_eq!(p.state, PollState::TimedOut);
    assert_eq!(p.elapsed_ms, 100);
    assert!(50 <= p.elapsed_ms && p.elapsed_ms < 150);
}

#[test]
fn zero_deadline_is_born_timed_out() {
    let p = Poller::new(0, 100);
    assert!(!p.should_probe());
    assert_eq!(p.state, PollState::TimedOut);
    assert_eq!(p.outcome(), Some(ReadinessOutcome::TimedOut));
    assert_eq!(p.elapsed_ms, 0);
}

#[test]
fn fresh_poller_has_no_outcome() {
    let p = Poller::new(10_000, 100);
    assert_eq!(p.state, PollState::Polling);
    assert_eq!(p.outcome(), None);
}

#[test]
fn target_default_matches_local_backend() {
    let t = ReadinessTarget::default();
    assert_eq!(t.host, "127.0.0.1");
    assert_eq!(t.port, 3001);
    assert_eq!(t.deadline_ms, 10_000);
    assert_eq!(t.interval_ms, 100);
}

#[test]
fn target_rejects_zero_interval() {
    let t = ReadinessTarget::new(String::from("localhost"), 80, 1_000, 0);
    assert!(t.is_none());
}

#[test]
fn target_rejects_deadline_that_could_overflow() {
    let t = ReadinessTarget::new(String::from("localhost"), 80, u64::MAX, 100);
    assert!(t.is_none());
}

#[test]
fn target_accepts_ordinary_parameters() {
    let t = ReadinessTarget::new(String::from("localhost"), 8080, 2_000, 50)
        .expect("well-formed target");
    assert_eq!(t.host, "localhost");
    assert_eq!(t.port, 8080);
    assert_eq!(t.deadline_ms, 2_000);
    assert_eq!(t.interval_ms, 50);
}
