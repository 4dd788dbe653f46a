use explorer_harness::bootstrap::{ProbeSchedule, ProbeStep};

#[test]
fn unreachable_service_sleeps_at_most_max_attempts() {
    let interval_ms: u64 = 1000;
    let max_attempts: u64 = 10;
    let mut schedule = ProbeSchedule::new(interval_ms, max_attempts);
    let mut sleeps: u64 = 0;
    loop {
        match schedule.on_probe(false) {
            ProbeStep::Ready => panic!("an unanswered probe never reports readiness"),
            ProbeStep::SleepThenRetry(ms) => {
                assert_eq!(ms, interval_ms);
                sleeps += 1;
            }
            ProbeStep::GiveUp => break,
        }
    }
    assert_eq!(sleeps, max_attempts);
    assert_eq!(sleeps * interval_ms, interval_ms * max_attempts);
    assert!(schedule.timeout_reached());
}

#[test]
fn wait_stops_on_first_answer() {
    let mut schedule = ProbeSchedule::new(250, 10);
    let outcomes = [false, false, false, true];
    let mut sleeps: u64 = 0;
    let mut ready = false;
    for &o in outcomes.iter() {
        match schedule.on_probe(o) {
            ProbeStep::Ready => {
                ready = true;
                break;
            }
            ProbeStep::SleepThenRetry(_) => sleeps += 1,
            ProbeStep::GiveUp => break,
        }
    }
    assert!(ready);
    assert_eq!(sleeps, 3);
    assert!(!schedule.timeout_reached());
}

#[test]
fn zero_budget_gives_up_without_sleeping() {
    let mut schedule = ProbeSchedule::new(1000, 0);
    assert!(schedule.timeout_reached());
    assert_eq!(schedule.on_probe(false), ProbeStep::GiveUp);
}

#[test]
fn answer_costs_no_budget_even_when_exhausted() {
    let mut schedule = ProbeSchedule::new(1000, 1);
    assert_eq!(schedule.on_probe(false), ProbeStep::SleepThenRetry(1000));
    assert_eq!(schedule.on_probe(true), ProbeStep::Ready);
}
