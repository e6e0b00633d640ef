use common::wait::{keep_waiting, plan_wait, WaitError, WaitPlan, DEFAULT_POLL_INTERVAL};

const MS: u64 = 1_000_000;

#[test]
fn wait_that_never_succeeds_stops_at_the_timeout() {
    let start = 5 * MS;
    let plan = plan_wait(start, Some(100 * MS), Some(10 * MS)).unwrap();
    let mut now = start;
    let mut sleeps = 0u32;
    while keep_waiting(&plan, false, now) {
        now += plan.poll_interval;
        sleeps += 1;
        assert!(sleeps <= 1000, "wait does not end");
    }
    assert_eq!(sleeps, 10);
    assert_eq!(now - start, 100 * MS);
}

#[test]
fn wait_stops_as_soon_as_the_condition_holds() {
    let plan = plan_wait(0, None, None).unwrap();
    assert!(keep_waiting(&plan, false, u64::MAX));
    assert!(!keep_waiting(&plan, true, 0));
}

#[test]
fn defaults_are_forever_and_ten_milliseconds() {
    assert_eq!(
        plan_wait(7, None, None),
        Ok(WaitPlan { deadline: None, poll_interval: DEFAULT_POLL_INTERVAL })
    );
    assert_eq!(DEFAULT_POLL_INTERVAL, 10 * MS);
    assert_eq!(plan_wait(7, Some(3), Some(2)), Ok(WaitPlan { deadline: Some(10), poll_interval: 2 }));
}

#[test]
fn timeout_past_the_end_of_the_clock_never_expires() {
    assert_eq!(plan_wait(u64::MAX - 1, Some(5), None).unwrap().deadline, None);
}

#[test]
fn zero_durations_are_refused() {
    assert_eq!(plan_wait(0, Some(0), None), Err(WaitError::NonPositiveTimeout));
    assert_eq!(plan_wait(0, None, Some(0)), Err(WaitError::NonPositiveInterval));
    assert_eq!(plan_wait(0, Some(0), Some(0)), Err(WaitError::NonPositiveTimeout));
}

#[test]
fn deadline_is_exclusive() {
    let plan = plan_wait(0, Some(100), Some(10)).unwrap();
    assert!(keep_waiting(&plan, false, 99));
    assert!(!keep_waiting(&plan, false, 100));
}
