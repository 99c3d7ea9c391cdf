use kiosk_rotation::rotation::{percent, ProgressPoller};

#[test]
fn progress_is_zero_at_activation() {
    assert_eq!(percent(1000, 1000, 2000), 0);
}

#[test]
fn progress_is_zero_before_activation() {
    assert_eq!(percent(10, 1000, 2000), 0);
    assert_eq!(percent(i64::MIN, 1000, 2000), 0);
}

#[test]
fn progress_is_half_at_midpoint() {
    assert_eq!(percent(1500, 1000, 2000), 50);
}

#[test]
fn progress_is_full_at_and_after_deadline() {
    assert_eq!(percent(2000, 1000, 2000), 100);
    assert_eq!(percent(2001, 1000, 2000), 100);
    assert_eq!(percent(i64::MAX, 1000, 2000), 100);
}

#[test]
fn progress_rounds_down() {
    assert_eq!(percent(1999, 1000, 2000), 99);
    assert_eq!(percent(1001, 1000, 2000), 0);
    assert_eq!(percent(1009, 1000, 2000), 0);
    assert_eq!(percent(1010, 1000, 2000), 1);
    assert_eq!(percent(2, 0, 3), 66);
    assert_eq!(percent(1, 0, 3), 33);
}

#[test]
fn progress_never_decreases_within_a_window() {
    let mut previous: u8 = 0;
    let mut now: i64 = 1000;
    while now <= 2000 {
        let current: u8 = percent(now, 1000, 2000);
        assert!(current >= previous);
        assert!(current <= 100);
        previous = current;
        now += 1;
    }
    assert_eq!(previous, 100);
}

#[test]
fn degenerate_window_is_already_due() {
    assert_eq!(percent(5, 10, 10), 100);
    assert_eq!(percent(10, 10, 10), 100);
    assert_eq!(percent(15, 10, 10), 100);
}

#[test]
fn window_that_ends_before_it_starts_is_already_due() {
    assert_eq!(percent(0, 10, 5), 100);
    assert_eq!(percent(7, 10, 5), 100);
    assert_eq!(percent(20, 10, 5), 100);
}

#[test]
fn progress_survives_the_widest_window() {
    assert_eq!(percent(0, i64::MIN, i64::MAX), 50);
    assert_eq!(percent(-1, i64::MIN, i64::MAX), 49);
    assert_eq!(percent(i64::MAX - 1, i64::MIN, i64::MAX), 99);
    assert_eq!(percent(i64::MIN + 1, i64::MIN, i64::MAX), 0);
}

#[test]
fn poller_counts_from_its_start() {
    let mut poller = ProgressPoller::new(1000, 2000);
    assert_eq!(poller.poll(1000, 2000), 0);
    assert_eq!(poller.poll(1250, 2000), 25);
    assert_eq!(poller.poll(1500, 2000), 50);
    assert_eq!(poller.poll(2500, 2000), 100);
}

#[test]
fn poller_restarts_when_the_deadline_changes() {
    let mut poller = ProgressPoller::new(1000, 2000);
    assert_eq!(poller.poll(1900, 2000), 90);
    assert_eq!(poller.poll(1950, 3950), 0);
    assert_eq!(poller.poll(2450, 3950), 25);
    assert_eq!(poller.poll(3950, 3950), 100);
}

#[test]
fn poller_meeting_a_deadline_already_past_shows_full() {
    let mut poller = ProgressPoller::new(1000, 2000);
    assert_eq!(poller.poll(1500, 1200), 100);
    assert_eq!(poller.poll(1600, 1200), 100);
}

#[test]
fn poller_started_on_the_initial_deadline_shows_full() {
    let mut poller = ProgressPoller::new(1000, 0);
    assert_eq!(poller.poll(1100, 0), 100);
}

#[test]
fn late_poller_never_overstates() {
    let activated_at: i64 = 1000;
    let deadline: i64 = 2000;
    let mut noticed_at: i64 = 1000;
    while noticed_at < 2000 {
        let mut now: i64 = 900;
        while now <= 2100 {
            assert!(percent(now, noticed_at, deadline) <= percent(now, activated_at, deadline));
            now += 50;
        }
        noticed_at += 100;
    }
}
