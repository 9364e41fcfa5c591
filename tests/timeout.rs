use std::time::{Duration, Instant};

use minuteurs::{checked_delivery_time, Timeout, Moment, Span};

fn pause(s: Span) {
    busy_wait(Duration::new(s.as_secs(), s.subsec_nanos()));
}

/// Blocks the calling thread for at least `d` by polling the clock.
fn busy_wait(d: Duration) {
    let start = Instant::now();
    while start.elapsed() < d {
        std::hint::spin_loop();
    }
}

fn ms(n: u64) -> Span {
    Span::from_millis(n)
}

#[test]
fn timeout_delivery_time() {
    let now = Moment::from_span(Span::from_secs(7));

    let ret = checked_delivery_time(now, Span::from_secs(1));
    assert_eq!(ret, Moment::from_span(Span::from_secs(7 + 1)));

    let ret = checked_delivery_time(now, Span::max_span());
    assert_eq!(ret, Moment::from_span(Span::from_secs(7 + 86400 * 365 * 10)));
}

#[test]
fn timeout_once_expired() {
    let mut timeout = Timeout::once(ms(100));

    assert!(!timeout.expired());

    busy_wait(Duration::from_millis(110));
    assert!(timeout.expired());
    assert!(timeout.expired());
}

#[test]
fn timeout_once_remains() {
    let mut timeout = Timeout::once(ms(100));
    assert!(timeout.remaining_duration() > Span::zero());
    assert!(timeout.remaining_duration() < ms(100));

    busy_wait(Duration::from_millis(50));
    assert!(timeout.remaining_duration() > Span::zero());
    assert!(timeout.remaining_duration() < ms(50));

    busy_wait(Duration::from_millis(51));
    assert!(timeout.remaining_duration() == Span::zero());
    assert!(timeout.remaining_duration() == Span::zero());
}

#[test]
fn timeout_once_wait() {
    let mut timeout = Timeout::once(ms(100));
    let now = Instant::now();
    timeout.wait(pause);
    assert!(now.elapsed() >= Duration::from_millis(100));

    let mut timeout = Timeout::once(ms(100));
    let now = Instant::now();
    busy_wait(Duration::from_millis(50));
    timeout.wait(pause);
    let delay = now.elapsed();
    assert!(delay >= Duration::from_millis(100));
    assert!(delay < Duration::from_millis(110));

    let now = Instant::now();
    timeout.wait(pause);
    let delay = now.elapsed();
    assert!(delay < Duration::from_millis(1));
}

#[test]
fn timeout_repeat_expired() {
    let mut timeout = Timeout::repeat(ms(100));

    assert!(!timeout.expired());

    busy_wait(Duration::from_millis(110));
    assert!(timeout.expired());
    assert!(!timeout.expired());
}

#[test]
fn timeout_repeat_remains() {
    let mut timeout = Timeout::repeat(ms(100));
    assert!(timeout.remaining_duration() > Span::zero());
    assert!(timeout.remaining_duration() < ms(100));

    busy_wait(Duration::from_millis(50));
    assert!(timeout.remaining_duration() > Span::zero());
    assert!(timeout.remaining_duration() < ms(50));

    busy_wait(Duration::from_millis(51));
    assert!(timeout.remaining_duration() == Span::zero());
    assert!(timeout.remaining_duration() < ms(100));
}

#[test]
fn timeout_repeat_wait() {
    let mut timeout = Timeout::repeat(ms(100));
    let now = Instant::now();
    timeout.wait(pause);
    assert!(now.elapsed() >= Duration::from_millis(100));

    let mut timeout = Timeout::repeat(ms(100));
    let now = Instant::now();
    busy_wait(Duration::from_millis(50));
    timeout.wait(pause);
    let delay = now.elapsed();
    assert!(delay >= Duration::from_millis(100));
    assert!(delay < Duration::from_millis(110));

    let now = Instant::now();
    timeout.wait(pause);
    let delay = now.elapsed();
    assert!(delay >= Duration::from_millis(90), "delay = {:?}", delay);
}

#[test]
fn timeout_starts_with_schedule_from_origin() {
    let timeout = Timeout::once(ms(100));
    assert_eq!(timeout.schedule().delivery_time(), Moment::from_span(ms(100)));

    let timeout = Timeout::repeat(ms(30));
    assert_eq!(timeout.schedule().delivery_time(), Moment::from_span(ms(30)));
}

#[test]
fn timeout_zero_is_due_at_once() {
    let mut timeout = Timeout::once(Span::zero());
    assert!(timeout.expired());
    assert_eq!(timeout.remaining_duration(), Span::zero());
}

#[test]
fn timeout_huge_duration_is_capped_at_ten_years() {
    let timeout = Timeout::once(Span::max_span());
    assert_eq!(timeout.schedule().delivery_time(), Moment::from_span(Span::from_secs(86400 * 365 * 10)));
    let mut timeout = Timeout::repeat(Span::max_span());
    assert!(!timeout.expired());
    assert!(timeout.remaining_duration() > Span::from_secs(86400 * 365 * 9));
}
