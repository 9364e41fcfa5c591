use minuteurs::{checked_delivery_time, Moment, Schedule, Span, Watcher};

fn at_millis(n: u64) -> Moment {
    Moment::from_span(Span::from_millis(n))
}

#[test]
fn once_schedule_counts_down_and_stays_due() {
    let mut s = Schedule::once_at(at_millis(10), Span::from_millis(100));
    assert_eq!(s.delivery_time(), at_millis(110));
    assert!(!s.expired_at(at_millis(10)));
    assert_eq!(s.remaining_at(at_millis(10)), Span::from_millis(100));
    assert_eq!(s.remaining_at(at_millis(60)), Span::from_millis(50));
    assert!(!s.expired_at(at_millis(109)));
    assert!(s.expired_at(at_millis(110)));
    assert!(s.expired_at(at_millis(5000)));
    assert_eq!(s.remaining_at(at_millis(5000)), Span::zero());
    assert_eq!(s.delivery_time(), at_millis(110));
}

#[test]
fn remaining_never_grows() {
    let mut s = Schedule::once_at(Moment::origin(), Span::from_millis(100));
    let mut last = s.remaining_at(Moment::origin());
    for t in [1u64, 20, 50, 99, 100, 101, 1000] {
        let r = s.remaining_at(at_millis(t));
        assert!(r <= last);
        last = r;
    }
    assert_eq!(last, Span::zero());
}

#[test]
fn repeat_schedule_moves_on_when_found_due() {
    let mut s = Schedule::repeat_at(Moment::origin(), Span::from_millis(100));
    assert_eq!(s.delivery_time(), at_millis(100));
    assert!(!s.expired_at(at_millis(50)));
    assert_eq!(s.delivery_time(), at_millis(100));
    assert!(s.expired_at(at_millis(350)));
    assert_eq!(s.delivery_time(), at_millis(200));
    assert_eq!(s.remaining_at(at_millis(350)), Span::zero());
    assert_eq!(s.delivery_time(), at_millis(300));
    assert_eq!(s.remaining_at(at_millis(350)), Span::zero());
    assert_eq!(s.remaining_at(at_millis(350)), Span::from_millis(50));
    assert_eq!(s.delivery_time(), at_millis(400));
}

#[test]
fn repeat_wait_moves_on_by_one_period() {
    let mut s = Schedule::repeat_at(Moment::origin(), Span::from_millis(100));
    assert_eq!(s.wait_at(at_millis(30)), Span::from_millis(70));
    assert_eq!(s.delivery_time(), at_millis(200));
    assert_eq!(s.wait_at(at_millis(500)), Span::zero());
    assert_eq!(s.delivery_time(), at_millis(300));
}

#[test]
fn once_wait_leaves_schedule() {
    let mut s = Schedule::once_at(Moment::origin(), Span::from_millis(100));
    assert_eq!(s.wait_at(at_millis(40)), Span::from_millis(60));
    assert_eq!(s.wait_at(at_millis(100)), Span::zero());
    assert_eq!(s.delivery_time(), at_millis(100));
}

#[test]
fn back_to_back_waits_burst_then_keep_period() {
    // Five waits on a 100 ms period begun at 0 ms, each sleeping what it was told.
    let mut s = Schedule::repeat_at(Moment::origin(), Span::from_millis(100));
    let mut t: u64 = 0;
    for _ in 0..5 {
        let d = s.wait_at(at_millis(t));
        t += d.as_millis() as u64;
    }
    assert_eq!(t, 500);

    // Begun late, the first waits return at once until the schedule catches up.
    let mut s = Schedule::repeat_at(Moment::origin(), Span::from_millis(100));
    let mut t: u64 = 350;
    let mut slept = Vec::new();
    for _ in 0..5 {
        let d = s.wait_at(at_millis(t));
        slept.push(d.as_millis());
        t += d.as_millis() as u64;
    }
    assert_eq!(slept, vec![0, 0, 0, 50, 100]);
    assert_eq!(t, 500);
}

#[test]
fn delivery_time_caps_overflow_at_ten_years() {
    let ten_years = Span::from_secs(86400 * 365 * 10);
    let now = at_millis(1);
    let capped = checked_delivery_time(now, Span::max_span());
    assert_eq!(capped.since_origin().as_nanos(), 1_000_000 + ten_years.as_nanos());

    // Right up to the end of the clock the sum still fits.
    let longest = Span::from_parts(i64::MAX as u64, 999_999_999);
    let exact = checked_delivery_time(Moment::origin(), longest);
    assert_eq!(exact.since_origin(), longest);
    let over = checked_delivery_time(Moment::origin(), Span::from_secs(i64::MAX as u64 + 1));
    assert_eq!(over.since_origin(), ten_years);

    // Near the end of the clock even ten years do not fit: the end is kept.
    let late = Moment::from_span(Span::max_span());
    let end = checked_delivery_time(late, Span::from_secs(1));
    assert_eq!(end, late);
}

#[test]
fn span_conversions() {
    let s = Span::from_parts(3, 250_000_000);
    assert_eq!(s.as_secs(), 3);
    assert_eq!(s.subsec_nanos(), 250_000_000);
    assert_eq!(s.as_millis(), 3250);
    assert_eq!(s.as_nanos(), 3_250_000_000);
    assert_eq!(Span::from_nanos(1_500), Span::saturating_from_nanos(1_500));
    assert_eq!(Span::saturating_from_nanos(u128::MAX), Span::max_span());
    assert_eq!(Span::max_span().as_secs(), u64::MAX);
    assert_eq!(Span::max_span().subsec_nanos(), 999_999_999);
    assert!(Span::zero().is_zero());
    assert!(!Span::from_nanos(1).is_zero());
    assert_eq!(Moment::from_span(s).since_origin(), s);
    assert_eq!(at_millis(100).saturating_since(at_millis(40)), Span::from_millis(60));
    assert_eq!(at_millis(40).saturating_since(at_millis(100)), Span::zero());
}

#[test]
fn watcher_observe_follows_flag() {
    let timer = minuteurs::Timer::new(Span::from_millis(100));
    let mut w: Watcher = timer.watcher();
    assert!(!w.observe(false));
    assert!(w.observe(true));
    assert!(!w.observe(true));
    assert!(w.observe(false));
    assert!(!w.observe(false));
}
