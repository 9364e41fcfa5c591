//! Spans of time and points on the monotonic clock, as whole nanoseconds.
use vstd::prelude::*;

verus! {

/// Nanoseconds in one second.
pub const NANOS_PER_SEC: u128 = 1_000_000_000;

/// Nanoseconds in one millisecond.
pub const NANOS_PER_MILLI: u128 = 1_000_000;

/// The longest span: `u64::MAX` seconds and 999 999 999 nanoseconds.
pub const MAX_NANOS: u128 = 18_446_744_073_709_551_615_999_999_999;

/// The last point that the clock can represent: `i64::MAX` seconds and
/// 999 999 999 nanoseconds past its origin.
pub const CLOCK_END: u128 = 9_223_372_036_854_775_807_999_999_999;

/// A decade of 365-day years, in nanoseconds: the delay used in place of
/// one that would run past the end of the clock.
pub const TEN_YEARS_NANOS: u128 = 315_360_000_000_000_000;

/// A non-negative length of time, with nanosecond precision.
#[derive(Clone, Copy, Debug, PartialEq, Eq, Structural, PartialOrd, Ord, Hash)]
pub struct Span {
    nanos: u128,
}

impl View for Span {
    type V = nat;

    closed spec fn view(&self) -> nat {
        self.nanos as nat
    }
}

/// A point on the monotonic clock, given as the nanoseconds elapsed since
/// the clock's origin.
#[derive(Clone, Copy, Debug, PartialEq, Eq, Structural, PartialOrd, Ord, Hash)]
pub struct Moment {
    nanos: u128,
}

impl View for Moment {
    type V = nat;

    closed spec fn view(&self) -> nat {
        self.nanos as nat
    }
}

/// The point at which something scheduled `dur` after `now` falls due.
///
/// Past the end of the clock it falls ten years after `now` instead, and
/// never later than the end of the clock.
pub open spec fn delivery_spec(now: int, dur: int) -> int {
    if now + dur <= CLOCK_END {
        now + dur
    } else if now + TEN_YEARS_NANOS <= CLOCK_END {
        now + TEN_YEARS_NANOS
    } else {
        CLOCK_END as int
    }
}

/// What is left from `now` until `target`, or zero once `target` is reached.
pub open spec fn until_spec(target: int, now: int) -> int {
    if now < target {
        target - now
    } else {
        0
    }
}

impl Span {
    #[verifier::type_invariant]
    spec fn bounded(self) -> bool {
        self.nanos <= MAX_NANOS
    }

    /// The empty span.
    pub fn zero() -> (r: Span)
        ensures
            r@ == 0,
    {
        Span { nanos: 0 }
    }

    /// The longest span that can be represented.
    pub fn max_span() -> (r: Span)
        ensures
            r@ == MAX_NANOS,
    {
        Span { nanos: MAX_NANOS }
    }

    /// A span of `secs` whole seconds.
    pub fn from_secs(secs: u64) -> (r: Span)
        ensures
            r@ == secs * NANOS_PER_SEC,
    {
        assert(secs * NANOS_PER_SEC <= MAX_NANOS) by (nonlinear_arith)
            requires
                secs <= u64::MAX,
        ;
        Span { nanos: secs as u128 * NANOS_PER_SEC }
    }

    /// A span of `millis` milliseconds.
    pub fn from_millis(millis: u64) -> (r: Span)
        ensures
            r@ == millis * NANOS_PER_MILLI,
    {
        assert(millis * NANOS_PER_MILLI <= MAX_NANOS) by (nonlinear_arith)
            requires
                millis <= u64::MAX,
        ;
        Span { nanos: millis as u128 * NANOS_PER_MILLI }
    }

    /// A span of `nanos` nanoseconds.
    pub fn from_nanos(nanos: u64) -> (r: Span)
        ensures
            r@ == nanos,
    {
        Span { nanos: nanos as u128 }
    }

    /// A span of `secs` seconds and `subsec_nanos` nanoseconds.
    pub fn from_parts(secs: u64, subsec_nanos: u32) -> (r: Span)
        requires
            subsec_nanos < NANOS_PER_SEC,
        ensures
            r@ == secs * NANOS_PER_SEC + subsec_nanos,
    {
        assert(secs * NANOS_PER_SEC + subsec_nanos <= MAX_NANOS) by (nonlinear_arith)
            requires
                secs <= u64::MAX,
                subsec_nanos < NANOS_PER_SEC,
        ;
        Span { nanos: secs as u128 * NANOS_PER_SEC + subsec_nanos as u128 }
    }

    /// A span of at most `nanos` nanoseconds: the longest span where `nanos`
    /// is longer.
    pub fn saturating_from_nanos(nanos: u128) -> (r: Span)
        ensures
            r@ == if nanos <= MAX_NANOS {
                nanos as int
            } else {
                MAX_NANOS as int
            },
    {
        if nanos <= MAX_NANOS {
            Span { nanos }
        } else {
            Span { nanos: MAX_NANOS }
        }
    }

    /// Whether the span is empty.
    pub fn is_zero(&self) -> (r: bool)
        ensures
            r == (self@ == 0),
    {
        self.nanos == 0
    }

    /// The span in whole nanoseconds; never more than the longest span.
    pub fn as_nanos(&self) -> (r: u128)
        ensures
            r == self@,
            r <= MAX_NANOS,
    {
        proof {
            use_type_invariant(self);
        }
        self.nanos
    }

    /// The span in whole milliseconds, rounded down.
    pub fn as_millis(&self) -> (r: u128)
        ensures
            r == self@ as int / NANOS_PER_MILLI as int,
    {
        self.nanos / NANOS_PER_MILLI
    }

    /// The whole seconds of the span.
    pub fn as_secs(&self) -> (r: u64)
        ensures
            r == self@ as int / NANOS_PER_SEC as int,
    {
        proof {
            use_type_invariant(self);
        }
        (self.nanos / NANOS_PER_SEC) as u64
    }

    /// The nanoseconds of the span past its whole seconds.
    pub fn subsec_nanos(&self) -> (r: u32)
        ensures
            r == self@ as int % NANOS_PER_SEC as int,
    {
        (self.nanos % NANOS_PER_SEC) as u32
    }
}

impl Moment {
    #[verifier::type_invariant]
    spec fn on_clock(self) -> bool {
        self.nanos <= CLOCK_END
    }

    /// The origin of the clock.
    pub fn origin() -> (r: Moment)
        ensures
            r@ == 0,
    {
        Moment { nanos: 0 }
    }

    /// The point that lies `since_origin` after the origin of the clock, or
    /// the end of the clock where that lies past it.
    pub fn from_span(since_origin: Span) -> (r: Moment)
        ensures
            r@ == if since_origin@ <= CLOCK_END {
                since_origin@ as int
            } else {
                CLOCK_END as int
            },
    {
        if since_origin.nanos <= CLOCK_END {
            Moment { nanos: since_origin.nanos }
        } else {
            Moment { nanos: CLOCK_END }
        }
    }

    /// The span from the origin of the clock to this point; never past the
    /// end of the clock.
    pub fn since_origin(&self) -> (r: Span)
        ensures
            r@ == self@,
            r@ <= CLOCK_END,
    {
        proof {
            use_type_invariant(self);
        }
        Span { nanos: self.nanos }
    }

    /// The span from `now` until `self`, or zero where `now` is not earlier.
    pub fn saturating_since(&self, now: Moment) -> (r: Span)
        ensures
            r@ == until_spec(self@ as int, now@ as int),
            r@ <= self@,
    {
        proof {
            use_type_invariant(self);
        }
        if now.nanos < self.nanos {
            Span { nanos: self.nanos - now.nanos }
        } else {
            Span::zero()
        }
    }
}

/// The point at which something scheduled `dur` after `now` falls due.
///
/// Where `now + dur` lies past the end of the clock, the result is ten
/// years after `now` instead; it never lies past the end of the clock.
pub fn checked_delivery_time(now: Moment, dur: Span) -> (r: Moment)
    ensures
        r@ == delivery_spec(now@ as int, dur@ as int),
        now@ <= r@ <= CLOCK_END,
{
    proof {
        use_type_invariant(now);
        use_type_invariant(dur);
    }
    let start = now.nanos;
    let nanos = if dur.nanos <= CLOCK_END - start {
        start + dur.nanos
    } else if TEN_YEARS_NANOS <= CLOCK_END - start {
        start + TEN_YEARS_NANOS
    } else {
        CLOCK_END
    };
    Moment { nanos }
}

} // verus!
