//! Instants in UTC, kept as seconds and nanoseconds since the Unix epoch.
use vstd::prelude::*;

verus! {

/// Seconds in one calendar day.
pub const SECS_PER_DAY: i64 = 86400;

/// Nanoseconds in one second.
pub const NANOS_PER_SEC: u32 = 1_000_000_000;

/// Length of the quote-history window, in days: wide enough that a request
/// starting on a closed-market day still covers a trading day.
pub const HISTORY_WINDOW_DAYS: u32 = 3;

/// An instant in UTC: whole seconds since the Unix epoch, and the nanoseconds
/// past that second.
#[derive(Clone, Copy, Debug, PartialEq, Eq, Structural)]
pub struct Moment {
    pub secs: i64,
    pub nanos: u32,
}

/// Division that rounds toward zero, as the machine's signed division does.
pub open spec fn trunc_div(a: int, b: int) -> int
    recommends
        b > 0,
{
    if a >= 0 {
        a / b
    } else {
        -((-a) / b)
    }
}

impl Moment {
    pub open spec fn wf(self) -> bool {
        self.nanos < NANOS_PER_SEC
    }

    /// The instant as a count of nanoseconds since the epoch.
    pub open spec fn total_nanos(self) -> int {
        self.secs * NANOS_PER_SEC + self.nanos
    }

    /// Whether adding `days` whole days keeps the seconds within `i64`.
    pub open spec fn can_add_days(self, days: int) -> bool {
        self.secs + days * SECS_PER_DAY <= i64::MAX
    }

    /// The instant `days` whole days later.
    pub open spec fn plus_days(self, days: int) -> Moment {
        Moment { secs: (self.secs + days * SECS_PER_DAY) as i64, nanos: self.nanos }
    }

    /// Number of whole days from `from` to `to`, rounded toward zero.
    pub open spec fn spec_days_between(from: Moment, to: Moment) -> int {
        trunc_div(to.total_nanos() - from.total_nanos(), SECS_PER_DAY * NANOS_PER_SEC)
    }

    /// `self` is earlier than `other`.
    pub fn is_before(&self, other: &Moment) -> (r: bool)
        requires
            self.wf(),
            other.wf(),
        ensures
            r == (self.total_nanos() < other.total_nanos()),
    {
        proof {
            let (a, b) = (*self, *other);
            assert(a.secs < b.secs ==> a.total_nanos() < b.total_nanos()) by (nonlinear_arith)
                requires
                    a.nanos < NANOS_PER_SEC,
                    b.nanos < NANOS_PER_SEC,
            ;
            assert(a.secs > b.secs ==> a.total_nanos() > b.total_nanos()) by (nonlinear_arith)
                requires
                    a.nanos < NANOS_PER_SEC,
                    b.nanos < NANOS_PER_SEC,
            ;
        }
        self.secs < other.secs || (self.secs == other.secs && self.nanos < other.nanos)
    }

    /// The same instant `days` whole days later.
    pub fn add_days(&self, days: u32) -> (r: Moment)
        requires
            self.can_add_days(days as int),
        ensures
            r == self.plus_days(days as int),
            r.total_nanos() == self.total_nanos() + days * SECS_PER_DAY * NANOS_PER_SEC,
            self.wf() ==> r.wf(),
    {
        let step: i64 = days as i64 * SECS_PER_DAY;
        proof {
            assert(self.total_nanos() + days * SECS_PER_DAY * NANOS_PER_SEC
                == (self.secs + days * SECS_PER_DAY) * NANOS_PER_SEC + self.nanos)
                by (nonlinear_arith);
        }
        Moment { secs: self.secs + step, nanos: self.nanos }
    }

    /// Whole days elapsed from `from` to `to`, rounded toward zero (negative when
    /// `to` is earlier).
    pub fn days_between(from: &Moment, to: &Moment) -> (r: i64)
        requires
            from.wf(),
            to.wf(),
        ensures
            r == Self::spec_days_between(*from, *to),
    {
        let diff: i128 = (to.secs as i128 - from.secs as i128) * (NANOS_PER_SEC as i128)
            + (to.nanos as i128 - from.nanos as i128);
        let unit: i128 = SECS_PER_DAY as i128 * NANOS_PER_SEC as i128;
        proof {
            assert(diff == to.total_nanos() - from.total_nanos()) by (nonlinear_arith)
                requires
                    diff == (to.secs - from.secs) * NANOS_PER_SEC + (to.nanos - from.nanos),
            ;
            assert(-0x1_0000_0000_0000_0000 * NANOS_PER_SEC <= diff <= 0x1_0000_0000_0000_0000
                * NANOS_PER_SEC) by (nonlinear_arith)
                requires
                    diff == (to.secs - from.secs) * NANOS_PER_SEC + (to.nanos - from.nanos),
                    -0x1_0000_0000_0000_0000 < to.secs - from.secs < 0x1_0000_0000_0000_0000,
                    -(NANOS_PER_SEC as int) < to.nanos - from.nanos < NANOS_PER_SEC,
            ;
        }
        let days: i128 = if diff >= 0 {
            diff / unit
        } else {
            -((-diff) / unit)
        };
        proof {
            assert(-0x1_0000_0000_0000 <= days <= 0x1_0000_0000_0000) by (nonlinear_arith)
                requires
                    days == trunc_div(diff as int, unit as int),
                    unit == 86400 * 1_000_000_000,
                    -0x1_0000_0000_0000_0000 * NANOS_PER_SEC <= diff <= 0x1_0000_0000_0000_0000
                        * NANOS_PER_SEC,
            ;
        }
        days as i64
    }
}

/// The window of quote history requested for `date`: from `date`, cut to its
/// whole second, to three days later.
pub fn history_window(date: &Moment) -> (r: (Moment, Moment))
    requires
        date.can_add_days(HISTORY_WINDOW_DAYS as int),
    ensures
        r.0 == (Moment { secs: date.secs, nanos: 0 }),
        r.1 == r.0.plus_days(HISTORY_WINDOW_DAYS as int),
        r.0.wf(),
        r.1.wf(),
        Moment::spec_days_between(r.0, r.1) == HISTORY_WINDOW_DAYS,
{
    let start = Moment { secs: date.secs, nanos: 0 };
    let end = start.add_days(HISTORY_WINDOW_DAYS);
    proof {
        let unit = SECS_PER_DAY * NANOS_PER_SEC;
        assert(end.total_nanos() - start.total_nanos() == 3 * unit);
        assert((3 * unit) / unit == 3) by (nonlinear_arith)
            requires
                unit == 86400 * 1_000_000_000,
        ;
    }
    (start, end)
}

} // verus!
