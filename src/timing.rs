use vstd::prelude::*;

verus! {

/// Seconds in one scheduling day.
pub const SECONDS_PER_DAY: i64 = 86400;

/// Largest day count that two `i64` timestamps can be apart.
pub const MAX_DAYS_ELAPSED: u64 = 0x1_0000_0000_0000;

/// Whole days from `stamp` to `now`, never below zero: a clock that went
/// back behind the creation stamp counts as day zero.
pub open spec fn days_since(stamp: int, now: int) -> int {
    if now < stamp {
        0
    } else {
        (now - stamp) / 86400
    }
}

/// The day-granularity clock of a collection.
#[derive(Clone, Copy, Debug, PartialEq, Eq, Structural)]
pub struct SchedTimingToday {
    /// Current time, in seconds since the epoch.
    pub now: i64,
    /// Whole days since the collection's creation stamp.
    pub days_elapsed: u64,
    /// Day index at which the current day rolls over.
    pub next_day_at: u64,
}

impl SchedTimingToday {
    /// The day count is one that two timestamps can give, and the day rolls
    /// over one day after it.
    pub open spec fn wf(self) -> bool {
        &&& self.days_elapsed <= MAX_DAYS_ELAPSED
        &&& self.next_day_at == self.days_elapsed + 1
    }

    /// The timing of `now` against the creation stamp `stamp`.
    pub fn from_stamp(stamp: i64, now: i64) -> (r: SchedTimingToday)
        ensures
            r.wf(),
            r.now == now,
            r.days_elapsed == days_since(stamp as int, now as int),
    {
        let days: u64 = if now < stamp {
            0
        } else {
            let diff: i128 = now as i128 - stamp as i128;
            assert(diff / 86400 <= 0x1_0000_0000_0000) by (nonlinear_arith)
                requires
                    0 <= diff <= 0x1_0000_0000_0000_0000,
            ;
            (diff / (SECONDS_PER_DAY as i128)) as u64
        };
        SchedTimingToday { now, days_elapsed: days, next_day_at: days + 1 }
    }
}

/// The timing of a collection together with what the stamp store has to do.
#[derive(Clone, Copy, Debug, PartialEq, Eq, Structural)]
pub struct TimingOutcome {
    pub timing: SchedTimingToday,
    /// A creation stamp to persist, where none was stored.
    pub stamp_to_store: Option<i64>,
    /// The clock stands before the stored creation stamp.
    pub clock_behind_stamp: bool,
}

/// What `timing_for_timestamp` yields for a stored stamp and a time.
pub open spec fn timing_outcome(stored_stamp: Option<i64>, now: i64) -> TimingOutcome {
    match stored_stamp {
        None => TimingOutcome {
            timing: SchedTimingToday { now, days_elapsed: 0, next_day_at: 1 },
            stamp_to_store: Some(now),
            clock_behind_stamp: false,
        },
        Some(stamp) => TimingOutcome {
            timing: SchedTimingToday {
                now,
                days_elapsed: days_since(stamp as int, now as int) as u64,
                next_day_at: (days_since(stamp as int, now as int) + 1) as u64,
            },
            stamp_to_store: None,
            clock_behind_stamp: now < stamp,
        },
    }
}

} // verus!
