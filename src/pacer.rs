//! The decisions of a timed run of ticks. The caller owns the clock and the
//! machine: it polls with the current time, performs a tick when told to,
//! reports the throughput it is handed, and naps when asked.
use vstd::prelude::*;

verus! {

/// Nanoseconds in one second: throughput is reported at most once per second.
pub const REPORT_PERIOD_NS: u64 = 1_000_000_000;

/// Above this tick interval the caller may nap between polls.
pub const NAP_THRESHOLD_NS: u64 = 10_000_000;

/// The state of a timed run.
pub struct CyclePacer {
    ticks: u64,
    done: u64,
    interval_ns: u64,
    last_tick_ns: u64,
    last_report_ns: u64,
    last_report_ticks: u64,
}

/// What a timed run holds.
pub struct PacerView {
    /// The number of ticks asked for.
    pub ticks: u64,
    /// The number of ticks performed so far.
    pub done: u64,
    /// The time between two ticks.
    pub interval_ns: u64,
    /// When the last tick was performed, or the run started.
    pub last_tick_ns: u64,
    /// When throughput was last reported, or the run started.
    pub last_report_ns: u64,
    /// The ticks performed when throughput was last reported.
    pub last_report_ticks: u64,
}

/// What the caller is to do after a poll.
#[derive(Copy, Clone, Debug, PartialEq, Eq, Structural)]
pub struct PacerStep {
    /// Perform one tick now.
    pub tick: bool,
    /// Report this many ticks performed since the last report.
    pub report: Option<u64>,
    /// Nap briefly before the next poll.
    pub nap: bool,
    /// The run is complete.
    pub finished: bool,
}

/// The time from `since` to `now`; zero if the clock went back.
pub open spec fn elapsed(now: u64, since: u64) -> int {
    if now >= since {
        now - since
    } else {
        0
    }
}

impl View for CyclePacer {
    type V = PacerView;

    closed spec fn view(&self) -> PacerView {
        PacerView {
            ticks: self.ticks,
            done: self.done,
            interval_ns: self.interval_ns,
            last_tick_ns: self.last_tick_ns,
            last_report_ns: self.last_report_ns,
            last_report_ticks: self.last_report_ticks,
        }
    }
}

impl PacerView {
    /// Whether a tick is due at `now`.
    pub open spec fn tick_due(self, now: u64) -> bool {
        elapsed(now, self.last_tick_ns) >= self.interval_ns
    }

    /// Whether throughput is to be reported at `now`.
    pub open spec fn report_due(self, now: u64) -> bool {
        elapsed(now, self.last_report_ns) >= REPORT_PERIOD_NS
    }

    pub open spec fn complete(self) -> bool {
        self.done >= self.ticks
    }
}

impl CyclePacer {
    #[verifier::type_invariant]
    spec fn counted(self) -> bool {
        self.last_report_ticks <= self.done <= self.ticks
    }

    /// A run of `ticks` ticks, `interval_ns` apart, starting at `now_ns`. The
    /// first tick falls due one interval after the start.
    pub fn new(ticks: u64, interval_ns: u64, now_ns: u64) -> (r: Self)
        ensures
            r@ == (PacerView {
                ticks,
                done: 0,
                interval_ns,
                last_tick_ns: now_ns,
                last_report_ns: now_ns,
                last_report_ticks: 0,
            }),
    {
        CyclePacer {
            ticks,
            done: 0,
            interval_ns,
            last_tick_ns: now_ns,
            last_report_ns: now_ns,
            last_report_ticks: 0,
        }
    }

    /// The number of ticks performed so far.
    pub fn done(&self) -> (r: u64)
        ensures
            r == self@.done,
    {
        self.done
    }

    /// Whether every tick asked for has been performed.
    pub fn is_complete(&self) -> (r: bool)
        ensures
            r == self@.complete(),
    {
        self.done >= self.ticks
    }

    /// Decides what to do at time `now_ns`. A tick falls due once a full
    /// interval has passed since the last one, and is counted as performed;
    /// throughput is reported once a second has passed since the last report;
    /// the caller naps between polls when the interval exceeds 10 ms. A
    /// complete run does nothing.
    pub fn poll(&mut self, now_ns: u64) -> (r: PacerStep)
        ensures
            old(self)@.complete() ==> r == (PacerStep {
                tick: false,
                report: None,
                nap: false,
                finished: true,
            }) && final(self)@ == old(self)@,
            !old(self)@.complete() ==> {
                let s = old(self)@;
                let t = final(self)@;
                &&& r.tick == s.tick_due(now_ns)
                &&& r.report == if s.report_due(now_ns) {
                    Some((s.done - s.last_report_ticks) as u64)
                } else {
                    None
                }
                &&& r.nap == (s.interval_ns > NAP_THRESHOLD_NS)
                &&& r.finished == t.complete()
                &&& t.ticks == s.ticks
                &&& t.interval_ns == s.interval_ns
                &&& t.done == s.done + if r.tick {
                    1int
                } else {
                    0int
                }
                &&& t.last_tick_ns == if r.tick {
                    now_ns
                } else {
                    s.last_tick_ns
                }
                &&& t.last_report_ns == if s.report_due(now_ns) {
                    now_ns
                } else {
                    s.last_report_ns
                }
                &&& t.last_report_ticks == if s.report_due(now_ns) {
                    s.done
                } else {
                    s.last_report_ticks
                }
            },
            final(self)@.done <= final(self)@.ticks,
    {
        proof {
            use_type_invariant(&*self);
        }
        if self.done >= self.ticks {
            return PacerStep { tick: false, report: None, nap: false, finished: true };
        }
        let since_report: u64 = if now_ns >= self.last_report_ns {
            now_ns - self.last_report_ns
        } else {
            0
        };
        let report = if since_report >= REPORT_PERIOD_NS {
            let count = self.done - self.last_report_ticks;
            self.last_report_ns = now_ns;
            self.last_report_ticks = self.done;
            Some(count)
        } else {
            None
        };
        let since_tick: u64 = if now_ns >= self.last_tick_ns {
            now_ns - self.last_tick_ns
        } else {
            0
        };
        let tick = since_tick >= self.interval_ns;
        if tick {
            self.done = self.done + 1;
            self.last_tick_ns = now_ns;
        }
        PacerStep {
            tick,
            report,
            nap: self.interval_ns > NAP_THRESHOLD_NS,
            finished: self.done >= self.ticks,
        }
    }
}

} // verus!
