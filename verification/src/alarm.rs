//! The scan alarm schedule: the hardware one-shot timer is reprogrammed on
//! every firing, and the next deadline is always one period after the
//! previous scheduled deadline — never measured from the end of processing,
//! so handler execution time cannot accumulate into drift.

use vstd::prelude::*;

verus! {

/// The alarm's schedule as the scan path maintains it: the instant the
/// schedule began, the fixed period, how many firings have been handled,
/// and the deadline armed for the next firing.
#[derive(Clone, Copy, Debug, PartialEq, Eq, Structural)]
pub struct AlarmSchedule {
    /// The instant (in timer counts) the first period began.
    pub start: u64,
    /// The fixed period, in timer counts.
    pub period: u64,
    /// Firings handled so far.
    pub ticks: u64,
    /// The deadline the hardware alarm is armed for.
    pub next_deadline: u64,
}

impl AlarmSchedule {
    /// The schedule is drift-free: after `ticks` firings the armed deadline
    /// is exactly `start + (ticks + 1) * period`.
    pub open spec fn wf(self) -> bool {
        &&& self.period >= 1
        &&& self.next_deadline == self.start + (self.ticks + 1) * self.period
    }

    /// A fresh schedule: the first firing is armed one period after
    /// `start`.
    pub fn new(start: u64, period: u64) -> (a: AlarmSchedule)
        requires
            period >= 1,
            start + period <= u64::MAX,
        ensures
            a.wf(),
            a.start == start,
            a.period == period,
            a.ticks == 0,
            a.next_deadline == start + period,
    {
        proof {
            assert(1 * (period as int) == period as int) by (nonlinear_arith);
        }
        AlarmSchedule { start, period, ticks: 0, next_deadline: start + period }
    }

    /// Handles one firing: reschedules the alarm for one period after the
    /// deadline that just fired, before any other work of the tick, and
    /// counts the tick. The new deadline to program into the hardware is
    /// returned.
    pub fn rearm(&mut self) -> (deadline: u64)
        requires
            old(self).wf(),
            old(self).next_deadline + old(self).period <= u64::MAX,
        ensures
            final(self).wf(),
            final(self).start == old(self).start,
            final(self).period == old(self).period,
            final(self).ticks == old(self).ticks + 1,
            final(self).next_deadline == old(self).next_deadline + old(self).period,
            deadline == final(self).next_deadline,
    {
        proof {
            let t = old(self).ticks as int;
            let p = old(self).period as int;
            assert((t + 2) * p == (t + 1) * p + p) by (nonlinear_arith);
            assert(t >= 0 && p >= 1 ==> t + 2 <= (t + 2) * p) by (nonlinear_arith);
        }
        self.next_deadline = self.next_deadline + self.period;
        self.ticks = self.ticks + 1;
        self.next_deadline
    }
}

/// No drift accumulates: in any well-formed schedule the deadline armed
/// after tick `k` is exactly `start + (k + 1) * period`, however long each
/// handler ran.
pub proof fn lemma_alarm_no_drift(a: AlarmSchedule)
    requires
        a.wf(),
    ensures
        a.next_deadline == a.start + (a.ticks + 1) * a.period,
{
}

} // verus!
