//! The scan-tick state machine: what one alarm firing does, in order, in
//! two phases. First (`begin_tick`), before any other work of the tick:
//! reschedule the alarm for one period after the deadline that fired and
//! count the watchdog feed — the handler programs the returned deadline
//! into the hardware and feeds the watchdog right then, so handler
//! execution time cannot delay either. Second (`process_grid`): debounce
//! the freshly read grid, advance the layout clock, apply the tick's
//! settled events in emission order, read the active keycodes, build the
//! report, and decide whether it is transmitted.
//!
//! Exactly one tick is processed per firing; ticks are never skipped or
//! coalesced. If the handler cannot keep up, watchdog expiry resets the
//! controller: that is the designed failure mode, not something to
//! suppress.

use vstd::prelude::*;
use crate::alarm::AlarmSchedule;
use crate::debounce::{deb_step, deb_step_events, ScanDebouncer};
use crate::events::KeyEvent;
use crate::grid::{empty_grid, KeyGrid};
use crate::layout::{layers_tame, layout_after_events, layout_after_tick, LayoutDriver};
use crate::report::{build_report, hid_report_of, HidReport};
use crate::usb::{may_transmit, transmit_gate, UsbLinkState};

verus! {

/// What the handler does with the tick's report.
#[derive(Clone, Copy, Debug, PartialEq, Eq, Structural)]
pub enum TickAction {
    /// Drive the bounded-retry transmission with the report built.
    Transmit,
    /// The host has not configured the device yet: no write this tick, no
    /// error; the next tick tries again.
    SkipNotConfigured,
    /// More than one settled event landed in this tick: every event is
    /// applied to the layout, but the report is not transmitted. This is
    /// the reference behaviour, kept as an explicit policy: at most one
    /// report is skipped per multi-event burst, and the next tick sends
    /// the rebuilt report.
    SkipMultiEvent,
}

/// Everything one tick hands back to the interrupt handler: the deadline to
/// program into the hardware alarm, the settled events in emission order,
/// the active keycodes read back, the report built from them, and whether
/// to transmit it.
pub struct TickOutcome {
    pub next_deadline: u64,
    pub events: Vec<KeyEvent>,
    pub keys: Vec<u8>,
    pub report: HidReport,
    pub action: TickAction,
}

/// The scan path's whole state: alarm schedule, watchdog feed count,
/// debounce adapter, layout driver, and the configured retry budget for
/// one tick's transmission.
pub struct ScanCore {
    pub alarm: AlarmSchedule,
    /// Watchdog feeds issued: exactly one per tick handled.
    pub feeds: u64,
    pub debouncer: ScanDebouncer,
    pub layout: LayoutDriver,
    /// Most write calls one tick's transmission may make.
    pub retry_budget: u32,
}

impl ScanCore {
    /// The core is well formed: the schedule is drift-free, the debounce
    /// counter is inside its window, the layout engine was built from a
    /// tame keymap, the watchdog has been fed exactly once per tick
    /// handled, and the retry budget allows at least one write.
    pub open spec fn wf(self) -> bool {
        &&& self.alarm.wf()
        &&& self.debouncer.wf()
        &&& self.layout.tame()
        &&& self.feeds == self.alarm.ticks
        &&& self.retry_budget >= 1
    }

    /// A fresh core, built once at startup: schedule begun at `start`,
    /// everything released, layout engine fresh on the given keymap.
    pub fn new(
        start: u64,
        period: u64,
        settle: u16,
        retry_budget: u32,
        layers: keyberon::layout::Layers,
    ) -> (c: ScanCore)
        requires
            period >= 1,
            start + period <= u64::MAX,
            settle < 0xFFFF,
            retry_budget >= 1,
            layers_tame(layers),
        ensures
            c.wf(),
            c.alarm.start == start,
            c.alarm.period == period,
            c.alarm.ticks == 0,
            c.feeds == 0,
            c.debouncer.model().settle == settle,
            c.debouncer.model().stable_for == 0,
            c.debouncer.model().settled == empty_grid(),
            c.debouncer.model().candidate == empty_grid(),
            c.layout.keys() == Seq::<u8>::empty(),
            c.layout.idle(),
            c.retry_budget == retry_budget,
    {
        ScanCore {
            alarm: AlarmSchedule::new(start, period),
            feeds: 0,
            debouncer: ScanDebouncer::new(settle),
            layout: LayoutDriver::new(layers),
            retry_budget,
        }
    }

    /// First phase of one alarm firing, done before any other work of the
    /// tick: advances the schedule one period past the deadline that just
    /// fired and counts the watchdog feed. The handler programs the
    /// returned deadline into the hardware alarm and feeds the watchdog
    /// now, so that handler execution time cannot delay either, then calls
    /// `process_grid` for the tick's work.
    pub fn begin_tick(&mut self) -> (deadline: u64)
        requires
            old(self).wf(),
            old(self).alarm.next_deadline + old(self).alarm.period <= u64::MAX,
        ensures
            final(self).wf(),
            final(self).alarm.start == old(self).alarm.start,
            final(self).alarm.period == old(self).alarm.period,
            final(self).alarm.ticks == old(self).alarm.ticks + 1,
            final(self).alarm.next_deadline == old(self).alarm.next_deadline + old(
                self,
            ).alarm.period,
            deadline == final(self).alarm.next_deadline,
            final(self).feeds == old(self).feeds + 1,
            final(self).debouncer == old(self).debouncer,
            final(self).layout == old(self).layout,
            final(self).retry_budget == old(self).retry_budget,
    {
        let deadline = self.alarm.rearm();
        proof {
            assert(self.feeds + 1 == self.alarm.ticks);
        }
        self.feeds = self.feeds + 1;
        deadline
    }

    /// Second phase of one alarm firing, with the grid the matrix read
    /// returned and the link state the USB device reports: debounce, layout
    /// tick, events in emission order, report, transmission decision. The
    /// schedule and the feed count are untouched: they belong to
    /// `begin_tick`.
    pub fn process_grid(&mut self, grid: &KeyGrid, link: UsbLinkState) -> (out: TickOutcome)
        requires
            old(self).wf(),
        ensures
            final(self).wf(),
            final(self).alarm == old(self).alarm,
            final(self).feeds == old(self).feeds,
            out.next_deadline == final(self).alarm.next_deadline,
            // the debounce engine takes exactly one step on this grid
            final(self).debouncer.model() == deb_step(old(self).debouncer.model(), grid@),
            out.events@ == deb_step_events(old(self).debouncer.model(), grid@),
            // a grid with no transitions produces no events, and then an
            // idle layout keeps its active keycodes through the tick
            grid@ == old(self).debouncer.model().settled ==> out.events@.len() == 0,
            out.events@.len() == 0 && old(self).layout.idle() ==> final(self).layout.keys() == old(
                self,
            ).layout.keys() && final(self).layout.idle(),
            // the layout engine advances by exactly one clock tick followed
            // by this tick's events, applied in emission order
            final(self).layout.inner == layout_after_events(
                layout_after_tick(old(self).layout.inner),
                deb_step_events(old(self).debouncer.model(), grid@),
            ),
            // the keycodes and the report are read back after the tick's
            // events, and the report is built from exactly those keycodes
            out.keys@ == final(self).layout.keys(),
            out.report.wf(),
            out.report@ == hid_report_of(final(self).layout.keys()),
            // the transmission decision
            !may_transmit(link) ==> out.action == TickAction::SkipNotConfigured,
            may_transmit(link) && out.events@.len() >= 2 ==> out.action
                == TickAction::SkipMultiEvent,
            may_transmit(link) && out.events@.len() <= 1 ==> out.action == TickAction::Transmit,
            final(self).retry_budget == old(self).retry_budget,
    {
        // one debounce step on the grid read this tick
        let events = self.debouncer.update(grid);
        // advance the layout clock unconditionally, then apply the tick's
        // events in emission order
        self.layout.advance_tick();
        let ghost pre = *self;
        let mut i: usize = 0;
        while i < events.len()
            invariant
                i <= events@.len(),
                self.alarm == pre.alarm,
                self.feeds == pre.feeds,
                self.debouncer == pre.debouncer,
                self.retry_budget == pre.retry_budget,
                self.layout.tame(),
                self.layout.inner == layout_after_events(pre.layout.inner, events@.take(i as int)),
            decreases events@.len() - i,
        {
            self.layout.apply_event(events[i]);
            proof {
                assert(events@.take(i + 1int).drop_last() =~= events@.take(i as int));
                assert(events@.take(i + 1int).last() == events@[i as int]);
            }
            i += 1;
        }
        proof {
            assert(events@.take(events@.len() as int) =~= events@);
        }
        // read back the resolved keycodes and build the tick's report
        let keys = self.layout.active_keycodes();
        let report = build_report(&keys);
        // decide transmission: enumeration gates it, and a multi-event
        // burst skips it by policy
        let action = if !transmit_gate(link) {
            TickAction::SkipNotConfigured
        } else if events.len() >= 2 {
            TickAction::SkipMultiEvent
        } else {
            TickAction::Transmit
        };
        let next_deadline = self.alarm.next_deadline;
        TickOutcome { next_deadline, events, keys, report, action }
    }

    /// One whole alarm firing in a single call: the first phase, then the
    /// tick's work. For a handler on real hardware the two phases are
    /// separate, so the returned deadline can be programmed and the
    /// watchdog fed before the heavy work; this fused form serves callers
    /// that do both afterwards.
    pub fn scan_tick(&mut self, grid: &KeyGrid, link: UsbLinkState) -> (out: TickOutcome)
        requires
            old(self).wf(),
            old(self).alarm.next_deadline + old(self).alarm.period <= u64::MAX,
        ensures
            final(self).wf(),
            // the schedule advances by exactly one tick, drift-free
            final(self).alarm.start == old(self).alarm.start,
            final(self).alarm.period == old(self).alarm.period,
            final(self).alarm.ticks == old(self).alarm.ticks + 1,
            final(self).alarm.next_deadline == old(self).alarm.next_deadline + old(
                self,
            ).alarm.period,
            out.next_deadline == final(self).alarm.next_deadline,
            // the watchdog is fed exactly once
            final(self).feeds == old(self).feeds + 1,
            // the debounce engine takes exactly one step on this grid
            final(self).debouncer.model() == deb_step(old(self).debouncer.model(), grid@),
            out.events@ == deb_step_events(old(self).debouncer.model(), grid@),
            // a grid with no transitions produces no events, and then an
            // idle layout keeps its active keycodes through the tick
            grid@ == old(self).debouncer.model().settled ==> out.events@.len() == 0,
            out.events@.len() == 0 && old(self).layout.idle() ==> final(self).layout.keys() == old(
                self,
            ).layout.keys() && final(self).layout.idle(),
            // the layout engine advances by exactly one clock tick followed
            // by this tick's events, applied in emission order
            final(self).layout.inner == layout_after_events(
                layout_after_tick(old(self).layout.inner),
                deb_step_events(old(self).debouncer.model(), grid@),
            ),
            // the keycodes and the report are read back after the tick's
            // events, and the report is built from exactly those keycodes
            out.keys@ == final(self).layout.keys(),
            out.report.wf(),
            out.report@ == hid_report_of(final(self).layout.keys()),
            // the transmission decision
            !may_transmit(link) ==> out.action == TickAction::SkipNotConfigured,
            may_transmit(link) && out.events@.len() >= 2 ==> out.action
                == TickAction::SkipMultiEvent,
            may_transmit(link) && out.events@.len() <= 1 ==> out.action == TickAction::Transmit,
            final(self).retry_budget == old(self).retry_budget,
    {
        let _deadline = self.begin_tick();
        self.process_grid(grid, link)
    }
}

/// Over any run of consecutive ticks the watchdog has been fed exactly
/// once per alarm firing handled, and the deadline armed after tick `k` is
/// exactly `start + (k + 1) * period`: no drift accumulates.
pub proof fn lemma_feed_count_and_no_drift(c: ScanCore)
    requires
        c.wf(),
    ensures
        c.feeds == c.alarm.ticks,
        c.alarm.next_deadline == c.alarm.start + (c.alarm.ticks + 1) * c.alarm.period,
{
}

} // verus!
