//! The matrix/debounce adapter: once per tick the raw grid is handed to the
//! external debounce engine, which validates a state change only after the
//! new state has been seen unchanged for a configured number of updates, and
//! then emits the settled press/release events in row-major order.
//!
//! The engine itself is `keyberon::debounce::Debouncer`; its abstract state
//! and its step behaviour are stated here exactly, and everything downstream
//! is verified against that statement.

use vstd::prelude::*;
use crate::events::{grid_diff, KeyEvent};
use crate::grid::{empty_grid, KeyGrid};

verus! {

/// The abstract state of the debounce engine: the settled grid, the
/// candidate grid last seen, how many consecutive updates the candidate has
/// been stable for, and the configured settle window.
pub ghost struct DebModel {
    pub settled: Seq<Seq<bool>>,
    pub candidate: Seq<Seq<bool>>,
    pub stable_for: u16,
    pub settle: u16,
}

/// One debounce update on abstract state `m` with fresh grid `g`: the state
/// afterwards. A grid equal to the settled state resets the stability
/// counter; a grid differing from the candidate restarts it at one; a grid
/// equal to the candidate advances it, and once it exceeds the settle window
/// the candidate becomes the settled state (the old settled grid is kept as
/// the new candidate) and the counter restarts.
pub open spec fn deb_step(m: DebModel, g: Seq<Seq<bool>>) -> DebModel {
    if g == m.settled {
        DebModel { stable_for: 0, ..m }
    } else {
        let count: u16 = if g != m.candidate { 1u16 } else { (m.stable_for + 1) as u16 };
        if count > m.settle {
            DebModel { settled: g, candidate: m.settled, stable_for: 0, ..m }
        } else {
            DebModel { candidate: g, stable_for: count, ..m }
        }
    }
}

/// The events one debounce update emits: empty until the settle window
/// elapses, then the row-major diff between the old and the new settled
/// grids.
pub open spec fn deb_step_events(m: DebModel, g: Seq<Seq<bool>>) -> Seq<KeyEvent> {
    if g == m.settled {
        Seq::empty()
    } else {
        let count: u16 = if g != m.candidate { 1u16 } else { (m.stable_for + 1) as u16 };
        if count > m.settle {
            grid_diff(m.settled, g)
        } else {
            Seq::empty()
        }
    }
}

/// A grid with no transitions against the settled state produces no
/// events, and leaves the settled and candidate grids as they were.
pub proof fn lemma_no_transition_no_events(m: DebModel, g: Seq<Seq<bool>>)
    requires
        g == m.settled,
    ensures
        deb_step_events(m, g) == Seq::<KeyEvent>::empty(),
        deb_step(m, g).settled == m.settled,
        deb_step(m, g).candidate == m.candidate,
{
}

/// The abstract state of a debounce engine value. Named only: the trusted
/// wrappers below say how each call relates it to `deb_step`.
pub uninterp spec fn deb_state(d: keyberon::debounce::Debouncer<[[bool; 7]; 5]>) -> DebModel;

/// Declares keyberon::debounce::Debouncer, the external debounce engine,
/// as an opaque type: its state is reached only through `deb_state`.
#[verifier::external_type_specification]
#[verifier::external_body]
#[verifier::reject_recursive_types(T)]
pub struct ExDebouncer<T>(keyberon::debounce::Debouncer<T>);

/// Relies on keyberon::debounce::Debouncer::new: both grids are the initial
/// settled and candidate state (here: everything released) and the counter
/// starts at zero.
#[verifier::external_body]
fn deb_make(settle: u16) -> (d: keyberon::debounce::Debouncer<[[bool; 7]; 5]>)
    ensures
        deb_state(d) == (DebModel {
            settled: empty_grid(),
            candidate: empty_grid(),
            stable_for: 0,
            settle: settle,
        }),
{
    keyberon::debounce::Debouncer::new([[false; 7]; 5], [[false; 7]; 5], settle)
}

/// Relies on keyberon::debounce::Debouncer::events: one update step on the
/// engine's state, emitting the row-major settled-transition events exactly
/// when the stability counter passes the settle window.
#[verifier::external_body]
fn deb_events(
    d: &mut keyberon::debounce::Debouncer<[[bool; 7]; 5]>,
    g: [[bool; 7]; 5],
) -> (evs: Vec<KeyEvent>)
    requires
        deb_state(*old(d)).stable_for < 0xFFFF,
    ensures
        deb_state(*final(d)) == deb_step(deb_state(*old(d)), g.deep_view()),
        evs@ == deb_step_events(deb_state(*old(d)), g.deep_view()),
{
    d.events(g)
        .map(|e| match e {
            keyberon::layout::Event::Press(r, c) => KeyEvent {
                row: r,
                col: c,
                dir: crate::events::KeyDirection::Press,
            },
            keyberon::layout::Event::Release(r, c) => KeyEvent {
                row: r,
                col: c,
                dir: crate::events::KeyDirection::Release,
            },
        })
        .collect()
}

/// The debounce adapter the scan path owns: the external engine plus the
/// invariant that its stability counter never outruns its settle window.
pub struct ScanDebouncer {
    pub inner: keyberon::debounce::Debouncer<[[bool; 7]; 5]>,
}

impl ScanDebouncer {
    /// The abstract state of the engine held.
    pub open spec fn model(self) -> DebModel {
        deb_state(self.inner)
    }

    /// The stability counter stays within the settle window, and the window
    /// leaves the counter room to advance.
    pub open spec fn wf(self) -> bool {
        self.model().stable_for <= self.model().settle && self.model().settle < 0xFFFF
    }

    /// A fresh adapter: everything released, counter at zero.
    pub fn new(settle: u16) -> (s: ScanDebouncer)
        requires
            settle < 0xFFFF,
        ensures
            s.wf(),
            s.model() == (DebModel {
                settled: empty_grid(),
                candidate: empty_grid(),
                stable_for: 0,
                settle: settle,
            }),
    {
        ScanDebouncer { inner: deb_make(settle) }
    }

    /// One update with the grid read this tick: steps the engine and returns
    /// the settled events it emitted, in row-major order.
    pub fn update(&mut self, g: &KeyGrid) -> (evs: Vec<KeyEvent>)
        requires
            old(self).wf(),
        ensures
            final(self).wf(),
            final(self).model() == deb_step(old(self).model(), g@),
            evs@ == deb_step_events(old(self).model(), g@),
            final(self).model().settle == old(self).model().settle,
    {
        let evs = deb_events(&mut self.inner, g.cells);
        evs
    }
}

} // verus!
