//! The layout driver: feeds settled key events into the external layout
//! engine, advances the engine's internal clock once per tick, and reads
//! back the set of active keycodes.
//!
//! The engine is `keyberon::layout::Layout`. Its layer/tap-hold evaluation
//! is its own business; what is stated here is only what the scan path
//! relies on: reading the keycodes is pure, a fresh engine is empty and
//! idle, and a clock tick of an idle engine (nothing queued, no tap-hold
//! decision pending) leaves the active keycodes unchanged.

use vstd::prelude::*;
use crate::events::{KeyDirection, KeyEvent};

verus! {

/// Declares keyberon::layout::Layout, the external layout engine, as an
/// opaque type: its state is reached only through the names and wrappers
/// below.
#[verifier::external_type_specification]
#[verifier::external_body]
pub struct ExLayout(keyberon::layout::Layout);

/// Declares keyberon::action::Action, the engine's keymap entry type, so
/// that a keymap (`keyberon::layout::Layers`) can stand in signatures.
#[verifier::external_type_specification]
#[verifier::external_body]
pub struct ExAction(keyberon::action::Action);

/// Whether a keymap is tame: no tap-hold action nested inside a
/// multiple-actions entry — the engine's action application asserts that no
/// tap-hold decision is pending, so pressing such an entry panics — and
/// layer values small enough that no sum of simultaneously active layer
/// modifiers can overflow. Named only; the stepping wrappers below require
/// an engine built from such a keymap, so the assumption is stated where it
/// is used instead of being silently admitted.
pub uninterp spec fn layers_tame(layers: keyberon::layout::Layers) -> bool;

/// Whether a layout engine value was built from a tame keymap, so that no
/// clock tick and no event application can panic inside the engine.
pub uninterp spec fn layout_tame(l: keyberon::layout::Layout) -> bool;

/// The active keycodes of a layout engine value, in the engine's own
/// iteration order, each as its HID keycode byte.
pub uninterp spec fn layout_keys(l: keyberon::layout::Layout) -> Seq<u8>;

/// Whether a layout engine value is idle: no queued events waiting to be
/// applied and no tap-hold decision pending, so a clock tick changes
/// nothing.
pub uninterp spec fn layout_idle(l: keyberon::layout::Layout) -> bool;

/// The engine state one clock tick leaves behind: a function of the state
/// alone.
pub uninterp spec fn layout_after_tick(l: keyberon::layout::Layout) -> keyberon::layout::Layout;

/// The engine state applying one settled transition leaves behind: a
/// function of the state and the event alone.
pub uninterp spec fn layout_after_event(
    l: keyberon::layout::Layout,
    row: u8,
    col: u8,
    press: bool,
) -> keyberon::layout::Layout;

/// The engine state after a whole sequence of settled transitions, applied
/// in order.
pub open spec fn layout_after_events(
    l: keyberon::layout::Layout,
    evs: Seq<KeyEvent>,
) -> keyberon::layout::Layout
    decreases evs.len(),
{
    if evs.len() == 0 {
        l
    } else {
        layout_after_event(
            layout_after_events(l, evs.drop_last()),
            evs.last().row,
            evs.last().col,
            evs.last().dir is Press,
        )
    }
}

/// Relies on keyberon::layout::Layout::new: a fresh engine holds no active
/// key, has nothing queued and nothing pending, and is tame exactly when
/// the keymap it keeps is.
#[verifier::external_body]
fn layout_make(layers: keyberon::layout::Layers) -> (l: keyberon::layout::Layout)
    ensures
        layout_keys(l) == Seq::<u8>::empty(),
        layout_idle(l),
        layout_tame(l) == layers_tame(layers),
{
    keyberon::layout::Layout::new(layers)
}

/// Relies on keyberon::layout::Layout::tick: deterministic in the engine
/// state; on an idle engine it filters the key states through an identity
/// map and pops nothing, so the active keycodes and the idleness are
/// unchanged. On an engine built from a keymap that is not tame the tick
/// can assert inside the engine (a queued press resolving into a tap-hold
/// nested in a multiple-actions entry), so tameness is required, and the
/// keymap held never changes, so it is preserved.
#[verifier::external_body]
fn layout_tick(l: &mut keyberon::layout::Layout)
    requires
        layout_tame(*old(l)),
    ensures
        layout_tame(*final(l)),
        *final(l) == layout_after_tick(*old(l)),
        layout_idle(*old(l)) ==> layout_keys(*final(l)) == layout_keys(*old(l)),
        layout_idle(*old(l)) ==> layout_idle(*final(l)),
{
    let _ = l.tick();
}

/// Relies on keyberon::layout::Layout::event: hands one settled transition
/// to the engine, which queues it and applies it on a following clock tick,
/// deterministically in the state and the event. Which keycodes an event
/// activates is the engine's layer and tap-hold evaluation, so nothing more
/// is stated of the state it leaves. The engine can assert internally when
/// an event from a keymap that is not tame is applied (queue-overflow
/// unstacking, tap resolution), so tameness is required, and preserved.
#[verifier::external_body]
fn layout_event(l: &mut keyberon::layout::Layout, e: KeyEvent)
    requires
        layout_tame(*old(l)),
    ensures
        layout_tame(*final(l)),
        *final(l) == layout_after_event(*old(l), e.row, e.col, e.dir is Press),
{
    let ev = match e.dir {
        KeyDirection::Press => keyberon::layout::Event::Press(e.row, e.col),
        KeyDirection::Release => keyberon::layout::Event::Release(e.row, e.col),
    };
    let _ = l.event(ev);
}

/// Relies on keyberon::layout::Layout::keycodes: a pure read of the active
/// keycodes through a shared borrow, each converted to its HID byte.
#[verifier::external_body]
fn layout_keys_read(l: &keyberon::layout::Layout) -> (ks: Vec<u8>)
    ensures
        ks@ == layout_keys(*l),
{
    l.keycodes().map(|k| k as u8).collect()
}

/// The layout driver the scan path owns: the external engine, mutated only
/// under the layout guard and only by the scan-tick handler.
pub struct LayoutDriver {
    pub inner: keyberon::layout::Layout,
}

impl LayoutDriver {
    /// The active keycodes of the engine held, in engine order.
    pub open spec fn keys(self) -> Seq<u8> {
        layout_keys(self.inner)
    }

    /// Whether the engine held is idle (nothing queued, nothing pending).
    pub open spec fn idle(self) -> bool {
        layout_idle(self.inner)
    }

    /// Whether the engine held was built from a tame keymap: the driver's
    /// standing assumption, established at construction and preserved by
    /// every step.
    pub open spec fn tame(self) -> bool {
        layout_tame(self.inner)
    }

    /// A driver over a fresh engine built from the given static keymap,
    /// which must be tame: the engine cannot be driven safely otherwise.
    pub fn new(layers: keyberon::layout::Layers) -> (d: LayoutDriver)
        requires
            layers_tame(layers),
        ensures
            d.tame(),
            d.keys() == Seq::<u8>::empty(),
            d.idle(),
    {
        LayoutDriver { inner: layout_make(layers) }
    }

    /// Advances the engine's internal clock by one tick. Driving tap-hold
    /// timeouts and timed layer behaviour is the engine's business; what is
    /// known is that the step is deterministic and that an idle engine is
    /// left unchanged.
    pub fn advance_tick(&mut self)
        requires
            old(self).tame(),
        ensures
            final(self).tame(),
            final(self).inner == layout_after_tick(old(self).inner),
            old(self).idle() ==> final(self).keys() == old(self).keys(),
            old(self).idle() ==> final(self).idle(),
    {
        layout_tick(&mut self.inner);
    }

    /// Applies one settled key event to the engine.
    pub fn apply_event(&mut self, e: KeyEvent)
        requires
            old(self).tame(),
        ensures
            final(self).tame(),
            final(self).inner == layout_after_event(old(self).inner, e.row, e.col, e.dir is Press),
    {
        layout_event(&mut self.inner, e);
    }

    /// Reads the resolved active keycode set, in engine order. A pure read:
    /// two reads without an intervening `advance_tick` or `apply_event`
    /// return the same keycodes.
    pub fn active_keycodes(&self) -> (ks: Vec<u8>)
        ensures
            ks@ == self.keys(),
    {
        layout_keys_read(&self.inner)
    }
}

/// Reading the active keycodes is idempotent: any two reads of one engine
/// state return the same keycodes.
pub proof fn lemma_active_keycodes_idempotent(d: LayoutDriver, a: Seq<u8>, b: Seq<u8>)
    requires
        a == d.keys(),
        b == d.keys(),
    ensures
        a == b,
{
}

} // verus!
