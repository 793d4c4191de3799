//! The shared-resource guard: a priority-ceiling mutual-exclusion cell
//! around one piece of cross-handler state (the USB device object, the USB
//! class object, the layout state). A handler takes the value out for its
//! critical section and puts it back when done; while it is out, no other
//! acquisition can happen. Each guard carries its priority ceiling: the
//! highest priority of any handler that may acquire it, and the effective
//! priority a holder runs at, which bounds priority inversion by
//! construction.

use vstd::prelude::*;

verus! {

/// A guard around one `T`, acquired by both interrupt paths. The hold time
/// is bounded by the critical section that acquires it: no acquirer may
/// block or spin indefinitely before releasing.
pub struct SharedGuard<T> {
    pub slot: Option<T>,
    pub ceiling: u8,
}

impl<T> SharedGuard<T> {
    /// The guard is free: its value is in place and may be acquired.
    pub open spec fn available(self) -> bool {
        self.slot is Some
    }

    /// The protected value, when the guard is free.
    pub open spec fn value(self) -> T
        recommends
            self.available(),
    {
        self.slot->0
    }

    /// Whether a handler of the given priority may acquire this guard: the
    /// ceiling is the highest priority of any handler sharing it.
    pub open spec fn admits(self, prio: u8) -> bool {
        prio <= self.ceiling
    }

    /// A free guard around `v` with the given priority ceiling.
    pub fn new(v: T, ceiling: u8) -> (g: SharedGuard<T>)
        ensures
            g.available(),
            g.value() == v,
            g.ceiling == ceiling,
    {
        SharedGuard { slot: Some(v), ceiling }
    }

    /// Begins a critical section: takes the protected value out. Requires
    /// the guard to be free — the second of two contending handlers cannot
    /// acquire until the first has released — and the acquirer's priority
    /// to be within the ceiling. Returns the value and the effective
    /// priority the holder runs at, which is the ceiling.
    pub fn acquire(&mut self, prio: u8) -> (r: (T, u8))
        requires
            old(self).available(),
            old(self).admits(prio),
        ensures
            !final(self).available(),
            final(self).ceiling == old(self).ceiling,
            r.0 == old(self).value(),
            r.1 == old(self).ceiling,
            r.1 >= prio,
    {
        let v = self.slot.take();
        match v {
            Option::Some(inner) => (inner, self.ceiling),
            Option::None => unreached(),
        }
    }

    /// Ends the critical section: puts the value back, leaving the guard
    /// free for the other handler.
    pub fn release(&mut self, v: T)
        requires
            !old(self).available(),
        ensures
            final(self).available(),
            final(self).value() == v,
            final(self).ceiling == old(self).ceiling,
    {
        self.slot = Some(v);
    }
}

} // verus!
