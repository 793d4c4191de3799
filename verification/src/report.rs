//! The HID keyboard report: the fixed eight-byte boot-keyboard payload,
//! rebuilt from scratch every tick from the active keycode set. Byte 0 is
//! the modifier bitmask, byte 1 is reserved, bytes 2..8 hold up to six
//! simultaneous keycodes; when a seventh arrives the key bytes are all set
//! to the roll-over error code.

use vstd::prelude::*;

verus! {

/// Lowest keycode reported in the modifier bitmask.
pub const MOD_FIRST: u8 = 0xE0;

/// Highest keycode reported in the modifier bitmask.
pub const MOD_LAST: u8 = 0xE7;

/// The roll-over error code the key bytes are filled with when more than
/// six non-modifier keys are active.
pub const ROLL_OVER: u8 = 1;

/// The report with no key pressed.
pub open spec fn empty_report() -> Seq<u8> {
    Seq::new(8, |k: int| 0u8)
}

/// The key bytes (2..8) all set to `v`, the rest kept.
pub open spec fn fill_keys_spec(b: Seq<u8>, v: u8) -> Seq<u8> {
    Seq::new(8, |k: int| if k < 2 { b[k] } else { v })
}

/// Index of the first free key byte at or after `i`, or 8 if none is free.
pub open spec fn first_free(b: Seq<u8>, i: int) -> int
    decreases 8 - i,
{
    if i < 2 || i >= 8 {
        8
    } else if b[i] == 0 {
        i
    } else {
        first_free(b, i + 1)
    }
}

/// One keycode added to report bytes `b`: keycode 0 changes nothing; the
/// error codes 1..=3 fill the key bytes with themselves; a modifier keycode
/// sets its bit in byte 0; any other keycode takes the first free key byte,
/// or, with none free, fills the key bytes with the roll-over error code.
pub open spec fn hid_press(b: Seq<u8>, v: u8) -> Seq<u8> {
    if v == 0 {
        b
    } else if v <= 3 {
        fill_keys_spec(b, v)
    } else if MOD_FIRST <= v && v <= MOD_LAST {
        b.update(0, b[0] | (1u8 << (v - MOD_FIRST)))
    } else {
        let i = first_free(b, 2);
        if i < 8 {
            b.update(i, v)
        } else {
            fill_keys_spec(b, ROLL_OVER)
        }
    }
}

/// The report built from the empty report by adding each keycode of `keys`
/// in order.
pub open spec fn hid_report_of(keys: Seq<u8>) -> Seq<u8>
    decreases keys.len(),
{
    if keys.len() == 0 {
        empty_report()
    } else {
        hid_press(hid_report_of(keys.drop_last()), keys.last())
    }
}

/// A fixed-size HID boot-keyboard report under construction.
#[derive(Debug)]
pub struct HidReport {
    pub bytes: Vec<u8>,
}

impl View for HidReport {
    type V = Seq<u8>;

    open spec fn view(&self) -> Seq<u8> {
        self.bytes@
    }
}

impl HidReport {
    /// A report is always exactly eight bytes.
    pub open spec fn wf(self) -> bool {
        self.bytes@.len() == 8
    }

    /// The report with no key pressed.
    pub fn new() -> (r: HidReport)
        ensures
            r.wf(),
            r@ == empty_report(),
    {
        let mut bytes: Vec<u8> = Vec::new();
        let mut k: usize = 0;
        while k < 8
            invariant
                k <= 8,
                bytes@.len() == k,
                forall|j: int| 0 <= j < k ==> bytes@[j] == 0u8,
            decreases 8 - k,
        {
            bytes.push(0);
            k += 1;
        }
        let r = HidReport { bytes };
        proof {
            assert(r@ =~= empty_report());
        }
        r
    }

    /// Reads one byte of the report.
    pub fn byte(&self, i: usize) -> (b: u8)
        requires
            self.wf(),
            i < 8,
        ensures
            b == self@[i as int],
    {
        self.bytes[i]
    }

    /// Sets the six key bytes to `v`, keeping the modifier and reserved
    /// bytes.
    fn fill_keys(&mut self, v: u8)
        requires
            old(self).wf(),
        ensures
            final(self).wf(),
            final(self)@ == fill_keys_spec(old(self)@, v),
    {
        let mut j: usize = 2;
        while j < 8
            invariant
                2 <= j <= 8,
                self.bytes@.len() == 8,
                forall|k: int| 0 <= k < 2 ==> self.bytes@[k] == old(self)@[k],
                forall|k: int| 2 <= k < j ==> self.bytes@[k] == v,
                forall|k: int| j <= k < 8 ==> self.bytes@[k] == old(self)@[k],
            decreases 8 - j,
        {
            self.bytes[j] = v;
            j += 1;
        }
        proof {
            assert(self@ =~= fill_keys_spec(old(self)@, v));
        }
    }

    /// Adds one keycode to the report, as `hid_press` says.
    pub fn pressed(&mut self, v: u8)
        requires
            old(self).wf(),
        ensures
            final(self).wf(),
            final(self)@ == hid_press(old(self)@, v),
    {
        if v == 0 {
        } else if v <= 3 {
            self.fill_keys(v);
        } else if MOD_FIRST <= v && v <= MOD_LAST {
            let b0 = self.bytes[0];
            self.bytes[0] = b0 | (1u8 << (v - MOD_FIRST));
        } else {
            let mut i: usize = 2;
            let mut placed = false;
            while i < 8 && !placed
                invariant
                    2 <= i <= 8,
                    self.bytes@.len() == 8,
                    !placed ==> self.bytes@ == old(self)@,
                    !placed ==> first_free(old(self)@, 2) == first_free(old(self)@, i as int),
                    placed ==> first_free(old(self)@, 2) < 8 && self.bytes@ == old(self)@.update(
                        first_free(old(self)@, 2),
                        v,
                    ),
                decreases 8 - i,
            {
                if self.bytes[i] == 0 {
                    self.bytes[i] = v;
                    placed = true;
                }
                i += 1;
            }
            if !placed {
                self.fill_keys(ROLL_OVER);
            }
        }
    }
}

/// Builds the report for one tick: the empty report with each active
/// keycode added in the order the layout engine yields them.
pub fn build_report(keys: &Vec<u8>) -> (r: HidReport)
    ensures
        r.wf(),
        r@ == hid_report_of(keys@),
{
    let mut r = HidReport::new();
    let mut i: usize = 0;
    while i < keys.len()
        invariant
            i <= keys@.len(),
            r.wf(),
            r@ == hid_report_of(keys@.take(i as int)),
        decreases keys@.len() - i,
    {
        r.pressed(keys[i]);
        proof {
            assert(keys@.take(i + 1int).drop_last() =~= keys@.take(i as int));
            assert(keys@.take(i + 1int).last() == keys@[i as int]);
        }
        i += 1;
    }
    proof {
        assert(keys@.take(keys@.len() as int) =~= keys@);
    }
    r
}

} // verus!
