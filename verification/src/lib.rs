//! Runtime core of a keyboard-controller firmware: the scan-tick pipeline
//! (alarm rearm, watchdog feed, matrix read, debounce, layout tick, report
//! assembly, bounded-retry transmission) and the USB control path, with the
//! shared-resource guard that serializes the two interrupt handlers.

use vstd::prelude::*;

pub mod alarm;
pub mod debounce;
pub mod events;
pub mod grid;
pub mod guard;
pub mod layout;
pub mod report;
pub mod scan;
pub mod usb;

verus! {

/// Color ramp for the status LED: maps a position on a 256-step wheel to an
/// (r, g, b) triple, moving red -> green -> blue -> red.
pub open spec fn wheel_spec(pos: u8) -> (u8, u8, u8) {
    let w = (255 - pos) as u8;
    if w < 85 {
        ((255 - 3 * w) as u8, 0u8, (3 * w) as u8)
    } else if w < 170 {
        (0u8, (3 * (w - 85)) as u8, (255 - 3 * (w - 85)) as u8)
    } else {
        ((3 * (w - 170)) as u8, (255 - 3 * (w - 170)) as u8, 0u8)
    }
}

/// Convert a number from `0..=255` to an RGB color triplet.
///
/// The colours are a transition from red, to green, to blue and back to red.
pub fn wheel(wheel_pos: u8) -> (rgb: (u8, u8, u8))
    ensures
        rgb == wheel_spec(wheel_pos),
{
    let w: u8 = 255 - wheel_pos;
    if w < 85 {
        (255 - w * 3, 0, w * 3)
    } else if w < 170 {
        let x: u8 = w - 85;
        (0, x * 3, 255 - x * 3)
    } else {
        let x: u8 = w - 170;
        (x * 3, 255 - x * 3, 0)
    }
}

} // verus!
