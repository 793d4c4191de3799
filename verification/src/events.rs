//! Debounced key events: a settled press or release at one matrix position,
//! and the specification of which events a change of settled grid state
//! produces (row-major order, one event per cell whose state flipped).

use vstd::prelude::*;

verus! {

/// Direction of a settled key transition.
#[derive(Clone, Copy, Debug, PartialEq, Eq, Structural)]
pub enum KeyDirection {
    Press,
    Release,
}

/// A debounced key event: one settled transition at a matrix position.
#[derive(Clone, Copy, Debug, PartialEq, Eq, Structural)]
pub struct KeyEvent {
    pub row: u8,
    pub col: u8,
    pub dir: KeyDirection,
}

/// Events produced by one row from column `j` on: a press where the settled
/// state went false -> true, a release where it went true -> false, in
/// column order.
pub open spec fn row_diff_from(o: Seq<bool>, n: Seq<bool>, r: u8, j: int) -> Seq<KeyEvent>
    decreases n.len() - j,
{
    if j < 0 || j >= n.len() || n.len() != o.len() {
        Seq::empty()
    } else {
        let rest = row_diff_from(o, n, r, j + 1);
        if !o[j] && n[j] {
            seq![KeyEvent { row: r, col: j as u8, dir: KeyDirection::Press }] + rest
        } else if o[j] && !n[j] {
            seq![KeyEvent { row: r, col: j as u8, dir: KeyDirection::Release }] + rest
        } else {
            rest
        }
    }
}

/// Events produced by the settled grid changing from `o` to `n`, from row `i`
/// on: rows in order, and within a row columns in order.
pub open spec fn grid_diff_from(o: Seq<Seq<bool>>, n: Seq<Seq<bool>>, i: int) -> Seq<KeyEvent>
    decreases n.len() - i,
{
    if i < 0 || i >= n.len() || n.len() != o.len() {
        Seq::empty()
    } else {
        row_diff_from(o[i], n[i], i as u8, 0) + grid_diff_from(o, n, i + 1)
    }
}

/// All events produced by the settled grid changing from `o` to `n`, in
/// row-major order.
pub open spec fn grid_diff(o: Seq<Seq<bool>>, n: Seq<Seq<bool>>) -> Seq<KeyEvent> {
    grid_diff_from(o, n, 0)
}

} // verus!
