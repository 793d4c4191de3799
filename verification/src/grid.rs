//! The raw key grid: one instant of un-debounced switch state, read fresh
//! from the matrix each scan tick. Fixed size: `ROWS` rows of `COLS` columns.

use vstd::prelude::*;

verus! {

/// Number of rows the key matrix drives.
pub const ROWS: usize = 5;

/// Number of columns the key matrix senses.
pub const COLS: usize = 7;

/// Raw switch state of the whole matrix at one instant. Produced fresh each
/// tick; has no persistent identity.
#[derive(Clone, Copy, Debug)]
pub struct KeyGrid {
    pub cells: [[bool; 7]; 5],
}

impl View for KeyGrid {
    type V = Seq<Seq<bool>>;

    open spec fn view(&self) -> Seq<Seq<bool>> {
        self.cells.deep_view()
    }
}

/// The all-released grid as a mathematical value.
pub open spec fn empty_grid() -> Seq<Seq<bool>> {
    Seq::new(5, |i: int| Seq::new(7, |j: int| false))
}

impl KeyGrid {
    /// A grid with every switch released.
    pub fn new() -> (g: KeyGrid)
        ensures
            g@ == empty_grid(),
    {
        let g = KeyGrid { cells: [[false; 7]; 5] };
        proof {
            assert(g@ =~~= empty_grid());
        }
        g
    }

    /// Reads one cell.
    pub fn get(&self, row: usize, col: usize) -> (b: bool)
        requires
            row < 5,
            col < 7,
        ensures
            b == self@[row as int][col as int],
    {
        self.cells[row][col]
    }

    /// Sets one cell, leaving every other cell as it was.
    pub fn set(&mut self, row: usize, col: usize, pressed: bool)
        requires
            row < 5,
            col < 7,
        ensures
            final(self)@ == old(self)@.update(
                row as int,
                old(self)@[row as int].update(col as int, pressed),
            ),
    {
        let mut r: [bool; 7] = self.cells[row];
        r[col] = pressed;
        self.cells[row] = r;
        proof {
            assert(self@ =~~= old(self)@.update(
                row as int,
                old(self)@[row as int].update(col as int, pressed),
            ));
        }
    }

    /// Whether any switch is currently pressed: the input of the cosmetic
    /// indicator pulse, kept out of the scan/report critical path.
    pub fn any_pressed(&self) -> (b: bool)
        ensures
            b == exists|i: int, j: int| 0 <= i < 5 && 0 <= j < 7 && self@[i][j],
    {
        let mut i: usize = 0;
        while i < 5
            invariant
                i <= 5,
                forall|r: int, c: int| 0 <= r < i && 0 <= c < 7 ==> !self@[r][c],
            decreases 5 - i,
        {
            let mut j: usize = 0;
            while j < 7
                invariant
                    i < 5,
                    j <= 7,
                    forall|r: int, c: int| 0 <= r < i && 0 <= c < 7 ==> !self@[r][c],
                    forall|c: int| 0 <= c < j ==> !self@[i as int][c],
                decreases 7 - j,
            {
                if self.cells[i][j] {
                    proof {
                        assert(self@[i as int][j as int]);
                    }
                    return true;
                }
                j += 1;
            }
            i += 1;
        }
        false
    }
}

} // verus!
