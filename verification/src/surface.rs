//! The display surface: the fixed grid of cells the text-mode device
//! renders. Every access goes through a volatile read or write, so no
//! store into the grid can be elided or reordered by an optimizer.

use vstd::prelude::*;

use volatile::Volatile;

use crate::cell::ScreenChar;

verus! {

/// Number of rows of the display surface.
pub const BUFFER_HEIGHT: usize = 25;

/// Number of columns of the display surface.
pub const BUFFER_WIDTH: usize = 80;

/// The grid of `BUFFER_HEIGHT` by `BUFFER_WIDTH` cells that the device
/// renders. The cells sit behind `volatile::Volatile`, whose reads and
/// writes are guaranteed device-visible; the struct is therefore opaque
/// to the verifier and its contents are tracked through `buffer_cells`.
/// The type is not `Clone`, so exactly one live handle to a surface
/// exists at a time.
#[verifier::external_body]
pub struct Buffer {
    chars: [[Volatile<ScreenChar>; BUFFER_WIDTH]; BUFFER_HEIGHT],
}

/// The cells a surface holds, row by row: `buffer_cells(b)[r][c]` is
/// the cell at row `r`, column `c`.
pub uninterp spec fn buffer_cells(b: Buffer) -> Seq<Seq<ScreenChar>>;

/// A grid with exactly `BUFFER_HEIGHT` rows of `BUFFER_WIDTH` cells.
pub open spec fn grid_wf(grid: Seq<Seq<ScreenChar>>) -> bool {
    &&& grid.len() == BUFFER_HEIGHT
    &&& forall|r: int|
        0 <= r < BUFFER_HEIGHT ==> (#[trigger] grid[r]).len() == BUFFER_WIDTH
}

/// The full-size uniform grid whose every cell is `fill`.
pub open spec fn filled_grid(fill: ScreenChar) -> Seq<Seq<ScreenChar>> {
    Seq::new(BUFFER_HEIGHT as nat, |r: int| Seq::new(BUFFER_WIDTH as nat, |c: int| fill))
}

impl Buffer {
    /// Creates a surface whose every cell holds `fill`.
    ///
    /// Relies on `volatile::Volatile::new`, which wraps the given value
    /// and never panics: each cell of the new grid holds `fill`.
    #[verifier::external_body]
    pub fn new(fill: ScreenChar) -> (b: Buffer)
        ensures
            buffer_cells(b) == filled_grid(fill),
    {
        Buffer { chars: core::array::from_fn(|_| core::array::from_fn(|_| Volatile::new(fill))) }
    }

    /// Reads the cell at `row`, `col`.
    ///
    /// Relies on `volatile::Volatile::read`, which returns a copy of
    /// the contained value and never panics.
    #[verifier::external_body]
    pub fn get(&self, row: usize, col: usize) -> (cell: ScreenChar)
        requires
            row < BUFFER_HEIGHT,
            col < BUFFER_WIDTH,
        ensures
            cell == buffer_cells(*self)[row as int][col as int],
    {
        self.chars[row][col].read()
    }

    /// Stores `cell` at `row`, `col`.
    ///
    /// Relies on `volatile::Volatile::write`, which sets the contained
    /// value and never panics; the store is volatile, so it is never
    /// optimized away. Every other cell keeps its value.
    #[verifier::external_body]
    pub fn set(&mut self, row: usize, col: usize, cell: ScreenChar)
        requires
            row < BUFFER_HEIGHT,
            col < BUFFER_WIDTH,
        ensures
            buffer_cells(*final(self)) == buffer_cells(*old(self)).update(
                row as int,
                buffer_cells(*old(self))[row as int].update(col as int, cell),
            ),
    {
        self.chars[row][col].write(cell);
    }
}

} // verus!
