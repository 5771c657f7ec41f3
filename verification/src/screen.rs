//! Where things go on the screen: a cell takes four columns and two lines,
//! and the hint stands on the line below the board.

use vstd::prelude::*;
use crate::square::Square;
use crate::grid::in_range;

verus! {

/// The screen column at which the cells of board column `x` begin.
pub open spec fn screen_column(x: int) -> int {
    4 * x
}

/// The screen line on which the cells of board row `y` stand.
pub open spec fn screen_line(y: int) -> int {
    2 * y
}

/// The screen line of board row `y`; row 3 is the line below the board.
pub fn row_line(y: usize) -> (l: u16)
    requires
        y <= 3,
    ensures
        l == screen_line(y as int),
{
    (y * 2) as u16
}

/// The screen column and line at which the cell at column `x` of row `y`
/// begins.
pub fn cell_origin(x: usize, y: usize) -> (p: (u16, u16))
    requires
        in_range(x as int, y as int),
    ensures
        p.0 == screen_column(x as int),
        p.1 == screen_line(y as int),
{
    ((x * 4) as u16, row_line(y))
}

/// The screen line of the hint: the first line below the last row.
pub fn hint_line() -> (l: u16)
    ensures
        l == screen_line(3),
{
    row_line(3)
}

/// A square as it is written into its cell: its character with a blank on
/// either side.
pub fn label(s: Square) -> (l: [char; 3])
    ensures
        l@ == seq![' ', s.glyph(), ' '],
{
    let l = [' ', s.to_char(), ' '];
    assert(l@ =~= seq![' ', s.glyph(), ' ']);
    l
}

} // verus!
