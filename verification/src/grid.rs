//! The rules of the game, stated over the mathematical model of a board:
//! three rows of three squares, addressed by column `x` and row `y`.

use vstd::prelude::*;
use crate::square::Square;

verus! {

/// The model of a board: a sequence of rows, each a sequence of squares.
pub type Grid = Seq<Seq<Square>>;

/// How a position stands: still open, won by a marker, or drawn.
#[derive(Copy, Clone, Debug, PartialEq, Eq, Structural)]
pub enum Outcome {
    Ongoing,
    Won(Square),
    Draw,
}

/// A grid has three rows of three squares.
pub open spec fn is_grid(g: Grid) -> bool {
    &&& g.len() == 3
    &&& forall|r: int| 0 <= r < 3 ==> (#[trigger] g[r]).len() == 3
}

/// Column `x` and row `y` address a cell of the board.
pub open spec fn in_range(x: int, y: int) -> bool {
    0 <= x < 3 && 0 <= y < 3
}

/// The square at column `x` of row `y`.
pub open spec fn cell(g: Grid, x: int, y: int) -> Square {
    g[y][x]
}

/// The grid with every cell empty.
pub open spec fn empty_grid() -> Grid {
    Seq::new(3, |r: int| Seq::new(3, |c: int| Square::Empty))
}

/// The grid `g` with the cell at column `x` of row `y` set to `s`.
pub open spec fn with_mark(g: Grid, x: int, y: int, s: Square) -> Grid {
    g.update(y, g[y].update(x, s))
}

/// Every cell of row `y` holds `m`.
pub open spec fn row_of(g: Grid, y: int, m: Square) -> bool {
    forall|x: int| 0 <= x < 3 ==> #[trigger] cell(g, x, y) == m
}

/// Every cell of column `x` holds `m`.
pub open spec fn column_of(g: Grid, x: int, m: Square) -> bool {
    forall|y: int| 0 <= y < 3 ==> #[trigger] cell(g, x, y) == m
}

/// Every cell of the diagonal from the top left holds `m`.
pub open spec fn diagonal_of(g: Grid, m: Square) -> bool {
    forall|x: int, y: int| in_range(x, y) && x == y ==> #[trigger] cell(g, x, y) == m
}

/// Every cell of the diagonal from the top right holds `m`.
pub open spec fn antidiagonal_of(g: Grid, m: Square) -> bool {
    forall|x: int, y: int| in_range(x, y) && x + y == 2 ==> #[trigger] cell(g, x, y) == m
}

/// Some row, column or diagonal holds `m` in all three cells.
pub open spec fn has_line(g: Grid, m: Square) -> bool {
    ||| exists|y: int| 0 <= y < 3 && #[trigger] row_of(g, y, m)
    ||| exists|x: int| 0 <= x < 3 && #[trigger] column_of(g, x, m)
    ||| diagonal_of(g, m)
    ||| antidiagonal_of(g, m)
}

/// No cell is empty.
pub open spec fn is_full(g: Grid) -> bool {
    forall|x: int, y: int| in_range(x, y) ==> #[trigger] cell(g, x, y) != Square::Empty
}

/// 1 for a marker, 0 for an empty square.
pub open spec fn mark_count(s: Square) -> nat {
    if s == Square::Empty {
        0
    } else {
        1
    }
}

/// The number of markers in a row of three.
pub open spec fn marks_in_row(row: Seq<Square>) -> nat {
    mark_count(row[0]) + mark_count(row[1]) + mark_count(row[2])
}

/// The number of markers on the grid.
pub open spec fn marks(g: Grid) -> nat {
    marks_in_row(g[0]) + marks_in_row(g[1]) + marks_in_row(g[2])
}

/// The outcome of a position. A line of three equal markers wins for that
/// marker; without one, a full grid is a draw, and any grid with an empty
/// cell left is still open. Should both markers hold a line, which
/// alternating play never produces, `X` is named.
pub open spec fn outcome_of(g: Grid) -> Outcome {
    if has_line(g, Square::X) {
        Outcome::Won(Square::X)
    } else if has_line(g, Square::O) {
        Outcome::Won(Square::O)
    } else if is_full(g) {
        Outcome::Draw
    } else {
        Outcome::Ongoing
    }
}

/// The empty grid is a grid, and all its cells are empty.
pub proof fn lemma_empty_grid()
    ensures
        is_grid(empty_grid()),
        forall|x: int, y: int|
            in_range(x, y) ==> #[trigger] cell(empty_grid(), x, y) == Square::Empty,
        marks(empty_grid()) == 0,
{
}

/// Setting a cell changes that cell and no other.
pub proof fn lemma_with_mark(g: Grid, x: int, y: int, s: Square)
    requires
        is_grid(g),
        in_range(x, y),
    ensures
        is_grid(with_mark(g, x, y, s)),
        cell(with_mark(g, x, y, s), x, y) == s,
        forall|i: int, j: int|
            in_range(i, j) && (i != x || j != y) ==> #[trigger] cell(with_mark(g, x, y, s), i, j)
                == cell(g, i, j),
{
    let h = with_mark(g, x, y, s);
    assert forall|r: int| 0 <= r < 3 implies (#[trigger] h[r]).len() == 3 by {
        assert(g[r].len() == 3);
    }
}

/// The three cells hold `m`.
pub open spec fn all_three(a: Square, b: Square, c: Square, m: Square) -> bool {
    a == m && b == m && c == m
}

/// `has_line` written out: the three rows, the three columns and the two
/// diagonals, one by one.
pub proof fn lemma_has_line_unfolded(g: Grid, m: Square)
    ensures
        has_line(g, m) <==> {
            ||| all_three(cell(g, 0, 0), cell(g, 1, 0), cell(g, 2, 0), m)
            ||| all_three(cell(g, 0, 1), cell(g, 1, 1), cell(g, 2, 1), m)
            ||| all_three(cell(g, 0, 2), cell(g, 1, 2), cell(g, 2, 2), m)
            ||| all_three(cell(g, 0, 0), cell(g, 0, 1), cell(g, 0, 2), m)
            ||| all_three(cell(g, 1, 0), cell(g, 1, 1), cell(g, 1, 2), m)
            ||| all_three(cell(g, 2, 0), cell(g, 2, 1), cell(g, 2, 2), m)
            ||| all_three(cell(g, 0, 0), cell(g, 1, 1), cell(g, 2, 2), m)
            ||| all_three(cell(g, 2, 0), cell(g, 1, 1), cell(g, 0, 2), m)
        },
{
    if all_three(cell(g, 0, 0), cell(g, 1, 0), cell(g, 2, 0), m) {
        assert(row_of(g, 0, m));
    }
    if all_three(cell(g, 0, 1), cell(g, 1, 1), cell(g, 2, 1), m) {
        assert(row_of(g, 1, m));
    }
    if all_three(cell(g, 0, 2), cell(g, 1, 2), cell(g, 2, 2), m) {
        assert(row_of(g, 2, m));
    }
    if all_three(cell(g, 0, 0), cell(g, 0, 1), cell(g, 0, 2), m) {
        assert(column_of(g, 0, m));
    }
    if all_three(cell(g, 1, 0), cell(g, 1, 1), cell(g, 1, 2), m) {
        assert(column_of(g, 1, m));
    }
    if all_three(cell(g, 2, 0), cell(g, 2, 1), cell(g, 2, 2), m) {
        assert(column_of(g, 2, m));
    }
    if all_three(cell(g, 0, 0), cell(g, 1, 1), cell(g, 2, 2), m) {
        assert(diagonal_of(g, m));
    }
    if all_three(cell(g, 2, 0), cell(g, 1, 1), cell(g, 0, 2), m) {
        assert(antidiagonal_of(g, m));
    }
    if has_line(g, m) {
        if exists|y: int| 0 <= y < 3 && #[trigger] row_of(g, y, m) {
            let y = choose|y: int| 0 <= y < 3 && #[trigger] row_of(g, y, m);
            assert(cell(g, 0, y) == m && cell(g, 1, y) == m && cell(g, 2, y) == m);
        } else if exists|x: int| 0 <= x < 3 && #[trigger] column_of(g, x, m) {
            let x = choose|x: int| 0 <= x < 3 && #[trigger] column_of(g, x, m);
            assert(cell(g, x, 0) == m && cell(g, x, 1) == m && cell(g, x, 2) == m);
        } else if diagonal_of(g, m) {
            assert(cell(g, 0, 0) == m && cell(g, 1, 1) == m && cell(g, 2, 2) == m);
        } else {
            assert(cell(g, 2, 0) == m && cell(g, 1, 1) == m && cell(g, 0, 2) == m);
        }
    }
}

/// On the empty grid nobody has won and the game is open.
pub proof fn lemma_empty_grid_is_open()
    ensures
        outcome_of(empty_grid()) == Outcome::Ongoing,
{
    lemma_empty_grid();
    lemma_has_line_unfolded(empty_grid(), Square::X);
    lemma_has_line_unfolded(empty_grid(), Square::O);
    assert(cell(empty_grid(), 0, 0) == Square::Empty);
}

/// A marker placed on an empty square of a row raises the row's number of
/// markers by one.
pub proof fn lemma_row_mark_adds_one(row: Seq<Square>, x: int, m: Square)
    requires
        row.len() == 3,
        0 <= x < 3,
        row[x] == Square::Empty,
        m.is_marker(),
    ensures
        marks_in_row(row.update(x, m)) == marks_in_row(row) + 1,
{
}

/// A marker placed on an empty cell raises the number of markers by one.
pub proof fn lemma_mark_adds_one(g: Grid, x: int, y: int, m: Square)
    requires
        is_grid(g),
        in_range(x, y),
        cell(g, x, y) == Square::Empty,
        m.is_marker(),
    ensures
        marks(with_mark(g, x, y, m)) == marks(g) + 1,
{
    let h = with_mark(g, x, y, m);
    lemma_row_mark_adds_one(g[y], x, m);
    assert(h[y] == g[y].update(x, m));
    assert(forall|r: int| 0 <= r < 3 && r != y ==> h[r] == g[r]);
}

} // verus!
