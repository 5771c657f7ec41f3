//! The board: a three-by-three array of squares, with placement, the
//! occupancy query and the evaluation of a position.

use vstd::prelude::*;
use crate::square::Square;
use crate::grid::{
    antidiagonal_of, cell, column_of, diagonal_of, empty_grid, has_line, in_range, is_full,
    is_grid, outcome_of, row_of, with_mark, Grid, Outcome,
};

verus! {

/// The refusal of a placement: the cell is off the board or already taken.
#[derive(Copy, Clone, Debug, PartialEq, Eq, Structural)]
pub struct InvalidMove;

/// The playing field. Rows are indexed by `y`, the cells of a row by `x`.
#[derive(Copy, Clone, Debug, PartialEq, Eq)]
pub struct Board {
    grid: [[Square; 3]; 3],
}

impl View for Board {
    type V = Grid;

    closed spec fn view(&self) -> Grid {
        Seq::new(3, |r: int| self.grid[r]@)
    }
}

impl Board {
    /// The view of a board is always three rows of three squares.
    pub proof fn lemma_view_is_grid(&self)
        ensures
            is_grid(self@),
    {
    }

    /// A board with every cell empty.
    pub fn new() -> (b: Board)
        ensures
            b@ == empty_grid(),
    {
        let b = Board { grid: [[Square::Empty; 3]; 3] };
        assert(b@ =~~= empty_grid());
        b
    }

    /// The square at column `x` of row `y`.
    pub fn square(&self, x: usize, y: usize) -> (s: Square)
        requires
            in_range(x as int, y as int),
        ensures
            s == cell(self@, x as int, y as int),
    {
        self.grid[y][x]
    }

    /// Whether the cell at column `x` of row `y` is empty.
    pub fn is_empty(&self, x: usize, y: usize) -> (e: bool)
        requires
            in_range(x as int, y as int),
        ensures
            e == (cell(self@, x as int, y as int) == Square::Empty),
    {
        self.grid[y][x] == Square::Empty
    }

    /// Whether `m` fills some row, column or diagonal.
    pub fn holds_line(&self, m: Square) -> (found: bool)
        ensures
            found == has_line(self@, m),
    {
        let mut i: usize = 0;
        while i < 3
            invariant
                i <= 3,
                forall|k: int| 0 <= k < i ==> !row_of(self@, k, m) && !column_of(self@, k, m),
            decreases 3 - i,
        {
            if self.square(0, i) == m && self.square(1, i) == m && self.square(2, i) == m {
                assert(row_of(self@, i as int, m));
                return true;
            }
            if self.square(i, 0) == m && self.square(i, 1) == m && self.square(i, 2) == m {
                assert(column_of(self@, i as int, m));
                return true;
            }
            i += 1;
        }
        if self.square(0, 0) == m && self.square(1, 1) == m && self.square(2, 2) == m {
            assert(diagonal_of(self@, m));
            return true;
        }
        if self.square(2, 0) == m && self.square(1, 1) == m && self.square(0, 2) == m {
            assert(antidiagonal_of(self@, m));
            return true;
        }
        false
    }

    /// Whether no cell is empty.
    pub fn is_filled(&self) -> (full: bool)
        ensures
            full == is_full(self@),
    {
        let mut y: usize = 0;
        while y < 3
            invariant
                y <= 3,
                forall|i: int, j: int|
                    0 <= i < 3 && 0 <= j < y ==> #[trigger] cell(self@, i, j) != Square::Empty,
            decreases 3 - y,
        {
            let mut x: usize = 0;
            while x < 3
                invariant
                    y < 3,
                    x <= 3,
                    forall|i: int, j: int|
                        0 <= i < 3 && 0 <= j < y ==> #[trigger] cell(self@, i, j) != Square::Empty,
                    forall|i: int|
                        0 <= i < x ==> #[trigger] cell(self@, i, y as int) != Square::Empty,
                decreases 3 - x,
            {
                if self.is_empty(x, y) {
                    return false;
                }
                x += 1;
            }
            y += 1;
        }
        true
    }

    /// Evaluates the position: a line of three wins, a full board without
    /// one is a draw, and anything else is still open.
    pub fn check_winner(&self) -> (o: Outcome)
        ensures
            o == outcome_of(self@),
    {
        if self.holds_line(Square::X) {
            Outcome::Won(Square::X)
        } else if self.holds_line(Square::O) {
            Outcome::Won(Square::O)
        } else if self.is_filled() {
            Outcome::Draw
        } else {
            Outcome::Ongoing
        }
    }

    /// Places `square` at column `x` of row `y`. The placement is refused,
    /// and the board left as it was, when the cell is off the board or
    /// already holds a marker.
    pub fn set_square(&mut self, x: usize, y: usize, square: Square) -> (r: Result<
        (),
        InvalidMove,
    >)
        ensures
            r is Ok <==> in_range(x as int, y as int) && cell(old(self)@, x as int, y as int)
                == Square::Empty,
            r is Ok ==> final(self)@ == with_mark(old(self)@, x as int, y as int, square),
            r is Err ==> *final(self) == *old(self),
    {
        if x >= 3 || y >= 3 {
            return Err(InvalidMove);
        }
        if self.grid[y][x] != Square::Empty {
            return Err(InvalidMove);
        }
        self.grid[y][x] = square;
        assert(self@ =~~= with_mark(old(self)@, x as int, y as int, square));
        Ok(())
    }
}

/// Two boards with the same view are the same board.
pub proof fn lemma_view_determines_board(a: Board, b: Board)
    requires
        a@ == b@,
    ensures
        a == b,
{
    assert forall|r: int| 0 <= r < 3 implies a.grid[r] == b.grid[r] by {
        assert(a@[r] == b@[r]);
        assert(a.grid[r] =~= b.grid[r]);
    }
    assert(a.grid =~= b.grid);
}

} // verus!
