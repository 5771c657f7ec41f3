//! What holds of the rules and of every session, proved from the
//! definitions in the other modules.

use vstd::prelude::*;
use crate::square::Square;
use crate::grid::{
    cell, empty_grid, has_line, in_range, is_full, is_grid, lemma_empty_grid,
    lemma_has_line_unfolded, lemma_mark_adds_one, lemma_with_mark, marks, outcome_of, with_mark,
    Grid, Outcome,
};
use crate::game::{
    accepts, lemma_step_preserves_wf, start, step, turn_after, GameView, Input, Phase,
};

verus! {

/// The session after a sequence of inputs, taken in order.
pub open spec fn run(v: GameView, keys: Seq<Input>) -> GameView
    decreases keys.len(),
{
    if keys.len() == 0 {
        v
    } else {
        step(run(v, keys.drop_last()), keys.last())
    }
}

/// The number of inputs of the sequence on which a marker was placed.
pub open spec fn placements(v: GameView, keys: Seq<Input>) -> nat
    decreases keys.len(),
{
    if keys.len() == 0 {
        0
    } else {
        placements(v, keys.drop_last()) + if accepts(run(v, keys.drop_last()), keys.last()) {
            1nat
        } else {
            0nat
        }
    }
}

/// The place of a phase in the course of a session.
pub open spec fn phase_rank(p: Phase) -> nat {
    match p {
        Phase::SelectMarker => 0,
        Phase::Playing => 1,
        Phase::GameOver => 2,
        Phase::Ended => 3,
    }
}

/// A line of three markers needs three markers on the grid.
pub proof fn lemma_line_needs_three_marks(g: Grid, m: Square)
    requires
        is_grid(g),
        m.is_marker(),
        has_line(g, m),
    ensures
        marks(g) >= 3,
{
    lemma_has_line_unfolded(g, m);
}

/// A grid without three markers is neither won nor drawn.
pub proof fn lemma_open_below_three_marks(g: Grid)
    requires
        is_grid(g),
        marks(g) < 3,
    ensures
        outcome_of(g) == Outcome::Ongoing,
{
    if has_line(g, Square::X) {
        lemma_line_needs_three_marks(g, Square::X);
    }
    if has_line(g, Square::O) {
        lemma_line_needs_three_marks(g, Square::O);
    }
    if is_full(g) {
        lemma_full_has_nine_marks(g);
    }
}

/// A grid is full exactly when it holds nine markers.
pub proof fn lemma_full_has_nine_marks(g: Grid)
    requires
        is_grid(g),
    ensures
        is_full(g) <==> marks(g) == 9,
{
    if is_full(g) {
        assert(cell(g, 0, 0) != Square::Empty && cell(g, 1, 0) != Square::Empty && cell(g, 2, 0)
            != Square::Empty);
        assert(cell(g, 0, 1) != Square::Empty && cell(g, 1, 1) != Square::Empty && cell(g, 2, 1)
            != Square::Empty);
        assert(cell(g, 0, 2) != Square::Empty && cell(g, 1, 2) != Square::Empty && cell(g, 2, 2)
            != Square::Empty);
    }
}

/// After one placement on the empty board, whatever the cell and the
/// marker, the position is not won: it is still open.
pub proof fn lemma_one_placement_never_wins(x: int, y: int, m: Square)
    requires
        in_range(x, y),
    ensures
        !(outcome_of(with_mark(empty_grid(), x, y, m)) is Won),
        outcome_of(with_mark(empty_grid(), x, y, m)) == Outcome::Ongoing,
{
    let g = with_mark(empty_grid(), x, y, m);
    lemma_empty_grid();
    lemma_with_mark(empty_grid(), x, y, m);
    assert(cell(g, 0, 0) == g[0][0] && cell(g, 1, 0) == g[0][1] && cell(g, 2, 0) == g[0][2]);
    assert(cell(g, 0, 1) == g[1][0] && cell(g, 1, 1) == g[1][1] && cell(g, 2, 1) == g[1][2]);
    assert(cell(g, 0, 2) == g[2][0] && cell(g, 1, 2) == g[2][1] && cell(g, 2, 2) == g[2][2]);
    assert(marks(g) <= 1);
    lemma_open_below_three_marks(g);
}

/// A draw is reported only of a full board: as long as a cell is empty and
/// nobody holds a line, the game is open.
pub proof fn lemma_draw_only_when_full(g: Grid)
    requires
        is_grid(g),
    ensures
        outcome_of(g) == Outcome::Draw ==> is_full(g) && marks(g) == 9,
        !is_full(g) && !has_line(g, Square::X) && !has_line(g, Square::O) ==> outcome_of(g)
            == Outcome::Ongoing,
{
    lemma_full_has_nine_marks(g);
}

/// A marker placed on an empty cell completes no line of the other marker:
/// a line that `other` holds afterwards, it held before.
pub proof fn lemma_placement_completes_own_line_only(
    g: Grid,
    x: int,
    y: int,
    m: Square,
    other: Square,
)
    requires
        is_grid(g),
        in_range(x, y),
        other != m,
        has_line(with_mark(g, x, y, m), other),
    ensures
        has_line(g, other),
{
    lemma_with_mark(g, x, y, m);
    lemma_has_line_unfolded(with_mark(g, x, y, m), other);
    lemma_has_line_unfolded(g, other);
}

/// When a placement ends an open game with a win, the winner is the marker
/// that was placed.
pub proof fn lemma_winner_is_mover(v: GameView, k: Input)
    requires
        v.wf(),
        accepts(v, k),
    ensures
        step(v, k).outcome is Won ==> step(v, k).outcome == Outcome::Won(v.current),
{
    let g = with_mark(v.grid, v.x, v.y, v.current);
    if has_line(g, v.current.other()) {
        lemma_placement_completes_own_line_only(v.grid, v.x, v.y, v.current, v.current.other());
    }
}

/// No input changes a cell that holds a marker, and only an accepted
/// placement changes the board at all: it fills the cell under the cursor
/// with the marker whose turn it is.
pub proof fn lemma_step_never_overwrites(v: GameView, k: Input)
    requires
        v.wf(),
    ensures
        forall|x: int, y: int|
            in_range(x, y) && cell(v.grid, x, y) != Square::Empty ==> #[trigger] cell(
                step(v, k).grid,
                x,
                y,
            ) == cell(v.grid, x, y),
        !accepts(v, k) ==> step(v, k).grid == v.grid,
        accepts(v, k) ==> step(v, k).grid == with_mark(v.grid, v.x, v.y, v.current),
{
    if accepts(v, k) {
        lemma_with_mark(v.grid, v.x, v.y, v.current);
    }
}

/// The cursor stays on the board: a step left in column 0, up in row 0,
/// right in column 2 or down in row 2 leaves it where it is, and any other
/// step moves it by one cell.
pub proof fn lemma_cursor_clamped(v: GameView)
    requires
        v.wf(),
        v.phase == Phase::Playing,
    ensures
        v.x == 0 ==> step(v, Input::Left) == v,
        v.y == 0 ==> step(v, Input::Up) == v,
        v.x == 2 ==> step(v, Input::Right) == v,
        v.y == 2 ==> step(v, Input::Down) == v,
        v.x > 0 ==> step(v, Input::Left) == (GameView { x: v.x - 1, ..v }),
        v.y > 0 ==> step(v, Input::Up) == (GameView { y: v.y - 1, ..v }),
        v.x < 2 ==> step(v, Input::Right) == (GameView { x: v.x + 1, ..v }),
        v.y < 2 ==> step(v, Input::Down) == (GameView { y: v.y + 1, ..v }),
{
}

/// The highlight of the marker list stays on the list in the same way.
pub proof fn lemma_selection_clamped(v: GameView)
    requires
        v.wf(),
        v.phase == Phase::SelectMarker,
    ensures
        v.selected == 0 ==> step(v, Input::Left) == v,
        v.selected == 1 ==> step(v, Input::Right) == v,
        v.selected == 1 ==> step(v, Input::Left) == (GameView { selected: 0, ..v }),
        v.selected == 0 ==> step(v, Input::Right) == (GameView { selected: 1, ..v }),
{
}

/// Quitting ends the session and changes nothing else. Before the game is
/// over, no winner is on display when it does.
pub proof fn lemma_quit_ends_session(v: GameView)
    requires
        v.wf(),
    ensures
        step(v, Input::Quit) == (GameView { phase: Phase::Ended, ..v }),
        step(v, Input::Quit).grid == v.grid,
        v.phase == Phase::SelectMarker || v.phase == Phase::Playing ==> step(
            v,
            Input::Quit,
        ).outcome == Outcome::Ongoing,
{
}

/// Every sequence of inputs keeps a session well formed, never takes it
/// back to an earlier phase, and leaves on the board one marker more for
/// each accepted placement.
pub proof fn lemma_run(v: GameView, keys: Seq<Input>)
    requires
        v.wf(),
    ensures
        run(v, keys).wf(),
        phase_rank(run(v, keys).phase) >= phase_rank(v.phase),
        marks(run(v, keys).grid) == marks(v.grid) + placements(v, keys),
        v.phase != Phase::SelectMarker ==> run(v, keys).home == v.home,
    decreases keys.len(),
{
    if keys.len() > 0 {
        let u = run(v, keys.drop_last());
        lemma_run(v, keys.drop_last());
        lemma_step_preserves_wf(u, keys.last());
        lemma_step_adds_mark(u, keys.last());
    }
}

/// No sequence of inputs changes a cell that holds a marker.
pub proof fn lemma_run_never_overwrites(v: GameView, keys: Seq<Input>)
    requires
        v.wf(),
    ensures
        forall|x: int, y: int|
            in_range(x, y) && cell(v.grid, x, y) != Square::Empty ==> #[trigger] cell(
                run(v, keys).grid,
                x,
                y,
            ) == cell(v.grid, x, y),
    decreases keys.len(),
{
    if keys.len() > 0 {
        let u = run(v, keys.drop_last());
        lemma_run(v, keys.drop_last());
        lemma_run_never_overwrites(v, keys.drop_last());
        lemma_step_never_overwrites(u, keys.last());
    }
}

/// Once the game is won or drawn, or the session has ended, no input
/// changes the board, the result or the turn.
pub proof fn lemma_finished_game_is_frozen(v: GameView, k: Input)
    requires
        v.phase == Phase::GameOver || v.phase == Phase::Ended,
    ensures
        step(v, k) == (GameView { phase: Phase::Ended, ..v }),
{
}

/// A session shows no result before the third accepted placement.
pub proof fn lemma_no_result_before_third_placement(keys: Seq<Input>)
    requires
        placements(start(), keys) < 3,
    ensures
        run(start(), keys).outcome == Outcome::Ongoing,
        run(start(), keys).phase != Phase::GameOver,
{
    lemma_empty_grid();
    lemma_run(start(), keys);
    lemma_open_below_three_marks(run(start(), keys).grid);
}

/// An accepted placement adds one marker to the board; no other input
/// changes the number of markers.
pub proof fn lemma_step_adds_mark(v: GameView, k: Input)
    requires
        v.wf(),
    ensures
        marks(step(v, k).grid) == marks(v.grid) + if accepts(v, k) {
            1nat
        } else {
            0nat
        },
{
    if accepts(v, k) {
        lemma_mark_adds_one(v.grid, v.x, v.y, v.current);
    }
}

/// The turn after `a + n` placements is the turn `n` placements after the
/// turn after `a`.
pub proof fn lemma_turn_after_sum(first: Square, a: nat, n: nat)
    ensures
        turn_after(first, a + n) == turn_after(turn_after(first, a), n),
{
}

/// Turns alternate. From a game in which marker `v.current` is to move,
/// after any inputs that leave the game open, the marker to move is
/// `v.current` again if the number of accepted placements is even, and its
/// opposite if that number is odd.
pub proof fn lemma_turn_alternation(v: GameView, keys: Seq<Input>)
    requires
        v.wf(),
        v.phase == Phase::Playing,
        run(v, keys).phase == Phase::Playing,
    ensures
        run(v, keys).current == turn_after(v.current, placements(v, keys)),
        placements(v, keys) % 2 == 0 ==> run(v, keys).current == v.current,
        placements(v, keys) % 2 == 1 ==> run(v, keys).current == v.current.other(),
{
    lemma_run(v, keys);
    lemma_turn_after_sum(v.home, marks(v.grid), placements(v, keys));
}

/// The same from the start of a session: once a marker is picked, it moves
/// first, and the turn goes back and forth with each accepted placement.
pub proof fn lemma_turn_alternation_from_start(keys: Seq<Input>)
    requires
        run(start(), keys).phase == Phase::Playing,
    ensures
        run(start(), keys).current == turn_after(
            run(start(), keys).home,
            placements(start(), keys),
        ),
{
    lemma_empty_grid();
    lemma_run(start(), keys);
}

} // verus!
