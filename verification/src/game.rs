//! The session: choosing a marker, moving the cursor, placing markers in
//! turn, and ending on a win, a draw or a request to quit. The session
//! decides; whoever drives it reads the keys and draws the screen.

use vstd::prelude::*;
use crate::square::Square;
use crate::board::Board;
use crate::screen::{cell_origin, screen_column, screen_line};
use crate::grid::{
    cell, empty_grid, in_range, is_grid, lemma_empty_grid, lemma_empty_grid_is_open,
    lemma_mark_adds_one, lemma_with_mark,
    marks, outcome_of, with_mark, Grid, Outcome,
};

verus! {

/// A key as the terminal names it.
#[derive(Copy, Clone, Debug, PartialEq, Eq, Structural)]
pub enum KeyName {
    Left,
    Right,
    Up,
    Down,
    Enter,
    Esc,
    Char(char),
    Other,
}

/// A key press: the key, and whether the control key, and no other
/// modifier, was held with it.
#[derive(Copy, Clone, Debug, PartialEq, Eq, Structural)]
pub struct KeyStroke {
    pub name: KeyName,
    pub control_only: bool,
}

/// What a key press asks of the session.
#[derive(Copy, Clone, Debug, PartialEq, Eq, Structural)]
pub enum Input {
    Left,
    Right,
    Up,
    Down,
    Confirm,
    Quit,
    Ignored,
}

/// Where the session stands.
#[derive(Copy, Clone, Debug, PartialEq, Eq, Structural)]
pub enum Phase {
    /// The players pick the marker that moves first.
    SelectMarker,
    /// Markers are being placed.
    Playing,
    /// The game was won or drawn, and the result is on display.
    GameOver,
    /// The session is over.
    Ended,
}

/// What the driver of the session does next.
#[derive(Copy, Clone, Debug, PartialEq, Eq, Structural)]
pub enum Action {
    /// Draw the two markers to pick from, then wait for a key.
    ShowSelection,
    /// Draw the board and the cursor, then wait for a key.
    ShowBoard,
    /// Draw the board and the result, then wait for a key.
    ShowOutcome,
    /// Give the terminal back and leave.
    Leave,
}

/// The model of a session.
pub struct GameView {
    pub phase: Phase,
    /// The highlighted entry of the marker list: 0 for `X`, 1 for `O`.
    pub selected: int,
    /// The marker that was picked and moved first.
    pub home: Square,
    /// The marker that moves next.
    pub current: Square,
    pub grid: Grid,
    /// The column of the cursor.
    pub x: int,
    /// The row of the cursor.
    pub y: int,
    /// The result on display; `Ongoing` as long as there is none.
    pub outcome: Outcome,
}

/// The marker that entry `i` of the marker list stands for.
pub open spec fn option_marker(i: int) -> Square {
    if i == 0 {
        Square::X
    } else {
        Square::O
    }
}

/// One step towards 0, staying at 0.
pub open spec fn step_back(i: int) -> int {
    if i > 0 {
        i - 1
    } else {
        i
    }
}

/// One step towards `last`, staying at `last`.
pub open spec fn step_forward(i: int, last: int) -> int {
    if i < last {
        i + 1
    } else {
        i
    }
}

/// The marker that moves after `n` placements, when `first` made the first.
pub open spec fn turn_after(first: Square, n: nat) -> Square {
    if n % 2 == 0 {
        first
    } else {
        first.other()
    }
}

/// The letter that, held with the control key, quits in a phase.
pub open spec fn quit_letter(phase: Phase) -> char {
    if phase == Phase::SelectMarker {
        'd'
    } else {
        'c'
    }
}

/// What a key press asks for in a phase. The arrows and the enter key count
/// with any modifier; escape and the quit letter only with the control key
/// alone; every other key asks for nothing.
pub open spec fn input_of(phase: Phase, stroke: KeyStroke) -> Input {
    match stroke.name {
        KeyName::Left => Input::Left,
        KeyName::Right => Input::Right,
        KeyName::Up => Input::Up,
        KeyName::Down => Input::Down,
        KeyName::Enter => Input::Confirm,
        KeyName::Esc => if stroke.control_only {
            Input::Quit
        } else {
            Input::Ignored
        },
        KeyName::Char(c) => if stroke.control_only && c == quit_letter(phase) {
            Input::Quit
        } else {
            Input::Ignored
        },
        KeyName::Other => Input::Ignored,
    }
}

/// What the driver does in a phase.
pub open spec fn action_in(phase: Phase) -> Action {
    match phase {
        Phase::SelectMarker => Action::ShowSelection,
        Phase::Playing => Action::ShowBoard,
        Phase::GameOver => Action::ShowOutcome,
        Phase::Ended => Action::Leave,
    }
}

/// The session before any key: the marker list with `X` highlighted, an
/// empty board, the cursor in the top left corner.
pub open spec fn start() -> GameView {
    GameView {
        phase: Phase::SelectMarker,
        selected: 0,
        home: Square::X,
        current: Square::X,
        grid: empty_grid(),
        x: 0,
        y: 0,
        outcome: Outcome::Ongoing,
    }
}

/// A confirm on which a marker is placed: the game is on and the cell under
/// the cursor is empty.
pub open spec fn accepts(v: GameView, k: Input) -> bool {
    v.phase == Phase::Playing && k == Input::Confirm && cell(v.grid, v.x, v.y) == Square::Empty
}

/// The session after the marker `v.current` went to the cell under the
/// cursor: over if that won or filled the board, else the other marker's
/// turn.
pub open spec fn after_placement(v: GameView) -> GameView {
    let g = with_mark(v.grid, v.x, v.y, v.current);
    let o = outcome_of(g);
    if o == Outcome::Ongoing {
        GameView { grid: g, current: v.current.other(), ..v }
    } else {
        GameView { grid: g, phase: Phase::GameOver, outcome: o, ..v }
    }
}

/// The session after one input.
pub open spec fn step(v: GameView, k: Input) -> GameView {
    match v.phase {
        Phase::SelectMarker => match k {
            Input::Left => GameView { selected: step_back(v.selected), ..v },
            Input::Right => GameView { selected: step_forward(v.selected, 1), ..v },
            Input::Confirm => GameView {
                phase: Phase::Playing,
                home: option_marker(v.selected),
                current: option_marker(v.selected),
                ..v
            },
            Input::Quit => GameView { phase: Phase::Ended, ..v },
            _ => v,
        },
        Phase::Playing => match k {
            Input::Left => GameView { x: step_back(v.x), ..v },
            Input::Right => GameView { x: step_forward(v.x, 2), ..v },
            Input::Up => GameView { y: step_back(v.y), ..v },
            Input::Down => GameView { y: step_forward(v.y, 2), ..v },
            Input::Confirm => if accepts(v, k) {
                after_placement(v)
            } else {
                v
            },
            Input::Quit => GameView { phase: Phase::Ended, ..v },
            Input::Ignored => v,
        },
        Phase::GameOver => GameView { phase: Phase::Ended, ..v },
        Phase::Ended => v,
    }
}

impl GameView {
    /// What holds of every session that began at `start()`.
    pub open spec fn wf(self) -> bool {
        &&& is_grid(self.grid)
        &&& 0 <= self.selected < 2
        &&& in_range(self.x, self.y)
        &&& self.home.is_marker()
        &&& self.current.is_marker()
        &&& match self.phase {
            Phase::SelectMarker => {
                &&& self.grid == empty_grid()
                &&& self.x == 0 && self.y == 0
                &&& self.outcome == Outcome::Ongoing
            },
            Phase::Playing => {
                &&& self.current == turn_after(self.home, marks(self.grid))
                &&& outcome_of(self.grid) == Outcome::Ongoing
                &&& self.outcome == Outcome::Ongoing
            },
            Phase::GameOver => {
                &&& self.outcome == outcome_of(self.grid)
                &&& self.outcome != Outcome::Ongoing
            },
            Phase::Ended => self.outcome == Outcome::Ongoing || self.outcome == outcome_of(
                self.grid,
            ),
        }
    }
}

/// A step of a well-formed session gives a well-formed session.
pub proof fn lemma_step_preserves_wf(v: GameView, k: Input)
    requires
        v.wf(),
    ensures
        step(v, k).wf(),
{
    lemma_empty_grid();
    lemma_empty_grid_is_open();
    if accepts(v, k) {
        lemma_with_mark(v.grid, v.x, v.y, v.current);
        lemma_mark_adds_one(v.grid, v.x, v.y, v.current);
    }
}

/// A session of the game.
#[derive(Copy, Clone, Debug, PartialEq, Eq)]
pub struct Game {
    phase: Phase,
    selected: usize,
    home: Square,
    current: Square,
    board: Board,
    x: usize,
    y: usize,
    outcome: Outcome,
}

impl View for Game {
    type V = GameView;

    closed spec fn view(&self) -> GameView {
        GameView {
            phase: self.phase,
            selected: self.selected as int,
            home: self.home,
            current: self.current,
            grid: self.board@,
            x: self.x as int,
            y: self.y as int,
            outcome: self.outcome,
        }
    }
}

impl Game {
    #[verifier::type_invariant]
    closed spec fn inv(self) -> bool {
        self@.wf()
    }

    /// A session at its start.
    pub fn new() -> (g: Game)
        ensures
            g@ == start(),
            g@.wf(),
    {
        proof {
            lemma_empty_grid();
        }
        Game {
            phase: Phase::SelectMarker,
            selected: 0,
            home: Square::X,
            current: Square::X,
            board: Board::new(),
            x: 0,
            y: 0,
            outcome: Outcome::Ongoing,
        }
    }

    /// The phase the session is in.
    pub fn phase(&self) -> (p: Phase)
        ensures
            p == self@.phase,
    {
        self.phase
    }

    /// The highlighted entry of the marker list.
    pub fn selected(&self) -> (i: usize)
        ensures
            i == self@.selected,
            i < 2,
    {
        proof {
            use_type_invariant(self);
        }
        self.selected
    }

    /// The column and the row of the cursor.
    pub fn cursor(&self) -> (c: (usize, usize))
        ensures
            c.0 == self@.x,
            c.1 == self@.y,
            in_range(c.0 as int, c.1 as int),
    {
        proof {
            use_type_invariant(self);
        }
        (self.x, self.y)
    }

    /// The screen column and line of the cell under the cursor.
    pub fn cursor_on_screen(&self) -> (p: (u16, u16))
        ensures
            p.0 == screen_column(self@.x),
            p.1 == screen_line(self@.y),
    {
        proof {
            use_type_invariant(self);
        }
        cell_origin(self.x, self.y)
    }

    /// The marker that moves next.
    pub fn current_player(&self) -> (m: Square)
        ensures
            m == self@.current,
            m.is_marker(),
    {
        proof {
            use_type_invariant(self);
        }
        self.current
    }

    /// The marker that was picked to move first; before one is picked, `X`.
    pub fn home(&self) -> (m: Square)
        ensures
            m == self@.home,
            m.is_marker(),
    {
        proof {
            use_type_invariant(self);
        }
        self.home
    }

    /// The board.
    pub fn board(&self) -> (b: &Board)
        ensures
            b@ == self@.grid,
    {
        &self.board
    }

    /// The result on display; `Ongoing` as long as there is none.
    pub fn outcome(&self) -> (o: Outcome)
        ensures
            o == self@.outcome,
    {
        self.outcome
    }

    /// What the driver does next.
    pub fn action(&self) -> (a: Action)
        ensures
            a == action_in(self@.phase),
    {
        match self.phase {
            Phase::SelectMarker => Action::ShowSelection,
            Phase::Playing => Action::ShowBoard,
            Phase::GameOver => Action::ShowOutcome,
            Phase::Ended => Action::Leave,
        }
    }

    /// Reads a key press as an input of the current phase.
    pub fn interpret(&self, stroke: KeyStroke) -> (k: Input)
        ensures
            k == input_of(self@.phase, stroke),
    {
        match stroke.name {
            KeyName::Left => Input::Left,
            KeyName::Right => Input::Right,
            KeyName::Up => Input::Up,
            KeyName::Down => Input::Down,
            KeyName::Enter => Input::Confirm,
            KeyName::Esc => if stroke.control_only {
                Input::Quit
            } else {
                Input::Ignored
            },
            KeyName::Char(c) => {
                let letter = if self.phase == Phase::SelectMarker {
                    'd'
                } else {
                    'c'
                };
                if stroke.control_only && c == letter {
                    Input::Quit
                } else {
                    Input::Ignored
                }
            },
            KeyName::Other => Input::Ignored,
        }
    }

    /// Takes one input and says what the driver does next.
    pub fn handle(&mut self, k: Input) -> (a: Action)
        ensures
            final(self)@ == step(old(self)@, k),
            final(self)@.wf(),
            a == action_in(final(self)@.phase),
    {
        proof {
            use_type_invariant(&*self);
            lemma_step_preserves_wf(self@, k);
        }
        let mut phase = self.phase;
        let mut selected: usize = self.selected;
        let mut home = self.home;
        let mut current = self.current;
        let mut board = self.board;
        let mut x: usize = self.x;
        let mut y: usize = self.y;
        let mut outcome = self.outcome;
        match self.phase {
            Phase::SelectMarker => match k {
                Input::Left => {
                    if selected > 0 {
                        selected -= 1;
                    }
                },
                Input::Right => {
                    if selected < 1 {
                        selected += 1;
                    }
                },
                Input::Confirm => {
                    let chosen = marker_option(selected);
                    phase = Phase::Playing;
                    home = chosen;
                    current = chosen;
                },
                Input::Quit => {
                    phase = Phase::Ended;
                },
                _ => {},
            },
            Phase::Playing => match k {
                Input::Left => {
                    if x > 0 {
                        x -= 1;
                    }
                },
                Input::Right => {
                    if x < 2 {
                        x += 1;
                    }
                },
                Input::Up => {
                    if y > 0 {
                        y -= 1;
                    }
                },
                Input::Down => {
                    if y < 2 {
                        y += 1;
                    }
                },
                Input::Confirm => {
                    if board.is_empty(x, y) && board.set_square(x, y, current).is_ok() {
                        let o = board.check_winner();
                        match o {
                            Outcome::Ongoing => {
                                current = current.opposite();
                            },
                            _ => {
                                phase = Phase::GameOver;
                                outcome = o;
                            },
                        }
                    }
                },
                Input::Quit => {
                    phase = Phase::Ended;
                },
                Input::Ignored => {},
            },
            Phase::GameOver => {
                phase = Phase::Ended;
            },
            Phase::Ended => {},
        }
        *self = Game { phase, selected, home, current, board, x, y, outcome };
        self.action()
    }
}

/// The marker that entry `i` of the marker list stands for: `X` for the
/// first, `O` for any other.
pub fn marker_option(i: usize) -> (m: Square)
    ensures
        m == option_marker(i as int),
{
    if i == 0 {
        Square::from_char('X')
    } else {
        Square::from_char('O')
    }
}

} // verus!
