use tictactoe::board::Board;
use tictactoe::game::{marker_option, Action, Game, Input, KeyName, KeyStroke, Phase};
use tictactoe::grid::Outcome;
use tictactoe::square::Square;

fn playing(first: Square) -> Game {
    let mut g = Game::new();
    if first == Square::O {
        assert_eq!(g.handle(Input::Right), Action::ShowSelection);
    }
    assert_eq!(g.handle(Input::Confirm), Action::ShowBoard);
    g
}

fn go_to(g: &mut Game, x: usize, y: usize) {
    for _ in 0..2 {
        g.handle(Input::Left);
        g.handle(Input::Up);
    }
    for _ in 0..x {
        g.handle(Input::Right);
    }
    for _ in 0..y {
        g.handle(Input::Down);
    }
    assert_eq!(g.cursor(), (x, y));
}

fn place(g: &mut Game, x: usize, y: usize) -> Action {
    go_to(g, x, y);
    g.handle(Input::Confirm)
}

fn stroke(name: KeyName, control_only: bool) -> KeyStroke {
    KeyStroke { name, control_only }
}

#[test]
fn session_starts_at_the_marker_list() {
    let g = Game::new();
    assert_eq!(g.phase(), Phase::SelectMarker);
    assert_eq!(g.action(), Action::ShowSelection);
    assert_eq!(g.selected(), 0);
    assert_eq!(g.cursor(), (0, 0));
    assert_eq!(g.outcome(), Outcome::Ongoing);
    assert_eq!(*g.board(), Board::new());
}

#[test]
fn marker_list_holds_x_then_o() {
    assert_eq!(marker_option(0), Square::X);
    assert_eq!(marker_option(1), Square::O);
}

#[test]
fn highlight_moves_and_stops_at_the_ends() {
    let mut g = Game::new();
    assert_eq!(g.handle(Input::Left), Action::ShowSelection);
    assert_eq!(g.selected(), 0);
    assert_eq!(g.handle(Input::Right), Action::ShowSelection);
    assert_eq!(g.selected(), 1);
    assert_eq!(g.handle(Input::Right), Action::ShowSelection);
    assert_eq!(g.selected(), 1);
    assert_eq!(g.handle(Input::Left), Action::ShowSelection);
    assert_eq!(g.selected(), 0);
}

#[test]
fn up_and_down_do_nothing_at_the_marker_list() {
    let mut g = Game::new();
    let before = g;
    assert_eq!(g.handle(Input::Up), Action::ShowSelection);
    assert_eq!(g, before);
    assert_eq!(g.handle(Input::Down), Action::ShowSelection);
    assert_eq!(g, before);
    assert_eq!(g.handle(Input::Ignored), Action::ShowSelection);
    assert_eq!(g, before);
}

#[test]
fn confirm_starts_the_game_with_the_highlighted_marker() {
    let g = playing(Square::X);
    assert_eq!(g.phase(), Phase::Playing);
    assert_eq!(g.current_player(), Square::X);
    assert_eq!(g.cursor(), (0, 0));
    assert_eq!(*g.board(), Board::new());

    let g = playing(Square::O);
    assert_eq!(g.phase(), Phase::Playing);
    assert_eq!(g.current_player(), Square::O);
    assert_eq!(g.home(), Square::O);
}

#[test]
fn picked_marker_stays_while_the_turn_changes() {
    let mut g = playing(Square::O);
    assert_eq!(place(&mut g, 1, 1), Action::ShowBoard);
    assert_eq!(g.home(), Square::O);
    assert_eq!(g.current_player(), Square::X);
    assert_eq!(place(&mut g, 0, 0), Action::ShowBoard);
    assert_eq!(g.home(), Square::O);
    assert_eq!(g.current_player(), Square::O);
}

#[test]
fn turn_does_not_change_when_the_game_is_drawn() {
    let mut g = playing(Square::X);
    let cells = [(0, 0), (1, 0), (2, 0), (1, 1), (0, 1), (2, 1), (1, 2), (0, 2), (2, 2)];
    for (x, y) in cells {
        place(&mut g, x, y);
    }
    assert_eq!(g.outcome(), Outcome::Draw);
    assert_eq!(g.current_player(), Square::X);
}

#[test]
fn cursor_moves_by_one_cell() {
    let mut g = playing(Square::X);
    assert_eq!(g.handle(Input::Right), Action::ShowBoard);
    assert_eq!(g.cursor(), (1, 0));
    assert_eq!(g.handle(Input::Down), Action::ShowBoard);
    assert_eq!(g.cursor(), (1, 1));
    assert_eq!(g.handle(Input::Left), Action::ShowBoard);
    assert_eq!(g.cursor(), (0, 1));
    assert_eq!(g.handle(Input::Up), Action::ShowBoard);
    assert_eq!(g.cursor(), (0, 0));
}

#[test]
fn cursor_stops_at_the_edges() {
    let mut g = playing(Square::X);
    g.handle(Input::Left);
    assert_eq!(g.cursor(), (0, 0));
    g.handle(Input::Up);
    assert_eq!(g.cursor(), (0, 0));
    g.handle(Input::Right);
    g.handle(Input::Right);
    assert_eq!(g.cursor(), (2, 0));
    g.handle(Input::Right);
    assert_eq!(g.cursor(), (2, 0));
    g.handle(Input::Down);
    g.handle(Input::Down);
    assert_eq!(g.cursor(), (2, 2));
    g.handle(Input::Down);
    assert_eq!(g.cursor(), (2, 2));
    g.handle(Input::Right);
    assert_eq!(g.cursor(), (2, 2));
}

#[test]
fn cursor_moves_leave_the_board_and_the_turn_alone() {
    let mut g = playing(Square::O);
    let board = *g.board();
    for k in [Input::Right, Input::Down, Input::Left, Input::Up, Input::Ignored] {
        g.handle(k);
        assert_eq!(*g.board(), board);
        assert_eq!(g.current_player(), Square::O);
        assert_eq!(g.phase(), Phase::Playing);
    }
}

#[test]
fn cursor_on_screen_follows_the_cursor() {
    let mut g = playing(Square::X);
    assert_eq!(g.cursor_on_screen(), (0, 0));
    go_to(&mut g, 2, 1);
    assert_eq!(g.cursor_on_screen(), (8, 2));
    go_to(&mut g, 1, 2);
    assert_eq!(g.cursor_on_screen(), (4, 4));
}

#[test]
fn confirm_places_the_marker_under_the_cursor() {
    let mut g = playing(Square::X);
    assert_eq!(place(&mut g, 2, 1), Action::ShowBoard);
    assert_eq!(g.board().square(2, 1), Square::X);
    let mut expected = Board::new();
    assert_eq!(expected.set_square(2, 1, Square::X), Ok(()));
    assert_eq!(*g.board(), expected);
    assert_eq!(g.cursor(), (2, 1));
}

#[test]
fn turns_alternate_with_each_placement() {
    for first in [Square::X, Square::O] {
        let mut g = playing(first);
        let cells = [(0, 0), (1, 0), (1, 1), (2, 0)];
        assert_eq!(g.current_player(), first);
        for (n, (x, y)) in cells.into_iter().enumerate() {
            let mover = g.current_player();
            assert_eq!(place(&mut g, x, y), Action::ShowBoard);
            assert_eq!(g.board().square(x, y), mover);
            let placed = n + 1;
            if placed % 2 == 0 {
                assert_eq!(g.current_player(), first);
            } else {
                assert_eq!(g.current_player(), first.opposite());
            }
        }
    }
}

#[test]
fn confirm_on_a_taken_cell_is_ignored() {
    let mut g = playing(Square::X);
    assert_eq!(place(&mut g, 1, 1), Action::ShowBoard);
    let before = g;
    assert_eq!(g.handle(Input::Confirm), Action::ShowBoard);
    assert_eq!(g, before);
    assert_eq!(g.current_player(), Square::O);
    assert_eq!(g.board().square(1, 1), Square::X);
}

#[test]
fn win_ends_the_game_and_names_the_winner() {
    let mut g = playing(Square::X);
    assert_eq!(place(&mut g, 0, 0), Action::ShowBoard);
    assert_eq!(place(&mut g, 1, 0), Action::ShowBoard);
    assert_eq!(place(&mut g, 1, 1), Action::ShowBoard);
    assert_eq!(place(&mut g, 2, 0), Action::ShowBoard);
    assert_eq!(g.outcome(), Outcome::Ongoing);
    assert_eq!(place(&mut g, 2, 2), Action::ShowOutcome);
    assert_eq!(g.phase(), Phase::GameOver);
    assert_eq!(g.outcome(), Outcome::Won(Square::X));
    assert_eq!(g.current_player(), Square::X);
}

#[test]
fn o_can_win_too() {
    let mut g = playing(Square::O);
    assert_eq!(place(&mut g, 0, 2), Action::ShowBoard);
    assert_eq!(place(&mut g, 0, 0), Action::ShowBoard);
    assert_eq!(place(&mut g, 1, 2), Action::ShowBoard);
    assert_eq!(place(&mut g, 1, 1), Action::ShowBoard);
    assert_eq!(place(&mut g, 2, 2), Action::ShowOutcome);
    assert_eq!(g.outcome(), Outcome::Won(Square::O));
}

#[test]
fn full_board_without_a_line_is_a_draw() {
    let mut g = playing(Square::X);
    let cells = [(0, 0), (1, 0), (2, 0), (1, 1), (0, 1), (2, 1), (1, 2), (0, 2)];
    for (x, y) in cells {
        assert_eq!(place(&mut g, x, y), Action::ShowBoard);
        assert_eq!(g.phase(), Phase::Playing);
        assert_eq!(g.outcome(), Outcome::Ongoing);
    }
    assert_eq!(place(&mut g, 2, 2), Action::ShowOutcome);
    assert_eq!(g.phase(), Phase::GameOver);
    assert_eq!(g.outcome(), Outcome::Draw);
    assert!(g.board().is_filled());
}

#[test]
fn any_key_after_the_game_ends_the_session() {
    for k in [
        Input::Left,
        Input::Right,
        Input::Up,
        Input::Down,
        Input::Confirm,
        Input::Quit,
        Input::Ignored,
    ] {
        let mut g = playing(Square::X);
        place(&mut g, 0, 0);
        place(&mut g, 1, 0);
        place(&mut g, 1, 1);
        place(&mut g, 2, 0);
        assert_eq!(place(&mut g, 2, 2), Action::ShowOutcome);
        let board = *g.board();
        assert_eq!(g.handle(k), Action::Leave);
        assert_eq!(g.phase(), Phase::Ended);
        assert_eq!(g.outcome(), Outcome::Won(Square::X));
        assert_eq!(*g.board(), board);
    }
}

#[test]
fn quit_at_the_marker_list_ends_the_session() {
    let mut g = Game::new();
    g.handle(Input::Right);
    assert_eq!(g.handle(Input::Quit), Action::Leave);
    assert_eq!(g.phase(), Phase::Ended);
    assert_eq!(g.action(), Action::Leave);
    assert_eq!(g.outcome(), Outcome::Ongoing);
    assert_eq!(*g.board(), Board::new());
}

#[test]
fn quit_during_play_keeps_the_board_and_names_no_winner() {
    let mut g = playing(Square::X);
    place(&mut g, 0, 0);
    place(&mut g, 1, 1);
    place(&mut g, 0, 1);
    let board = *g.board();
    assert_eq!(g.handle(Input::Quit), Action::Leave);
    assert_eq!(g.phase(), Phase::Ended);
    assert_eq!(g.outcome(), Outcome::Ongoing);
    assert_eq!(*g.board(), board);
}

#[test]
fn ended_session_takes_no_input() {
    let mut g = playing(Square::X);
    place(&mut g, 0, 0);
    g.handle(Input::Quit);
    let before = g;
    for k in [
        Input::Left,
        Input::Right,
        Input::Up,
        Input::Down,
        Input::Confirm,
        Input::Quit,
        Input::Ignored,
    ] {
        assert_eq!(g.handle(k), Action::Leave);
        assert_eq!(g, before);
    }
}

#[test]
fn arrows_and_enter_are_read_with_any_modifier() {
    let g = Game::new();
    for control in [false, true] {
        assert_eq!(g.interpret(stroke(KeyName::Left, control)), Input::Left);
        assert_eq!(g.interpret(stroke(KeyName::Right, control)), Input::Right);
        assert_eq!(g.interpret(stroke(KeyName::Up, control)), Input::Up);
        assert_eq!(g.interpret(stroke(KeyName::Down, control)), Input::Down);
        assert_eq!(g.interpret(stroke(KeyName::Enter, control)), Input::Confirm);
    }
}

#[test]
fn escape_quits_only_with_control() {
    let g = Game::new();
    assert_eq!(g.interpret(stroke(KeyName::Esc, true)), Input::Quit);
    assert_eq!(g.interpret(stroke(KeyName::Esc, false)), Input::Ignored);
    let g = playing(Square::X);
    assert_eq!(g.interpret(stroke(KeyName::Esc, true)), Input::Quit);
    assert_eq!(g.interpret(stroke(KeyName::Esc, false)), Input::Ignored);
}

#[test]
fn quit_letter_is_d_at_the_marker_list() {
    let g = Game::new();
    assert_eq!(g.interpret(stroke(KeyName::Char('d'), true)), Input::Quit);
    assert_eq!(g.interpret(stroke(KeyName::Char('d'), false)), Input::Ignored);
    assert_eq!(g.interpret(stroke(KeyName::Char('c'), true)), Input::Ignored);
    assert_eq!(g.interpret(stroke(KeyName::Char('D'), true)), Input::Ignored);
}

#[test]
fn quit_letter_is_c_during_play() {
    let g = playing(Square::O);
    assert_eq!(g.interpret(stroke(KeyName::Char('c'), true)), Input::Quit);
    assert_eq!(g.interpret(stroke(KeyName::Char('c'), false)), Input::Ignored);
    assert_eq!(g.interpret(stroke(KeyName::Char('d'), true)), Input::Ignored);
}

#[test]
fn other_keys_are_ignored() {
    let g = playing(Square::X);
    assert_eq!(g.interpret(stroke(KeyName::Other, false)), Input::Ignored);
    assert_eq!(g.interpret(stroke(KeyName::Other, true)), Input::Ignored);
    assert_eq!(g.interpret(stroke(KeyName::Char('x'), false)), Input::Ignored);
    assert_eq!(g.interpret(stroke(KeyName::Char(' '), true)), Input::Ignored);
}
