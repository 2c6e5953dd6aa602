use tic_tac_toe::game::{Game, GameState};
use tic_tac_toe::squares::{ColumnTarget, RowTarget, TileFill};

fn row(value: usize) -> RowTarget {
    RowTarget::try_from(value).expect("row within range")
}

fn column(value: usize) -> ColumnTarget {
    ColumnTarget::try_from(value).expect("column within range")
}

/// Plays one accepted move at `(r, c)` and expects the game to continue.
fn advance(game: Game, r: usize, c: usize) -> Game {
    let mv = game.make_move(row(r), column(c)).expect("cell is empty");
    match game.next_turn(&mv) {
        GameState::InProgress(next) => next,
        GameState::Won(..) => panic!("game ended in a win too early"),
        GameState::Draw(..) => panic!("game ended in a draw too early"),
    }
}

#[test]
fn fresh_game_starts_with_player_o() {
    let game = Game::new();
    assert_eq!(game.current_player(), TileFill::O);
    assert!(!game.board.is_complete());
    assert!(!game.board.is_draw());
}

#[test]
fn make_move_accepts_only_empty_cells() {
    let game = Game::new();
    assert!(game.make_move(row(0), column(0)).is_some());
    let game = advance(game, 0, 0);
    assert!(game.make_move(row(0), column(0)).is_none());
    assert!(game.make_move(row(2), column(2)).is_some());
}

#[test]
fn turn_alternation_is_exact_over_two_moves() {
    let game = Game::new();
    assert_eq!(game.current_player(), TileFill::O);
    let game = advance(game, 0, 0);
    assert_eq!(game.current_player(), TileFill::X);
    let game = advance(game, 1, 1);
    assert_eq!(game.current_player(), TileFill::O);
}

#[test]
fn player_o_wins_by_completing_the_first_row() {
    let game = Game::new();
    let game = advance(game, 0, 0); // O
    let game = advance(game, 1, 1); // X
    let game = advance(game, 0, 1); // O
    let game = advance(game, 2, 2); // X
    // O completes row 0: the game halts with O as the winner.
    let mv = game.make_move(row(0), column(2)).expect("cell is empty");
    match game.next_turn(&mv) {
        GameState::Won(winner, board) => {
            assert_eq!(winner, TileFill::O);
            assert!(board.is_complete());
            assert!(!board.is_draw());
        }
        GameState::InProgress(..) => panic!("expected a win, game still in progress"),
        GameState::Draw(..) => panic!("expected a win, got a draw"),
    }
}

#[test]
fn nine_moves_without_a_line_end_in_a_draw() {
    // Final grid, with O moving first:
    // O X O
    // O X X
    // X O O
    let game = Game::new();
    let game = advance(game, 0, 0); // O
    let game = advance(game, 0, 1); // X
    let game = advance(game, 0, 2); // O
    let game = advance(game, 1, 1); // X
    let game = advance(game, 1, 0); // O
    let game = advance(game, 1, 2); // X
    let game = advance(game, 2, 1); // O
    let game = advance(game, 2, 0); // X
    let mv = game.make_move(row(2), column(2)).expect("cell is empty");
    match game.next_turn(&mv) {
        GameState::Draw(board) => {
            assert!(board.is_draw());
            assert!(!board.is_complete());
        }
        GameState::InProgress(..) => panic!("expected a draw, game still in progress"),
        GameState::Won(..) => panic!("expected a draw, got a win"),
    }
}
