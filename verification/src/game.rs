//! Turn orchestration: a `Game` pairs a board snapshot with the player whose
//! turn it is, and `next_turn` drives the state machine one accepted move
//! forward, ending in a win, a draw, or the next in-progress game.

use vstd::prelude::*;

verus! {

use crate::squares::Board;
use crate::squares::ColumnTarget;
use crate::squares::RowTarget;
use crate::squares::TileFill;
use crate::squares::ValidMove;
use crate::squares::cell_index;
use crate::squares::spec_complete;
use crate::squares::spec_full;

/// A board snapshot together with the player to move next. Each accepted
/// move replaces the whole value: the old game is never mutated.
pub struct Game {
    pub board: Board,
    current_player: TileFill,
}

/// Where the state machine stands after one accepted move. `Won` and `Draw`
/// are terminal and carry the final board; only `InProgress` allows a
/// further transition.
pub enum GameState {
    InProgress(Game),
    Won(TileFill, Board),
    Draw(Board),
}

impl Game {
    /// The player whose turn it is.
    pub closed spec fn spec_player(self) -> TileFill {
        self.current_player
    }

    /// The current board snapshot.
    pub closed spec fn spec_board(self) -> Board {
        self.board
    }

    /// The board is a full grid and the turn token is a real player.
    pub open spec fn wf(self) -> bool {
        self.spec_board().wf() && self.spec_player().is_player()
    }

    /// A fresh game: empty board, `O` to move first.
    pub fn new() -> (game: Game)
        ensures
            game.wf(),
            game.spec_player() == TileFill::O,
            forall|i: int| 0 <= i < game.spec_board()@.len() ==> game.spec_board()@[i] == TileFill::Empty,
    {
        Game { board: Board::default(), current_player: TileFill::O }
    }

    /// The player whose turn it is.
    pub fn current_player(&self) -> (player: TileFill)
        ensures
            player == self.spec_player(),
    {
        self.current_player
    }

    /// Validates a coordinate pair against the current board: a move comes
    /// back exactly when the targeted cell is still empty.
    pub fn make_move(&self, row: RowTarget, column: ColumnTarget) -> (result: Option<ValidMove>)
        requires
            self.wf(),
            row.wf(),
            column.wf(),
        ensures
            result is Some <==> self.spec_board()@[cell_index(row@, column@)] == TileFill::Empty,
            result matches Some(mv) ==> mv.wf() && mv.spec_row() == row@ && mv.spec_column()
                == column@,
    {
        ValidMove::new(&self.board, row, column)
    }

    /// Applies one accepted move for the current player and classifies the
    /// resulting board: a win for the mover, a draw on a full winless grid,
    /// or the next in-progress game with the turn handed to the other player.
    pub fn next_turn(&self, mv: &ValidMove) -> (state: GameState)
        requires
            self.wf(),
            mv.wf(),
            self.spec_board()@[mv.spec_index()] == TileFill::Empty,
        ensures
            ({
                let after = self.spec_board()@.update(mv.spec_index(), self.spec_player());
                &&& spec_complete(after) ==> (state matches GameState::Won(winner, board)
                    && winner == self.spec_player() && board.wf() && board@ == after)
                &&& !spec_complete(after) && spec_full(after) ==> (state
                    matches GameState::Draw(board) && board.wf() && board@ == after)
                &&& !spec_complete(after) && !spec_full(after) ==> (state
                    matches GameState::InProgress(game) && game.wf() && game.spec_board()@ == after
                    && game.spec_player() == self.spec_player().spec_next_player())
            }),
    {
        let new_board = self.board.make_move(self.current_player, mv);
        proof {
            assert(new_board@ =~= self.board@.update(mv.spec_index(), self.spec_player()));
        }
        if new_board.is_complete() {
            GameState::Won(self.current_player, new_board)
        } else if new_board.is_draw() {
            GameState::Draw(new_board)
        } else {
            GameState::InProgress(
                Game {
                    board: new_board,
                    current_player: self.current_player.get_next_player(),
                },
            )
        }
    }
}

/// Turn alternation is exact: the successor of a real player is the other
/// real player, and two successions return to the starting player — the
/// order never skips anyone.
pub proof fn lemma_turn_alternation(player: TileFill)
    requires
        player.is_player(),
    ensures
        player.spec_next_player().is_player(),
        player.spec_next_player() != player,
        player.spec_next_player().spec_next_player() == player,
{
}

} // verus!
