//! One live game: a board plus turn bookkeeping, mutated only through
//! `apply_move`.

use vstd::prelude::*;

use crate::board::{empty_cells, spec_full, Board};
use crate::errors::ErrorKind;
use crate::rules::{count_marks, legal_move, line_won, spec_legal};
use crate::squares::{Mark, Square};

verus! {

/// The session's state machine: `InProgress(turn)` steps to itself with the
/// turn flipped, or to one of the terminal states `Won(p)` and `Drawn`.
#[derive(PartialEq, Eq, Structural, Clone, Copy, Debug)]
pub enum GameState {
    InProgress(Mark),
    Won(Mark),
    Drawn,
}

/// Well-formedness of a game position. It ties the state tag to the board:
/// while the game is in progress nobody holds a line and the board is not
/// full; a won game has exactly the winner's line; a drawn game is a full
/// board without a line. The mark counts witness strict alternation with
/// `X` first: the count of `X` marks minus the count of `O` marks is 0
/// when `X` is to move (or has just been answered) and 1 otherwise.
pub open spec fn state_wf(cells: Seq<Square>, st: GameState) -> bool {
    &&& cells.len() == 9
    &&& match st {
        GameState::InProgress(turn) => {
            &&& !line_won(cells, Mark::X)
            &&& !line_won(cells, Mark::O)
            &&& !spec_full(cells)
            &&& count_marks(cells, Mark::X) - count_marks(cells, Mark::O) == if turn == Mark::X {
                0int
            } else {
                1int
            }
        },
        GameState::Won(p) => {
            &&& line_won(cells, p)
            &&& !line_won(cells, p.spec_other())
            &&& count_marks(cells, Mark::X) - count_marks(cells, Mark::O) == if p == Mark::X {
                1int
            } else {
                0int
            }
        },
        GameState::Drawn => {
            &&& spec_full(cells)
            &&& !line_won(cells, Mark::X)
            &&& !line_won(cells, Mark::O)
            &&& count_marks(cells, Mark::X) - count_marks(cells, Mark::O) == 1
        },
    }
}

/// The transition of one attempted move, as a function of the position and
/// the move alone: the board and state after the attempt, and the error it
/// is rejected with, if any. A terminal session rejects every move with
/// `GameOver`; a mover out of turn is rejected with `NotYourTurn`; an
/// off-grid or occupied target with `IllegalMove`. A rejected move changes
/// nothing. An accepted move marks the square and the game ends won when
/// it completes the mover's line, drawn when it fills the board, and
/// otherwise stays in progress with the turn flipped.
pub open spec fn spec_step(cells: Seq<Square>, st: GameState, player: Mark, row: int, col: int) -> (
    Seq<Square>,
    GameState,
    Option<ErrorKind>,
) {
    match st {
        GameState::Won(_) => (cells, st, Some(ErrorKind::GameOver)),
        GameState::Drawn => (cells, st, Some(ErrorKind::GameOver)),
        GameState::InProgress(turn) => {
            if player != turn {
                (cells, st, Some(ErrorKind::NotYourTurn))
            } else if !spec_legal(cells, row, col) {
                (cells, st, Some(ErrorKind::IllegalMove))
            } else {
                let c2 = cells.update(3 * row + col, Some(player));
                let st2 = if line_won(c2, player) {
                    GameState::Won(player)
                } else if spec_full(c2) {
                    GameState::Drawn
                } else {
                    GameState::InProgress(player.spec_other())
                };
                (c2, st2, None)
            }
        },
    }
}

/// One live game: its board and its state. The session is the unit of
/// exclusion; whoever drives it must hold it exclusively for the whole of
/// an `apply_move`.
pub struct GameSession {
    pub board: Board,
    pub state: GameState,
}

impl GameSession {
    /// The session invariant: the position is well-formed.
    pub open spec fn wf(&self) -> bool {
        state_wf(self.board@, self.state)
    }

    /// A fresh game: empty board, `X` (the first player) to move.
    pub fn new() -> (s: GameSession)
        ensures
            s.wf(),
            s.board@ == empty_cells(),
            s.state == GameState::InProgress(Mark::X),
    {
        let board = Board::new();
        proof {
            crate::laws::lemma_count_all_empty(board@, Mark::X);
            crate::laws::lemma_count_all_empty(board@, Mark::O);
            assert(!(empty_cells()[0] is Some));
        }
        GameSession { board, state: GameState::InProgress(Mark::X) }
    }

    /// The single mutating entry point: attempts `player`'s move at
    /// `(row, col)`. The whole outcome — the new board, the new state and
    /// the result — is exactly `spec_step` of the old position, so a
    /// rejected move mutates nothing and an accepted one performs exactly
    /// one marking. On success the new state is returned to the caller.
    pub fn apply_move(&mut self, player: Mark, row: u64, col: u64) -> (r: Result<
        GameState,
        ErrorKind,
    >)
        requires
            old(self).wf(),
        ensures
            final(self).wf(),
            ({
                let (c2, st2, e) = spec_step(
                    old(self).board@,
                    old(self).state,
                    player,
                    row as int,
                    col as int,
                );
                &&& final(self).board@ == c2
                &&& final(self).state == st2
                &&& match r {
                    Ok(st) => e is None && st == st2,
                    Err(k) => e == Some(k),
                }
            }),
    {
        let turn = match self.state {
            GameState::Won(_) => {
                return Err(ErrorKind::GameOver);
            },
            GameState::Drawn => {
                return Err(ErrorKind::GameOver);
            },
            GameState::InProgress(turn) => turn,
        };
        if player != turn {
            return Err(ErrorKind::NotYourTurn);
        }
        if row >= 3 || col >= 3 {
            return Err(ErrorKind::IllegalMove);
        }
        let r = row as usize;
        let c = col as usize;
        if !legal_move(&self.board, r, c) {
            return Err(ErrorKind::IllegalMove);
        }
        let ghost old_cells = self.board@;
        let _ = self.board.set_square(r, c, player);
        proof {
            crate::laws::lemma_no_double_line(old_cells, r as int, c as int, player);
            crate::laws::lemma_count_update(old_cells, 3 * (r as int) + (c as int), player, Mark::X);
            crate::laws::lemma_count_update(old_cells, 3 * (r as int) + (c as int), player, Mark::O);
        }
        // Evaluate the terminal conditions. The defensive double-line arm of
        // `winner` is provably unreachable here: the move was made on a board
        // without a line, so only the mover can have completed one.
        match self.board.winner() {
            Err(_) => {
                proof {
                    assert(false);
                }
                Err(ErrorKind::GameOver)
            },
            Ok(Some(w)) => {
                self.state = GameState::Won(w);
                Ok(self.state)
            },
            Ok(None) => {
                if self.board.is_full() {
                    self.state = GameState::Drawn;
                    proof {
                        // A board filled by the second player would hold an
                        // even number of marks; a full board holds nine.
                        crate::laws::lemma_counts_total(self.board@);
                    }
                    Ok(GameState::Drawn)
                } else {
                    self.state = GameState::InProgress(turn.other());
                    Ok(self.state)
                }
            },
        }
    }
}

} // verus!
