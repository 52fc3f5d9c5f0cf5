//! The error taxonomy of the wire protocol.

use vstd::prelude::*;

verus! {

/// Every failure a request can be answered with: the game-rule violations
/// (`NotYourTurn`, `GameOver`, `IllegalMove`), the board-level rejections
/// (`OutOfBounds`, `CellOccupied`), the lookup failure (`SessionNotFound`),
/// and the protocol error (`Malformed`).
#[derive(PartialEq, Eq, Structural, Clone, Copy, Debug)]
pub enum ErrorKind {
    NotYourTurn,
    GameOver,
    IllegalMove,
    SessionNotFound,
    OutOfBounds,
    CellOccupied,
    Malformed,
}

/// The internal-consistency fault: both players hold a complete line at
/// once. Unreachable through lawful play (see `laws`); `Board::winner`
/// reports it rather than silently picking a winner.
#[derive(PartialEq, Eq, Structural, Clone, Copy, Debug)]
pub struct DoubleWin;

} // verus!
