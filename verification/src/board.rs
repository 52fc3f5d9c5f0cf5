//! The 3x3 board: pure data with query and mutation operations.

use vstd::prelude::*;

use crate::errors::{DoubleWin, ErrorKind};
use crate::rules::line_won;
use crate::squares::{Mark, Square};

verus! {

/// The empty grid: nine empty squares.
pub open spec fn empty_cells() -> Seq<Square> {
    Seq::new(9, |i: int| None)
}

/// ASCII `.`: an empty square on the wire.
pub const BYTE_DOT: u8 = 46;

/// ASCII `X`: the first player's mark on the wire.
pub const BYTE_X: u8 = 88;

/// ASCII `O`: the second player's mark on the wire.
pub const BYTE_O: u8 = 79;

/// The byte that serializes one square: `.`, `X` or `O`.
pub open spec fn square_byte(s: Square) -> u8 {
    match s {
        None => BYTE_DOT,
        Some(Mark::X) => BYTE_X,
        Some(Mark::O) => BYTE_O,
    }
}

/// The wire serialization of a board: nine bytes in row-major order.
pub open spec fn board_bytes(cells: Seq<Square>) -> Seq<u8> {
    Seq::new(9, |i: int| square_byte(cells[i]))
}

/// A fixed 3x3 grid of squares, stored row-major: the square at
/// `(row, col)` lives at index `3 * row + col`. The dimensions never
/// change after construction.
pub struct Board {
    pub cells: Vec<Square>,
}

impl View for Board {
    type V = Seq<Square>;

    open spec fn view(&self) -> Seq<Square> {
        self.cells@
    }
}

impl Board {
    /// The dimensions are fixed: always nine squares.
    pub open spec fn wf(&self) -> bool {
        self@.len() == 9
    }

    /// A fresh, fully empty board.
    pub fn new() -> (r: Board)
        ensures
            r.wf(),
            r@ == empty_cells(),
    {
        let mut cells: Vec<Square> = Vec::new();
        let mut i: usize = 0;
        while i < 9
            invariant
                i <= 9,
                cells@.len() == i,
                forall|j: int| 0 <= j < i ==> cells@[j] is None,
            decreases 9 - i,
        {
            cells.push(None);
            i += 1;
        }
        proof {
            assert(cells@ =~= empty_cells());
        }
        Board { cells }
    }

    /// The square at `(row, col)`, or `OutOfBounds` when an index is not
    /// below 3.
    pub fn get(&self, row: usize, col: usize) -> (r: Result<Square, ErrorKind>)
        requires
            self.wf(),
        ensures
            row < 3 && col < 3 ==> r == Ok::<Square, ErrorKind>(self@[3 * row + col]),
            !(row < 3 && col < 3) ==> r == Err::<Square, ErrorKind>(ErrorKind::OutOfBounds),
    {
        if row < 3 && col < 3 {
            Ok(self.cells[3 * row + col])
        } else {
            Err(ErrorKind::OutOfBounds)
        }
    }

    /// Marks the square at `(row, column)`. Fails with `OutOfBounds` when an
    /// index is not below 3, and with `CellOccupied` when the square is
    /// already filled; a failed call leaves the board untouched. A square
    /// only ever goes from empty to marked, never back.
    pub fn set_square(&mut self, row: usize, column: usize, mark: Mark) -> (r: Result<
        (),
        ErrorKind,
    >)
        requires
            old(self).wf(),
        ensures
            final(self).wf(),
            ({
                let i = 3 * (row as int) + (column as int);
                if !(row < 3 && column < 3) {
                    r == Err::<(), ErrorKind>(ErrorKind::OutOfBounds) && final(self)@ == old(self)@
                } else if old(self)@[i] is Some {
                    r == Err::<(), ErrorKind>(ErrorKind::CellOccupied) && final(self)@ == old(
                        self,
                    )@
                } else {
                    r == Ok::<(), ErrorKind>(()) && final(self)@ == old(self)@.update(
                        i,
                        Some(mark),
                    )
                }
            }),
    {
        if !(row < 3 && column < 3) {
            return Err(ErrorKind::OutOfBounds);
        }
        let i = 3 * row + column;
        if self.cells[i].is_some() {
            return Err(ErrorKind::CellOccupied);
        }
        self.cells[i] = Some(mark);
        Ok(())
    }

    /// True iff no empty square remains.
    pub fn is_full(&self) -> (r: bool)
        requires
            self.wf(),
        ensures
            r == spec_full(self@),
    {
        let mut i: usize = 0;
        while i < 9
            invariant
                self.wf(),
                i <= 9,
                forall|j: int| 0 <= j < i ==> self@[j] is Some,
            decreases 9 - i,
        {
            if self.cells[i].is_none() {
                return false;
            }
            i += 1;
        }
        true
    }

    /// The winner of this game, if any: `Ok(Some(mark))` iff exactly that
    /// player holds a complete line, `Ok(None)` iff neither does. A board
    /// where both players hold a line is an internal-consistency fault,
    /// reported as `Err(DoubleWin)` rather than silently resolved; lawful
    /// play never reaches it (see `laws::lemma_no_double_line`).
    pub fn winner(&self) -> (r: Result<Option<Mark>, DoubleWin>)
        requires
            self.wf(),
        ensures
            ({
                let xw = line_won(self@, Mark::X);
                let ow = line_won(self@, Mark::O);
                if xw && ow {
                    r == Err::<Option<Mark>, DoubleWin>(DoubleWin)
                } else if xw {
                    r == Ok::<Option<Mark>, DoubleWin>(Some(Mark::X))
                } else if ow {
                    r == Ok::<Option<Mark>, DoubleWin>(Some(Mark::O))
                } else {
                    r == Ok::<Option<Mark>, DoubleWin>(None::<Mark>)
                }
            }),
    {
        let xw = crate::rules::has_line(self, Mark::X);
        let ow = crate::rules::has_line(self, Mark::O);
        if xw && ow {
            Err(DoubleWin)
        } else if xw {
            Ok(Some(Mark::X))
        } else if ow {
            Ok(Some(Mark::O))
        } else {
            Ok(None)
        }
    }

    /// The nine-byte wire serialization of the board, row-major, one of
    /// `.`, `X`, `O` per square.
    pub fn render(&self) -> (r: Vec<u8>)
        requires
            self.wf(),
        ensures
            r@ == board_bytes(self@),
    {
        let mut out: Vec<u8> = Vec::new();
        let mut i: usize = 0;
        while i < 9
            invariant
                self.wf(),
                i <= 9,
                out@.len() == i,
                forall|j: int| 0 <= j < i ==> out@[j] == square_byte(self@[j]),
            decreases 9 - i,
        {
            let b: u8 = match self.cells[i] {
                None => BYTE_DOT,
                Some(Mark::X) => BYTE_X,
                Some(Mark::O) => BYTE_O,
            };
            out.push(b);
            i += 1;
        }
        proof {
            assert(out@ =~= board_bytes(self@));
        }
        out
    }
}

/// True iff every square of the grid is filled.
pub open spec fn spec_full(cells: Seq<Square>) -> bool {
    forall|i: int| 0 <= i < 9 ==> cells[i] is Some
}

impl Default for Board {
    /// The starting board: fully empty.
    fn default() -> (r: Board)
        ensures
            r.wf(),
            r@ == empty_cells(),
    {
        Board::new()
    }
}

} // verus!
