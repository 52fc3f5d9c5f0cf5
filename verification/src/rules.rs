//! The rules engine: stateless queries over a board.

use vstd::prelude::*;

use crate::board::{spec_full, Board};
use crate::squares::{Mark, Square};

verus! {

/// True iff the square at index `i` is marked by `p`.
pub open spec fn marked(cells: Seq<Square>, i: int, p: Mark) -> bool {
    cells[i] == Some(p)
}

/// True iff `p` holds one of the eight winning lines: three rows, three
/// columns, two diagonals (indices are row-major over the 3x3 grid).
pub open spec fn line_won(cells: Seq<Square>, p: Mark) -> bool {
    ||| (marked(cells, 0, p) && marked(cells, 1, p) && marked(cells, 2, p))
    ||| (marked(cells, 3, p) && marked(cells, 4, p) && marked(cells, 5, p))
    ||| (marked(cells, 6, p) && marked(cells, 7, p) && marked(cells, 8, p))
    ||| (marked(cells, 0, p) && marked(cells, 3, p) && marked(cells, 6, p))
    ||| (marked(cells, 1, p) && marked(cells, 4, p) && marked(cells, 7, p))
    ||| (marked(cells, 2, p) && marked(cells, 5, p) && marked(cells, 8, p))
    ||| (marked(cells, 0, p) && marked(cells, 4, p) && marked(cells, 8, p))
    ||| (marked(cells, 2, p) && marked(cells, 4, p) && marked(cells, 6, p))
}

/// True iff `(row, col)` is on the grid and the square there is empty.
pub open spec fn spec_legal(cells: Seq<Square>, row: int, col: int) -> bool {
    &&& 0 <= row < 3
    &&& 0 <= col < 3
    &&& cells[3 * row + col] is None
}

/// How many squares `p` has marked.
pub open spec fn count_marks(cells: Seq<Square>, p: Mark) -> int
    decreases cells.len(),
{
    if cells.len() == 0 {
        0
    } else {
        count_marks(cells.drop_last(), p) + if cells.last() == Some(p) {
            1int
        } else {
            0int
        }
    }
}

/// True iff `p` holds a complete line on `b`.
pub fn has_line(b: &Board, p: Mark) -> (r: bool)
    requires
        b.wf(),
    ensures
        r == line_won(b@, p),
{
    let c = &b.cells;
    (sq_is(c, 0, p) && sq_is(c, 1, p) && sq_is(c, 2, p)) || (sq_is(c, 3, p) && sq_is(c, 4, p)
        && sq_is(c, 5, p)) || (sq_is(c, 6, p) && sq_is(c, 7, p) && sq_is(c, 8, p)) || (sq_is(
        c,
        0,
        p,
    ) && sq_is(c, 3, p) && sq_is(c, 6, p)) || (sq_is(c, 1, p) && sq_is(c, 4, p) && sq_is(c, 7, p))
        || (sq_is(c, 2, p) && sq_is(c, 5, p) && sq_is(c, 8, p)) || (sq_is(c, 0, p) && sq_is(c, 4, p)
        && sq_is(c, 8, p)) || (sq_is(c, 2, p) && sq_is(c, 4, p) && sq_is(c, 6, p))
}

/// True iff the square at index `i` holds `p`'s mark.
fn sq_is(c: &Vec<Square>, i: usize, p: Mark) -> (r: bool)
    requires
        i < c@.len(),
    ensures
        r == marked(c@, i as int, p),
{
    match c[i] {
        Some(q) => q == p,
        None => false,
    }
}

/// True iff the proposed move is legal: indices in range and the target
/// square empty.
pub fn legal_move(b: &Board, row: usize, col: usize) -> (r: bool)
    requires
        b.wf(),
    ensures
        r == spec_legal(b@, row as int, col as int),
{
    row < 3 && col < 3 && {
        let s = b.cells[3 * row + col];
        s.is_none()
    }
}

/// True iff the game is drawn: the board is full and neither player holds
/// a line.
pub fn is_draw(b: &Board) -> (r: bool)
    requires
        b.wf(),
    ensures
        r == (spec_full(b@) && !line_won(b@, Mark::X) && !line_won(b@, Mark::O)),
{
    b.is_full() && !has_line(b, Mark::X) && !has_line(b, Mark::O)
}

} // verus!
