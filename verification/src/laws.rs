//! The laws of the game, stated and proved once for all positions.

use vstd::prelude::*;

use crate::errors::ErrorKind;
use crate::rules::{count_marks, line_won, spec_legal};
use crate::session::{spec_step, state_wf, GameSession, GameState};
use crate::squares::{Mark, Square};

verus! {

/// A board with no marks has a zero count for every player.
pub proof fn lemma_count_all_empty(cells: Seq<Square>, p: Mark)
    requires
        forall|i: int| 0 <= i < cells.len() ==> cells[i] is None,
    ensures
        count_marks(cells, p) == 0,
    decreases cells.len(),
{
    if cells.len() > 0 {
        lemma_count_all_empty(cells.drop_last(), p);
    }
}

/// Marking one empty square raises the mover's count by one and leaves the
/// other player's count unchanged.
pub proof fn lemma_count_update(cells: Seq<Square>, i: int, m: Mark, p: Mark)
    requires
        0 <= i < cells.len(),
        cells[i] is None,
    ensures
        count_marks(cells.update(i, Some(m)), p) == count_marks(cells, p) + if p == m {
            1int
        } else {
            0int
        },
    decreases cells.len(),
{
    let c2 = cells.update(i, Some(m));
    if i == cells.len() - 1 {
        assert(c2.drop_last() =~= cells.drop_last());
        assert(c2.last() == Some(m));
    } else {
        lemma_count_update(cells.drop_last(), i, m, p);
        assert(c2.drop_last() =~= cells.drop_last().update(i, Some(m)));
        assert(c2.last() == cells.last());
    }
}

/// The two counts together never exceed the number of squares, and reach it
/// exactly on a full board.
pub proof fn lemma_counts_total(cells: Seq<Square>)
    ensures
        count_marks(cells, Mark::X) + count_marks(cells, Mark::O) <= cells.len(),
        (forall|i: int| 0 <= i < cells.len() ==> cells[i] is Some) ==> count_marks(cells, Mark::X)
            + count_marks(cells, Mark::O) == cells.len(),
    decreases cells.len(),
{
    if cells.len() > 0 {
        lemma_counts_total(cells.drop_last());
        if forall|i: int| 0 <= i < cells.len() ==> cells[i] is Some {
            assert forall|i: int| 0 <= i < cells.drop_last().len() implies cells.drop_last()[i]
                is Some by {
                assert(cells.drop_last()[i] == cells[i]);
            }
            assert(cells.last() == cells[cells.len() - 1]);
            match cells.last() {
                Some(q) => {
                    assert(q == Mark::X || q == Mark::O);
                },
                None => {
                    assert(false);
                },
            }
        }
    }
}

/// At most one winner ever arises: a move made on a board where neither
/// player holds a line can complete a line only for the mover, never for
/// the opponent.
pub proof fn lemma_no_double_line(cells: Seq<Square>, row: int, col: int, p: Mark)
    requires
        cells.len() == 9,
        !line_won(cells, Mark::X),
        !line_won(cells, Mark::O),
        spec_legal(cells, row, col),
    ensures
        !line_won(cells.update(3 * row + col, Some(p)), p.spec_other()),
{
    let q = p.spec_other();
    assert(q != p);
    assert(!line_won(cells, q));
}

/// In a well-formed position the two players never both hold a line, so
/// `winner` reports at most one player and the double-line fault is
/// unreachable through lawful play.
pub proof fn lemma_at_most_one_winner(s: GameSession)
    requires
        s.wf(),
    ensures
        !(line_won(s.board@, Mark::X) && line_won(s.board@, Mark::O)),
{
}

/// Strict alternation. A step is accepted only from an in-progress position
/// whose turn belongs to the mover; the step leads again to a well-formed
/// position, which is in progress with the turn flipped, won by the mover,
/// or drawn. By induction over a run of accepted moves, the session walks
/// `InProgress -> InProgress -> ... -> {Won | Drawn}` and the same player
/// never moves twice in a row.
pub proof fn lemma_step_alternation(
    cells: Seq<Square>,
    st: GameState,
    player: Mark,
    row: int,
    col: int,
)
    requires
        state_wf(cells, st),
    ensures
        ({
            let (c2, st2, e) = spec_step(cells, st, player, row, col);
            &&& state_wf(c2, st2)
            &&& e is None ==> st == GameState::InProgress(player)
            &&& e is None ==> match st2 {
                GameState::InProgress(t) => t == player.spec_other(),
                GameState::Won(w) => w == player,
                GameState::Drawn => true,
            }
        }),
{
    let (c2, st2, e) = spec_step(cells, st, player, row, col);
    if e is None {
        lemma_no_double_line(cells, row, col, player);
        lemma_count_update(cells, 3 * row + col, player, Mark::X);
        lemma_count_update(cells, 3 * row + col, player, Mark::O);
        if st2 is Drawn {
            lemma_counts_total(c2);
        }
    }
}

/// A whole run of attempted moves, applied in order.
pub open spec fn spec_run(
    cells: Seq<Square>,
    st: GameState,
    moves: Seq<(Mark, int, int)>,
) -> (Seq<Square>, GameState)
    decreases moves.len(),
{
    if moves.len() == 0 {
        (cells, st)
    } else {
        let (player, row, col) = moves[0];
        let (c2, st2, _) = spec_step(cells, st, player, row, col);
        spec_run(c2, st2, moves.skip(1))
    }
}

/// Every sequence of attempted moves keeps the session well-formed: the
/// session walks `InProgress -> InProgress -> ... -> {Won | Drawn}`, each
/// accepted move belonging to the player whose turn it then is.
pub proof fn lemma_run_preserves_wf(cells: Seq<Square>, st: GameState, moves: Seq<(Mark, int, int)>)
    requires
        state_wf(cells, st),
    ensures
        state_wf(spec_run(cells, st, moves).0, spec_run(cells, st, moves).1),
    decreases moves.len(),
{
    if moves.len() > 0 {
        let (player, row, col) = moves[0];
        lemma_step_alternation(cells, st, player, row, col);
        let (c2, st2, _) = spec_step(cells, st, player, row, col);
        lemma_run_preserves_wf(c2, st2, moves.skip(1));
    }
}

/// A terminal session is frozen: every move against it fails with
/// `GameOver` and the board is untouched.
pub proof fn lemma_terminal_rejects(
    cells: Seq<Square>,
    st: GameState,
    player: Mark,
    row: int,
    col: int,
)
    requires
        st is Won || st is Drawn,
    ensures
        spec_step(cells, st, player, row, col) == (cells, st, Some(ErrorKind::GameOver)),
{
}

/// Retrying a move that just succeeded is rejected, not silently applied
/// twice: the game has either ended (`GameOver`) or passed to the other
/// player (`NotYourTurn`), the just-marked square is no longer a legal
/// target, and the retry leaves board and state exactly as the first
/// application left them.
pub proof fn lemma_retry_rejected(
    cells: Seq<Square>,
    st: GameState,
    player: Mark,
    row: int,
    col: int,
)
    requires
        state_wf(cells, st),
        spec_step(cells, st, player, row, col).2 is None,
    ensures
        ({
            let (c2, st2, e) = spec_step(cells, st, player, row, col);
            let (c3, st3, e2) = spec_step(c2, st2, player, row, col);
            &&& e2 == Some(
                if st2 is InProgress {
                    ErrorKind::NotYourTurn
                } else {
                    ErrorKind::GameOver
                },
            )
            &&& !spec_legal(c2, row, col)
            &&& c3 == c2
            &&& st3 == st2
        }),
{
    lemma_step_alternation(cells, st, player, row, col);
}

} // verus!
