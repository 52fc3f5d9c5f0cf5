use tictactoe::errors::ErrorKind;
use tictactoe::session::{GameSession, GameState};
use tictactoe::squares::Mark;

#[test]
fn turns_alternate_strictly() {
    let mut s = GameSession::new();
    assert_eq!(s.state, GameState::InProgress(Mark::X));
    assert_eq!(s.apply_move(Mark::X, 0, 0), Ok(GameState::InProgress(Mark::O)));
    // The same player may not move twice in a row.
    assert_eq!(s.apply_move(Mark::X, 1, 1), Err(ErrorKind::NotYourTurn));
    assert_eq!(s.apply_move(Mark::O, 1, 1), Ok(GameState::InProgress(Mark::X)));
    assert_eq!(s.apply_move(Mark::O, 2, 2), Err(ErrorKind::NotYourTurn));
    assert_eq!(s.apply_move(Mark::X, 2, 2), Ok(GameState::InProgress(Mark::O)));
}

#[test]
fn second_cannot_open_the_game() {
    let mut s = GameSession::new();
    assert_eq!(s.apply_move(Mark::O, 0, 0), Err(ErrorKind::NotYourTurn));
    // The rejection mutated nothing.
    assert_eq!(s.board.render(), b".........".to_vec());
    assert_eq!(s.state, GameState::InProgress(Mark::X));
}

#[test]
fn illegal_moves_rejected() {
    let mut s = GameSession::new();
    assert_eq!(s.apply_move(Mark::X, 3, 0), Err(ErrorKind::IllegalMove));
    assert_eq!(s.apply_move(Mark::X, 0, 0), Ok(GameState::InProgress(Mark::O)));
    // The occupied square is no longer a legal target for anyone.
    assert_eq!(s.apply_move(Mark::O, 0, 0), Err(ErrorKind::IllegalMove));
}

#[test]
fn retry_of_applied_move_is_rejected() {
    let mut s = GameSession::new();
    assert_eq!(s.apply_move(Mark::X, 0, 0), Ok(GameState::InProgress(Mark::O)));
    let before = s.board.render();
    // Retrying the identical move is not silently applied again.
    assert_eq!(s.apply_move(Mark::X, 0, 0), Err(ErrorKind::NotYourTurn));
    assert_eq!(s.board.render(), before);
}

#[test]
fn winning_line_ends_the_game() {
    let mut s = GameSession::new();
    s.apply_move(Mark::X, 0, 0).unwrap();
    s.apply_move(Mark::O, 1, 0).unwrap();
    s.apply_move(Mark::X, 0, 1).unwrap();
    s.apply_move(Mark::O, 1, 1).unwrap();
    assert_eq!(s.apply_move(Mark::X, 0, 2), Ok(GameState::Won(Mark::X)));
}

#[test]
fn terminal_session_rejects_every_move() {
    let mut s = GameSession::new();
    s.apply_move(Mark::X, 0, 0).unwrap();
    s.apply_move(Mark::O, 1, 0).unwrap();
    s.apply_move(Mark::X, 0, 1).unwrap();
    s.apply_move(Mark::O, 1, 1).unwrap();
    s.apply_move(Mark::X, 0, 2).unwrap();
    let frozen = s.board.render();
    assert_eq!(s.apply_move(Mark::O, 2, 2), Err(ErrorKind::GameOver));
    assert_eq!(s.apply_move(Mark::X, 2, 2), Err(ErrorKind::GameOver));
    assert_eq!(s.board.render(), frozen);
    assert_eq!(s.state, GameState::Won(Mark::X));
}

#[test]
fn packed_board_without_line_draws() {
    let mut s = GameSession::new();
    s.apply_move(Mark::X, 0, 0).unwrap();
    s.apply_move(Mark::O, 0, 1).unwrap();
    s.apply_move(Mark::X, 0, 2).unwrap();
    s.apply_move(Mark::O, 1, 1).unwrap();
    s.apply_move(Mark::X, 1, 0).unwrap();
    s.apply_move(Mark::O, 1, 2).unwrap();
    s.apply_move(Mark::X, 2, 1).unwrap();
    s.apply_move(Mark::O, 2, 0).unwrap();
    assert_eq!(s.apply_move(Mark::X, 2, 2), Ok(GameState::Drawn));
    assert_eq!(s.board.render(), b"XOXXOOOXX".to_vec());
}
