use tictactoe::errors::ErrorKind;
use tictactoe::protocol::{
    dec_u64, handle_line, parse_player, parse_request, parse_u64, render_response, Request,
    Response,
};
use tictactoe::registry::SessionRegistry;
use tictactoe::squares::Mark;

/// One full exchange through the library's own per-line step. Every line
/// inside the grammar keeps the connection open.
fn exchange(reg: &mut SessionRegistry, line: &[u8]) -> Vec<u8> {
    let bytes: Vec<u8> = line.to_vec();
    let (reply, keep_open) = handle_line(reg, &bytes);
    assert_eq!(keep_open, parse_request(&bytes).is_some());
    reply
}

#[test]
fn scenario_create_and_first_move() {
    let mut reg = SessionRegistry::new();
    assert_eq!(exchange(&mut reg, b"CREATE"), b"SESSION 1".to_vec());
    assert_eq!(
        exchange(&mut reg, b"MOVE 1 First 0 0"),
        b"OK X........ Second".to_vec()
    );
}

#[test]
fn scenario_first_wins_top_row() {
    let mut reg = SessionRegistry::new();
    assert_eq!(exchange(&mut reg, b"CREATE"), b"SESSION 1".to_vec());
    assert_eq!(
        exchange(&mut reg, b"MOVE 1 First 0 0"),
        b"OK X........ Second".to_vec()
    );
    assert_eq!(
        exchange(&mut reg, b"MOVE 1 Second 1 0"),
        b"OK X..O..... First".to_vec()
    );
    assert_eq!(
        exchange(&mut reg, b"MOVE 1 First 0 1"),
        b"OK XX.O..... Second".to_vec()
    );
    assert_eq!(
        exchange(&mut reg, b"MOVE 1 Second 1 1"),
        b"OK XX.OO.... First".to_vec()
    );
    assert_eq!(exchange(&mut reg, b"MOVE 1 First 0 2"), b"WIN First".to_vec());
}

#[test]
fn scenario_packed_board_draws() {
    let mut reg = SessionRegistry::new();
    exchange(&mut reg, b"CREATE");
    exchange(&mut reg, b"MOVE 1 First 0 0");
    exchange(&mut reg, b"MOVE 1 Second 0 1");
    exchange(&mut reg, b"MOVE 1 First 0 2");
    exchange(&mut reg, b"MOVE 1 Second 1 1");
    exchange(&mut reg, b"MOVE 1 First 1 0");
    exchange(&mut reg, b"MOVE 1 Second 1 2");
    exchange(&mut reg, b"MOVE 1 First 2 1");
    exchange(&mut reg, b"MOVE 1 Second 2 0");
    assert_eq!(exchange(&mut reg, b"MOVE 1 First 2 2"), b"DRAW".to_vec());
}

#[test]
fn scenario_unknown_session() {
    let mut reg = SessionRegistry::new();
    exchange(&mut reg, b"CREATE");
    assert_eq!(
        exchange(&mut reg, b"MOVE 99 First 0 0"),
        b"ERROR SessionNotFound".to_vec()
    );
}

#[test]
fn scenario_out_of_turn_leaves_board() {
    let mut reg = SessionRegistry::new();
    exchange(&mut reg, b"CREATE");
    assert_eq!(
        exchange(&mut reg, b"MOVE 1 Second 0 0"),
        b"ERROR NotYourTurn".to_vec()
    );
    // The board is untouched: First's opening move still finds it empty.
    assert_eq!(
        exchange(&mut reg, b"MOVE 1 First 0 0"),
        b"OK X........ Second".to_vec()
    );
}

#[test]
fn interleaved_moves_serialize() {
    // Requests arriving from two connections interleave arbitrarily; the
    // outcome matches the serial order in which the session admits them.
    let mut reg = SessionRegistry::new();
    exchange(&mut reg, b"CREATE");
    let replies = [
        (&b"MOVE 1 Second 2 2"[..], &b"ERROR NotYourTurn"[..]),
        (b"MOVE 1 First 1 1", b"OK ....X.... Second"),
        (b"MOVE 1 First 0 0", b"ERROR NotYourTurn"),
        (b"MOVE 1 Second 1 1", b"ERROR IllegalMove"),
        (b"MOVE 1 Second 0 0", b"OK O...X.... First"),
        (b"MOVE 1 First 2 2", b"OK O...X...X Second"),
        (b"MOVE 1 Second 0 2", b"OK O.O.X...X First"),
        (b"MOVE 1 First 0 1", b"OK OXO.X...X Second"),
    ];
    for (line, want) in replies {
        assert_eq!(exchange(&mut reg, line), want.to_vec());
    }
}

#[test]
fn close_is_idempotent_and_final() {
    let mut reg = SessionRegistry::new();
    assert_eq!(exchange(&mut reg, b"CREATE"), b"SESSION 1".to_vec());
    assert_eq!(exchange(&mut reg, b"CREATE"), b"SESSION 2".to_vec());
    assert_eq!(exchange(&mut reg, b"CLOSE 1"), b"OK".to_vec());
    assert_eq!(exchange(&mut reg, b"CLOSE 1"), b"OK".to_vec());
    assert_eq!(
        exchange(&mut reg, b"MOVE 1 First 0 0"),
        b"ERROR SessionNotFound".to_vec()
    );
    // The sibling session is untouched.
    assert_eq!(
        exchange(&mut reg, b"MOVE 2 First 0 0"),
        b"OK X........ Second".to_vec()
    );
    // Ids are never reused: the next session gets a fresh one.
    assert_eq!(exchange(&mut reg, b"CREATE"), b"SESSION 3".to_vec());
}

#[test]
fn game_over_after_win() {
    let mut reg = SessionRegistry::new();
    exchange(&mut reg, b"CREATE");
    exchange(&mut reg, b"MOVE 1 First 0 0");
    exchange(&mut reg, b"MOVE 1 Second 1 0");
    exchange(&mut reg, b"MOVE 1 First 0 1");
    exchange(&mut reg, b"MOVE 1 Second 1 1");
    assert_eq!(exchange(&mut reg, b"MOVE 1 First 0 2"), b"WIN First".to_vec());
    assert_eq!(
        exchange(&mut reg, b"MOVE 1 Second 2 2"),
        b"ERROR GameOver".to_vec()
    );
}

#[test]
fn malformed_lines_rejected() {
    let mut reg = SessionRegistry::new();
    exchange(&mut reg, b"CREATE");
    for line in [
        &b""[..],
        b" ",
        b"create",
        b"CREATE ",
        b"CREATE 1",
        b"MOVE",
        b"MOVE 1 First 0",
        b"MOVE 1 First 0 0 0",
        b"MOVE  1 First 0 0",
        b"MOVE 01 First 0 0",
        b"MOVE x First 0 0",
        b"MOVE 1 Third 0 0",
        b"MOVE 1 first 0 0",
        b"MOVE 18446744073709551616 First 0 0",
        b"CLOSE",
        b"CLOSE one",
    ] {
        // Each is answered and then closes the connection.
        let (reply, keep_open) = handle_line(&mut reg, &line.to_vec());
        assert_eq!(reply, b"ERROR Malformed".to_vec());
        assert!(!keep_open);
    }
    // A malformed line changes nothing: the session created above is live.
    assert_eq!(
        exchange(&mut reg, b"MOVE 1 First 0 0"),
        b"OK X........ Second".to_vec()
    );
}

#[test]
fn off_grid_coordinates_are_illegal_moves() {
    let mut reg = SessionRegistry::new();
    exchange(&mut reg, b"CREATE");
    assert_eq!(
        exchange(&mut reg, b"MOVE 1 First 3 0"),
        b"ERROR IllegalMove".to_vec()
    );
    assert_eq!(
        exchange(&mut reg, b"MOVE 1 First 0 18446744073709551615"),
        b"ERROR IllegalMove".to_vec()
    );
}

#[test]
fn numbers_render_and_parse_canonically() {
    assert_eq!(dec_u64(0), b"0".to_vec());
    assert_eq!(dec_u64(7), b"7".to_vec());
    assert_eq!(dec_u64(12345), b"12345".to_vec());
    assert_eq!(dec_u64(u64::MAX), b"18446744073709551615".to_vec());

    assert_eq!(parse_u64(&b"0".to_vec()), Some(0));
    assert_eq!(parse_u64(&b"12345".to_vec()), Some(12345));
    assert_eq!(parse_u64(&b"18446744073709551615".to_vec()), Some(u64::MAX));
    assert_eq!(parse_u64(&b"18446744073709551616".to_vec()), None);
    assert_eq!(parse_u64(&b"".to_vec()), None);
    assert_eq!(parse_u64(&b"01".to_vec()), None);
    assert_eq!(parse_u64(&b"1 2".to_vec()), None);
    assert_eq!(parse_u64(&b"-1".to_vec()), None);
}

#[test]
fn player_tokens() {
    assert_eq!(parse_player(&b"First".to_vec()), Some(Mark::X));
    assert_eq!(parse_player(&b"Second".to_vec()), Some(Mark::O));
    assert_eq!(parse_player(&b"first"[..].to_vec()), None);
    assert_eq!(parse_player(&b"X".to_vec()), None);
}

#[test]
fn requests_parse_exactly() {
    assert_eq!(parse_request(&b"CREATE".to_vec()), Some(Request::Create));
    assert_eq!(
        parse_request(&b"MOVE 7 Second 2 1".to_vec()),
        Some(Request::Move { id: 7, player: Mark::O, row: 2, col: 1 })
    );
    assert_eq!(
        parse_request(&b"CLOSE 42".to_vec()),
        Some(Request::Close { id: 42 })
    );
    assert_eq!(parse_request(&b"CLOSE 42 ".to_vec()), None);
}

#[test]
fn every_error_kind_has_a_wire_name() {
    let cases = [
        (ErrorKind::NotYourTurn, &b"ERROR NotYourTurn"[..]),
        (ErrorKind::GameOver, b"ERROR GameOver"),
        (ErrorKind::IllegalMove, b"ERROR IllegalMove"),
        (ErrorKind::SessionNotFound, b"ERROR SessionNotFound"),
        (ErrorKind::OutOfBounds, b"ERROR OutOfBounds"),
        (ErrorKind::CellOccupied, b"ERROR CellOccupied"),
        (ErrorKind::Malformed, b"ERROR Malformed"),
    ];
    for (kind, want) in cases {
        assert_eq!(render_response(&Response::Error(kind)), want.to_vec());
    }
}

#[test]
fn responses_render_exactly() {
    assert_eq!(render_response(&Response::Session(10)), b"SESSION 10".to_vec());
    assert_eq!(render_response(&Response::Closed), b"OK".to_vec());
    assert_eq!(render_response(&Response::Draw), b"DRAW".to_vec());
    assert_eq!(render_response(&Response::Win(Mark::O)), b"WIN Second".to_vec());
    assert_eq!(
        render_response(&Response::Accepted { board: b"X...O....".to_vec(), next: Mark::X }),
        b"OK X...O.... First".to_vec()
    );
}
