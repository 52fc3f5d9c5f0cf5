//! The text wire protocol: one request line in, one response line out.
//!
//! Requests: `CREATE`, `MOVE <id> <player> <row> <col>`, `CLOSE <id>`.
//! Responses: `SESSION <id>`, `OK <board> <next-turn>`, `WIN <player>`,
//! `DRAW`, `OK`, `ERROR <kind>`. Numbers are canonical decimals, players
//! are `First` and `Second`, and the board is nine bytes of `.`, `X`, `O`
//! in row-major order.

use vstd::prelude::*;

use crate::board::board_bytes;
use crate::errors::ErrorKind;
use crate::registry::SessionRegistry;
use crate::session::{spec_step, GameState};
use crate::squares::{Mark, Square};

verus! {

/// ASCII space: the token separator.
pub const BYTE_SPACE: u8 = 32;

/// ASCII `0`.
pub const BYTE_ZERO: u8 = 48;

/// ASCII `9`.
pub const BYTE_NINE: u8 = 57;

// ---------------------------------------------------------------------------
// Requests and responses
// ---------------------------------------------------------------------------
/// A parsed client request.
#[derive(PartialEq, Eq, Structural, Clone, Copy, Debug)]
pub enum Request {
    Create,
    Move { id: u64, player: Mark, row: u64, col: u64 },
    Close { id: u64 },
}

/// The answer to one request, before serialization. `Accepted` carries the
/// nine-byte board serialization and the player to move next.
#[derive(PartialEq, Eq, Debug)]
pub enum Response {
    Session(u64),
    Accepted { board: Vec<u8>, next: Mark },
    Win(Mark),
    Draw,
    Closed,
    Error(ErrorKind),
}

// ---------------------------------------------------------------------------
// The protocol's words, as byte sequences
// ---------------------------------------------------------------------------
/// The bytes of `CREATE`.
pub open spec fn kw_create() -> Seq<u8> {
    seq![67u8, 82u8, 69u8, 65u8, 84u8, 69u8]
}

/// The bytes of `MOVE`.
pub open spec fn kw_move() -> Seq<u8> {
    seq![77u8, 79u8, 86u8, 69u8]
}

/// The bytes of `CLOSE`.
pub open spec fn kw_close() -> Seq<u8> {
    seq![67u8, 76u8, 79u8, 83u8, 69u8]
}

/// The bytes of `SESSION ` (with its trailing separator).
pub open spec fn kw_session_prefix() -> Seq<u8> {
    seq![83u8, 69u8, 83u8, 83u8, 73u8, 79u8, 78u8, 32u8]
}

/// The bytes of `OK`.
pub open spec fn kw_ok() -> Seq<u8> {
    seq![79u8, 75u8]
}

/// The bytes of `WIN ` (with its trailing separator).
pub open spec fn kw_win_prefix() -> Seq<u8> {
    seq![87u8, 73u8, 78u8, 32u8]
}

/// The bytes of `DRAW`.
pub open spec fn kw_draw() -> Seq<u8> {
    seq![68u8, 82u8, 65u8, 87u8]
}

/// The bytes of `ERROR ` (with its trailing separator).
pub open spec fn kw_error_prefix() -> Seq<u8> {
    seq![69u8, 82u8, 82u8, 79u8, 82u8, 32u8]
}

/// The bytes of `First`.
pub open spec fn name_first() -> Seq<u8> {
    seq![70u8, 105u8, 114u8, 115u8, 116u8]
}

/// The bytes of `Second`.
pub open spec fn name_second() -> Seq<u8> {
    seq![83u8, 101u8, 99u8, 111u8, 110u8, 100u8]
}

/// The wire name of a player: `X` is `First`, `O` is `Second`.
pub open spec fn player_name(p: Mark) -> Seq<u8> {
    match p {
        Mark::X => name_first(),
        Mark::O => name_second(),
    }
}

/// The wire name of an error kind.
pub open spec fn error_name(k: ErrorKind) -> Seq<u8> {
    match k {
        ErrorKind::NotYourTurn => seq![
            78u8,
            111u8,
            116u8,
            89u8,
            111u8,
            117u8,
            114u8,
            84u8,
            117u8,
            114u8,
            110u8,
        ],
        ErrorKind::GameOver => seq![71u8, 97u8, 109u8, 101u8, 79u8, 118u8, 101u8, 114u8],
        ErrorKind::IllegalMove => seq![
            73u8,
            108u8,
            108u8,
            101u8,
            103u8,
            97u8,
            108u8,
            77u8,
            111u8,
            118u8,
            101u8,
        ],
        ErrorKind::SessionNotFound => seq![
            83u8,
            101u8,
            115u8,
            115u8,
            105u8,
            111u8,
            110u8,
            78u8,
            111u8,
            116u8,
            70u8,
            111u8,
            117u8,
            110u8,
            100u8,
        ],
        ErrorKind::OutOfBounds => seq![
            79u8,
            117u8,
            116u8,
            79u8,
            102u8,
            66u8,
            111u8,
            117u8,
            110u8,
            100u8,
            115u8,
        ],
        ErrorKind::CellOccupied => seq![
            67u8,
            101u8,
            108u8,
            108u8,
            79u8,
            99u8,
            99u8,
            117u8,
            112u8,
            105u8,
            101u8,
            100u8,
        ],
        ErrorKind::Malformed => seq![77u8, 97u8, 108u8, 102u8, 111u8, 114u8, 109u8, 101u8, 100u8],
    }
}

// ---------------------------------------------------------------------------
// Decimal numbers
// ---------------------------------------------------------------------------
/// True iff the byte is an ASCII digit.
pub open spec fn is_digit(b: u8) -> bool {
    BYTE_ZERO <= b && b <= BYTE_NINE
}

/// True iff every byte of the token is a digit.
pub open spec fn all_digits(s: Seq<u8>) -> bool {
    forall|i: int| 0 <= i < s.len() ==> is_digit(#[trigger] s[i])
}

/// The value of a digit string, most significant first.
pub open spec fn digits_val(s: Seq<u8>) -> int
    decreases s.len(),
{
    if s.len() == 0 {
        0
    } else {
        digits_val(s.drop_last()) * 10 + (s.last() - BYTE_ZERO)
    }
}

/// True iff the token is a canonical decimal: non-empty, all digits, and
/// without a superfluous leading zero.
pub open spec fn is_canonical_number(s: Seq<u8>) -> bool {
    &&& s.len() > 0
    &&& all_digits(s)
    &&& (s.len() == 1 || s[0] != BYTE_ZERO)
}

/// What a number token parses to: its value, when the token is a canonical
/// decimal and the value fits; nothing otherwise.
pub open spec fn spec_parse_u64(s: Seq<u8>) -> Option<u64> {
    if is_canonical_number(s) && digits_val(s) <= u64::MAX {
        Some(digits_val(s) as u64)
    } else {
        None
    }
}

/// The canonical decimal rendering of a number.
pub open spec fn spec_dec_u64(v: int) -> Seq<u8>
    recommends
        v >= 0,
    decreases v,
{
    if v < 10 {
        seq![(BYTE_ZERO + v) as u8]
    } else {
        spec_dec_u64(v / 10).push((BYTE_ZERO + v % 10) as u8)
    }
}

proof fn lemma_all_digits_drop_last(s: Seq<u8>)
    requires
        all_digits(s),
        s.len() > 0,
    ensures
        all_digits(s.drop_last()),
{
    assert forall|i: int| 0 <= i < s.drop_last().len() implies is_digit(#[trigger] s.drop_last()[i]) by {
        assert(s.drop_last()[i] == s[i]);
    }
}

proof fn lemma_digits_val_nonneg(s: Seq<u8>)
    requires
        all_digits(s),
    ensures
        digits_val(s) >= 0,
    decreases s.len(),
{
    if s.len() > 0 {
        lemma_all_digits_drop_last(s);
        lemma_digits_val_nonneg(s.drop_last());
        assert(s.last() == s[s.len() - 1]);
        assert(is_digit(s.last()));
    }
}

proof fn lemma_digits_val_prefix_le(s: Seq<u8>, i: int, j: int)
    requires
        all_digits(s),
        0 <= i <= j <= s.len(),
    ensures
        digits_val(s.subrange(0, i)) <= digits_val(s.subrange(0, j)),
    decreases j - i,
{
    if i < j {
        lemma_digits_val_prefix_le(s, i, j - 1);
        let pre = s.subrange(0, j - 1);
        let cur = s.subrange(0, j);
        assert(cur.drop_last() =~= pre);
        assert forall|k: int| 0 <= k < pre.len() implies is_digit(#[trigger] pre[k]) by {
            assert(pre[k] == s[k]);
        }
        lemma_digits_val_nonneg(pre);
        assert(cur.last() == s[j - 1]);
        assert(is_digit(s[j - 1]));
    }
}

/// Parses a canonical decimal that fits in a `u64`; every other token is
/// rejected.
pub fn parse_u64(t: &Vec<u8>) -> (r: Option<u64>)
    ensures
        r == spec_parse_u64(t@),
{
    let n = t.len();
    if n == 0 {
        return None;
    }
    let mut i: usize = 0;
    while i < n
        invariant
            n == t@.len(),
            i <= n,
            forall|j: int| 0 <= j < i ==> is_digit(#[trigger] t@[j]),
        decreases n - i,
    {
        let b = t[i];
        if b < BYTE_ZERO || b > BYTE_NINE {
            return None;
        }
        i += 1;
    }
    if n > 1 && t[0] == BYTE_ZERO {
        return None;
    }
    proof {
        assert(is_canonical_number(t@));
    }
    let limit: u64 = u64::MAX / 10;
    let mut v: u64 = 0;
    let mut k: usize = 0;
    while k < n
        invariant
            n == t@.len(),
            k <= n,
            all_digits(t@),
            is_canonical_number(t@),
            limit == u64::MAX / 10,
            v == digits_val(t@.subrange(0, k as int)),
        decreases n - k,
    {
        proof {
            assert(is_digit(t@[k as int]));
        }
        let d = t[k] - BYTE_ZERO;
        let dd = d as u64;
        proof {
            assert(t@.subrange(0, k as int + 1).drop_last() =~= t@.subrange(0, k as int));
            assert(t@.subrange(0, k as int + 1).last() == t@[k as int]);
        }
        if v > limit || (v == limit && dd > 5) {
            proof {
                assert(digits_val(t@.subrange(0, k as int + 1)) > u64::MAX);
                lemma_digits_val_prefix_le(t@, k as int + 1, n as int);
                assert(t@.subrange(0, n as int) =~= t@);
            }
            return None;
        }
        v = v * 10 + dd;
        k += 1;
    }
    proof {
        assert(t@.subrange(0, n as int) =~= t@);
    }
    Some(v)
}

/// Renders a number as its canonical decimal.
pub fn dec_u64(v: u64) -> (r: Vec<u8>)
    ensures
        r@ == spec_dec_u64(v as int),
    decreases v,
{
    if v < 10 {
        let mut r: Vec<u8> = Vec::new();
        r.push(BYTE_ZERO + (v as u8));
        proof {
            assert(r@ =~= spec_dec_u64(v as int));
        }
        r
    } else {
        let mut r = dec_u64(v / 10);
        r.push(BYTE_ZERO + ((v % 10) as u8));
        r
    }
}

// ---------------------------------------------------------------------------
// Tokenizing
// ---------------------------------------------------------------------------
/// Splits a line at each space. Every separator bounds a token, so runs of
/// spaces and leading or trailing ones produce empty tokens, which no
/// request form accepts.
pub open spec fn spec_split(s: Seq<u8>) -> Seq<Seq<u8>>
    decreases s.len(),
{
    if s.len() == 0 {
        seq![Seq::<u8>::empty()]
    } else if s[0] == BYTE_SPACE {
        seq![Seq::<u8>::empty()] + spec_split(s.skip(1))
    } else {
        let rest = spec_split(s.skip(1));
        seq![seq![s[0]] + rest[0]] + rest.skip(1)
    }
}

proof fn lemma_split_nonempty(s: Seq<u8>)
    ensures
        spec_split(s).len() >= 1,
    decreases s.len(),
{
    if s.len() > 0 {
        lemma_split_nonempty(s.skip(1));
    }
}

fn split_from(s: &Vec<u8>, from: usize) -> (r: Vec<Vec<u8>>)
    requires
        from <= s@.len(),
    ensures
        r.deep_view() == spec_split(s@.skip(from as int)),
        r@.len() >= 1,
    decreases s@.len() - from,
{
    if from == s.len() {
        let mut r: Vec<Vec<u8>> = Vec::new();
        let t: Vec<u8> = Vec::new();
        r.push(t);
        proof {
            assert(s@.skip(from as int) =~= Seq::<u8>::empty());
            assert(r.deep_view() =~~= spec_split(s@.skip(from as int)));
        }
        r
    } else if s[from] == BYTE_SPACE {
        let mut r = split_from(s, from + 1);
        let t: Vec<u8> = Vec::new();
        r.insert(0, t);
        proof {
            assert(s@.skip(from as int)[0] == s@[from as int]);
            assert(s@.skip(from as int).skip(1) =~= s@.skip(from as int + 1));
            assert(r.deep_view() =~~= spec_split(s@.skip(from as int)));
        }
        r
    } else {
        let mut r = split_from(s, from + 1);
        proof {
            lemma_split_nonempty(s@.skip(from as int + 1));
        }
        let mut head: Vec<u8> = r.remove(0);
        head.insert(0, s[from]);
        r.insert(0, head);
        proof {
            assert(s@.skip(from as int)[0] == s@[from as int]);
            assert(s@.skip(from as int).skip(1) =~= s@.skip(from as int + 1));
            assert(r.deep_view() =~~= spec_split(s@.skip(from as int)));
        }
        r
    }
}

/// The tokens of a line, split at each space.
pub fn split_tokens(s: &Vec<u8>) -> (r: Vec<Vec<u8>>)
    ensures
        r.deep_view() == spec_split(s@),
        r@.len() >= 1,
{
    let r = split_from(s, 0);
    proof {
        assert(s@.skip(0) =~= s@);
    }
    r
}

// ---------------------------------------------------------------------------
// Parsing requests
// ---------------------------------------------------------------------------
/// What a player token parses to.
pub open spec fn spec_parse_player(t: Seq<u8>) -> Option<Mark> {
    if t == name_first() {
        Some(Mark::X)
    } else if t == name_second() {
        Some(Mark::O)
    } else {
        None
    }
}

/// The request grammar: `CREATE`, `MOVE <id> <player> <row> <col>` or
/// `CLOSE <id>`, with single spaces between tokens, canonical decimal
/// numbers and the player names `First` and `Second`. Everything else is
/// malformed.
pub open spec fn spec_parse_request(s: Seq<u8>) -> Option<Request> {
    let toks = spec_split(s);
    if toks.len() == 1 && toks[0] == kw_create() {
        Some(Request::Create)
    } else if toks.len() == 5 && toks[0] == kw_move() {
        match (spec_parse_u64(toks[1]), spec_parse_player(toks[2]), spec_parse_u64(toks[3]), spec_parse_u64(toks[4])) {
            (Some(id), Some(player), Some(row), Some(col)) => Some(
                Request::Move { id, player, row, col },
            ),
            _ => None,
        }
    } else if toks.len() == 2 && toks[0] == kw_close() {
        match spec_parse_u64(toks[1]) {
            Some(id) => Some(Request::Close { id }),
            None => None,
        }
    } else {
        None
    }
}

fn is_create(t: &Vec<u8>) -> (r: bool)
    ensures
        r == (t@ == kw_create()),
{
    let r = t.len() == 6 && t[0] == 67 && t[1] == 82 && t[2] == 69 && t[3] == 65 && t[4] == 84
        && t[5] == 69;
    proof {
        if r {
            assert(t@ =~= kw_create());
        }
    }
    r
}

fn is_move(t: &Vec<u8>) -> (r: bool)
    ensures
        r == (t@ == kw_move()),
{
    let r = t.len() == 4 && t[0] == 77 && t[1] == 79 && t[2] == 86 && t[3] == 69;
    proof {
        if r {
            assert(t@ =~= kw_move());
        }
    }
    r
}

fn is_close(t: &Vec<u8>) -> (r: bool)
    ensures
        r == (t@ == kw_close()),
{
    let r = t.len() == 5 && t[0] == 67 && t[1] == 76 && t[2] == 79 && t[3] == 83 && t[4] == 69;
    proof {
        if r {
            assert(t@ =~= kw_close());
        }
    }
    r
}

/// Parses a player token: `First` or `Second`.
pub fn parse_player(t: &Vec<u8>) -> (r: Option<Mark>)
    ensures
        r == spec_parse_player(t@),
{
    if t.len() == 5 && t[0] == 70 && t[1] == 105 && t[2] == 114 && t[3] == 115 && t[4] == 116 {
        proof {
            assert(t@ =~= name_first());
        }
        Some(Mark::X)
    } else if t.len() == 6 && t[0] == 83 && t[1] == 101 && t[2] == 99 && t[3] == 111 && t[4] == 110
        && t[5] == 100 {
        proof {
            assert(t@ =~= name_second());
        }
        Some(Mark::O)
    } else {
        None
    }
}

/// Parses one request line; anything outside the grammar is rejected.
pub fn parse_request(line: &Vec<u8>) -> (r: Option<Request>)
    ensures
        r == spec_parse_request(line@),
{
    let toks = split_tokens(line);
    proof {
        assert(toks@.len() == spec_split(line@).len());
        assert forall|i: int| 0 <= i < toks@.len() implies toks@[i]@ == spec_split(line@)[i] by {
            assert(toks.deep_view()[i] == spec_split(line@)[i]);
        }
    }
    if toks.len() == 1 && is_create(&toks[0]) {
        Some(Request::Create)
    } else if toks.len() == 5 && is_move(&toks[0]) {
        let id = parse_u64(&toks[1]);
        let player = parse_player(&toks[2]);
        let row = parse_u64(&toks[3]);
        let col = parse_u64(&toks[4]);
        match (id, player, row, col) {
            (Some(id), Some(player), Some(row), Some(col)) => Some(
                Request::Move { id, player, row, col },
            ),
            _ => None,
        }
    } else if toks.len() == 2 && is_close(&toks[0]) {
        match parse_u64(&toks[1]) {
            Some(id) => Some(Request::Close { id }),
            None => None,
        }
    } else {
        None
    }
}

// ---------------------------------------------------------------------------
// Rendering responses
// ---------------------------------------------------------------------------
/// The wire serialization of a response.
pub open spec fn spec_render_response(resp: Response) -> Seq<u8> {
    match resp {
        Response::Session(id) => kw_session_prefix() + spec_dec_u64(id as int),
        Response::Accepted { board, next } => kw_ok() + seq![BYTE_SPACE] + board@ + seq![BYTE_SPACE]
            + player_name(next),
        Response::Win(p) => kw_win_prefix() + player_name(p),
        Response::Draw => kw_draw(),
        Response::Closed => kw_ok(),
        Response::Error(k) => kw_error_prefix() + error_name(k),
    }
}

fn push_bytes(out: &mut Vec<u8>, bytes: &Vec<u8>)
    ensures
        final(out)@ == old(out)@ + bytes@,
{
    let n = bytes.len();
    let mut i: usize = 0;
    while i < n
        invariant
            n == bytes@.len(),
            i <= n,
            out@ == old(out)@ + bytes@.subrange(0, i as int),
        decreases n - i,
    {
        proof {
            assert(old(out)@ + bytes@.subrange(0, i as int + 1) =~= (old(out)@ + bytes@.subrange(
                0,
                i as int,
            )).push(bytes@[i as int]));
        }
        out.push(bytes[i]);
        i += 1;
    }
    proof {
        assert(bytes@.subrange(0, n as int) =~= bytes@);
    }
}

fn player_name_vec(p: Mark) -> (r: Vec<u8>)
    ensures
        r@ == player_name(p),
{
    let mut r: Vec<u8> = Vec::new();
    match p {
        Mark::X => {
            r.push(70);
            r.push(105);
            r.push(114);
            r.push(115);
            r.push(116);
            proof {
                assert(r@ =~= name_first());
            }
        },
        Mark::O => {
            r.push(83);
            r.push(101);
            r.push(99);
            r.push(111);
            r.push(110);
            r.push(100);
            proof {
                assert(r@ =~= name_second());
            }
        },
    }
    r
}

fn error_name_vec(k: ErrorKind) -> (r: Vec<u8>)
    ensures
        r@ == error_name(k),
{
    let mut r: Vec<u8> = Vec::new();
    match k {
        ErrorKind::NotYourTurn => {
            r.push(78);
            r.push(111);
            r.push(116);
            r.push(89);
            r.push(111);
            r.push(117);
            r.push(114);
            r.push(84);
            r.push(117);
            r.push(114);
            r.push(110);
        },
        ErrorKind::GameOver => {
            r.push(71);
            r.push(97);
            r.push(109);
            r.push(101);
            r.push(79);
            r.push(118);
            r.push(101);
            r.push(114);
        },
        ErrorKind::IllegalMove => {
            r.push(73);
            r.push(108);
            r.push(108);
            r.push(101);
            r.push(103);
            r.push(97);
            r.push(108);
            r.push(77);
            r.push(111);
            r.push(118);
            r.push(101);
        },
        ErrorKind::SessionNotFound => {
            r.push(83);
            r.push(101);
            r.push(115);
            r.push(115);
            r.push(105);
            r.push(111);
            r.push(110);
            r.push(78);
            r.push(111);
            r.push(116);
            r.push(70);
            r.push(111);
            r.push(117);
            r.push(110);
            r.push(100);
        },
        ErrorKind::OutOfBounds => {
            r.push(79);
            r.push(117);
            r.push(116);
            r.push(79);
            r.push(102);
            r.push(66);
            r.push(111);
            r.push(117);
            r.push(110);
            r.push(100);
            r.push(115);
        },
        ErrorKind::CellOccupied => {
            r.push(67);
            r.push(101);
            r.push(108);
            r.push(108);
            r.push(79);
            r.push(99);
            r.push(99);
            r.push(117);
            r.push(112);
            r.push(105);
            r.push(101);
            r.push(100);
        },
        ErrorKind::Malformed => {
            r.push(77);
            r.push(97);
            r.push(108);
            r.push(102);
            r.push(111);
            r.push(114);
            r.push(109);
            r.push(101);
            r.push(100);
        },
    }
    proof {
        assert(r@ =~= error_name(k));
    }
    r
}

/// Serializes a response for the wire.
pub fn render_response(resp: &Response) -> (out: Vec<u8>)
    ensures
        out@ == spec_render_response(*resp),
{
    let mut out: Vec<u8> = Vec::new();
    match resp {
        Response::Session(id) => {
            out.push(83);
            out.push(69);
            out.push(83);
            out.push(83);
            out.push(73);
            out.push(79);
            out.push(78);
            out.push(BYTE_SPACE);
            proof {
                assert(out@ =~= kw_session_prefix());
            }
            let num = dec_u64(*id);
            push_bytes(&mut out, &num);
        },
        Response::Accepted { board, next } => {
            out.push(79);
            out.push(75);
            out.push(BYTE_SPACE);
            proof {
                assert(out@ =~= kw_ok() + seq![BYTE_SPACE]);
            }
            push_bytes(&mut out, board);
            out.push(BYTE_SPACE);
            let name = player_name_vec(*next);
            push_bytes(&mut out, &name);
            proof {
                assert(out@ =~= kw_ok() + seq![BYTE_SPACE] + board@ + seq![BYTE_SPACE]
                    + player_name(*next));
            }
        },
        Response::Win(p) => {
            out.push(87);
            out.push(73);
            out.push(78);
            out.push(BYTE_SPACE);
            proof {
                assert(out@ =~= kw_win_prefix());
            }
            let name = player_name_vec(*p);
            push_bytes(&mut out, &name);
        },
        Response::Draw => {
            out.push(68);
            out.push(82);
            out.push(65);
            out.push(87);
            proof {
                assert(out@ =~= kw_draw());
            }
        },
        Response::Closed => {
            out.push(79);
            out.push(75);
            proof {
                assert(out@ =~= kw_ok());
            }
        },
        Response::Error(k) => {
            out.push(69);
            out.push(82);
            out.push(82);
            out.push(79);
            out.push(82);
            out.push(BYTE_SPACE);
            proof {
                assert(out@ =~= kw_error_prefix());
            }
            let name = error_name_vec(*k);
            push_bytes(&mut out, &name);
        },
    }
    out
}

// ---------------------------------------------------------------------------
// Dispatch
// ---------------------------------------------------------------------------
/// The registry model after one request: `CREATE` appends a fresh game in
/// progress with `X` to move, `CLOSE` empties the addressed slot, `MOVE`
/// leaves the addressed slot at its `spec_step` outcome; a request against
/// an unknown or closed id changes nothing.
pub open spec fn spec_model_after(
    m0: Seq<Option<(Seq<Square>, GameState)>>,
    req: Request,
) -> Seq<Option<(Seq<Square>, GameState)>> {
    match req {
        Request::Create => m0.push(
            Some((crate::board::empty_cells(), GameState::InProgress(Mark::X))),
        ),
        Request::Close { id } => {
            if 1 <= id && id <= m0.len() {
                m0.update(id - 1, None::<(Seq<Square>, GameState)>)
            } else {
                m0
            }
        },
        Request::Move { id, player, row, col } => {
            if 1 <= id && id <= m0.len() && m0[id - 1] is Some {
                let (c, st) = m0[id - 1]->Some_0;
                let (c2, st2, e) = spec_step(c, st, player, row as int, col as int);
                m0.update(id - 1, Some((c2, st2)))
            } else {
                m0
            }
        },
    }
}

/// How one request transforms the registry and what it answers. `CREATE`
/// registers a fresh game and answers its id; `CLOSE` unregisters
/// idempotently and answers `OK`; `MOVE` steps the addressed session by
/// `spec_step` and answers the new board and next turn, the win, the draw,
/// or the error the move was rejected with; a `MOVE` against an unknown or
/// closed id answers `SessionNotFound` and changes nothing.
pub open spec fn spec_handled(
    m0: Seq<Option<(Seq<Square>, GameState)>>,
    req: Request,
    m1: Seq<Option<(Seq<Square>, GameState)>>,
    r: Response,
) -> bool {
    &&& m1 =~= spec_model_after(m0, req)
    &&& match req {
        Request::Create => r matches Response::Session(id) && id == m0.len() + 1,
        Request::Close { .. } => r is Closed,
        Request::Move { id, player, row, col } => {
            if 1 <= id && id <= m0.len() && m0[id - 1] is Some {
                let (c, st) = m0[id - 1]->Some_0;
                let (c2, st2, e) = spec_step(c, st, player, row as int, col as int);
                match e {
                    None => match st2 {
                        GameState::InProgress(t) => r matches Response::Accepted { board, next }
                            && board@ == board_bytes(c2) && next == t,
                        GameState::Won(w) => r matches Response::Win(p) && p == w,
                        GameState::Drawn => r is Draw,
                    },
                    Some(k) => r matches Response::Error(k2) && k2 == k,
                }
            } else {
                r matches Response::Error(k) && k == ErrorKind::SessionNotFound
            }
        },
    }
}

/// Performs one parsed request against the registry: the connection
/// handler's dispatch step. The whole effect is `spec_handled`.
pub fn handle_request(reg: &mut SessionRegistry, req: Request) -> (r: Response)
    requires
        old(reg).wf(),
    ensures
        final(reg).wf(),
        spec_handled(old(reg).model(), req, final(reg).model(), r),
{
    match req {
        Request::Create => {
            let id = reg.create_session();
            Response::Session(id)
        },
        Request::Close { id } => {
            reg.close(id);
            Response::Closed
        },
        Request::Move { id, player, row, col } => {
            match reg.apply_move(id, player, row, col) {
                Ok((st, bytes)) => match st {
                    GameState::InProgress(t) => Response::Accepted { board: bytes, next: t },
                    GameState::Won(p) => Response::Win(p),
                    GameState::Drawn => Response::Draw,
                },
                Err(k) => Response::Error(k),
            }
        },
    }
}

/// The exact response bytes that one request against a registry model is
/// answered with.
pub open spec fn spec_answer(m0: Seq<Option<(Seq<Square>, GameState)>>, req: Request) -> Seq<u8> {
    match req {
        Request::Create => kw_session_prefix() + spec_dec_u64(m0.len() as int + 1),
        Request::Close { .. } => kw_ok(),
        Request::Move { id, player, row, col } => {
            if 1 <= id && id <= m0.len() && m0[id - 1] is Some {
                let (c, st) = m0[id - 1]->Some_0;
                let (c2, st2, e) = spec_step(c, st, player, row as int, col as int);
                match e {
                    None => match st2 {
                        GameState::InProgress(t) => kw_ok() + seq![BYTE_SPACE] + board_bytes(c2)
                            + seq![BYTE_SPACE] + player_name(t),
                        GameState::Won(w) => kw_win_prefix() + player_name(w),
                        GameState::Drawn => kw_draw(),
                    },
                    Some(k) => kw_error_prefix() + error_name(k),
                }
            } else {
                kw_error_prefix() + error_name(ErrorKind::SessionNotFound)
            }
        },
    }
}

/// One full exchange, as the connection handler performs it on every line:
/// parse, dispatch, serialize. Returns the response bytes and whether the
/// connection stays open: a line outside the grammar is answered
/// `ERROR Malformed`, changes nothing, and then closes the connection.
pub fn handle_line(reg: &mut SessionRegistry, line: &Vec<u8>) -> (r: (Vec<u8>, bool))
    requires
        old(reg).wf(),
    ensures
        final(reg).wf(),
        match spec_parse_request(line@) {
            Some(req) => {
                &&& final(reg).model() =~= spec_model_after(old(reg).model(), req)
                &&& r.0@ == spec_answer(old(reg).model(), req)
                &&& r.1 == true
            },
            None => {
                &&& final(reg).model() =~= old(reg).model()
                &&& r.0@ == kw_error_prefix() + error_name(ErrorKind::Malformed)
                &&& r.1 == false
            },
        },
{
    match parse_request(line) {
        Some(req) => {
            let resp = handle_request(reg, req);
            let bytes = render_response(&resp);
            (bytes, true)
        },
        None => {
            let resp = Response::Error(ErrorKind::Malformed);
            (render_response(&resp), false)
        },
    }
}

} // verus!
