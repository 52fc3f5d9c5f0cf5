//! The registry of live sessions: the synchronization boundary between
//! connections and game state.

use vstd::prelude::*;

use crate::board::{board_bytes, empty_cells};
use crate::errors::ErrorKind;
use crate::session::{spec_step, GameSession, GameState};
use crate::squares::{Mark, Square};

verus! {

/// What one registry slot holds, as a plain mathematical value: the
/// board's squares and the state of the game, or `None` for a slot whose
/// session was closed.
pub type SlotModel = Option<(Seq<Square>, GameState)>;

/// The model of one slot.
pub open spec fn slot_model(s: Option<GameSession>) -> SlotModel {
    match s {
        Some(gs) => Some((gs.board@, gs.state)),
        None => None,
    }
}

/// Maps a session id to its live game. Ids are handed out densely from 1
/// up; a closed session leaves its slot empty and its id is never reused.
/// Whoever drives the registry from several threads must serialize the
/// operations on it; each call here is one atomic step of that serial
/// order.
pub struct SessionRegistry {
    pub sessions: Vec<Option<GameSession>>,
}

impl SessionRegistry {
    /// The registry as a sequence of slot models, indexed by id minus one.
    pub open spec fn model(&self) -> Seq<SlotModel> {
        Seq::new(self.sessions@.len(), |i: int| slot_model(self.sessions@[i]))
    }

    /// Every live session is well-formed.
    pub open spec fn wf(&self) -> bool {
        forall|i: int|
            0 <= i < self.sessions@.len() ==> match #[trigger] self.sessions@[i] {
                Some(gs) => gs.wf(),
                None => true,
            }
    }

    /// An empty registry.
    pub fn new() -> (r: SessionRegistry)
        ensures
            r.wf(),
            r.model().len() == 0,
    {
        SessionRegistry { sessions: Vec::new() }
    }

    /// Allocates a fresh game in progress with `X` to move, registers it
    /// under the next unused id, and returns that id. Ids count up from 1.
    pub fn create_session(&mut self) -> (id: u64)
        requires
            old(self).wf(),
        ensures
            final(self).wf(),
            id == old(self).model().len() + 1,
            final(self).model() =~= old(self).model().push(
                Some((empty_cells(), GameState::InProgress(Mark::X))),
            ),
    {
        let gs = GameSession::new();
        self.sessions.push(Some(gs));
        self.sessions.len() as u64
    }

    /// Removes the session with this id, if it is live. Idempotent: closing
    /// a closed or unknown id changes nothing and is no error.
    pub fn close(&mut self, id: u64)
        requires
            old(self).wf(),
        ensures
            final(self).wf(),
            1 <= id && id <= old(self).model().len() ==> final(self).model() =~= old(
                self,
            ).model().update(id - 1, None::<(Seq<Square>, GameState)>),
            !(1 <= id && id <= old(self).model().len()) ==> final(self).model() =~= old(
                self,
            ).model(),
    {
        if 1 <= id && id <= self.sessions.len() as u64 {
            let idx = (id - 1) as usize;
            self.sessions[idx] = None;
        }
    }

    /// A read-only handle to the session with this id; an unknown or
    /// closed id fails with `SessionNotFound`. Safe to call concurrently
    /// with other lookups, but not with a mutation of the same slot.
    pub fn get(&self, id: u64) -> (r: Result<&GameSession, ErrorKind>)
        ensures
            match r {
                Ok(gs) => 1 <= id && id <= self.model().len() && self.model()[id - 1] == Some(
                    (gs.board@, gs.state),
                ),
                Err(k) => {
                    &&& k == ErrorKind::SessionNotFound
                    &&& !(1 <= id && id <= self.model().len() && self.model()[id - 1] is Some)
                },
            },
    {
        if id == 0 || id > self.sessions.len() as u64 {
            return Err(ErrorKind::SessionNotFound);
        }
        match &self.sessions[(id - 1) as usize] {
            Some(gs) => Ok(gs),
            None => Err(ErrorKind::SessionNotFound),
        }
    }

    /// True iff a live session is registered under this id.
    pub fn contains(&self, id: u64) -> (r: bool)
        ensures
            r == (1 <= id && id <= self.model().len() && self.model()[id - 1] is Some),
    {
        1 <= id && id <= self.sessions.len() as u64 && self.sessions[(id - 1) as usize].is_some()
    }

    /// Attempts a move in the session with this id: one atomic
    /// validate-mutate-evaluate step, serialized per session. An unknown or
    /// closed id fails with `SessionNotFound` and mutates nothing;
    /// otherwise the outcome is exactly `spec_step` on that session, and a
    /// successful move returns the new state together with the board's
    /// nine-byte serialization.
    pub fn apply_move(&mut self, id: u64, player: Mark, row: u64, col: u64) -> (r: Result<
        (GameState, Vec<u8>),
        ErrorKind,
    >)
        requires
            old(self).wf(),
        ensures
            final(self).wf(),
            final(self).model().len() == old(self).model().len(),
            ({
                let m = old(self).model();
                if 1 <= id && id <= m.len() && m[id - 1] is Some {
                    let (c, st) = m[id - 1]->Some_0;
                    let (c2, st2, e) = spec_step(c, st, player, row as int, col as int);
                    &&& final(self).model() =~= m.update(id - 1, Some((c2, st2)))
                    &&& match r {
                        Ok(p) => e is None && p.0 == st2 && p.1@ == board_bytes(c2),
                        Err(k) => Some(k) == e,
                    }
                } else {
                    &&& final(self).model() =~= m
                    &&& r == Err::<(GameState, Vec<u8>), ErrorKind>(ErrorKind::SessionNotFound)
                }
            }),
    {
        if id == 0 || id > self.sessions.len() as u64 {
            return Err(ErrorKind::SessionNotFound);
        }
        let idx = (id - 1) as usize;
        match &mut self.sessions[idx] {
            None => Err(ErrorKind::SessionNotFound),
            Some(gs) => {
                let res = gs.apply_move(player, row, col);
                match res {
                    Ok(st) => {
                        let bytes = gs.board.render();
                        Ok((st, bytes))
                    },
                    Err(k) => Err(k),
                }
            },
        }
    }
}

} // verus!
