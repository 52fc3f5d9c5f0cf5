//! The marks that fill the board's squares.

use vstd::prelude::*;

verus! {

/// A square of the board is either empty (`None`) or filled (`Some(mark)`).
pub type Square = Option<Mark>;

/// The two players' marks. `X` is the first player ("First" on the wire),
/// `O` the second ("Second").
#[derive(PartialEq, Eq, Structural, Clone, Copy, Debug)]
pub enum Mark {
    X,
    O,
}

impl Mark {
    /// The opposing player's mark.
    pub open spec fn spec_other(self) -> Mark {
        match self {
            Mark::X => Mark::O,
            Mark::O => Mark::X,
        }
    }

    /// The opposing player's mark.
    #[verifier::when_used_as_spec(spec_other)]
    pub fn other(self) -> (r: Mark)
        ensures
            r == self.spec_other(),
    {
        match self {
            Mark::X => Mark::O,
            Mark::O => Mark::X,
        }
    }
}

} // verus!
