//! What can go wrong in a frame.

use vstd::prelude::*;

verus! {

/// The two failures of the game rules.
#[derive(Clone, Copy, Debug, PartialEq, Eq, Structural)]
pub enum GameError {
    /// The host does not have exactly one camera, or not exactly one primary display
    /// surface. This is a fault of configuration and is not recovered from.
    PreconditionViolation,
    /// The pointer was outside the display surface when the button went down. Nothing is
    /// placed; the host may say so in its diagnostics.
    PointerUnavailable,
}

impl GameError {
    /// Whether the failure ends the game: a violated precondition does, an absent pointer
    /// does not.
    pub fn is_fatal(&self) -> (fatal: bool)
        ensures
            fatal == (*self == GameError::PreconditionViolation),
    {
        match self {
            GameError::PreconditionViolation => true,
            GameError::PointerUnavailable => false,
        }
    }
}

} // verus!
