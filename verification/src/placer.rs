//! The placer: a click puts a tower where the pointer is.

use vstd::prelude::*;
use crate::arena::{Arena, ArenaView, Position, Tag};
use crate::assets::{tower_visual, AssetSet};
use crate::error::GameError;
use crate::units::UNIT;

verus! {

/// The plane in which towers stand: z = 10, above the background.
pub const TOWER_Z: i64 = 10 * UNIT;

/// A point of the world plane, on the lattice.
#[derive(Clone, Copy, Debug, PartialEq, Eq, Structural)]
pub struct Point {
    pub x: i64,
    pub y: i64,
}

/// What the host saw of the pointer in one frame.
#[derive(Clone, Copy, Debug, PartialEq, Eq, Structural)]
pub struct PointerInput {
    /// The primary button went from released to pressed in this frame.
    pub just_pressed: bool,
    /// The cameras that the host has.
    pub cameras: usize,
    /// The primary display surfaces that the host has.
    pub surfaces: usize,
    /// The pointer taken from the display surface through the camera into the world;
    /// `None` while the pointer is outside the surface.
    pub world: Option<Point>,
}

/// Where a tower stands for a pointer at world coordinates `at`.
pub open spec fn tower_position(at: Point) -> Position {
    Position { x: at.x, y: at.y, z: TOWER_Z }
}

/// What the placer answers to `input`, while the next free handle is `next_id`: `Ok(None)`
/// without a press, the handle of the new tower after a press with a pointer, and an
/// error otherwise.
pub open spec fn placer_outcome(input: PointerInput, next_id: nat) -> Result<
    Option<u64>,
    GameError,
> {
    if !input.just_pressed {
        Ok(None)
    } else if input.cameras != 1 || input.surfaces != 1 {
        Err(GameError::PreconditionViolation)
    } else if input.world.is_none() {
        Err(GameError::PointerUnavailable)
    } else {
        Ok(Some(next_id as u64))
    }
}

/// The store after the placer has answered `input`: one tower more at the pointer if a
/// tower was placed, and the same store otherwise.
pub open spec fn placed(before: ArenaView, input: PointerInput) -> ArenaView {
    match placer_outcome(input, before.next_id) {
        Ok(Some(_)) => before.spawn(
            Tag::Tower,
            tower_position(input.world.unwrap()),
            tower_visual(),
        ),
        _ => before,
    }
}

/// One frame of the placer. Only the frame in which the button goes down counts: holding
/// it places nothing more. With exactly one camera and one surface, a press places one
/// tower exactly at the pointer's world position, in the plane of [`TOWER_Z`]; a press
/// while the pointer is outside the surface places nothing and is reported.
pub fn spawn_tower(
    arena: &mut Arena,
    assets: &AssetSet,
    input: &PointerInput,
) -> (outcome: Result<Option<u64>, GameError>)
    requires
        old(arena)@.next_id < u64::MAX,
    ensures
        outcome == placer_outcome(*input, old(arena)@.next_id),
        final(arena)@ == placed(old(arena)@, *input),
        old(arena)@.evolves_to(final(arena)@),
        final(arena)@.wf(),
{
    proof {
        use_type_invariant(&*arena);
        arena.lemma_view_wf();
    }
    if !input.just_pressed {
        return Ok(None);
    }
    if input.cameras != 1 || input.surfaces != 1 {
        return Err(GameError::PreconditionViolation);
    }
    match input.world {
        Some(at) => {
            let position = Position { x: at.x, y: at.y, z: TOWER_Z };
            let id: u64 = arena.spawn(Tag::Tower, position, assets.tower());
            Ok(Some(id))
        },
        None => Err(GameError::PointerUnavailable),
    }
}

} // verus!
