//! The state that the game starts from.

use vstd::prelude::*;
use crate::arena::{Arena, Entity, Position};
use crate::assets::{enemy_visual, tower_visual, AssetSet};
use crate::camera::Camera;
use crate::timer::SpawnTimer;
use crate::units::UNIT;

verus! {

/// The x and y coordinate at which the camera starts: 100 units.
pub const CAMERA_START: i64 = 100 * UNIT;

/// The height at which the camera starts: 10 units.
pub const CAMERA_HEIGHT: i64 = 10 * UNIT;

/// The camera as the game starts: over (100, 100) at height 10, at zoom scale 1.
pub open spec fn initial_camera() -> Camera {
    Camera {
        position: Position { x: CAMERA_START, y: CAMERA_START, z: CAMERA_HEIGHT },
        scale: UNIT,
    }
}

/// Everything that the rules act on: the visuals, the spawn countdown, the entities and
/// the one camera.
#[derive(Debug)]
pub struct Game {
    pub assets: AssetSet,
    pub timer: SpawnTimer,
    pub arena: Arena,
    pub camera: Camera,
}

/// The game before its first frame: the two visuals, a countdown at the start of its first
/// period, no entities, and the camera at its starting place.
pub fn setup() -> (game: Game)
    ensures
        game.assets.enemy() == enemy_visual(),
        game.assets.tower() == tower_visual(),
        game.timer.elapsed() == 0,
        game.arena@.entities == Map::<u64, Entity>::empty(),
        game.arena@.next_id == 0,
        game.camera == initial_camera(),
{
    Game {
        assets: AssetSet::new(),
        timer: SpawnTimer::new(),
        arena: Arena::new(),
        camera: Camera {
            position: Position { x: CAMERA_START, y: CAMERA_START, z: CAMERA_HEIGHT },
            scale: UNIT,
        },
    }
}

} // verus!
