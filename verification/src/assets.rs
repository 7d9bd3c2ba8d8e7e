//! The visuals that entities are drawn with, fixed at startup.

use vstd::prelude::*;
use crate::units::UNIT;

verus! {

/// An outline, with its sizes on the lattice.
#[derive(Clone, Copy, Debug, PartialEq, Eq, Structural)]
pub enum Shape {
    Circle { radius: i64 },
    Quad { width: i64, height: i64 },
}

/// A named flat colour; the renderer knows its channels.
#[derive(Clone, Copy, Debug, PartialEq, Eq, Structural)]
pub enum Paint {
    Purple,
    LimeGreen,
}

/// What an entity looks like: a shape filled with one colour.
#[derive(Clone, Copy, Debug, PartialEq, Eq, Structural)]
pub struct Visual {
    pub shape: Shape,
    pub paint: Paint,
}

/// The radius of an enemy's circle: 5 units.
pub const ENEMY_RADIUS: i64 = 5 * UNIT;

/// The side of a tower's square: 20 units.
pub const TOWER_SIDE: i64 = 20 * UNIT;

/// The enemy visual: a purple circle.
pub open spec fn enemy_visual() -> Visual {
    Visual { shape: Shape::Circle { radius: ENEMY_RADIUS }, paint: Paint::Purple }
}

/// The tower visual: a lime green square.
pub open spec fn tower_visual() -> Visual {
    Visual { shape: Shape::Quad { width: TOWER_SIDE, height: TOWER_SIDE }, paint: Paint::LimeGreen }
}

/// The two visuals of the game. Built once and only read afterwards: the fields are
/// private and no method changes them.
#[derive(Clone, Copy, Debug)]
pub struct AssetSet {
    enemy: Visual,
    tower: Visual,
}

impl AssetSet {
    #[verifier::type_invariant]
    spec fn inv(self) -> bool {
        self.enemy == enemy_visual() && self.tower == tower_visual()
    }

    /// The visual of enemies, as a mathematical value.
    pub closed spec fn spec_enemy(&self) -> Visual {
        self.enemy
    }

    /// The visual of towers, as a mathematical value.
    pub closed spec fn spec_tower(&self) -> Visual {
        self.tower
    }

    /// The two visuals of the game.
    pub fn new() -> (assets: Self)
        ensures
            assets.enemy() == enemy_visual(),
            assets.tower() == tower_visual(),
    {
        AssetSet {
            enemy: Visual { shape: Shape::Circle { radius: ENEMY_RADIUS }, paint: Paint::Purple },
            tower: Visual {
                shape: Shape::Quad { width: TOWER_SIDE, height: TOWER_SIDE },
                paint: Paint::LimeGreen,
            },
        }
    }

    /// The visual that enemies are spawned with.
    #[verifier::when_used_as_spec(spec_enemy)]
    pub fn enemy(&self) -> (v: Visual)
        ensures
            v == self.spec_enemy(),
            v == enemy_visual(),
    {
        proof {
            use_type_invariant(self);
        }
        self.enemy
    }

    /// The visual that towers are placed with.
    #[verifier::when_used_as_spec(spec_tower)]
    pub fn tower(&self) -> (v: Visual)
        ensures
            v == self.spec_tower(),
            v == tower_visual(),
    {
        proof {
            use_type_invariant(self);
        }
        self.tower
    }
}

} // verus!
