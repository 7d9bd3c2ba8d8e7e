//! The mover: enemies drift left at a constant speed along a wave and leave past x = 0.

use vstd::prelude::*;
use crate::arena::{lemma_retired_for_good, Arena, ArenaView, Entity, Position, Tag};
use crate::units::UNIT;

verus! {

/// The leftward speed of an enemy: 50 units a second, which is 50 lattice steps a
/// nanosecond.
pub const ENEMY_SPEED: i64 = 50;

/// The length of the wave: the angle of an enemy at `x` is `x / 100`, in radians.
pub const WAVE_STRETCH: i64 = 100;

/// The height of the wave: an enemy stands at 200 times the sine of its angle.
pub const WAVE_HEIGHT: i64 = 200;

/// The angle on the wave of an enemy at the coordinate `x`, in radians on the lattice.
pub open spec fn wave_angle(x: i64) -> i64 {
    (x / WAVE_STRETCH) as i64
}

/// `s` held to the range of a sine, from -1 to 1.
pub open spec fn as_sine(s: i64) -> int {
    if s < -UNIT {
        -UNIT
    } else if s > UNIT {
        UNIT as int
    } else {
        s as int
    }
}

/// The y coordinate of an enemy whose angle has the sine `s`.
pub open spec fn wave_y(s: i64) -> int {
    WAVE_HEIGHT * as_sine(s)
}

/// The x coordinate of an enemy that stood at `x`, after a frame of `delta` nanoseconds.
pub open spec fn advanced_x(x: i64, delta: nat) -> int {
    x - ENEMY_SPEED * delta
}

/// Whether the entity is an enemy that this frame takes below x = 0.
pub open spec fn leaves(e: Entity, delta: nat) -> bool {
    e.tag == Tag::Enemy && advanced_x(e.position.x, delta) < 0
}

/// `after` is `before` moved by one frame of `delta` nanoseconds, with sines from `sine`.
///
/// Enemies that the frame takes below x = 0 are gone. Every other enemy stands at its old x
/// less the distance covered, at the height of the wave for that new x, and is otherwise
/// the same. Towers are as they were, and no handle was handed out.
pub open spec fn moved<F: Fn(i64) -> i64>(
    before: ArenaView,
    after: ArenaView,
    delta: nat,
    sine: F,
) -> bool {
    &&& after.next_id == before.next_id
    &&& forall|id: u64| #[trigger]
        after.entities.contains_key(id) <==> before.entities.contains_key(id) && !leaves(
            before.entities[id],
            delta,
        )
    &&& forall|id: u64| #[trigger]
        after.entities.contains_key(id) ==> settled(
            before.entities[id],
            after.entities[id],
            delta,
            sine,
        )
}

/// The point lies on the wave: its y is [`WAVE_HEIGHT`] times a sine that `sine` gives for
/// the angle of its x.
pub open spec fn on_wave<F: Fn(i64) -> i64>(p: Position, sine: F) -> bool {
    exists|s: i64| #[trigger] sine.ensures((wave_angle(p.x),), s) && p.y == wave_y(s)
}

/// What one frame makes of an entity that stays: `a` out of `b`.
pub open spec fn settled<F: Fn(i64) -> i64>(b: Entity, a: Entity, delta: nat, sine: F) -> bool {
    match b.tag {
        Tag::Tower => a == b,
        Tag::Enemy => {
            &&& a.id == b.id
            &&& a.tag == b.tag
            &&& a.visual == b.visual
            &&& a.position.z == b.position.z
            &&& a.position.x == advanced_x(b.position.x, delta)
            &&& on_wave(a.position, sine)
        },
    }
}

/// An enemy that a frame takes below x = 0 is in no store from that frame on: not in the
/// one that the frame leaves, and in none that it evolves to.
pub proof fn lemma_despawned_stays_away<F: Fn(i64) -> i64>(
    before: ArenaView,
    after: ArenaView,
    later: ArenaView,
    delta: nat,
    sine: F,
    id: u64,
)
    requires
        before.wf(),
        moved(before, after, delta, sine),
        after.evolves_to(later),
        before.entities.contains_key(id),
        leaves(before.entities[id], delta),
    ensures
        !after.entities.contains_key(id),
        !later.entities.contains_key(id),
{
    assert(after.retired(id));
    lemma_retired_for_good(after, later, id);
}

/// Through a frame of the mover every tower stays where it is and as it is. Every enemy
/// that stays stands further left than before, or where it stood if the frame took no
/// time, and no higher or lower than the wave reaches.
pub proof fn lemma_towers_stay_and_enemies_go_left<F: Fn(i64) -> i64>(
    before: ArenaView,
    after: ArenaView,
    delta: nat,
    sine: F,
    id: u64,
)
    requires
        moved(before, after, delta, sine),
        before.entities.contains_key(id),
    ensures
        before.entities[id].tag == Tag::Tower ==> after.entities.contains_key(id)
            && after.entities[id] == before.entities[id],
        before.entities[id].tag == Tag::Enemy && after.entities.contains_key(id) ==> {
            &&& after.entities[id].position.x <= before.entities[id].position.x
            &&& delta > 0 ==> after.entities[id].position.x < before.entities[id].position.x
            &&& -WAVE_HEIGHT * UNIT <= after.entities[id].position.y <= WAVE_HEIGHT * UNIT
        },
{
    if after.entities.contains_key(id) {
        assert(settled(before.entities[id], after.entities[id], delta, sine));
    }
}

/// A frame of the mover is a step in the evolution of the store.
pub proof fn lemma_moved_evolves<F: Fn(i64) -> i64>(
    before: ArenaView,
    after: ArenaView,
    delta: nat,
    sine: F,
)
    requires
        before.wf(),
        moved(before, after, delta, sine),
    ensures
        before.evolves_to(after),
        after.wf(),
{
    assert forall|id: u64| #[trigger] after.entities.contains_key(id) implies after.entities[id].id
        == id && (id as nat) < after.next_id by {
        assert(settled(before.entities[id], after.entities[id], delta, sine));
    }
}

/// One frame of the mover, `delta` nanoseconds long. Each enemy moves left by the distance
/// that [`ENEMY_SPEED`] covers in that time. If that takes it below x = 0 it is removed in
/// this same frame. Otherwise its y becomes [`WAVE_HEIGHT`] times the sine of its new x
/// divided by [`WAVE_STRETCH`]; the sine itself is asked of `sine`, angle and result in
/// radians and units on the lattice, and a result beyond -1 or 1 counts as -1 or 1.
/// Returns the handles of the enemies removed, in rising order.
pub fn update_enemies<F: Fn(i64) -> i64>(
    arena: &mut Arena,
    delta: u64,
    sine: F,
) -> (despawned: Vec<u64>)
    requires
        forall|angle: i64| angle >= 0 ==> sine.requires((angle,)),
    ensures
        moved(old(arena)@, final(arena)@, delta as nat, sine),
        old(arena)@.evolves_to(final(arena)@),
        final(arena)@.wf(),
        forall|id: u64|
            despawned@.contains(id) <==> old(arena)@.entities.contains_key(id) && leaves(
                old(arena)@.entities[id],
                delta as nat,
            ),
        forall|i: int, j: int| 0 <= i < j < despawned@.len() ==> despawned@[i] < despawned@[j],
{
    let ghost before = arena@;
    let ids = arena.ids();
    let mut despawned: Vec<u64> = Vec::new();
    let mut k: usize = 0;
    assert forall|j: int| 0 <= j < ids@.len() implies before.entities.contains_key(
        #[trigger] ids@[j],
    ) by {
        assert(ids@.contains(ids@[j]));
    }
    while k < ids.len()
        invariant
            k <= ids@.len(),
            before.wf(),
            forall|i: int, j: int| 0 <= i < j < ids@.len() ==> ids@[i] < ids@[j],
            forall|id: u64| ids@.contains(id) <==> before.entities.contains_key(id),
            forall|angle: i64| angle >= 0 ==> sine.requires((angle,)),
            arena@.next_id == before.next_id,
            forall|id: u64| #[trigger]
                arena@.entities.contains_key(id) ==> before.entities.contains_key(id),
            forall|j: int|
                k <= j < ids@.len() ==> arena@.entities.contains_key(#[trigger] ids@[j])
                    && arena@.entities[ids@[j]] == before.entities[ids@[j]],
            forall|j: int|
                0 <= j < k ==> (arena@.entities.contains_key(#[trigger] ids@[j]) <==> !leaves(
                    before.entities[ids@[j]],
                    delta as nat,
                )),
            forall|j: int|
                0 <= j < k && arena@.entities.contains_key(#[trigger] ids@[j]) ==> settled(
                    before.entities[ids@[j]],
                    arena@.entities[ids@[j]],
                    delta as nat,
                    sine,
                ),
            forall|id: u64|
                despawned@.contains(id) <==> exists|j: int|
                    0 <= j < k && #[trigger] ids@[j] == id && leaves(
                        before.entities[id],
                        delta as nat,
                    ),
            forall|i: int|
                0 <= i < despawned@.len() && k < ids@.len() ==> #[trigger] despawned@[i]
                    < ids@[k as int],
            forall|i: int, j: int| 0 <= i < j < despawned@.len() ==> despawned@[i] < despawned@[j],
        decreases ids@.len() - k,
    {
        let id: u64 = ids[k];
        let ghost prior = arena@;
        let ghost listed = despawned@;
        assert(ids@.contains(id));
        if let Some(entity) = arena.get(id) {
            if entity.tag == Tag::Enemy {
                let x: i128 = entity.position.x as i128 - (ENEMY_SPEED as i128) * (delta as i128);
                if x < 0 {
                    arena.despawn(id);
                    despawned.push(id);
                    assert(despawned@[listed.len() as int] == id);
                } else {
                    let new_x: i64 = x as i64;
                    let angle: i64 = new_x / WAVE_STRETCH;
                    let s: i64 = sine(angle);
                    let bounded: i64 = if s < -UNIT {
                        -UNIT
                    } else if s > UNIT {
                        UNIT
                    } else {
                        s
                    };
                    let position = Position {
                        x: new_x,
                        y: WAVE_HEIGHT * bounded,
                        z: entity.position.z,
                    };
                    assert(sine.ensures((wave_angle(position.x),), s) && position.y == wave_y(s));
                    arena.relocate(id, position);
                }
            }
        }
        proof {
            assert forall|j: int| k < j < ids@.len() implies arena@.entities.contains_key(
                #[trigger] ids@[j],
            ) && arena@.entities[ids@[j]] == before.entities[ids@[j]] by {
                assert(ids@[k as int] < ids@[j]);
                assert(prior.entities.contains_key(ids@[j]));
            }
            assert forall|j: int| 0 <= j < k implies (arena@.entities.contains_key(
                #[trigger] ids@[j],
            ) <==> !leaves(before.entities[ids@[j]], delta as nat)) by {
                assert(ids@[j] < ids@[k as int]);
                assert(prior.entities.contains_key(ids@[j]) <==> !leaves(
                    before.entities[ids@[j]],
                    delta as nat,
                ));
            }
            assert forall|j: int|
                0 <= j < k && arena@.entities.contains_key(#[trigger] ids@[j]) implies settled(
                before.entities[ids@[j]],
                arena@.entities[ids@[j]],
                delta as nat,
                sine,
            ) by {
                assert(ids@[j] < ids@[k as int]);
                assert(prior.entities.contains_key(ids@[j]));
            }
            assert forall|d: u64|
                despawned@.contains(d) <==> exists|j: int|
                    0 <= j < k + 1 && #[trigger] ids@[j] == d && leaves(
                        before.entities[d],
                        delta as nat,
                    ) by {
                if despawned@.contains(d) {
                    let i = choose|i: int| 0 <= i < despawned@.len() && despawned@[i] == d;
                    if i < listed.len() {
                        assert(listed[i] == d);
                        assert(listed.contains(d));
                    } else {
                        assert(ids@[k as int] == d);
                    }
                }
                if exists|j: int|
                    0 <= j < k + 1 && #[trigger] ids@[j] == d && leaves(
                        before.entities[d],
                        delta as nat,
                    ) {
                    let j = choose|j: int|
                        0 <= j < k + 1 && #[trigger] ids@[j] == d && leaves(
                            before.entities[d],
                            delta as nat,
                        );
                    if j < k {
                        assert(listed.contains(d));
                        let i = choose|i: int| 0 <= i < listed.len() && listed[i] == d;
                        assert(despawned@[i] == d);
                    } else {
                        assert(despawned@[listed.len() as int] == d);
                    }
                }
            }
            assert forall|i: int|
                0 <= i < despawned@.len() && k + 1 < ids@.len() implies #[trigger] despawned@[i]
                < ids@[k + 1] by {
                assert(ids@[k as int] < ids@[k + 1]);
                if i < listed.len() {
                    assert(listed[i] == despawned@[i]);
                }
            }
        }
        k += 1;
    }
    proof {
        assert forall|id: u64| #[trigger]
            arena@.entities.contains_key(id) <==> before.entities.contains_key(id) && !leaves(
                before.entities[id],
                delta as nat,
            ) by {
            if before.entities.contains_key(id) {
                assert(ids@.contains(id));
                let j = choose|j: int| 0 <= j < ids@.len() && ids@[j] == id;
                assert(arena@.entities.contains_key(ids@[j]) <==> !leaves(
                    before.entities[ids@[j]],
                    delta as nat,
                ));
            }
        }
        assert forall|id: u64| #[trigger] arena@.entities.contains_key(id) implies settled(
            before.entities[id],
            arena@.entities[id],
            delta as nat,
            sine,
        ) by {
            assert(ids@.contains(id));
            let j = choose|j: int| 0 <= j < ids@.len() && ids@[j] == id;
            assert(arena@.entities.contains_key(ids@[j]));
        }
        lemma_moved_evolves(before, arena@, delta as nat, sine);
        assert forall|id: u64|
            despawned@.contains(id) <==> before.entities.contains_key(id) && leaves(
                before.entities[id],
                delta as nat,
            ) by {
            if before.entities.contains_key(id) && leaves(before.entities[id], delta as nat) {
                assert(ids@.contains(id));
                let j = choose|j: int| 0 <= j < ids@.len() && ids@[j] == id;
                assert(ids@[j] == id);
            }
            if despawned@.contains(id) {
                let j = choose|j: int|
                    0 <= j < k && #[trigger] ids@[j] == id && leaves(
                        before.entities[id],
                        delta as nat,
                    );
                assert(ids@.contains(ids@[j]));
            }
        }
    }
    despawned
}

} // verus!
