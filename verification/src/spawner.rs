//! The spawner: one enemy near the origin each time the countdown fires.

use vstd::prelude::*;
use rand::Rng;
use crate::arena::{lemma_steps_evolve, Arena, ArenaView, Position, Tag};
use crate::assets::{enemy_visual, AssetSet};
use crate::timer::{
    elapsed_after, fires, lemma_fired_once_per_period, one_boundary_per_frame, total_time,
    SpawnTimer, SPAWN_PERIOD,
};
use crate::units::UNIT;

verus! {

/// The x coordinate round which enemies appear: 500 units.
pub const ORIGIN_X: i64 = 500 * UNIT;

/// The y coordinate round which enemies appear: 200 units.
pub const ORIGIN_Y: i64 = 200 * UNIT;

/// The farthest that a spawn lies from the origin along either axis: 10 units.
pub const JITTER: i64 = 10 * UNIT;

/// Where an enemy appears for the given offsets from the origin, in the plane z = 0.
pub open spec fn spawn_position(jitter_x: i64, jitter_y: i64) -> Position {
    Position { x: (ORIGIN_X + jitter_x) as i64, y: (ORIGIN_Y + jitter_y) as i64, z: 0 }
}

/// The box in which every enemy appears: within [`JITTER`] of the origin along x and
/// along y, in the plane z = 0.
pub open spec fn in_spawn_box(p: Position) -> bool {
    &&& ORIGIN_X - JITTER <= p.x <= ORIGIN_X + JITTER
    &&& ORIGIN_Y - JITTER <= p.y <= ORIGIN_Y + JITTER
    &&& p.z == 0
}

/// The store holds under `id` an enemy that stands in the spawn box.
pub open spec fn enemy_in_spawn_box(store: ArenaView, id: u64) -> bool {
    &&& store.entities.contains_key(id)
    &&& store.entities[id].tag == Tag::Enemy
    &&& in_spawn_box(store.entities[id].position)
}

/// `after` is `before` after one frame of the spawner, `delta` nanoseconds long, with the
/// countdown at `elapsed` before it: one enemy more, somewhere in the spawn box, if the
/// countdown fires, and the same store if it does not.
pub open spec fn spawner_frame(
    before: ArenaView,
    elapsed: nat,
    delta: nat,
    after: ArenaView,
) -> bool {
    if fires(elapsed, delta) {
        let id = before.next_id as u64;
        &&& after.entities.contains_key(id)
        &&& in_spawn_box(after.entities[id].position)
        &&& after == before.spawn(Tag::Enemy, after.entities[id].position, enemy_visual())
    } else {
        after == before
    }
}

/// `after` is `before` after one frame of the spawner for each of `deltas` in turn, with
/// the countdown at `elapsed` before the first.
pub open spec fn spawner_frames(
    before: ArenaView,
    elapsed: nat,
    deltas: Seq<nat>,
    after: ArenaView,
) -> bool
    decreases deltas.len(),
{
    if deltas.len() == 0 {
        after == before
    } else {
        exists|next: ArenaView|
            #[trigger] spawner_frame(before, elapsed, deltas[0], next) && spawner_frames(
                next,
                elapsed_after(elapsed, deltas[0]),
                deltas.drop_first(),
                after,
            )
    }
}

/// Over any run of frames of which none crosses more than one period boundary, the
/// spawner makes exactly as many enemies as whole periods have gone by: the time on the
/// countdown at the start plus the sum of the frame times, divided by the period and
/// rounded down. Each of them is an enemy in the spawn box, and what was in the store
/// before is as it was.
pub proof fn lemma_one_enemy_per_period(
    before: ArenaView,
    elapsed: nat,
    deltas: Seq<nat>,
    after: ArenaView,
)
    requires
        before.wf(),
        before.next_id + deltas.len() <= u64::MAX,
        elapsed < SPAWN_PERIOD,
        one_boundary_per_frame(elapsed, deltas),
        spawner_frames(before, elapsed, deltas, after),
    ensures
        after.wf(),
        after.next_id == before.next_id + (elapsed + total_time(deltas)) / (SPAWN_PERIOD as nat),
        forall|id: u64|
            before.next_id <= id < after.next_id ==> #[trigger] enemy_in_spawn_box(after, id),
        forall|id: u64| #[trigger]
            before.entities.contains_key(id) ==> after.entities.contains_key(id)
                && after.entities[id] == before.entities[id],
    decreases deltas.len(),
{
    lemma_fired_once_per_period(elapsed, deltas);
    if deltas.len() > 0 {
        let rest = deltas.drop_first();
        let then = elapsed_after(elapsed, deltas[0]);
        let next = choose|next: ArenaView|
            #[trigger] spawner_frame(before, elapsed, deltas[0], next) && spawner_frames(
                next,
                elapsed_after(elapsed, deltas[0]),
                deltas.drop_first(),
                after,
            );
        if fires(elapsed, deltas[0]) {
            let id = before.next_id as u64;
            lemma_steps_evolve(
                before,
                id,
                Tag::Enemy,
                next.entities[id].position,
                enemy_visual(),
            );
        }
        lemma_one_enemy_per_period(next, then, rest, after);
        assert forall|id: u64|
            before.next_id <= id < after.next_id implies #[trigger] enemy_in_spawn_box(
            after,
            id,
        ) by {
            if id < next.next_id {
                assert(next.entities.contains_key(id));
            }
        }
        assert forall|id: u64| #[trigger] before.entities.contains_key(id) implies {
            &&& after.entities.contains_key(id)
            &&& after.entities[id] == before.entities[id]
        } by {
            assert(next.entities.contains_key(id));
        }
    }
}

/// `Rng::gen_range` of the rand crate on the generator of `rand::thread_rng`, for the
/// half-open range from `low` to `high`. The call panics on an empty range and otherwise
/// returns some value of the range; which one is chance.
#[verifier::external_body]
fn sample_range(low: i64, high: i64) -> (r: i64)
    requires
        low < high,
    ensures
        low <= r < high,
{
    rand::thread_rng().gen_range(low..high)
}

/// Spawns one enemy at the origin moved by the two offsets, with the enemy visual, and
/// returns its handle.
pub fn spawn_enemy_at(
    arena: &mut Arena,
    assets: &AssetSet,
    jitter_x: i64,
    jitter_y: i64,
) -> (id: u64)
    requires
        old(arena)@.next_id < u64::MAX,
        -JITTER <= jitter_x <= JITTER,
        -JITTER <= jitter_y <= JITTER,
    ensures
        id == old(arena)@.next_id,
        final(arena)@ == old(arena)@.spawn(
            Tag::Enemy,
            spawn_position(jitter_x, jitter_y),
            enemy_visual(),
        ),
        in_spawn_box(spawn_position(jitter_x, jitter_y)),
        final(arena)@.wf(),
{
    let position = Position { x: ORIGIN_X + jitter_x, y: ORIGIN_Y + jitter_y, z: 0 };
    arena.spawn(Tag::Enemy, position, assets.enemy())
}

/// One frame of the spawner. The countdown advances by `delta` nanoseconds; if a period
/// ended in this frame, exactly one enemy appears in the spawn box, whatever the number of
/// periods that ended. Otherwise the store is left as it was.
pub fn spawn_enemies(
    timer: &mut SpawnTimer,
    arena: &mut Arena,
    assets: &AssetSet,
    delta: u64,
) -> (spawned: Option<u64>)
    requires
        old(arena)@.next_id < u64::MAX,
    ensures
        final(timer).elapsed() == elapsed_after(old(timer).elapsed(), delta as nat),
        spawned.is_some() == fires(old(timer).elapsed(), delta as nat),
        spawned == if spawned.is_some() {
            Some(old(arena)@.next_id as u64)
        } else {
            None
        },
        spawner_frame(old(arena)@, old(timer).elapsed(), delta as nat, final(arena)@),
        old(arena)@.evolves_to(final(arena)@),
        final(arena)@.wf(),
{
    if timer.tick(delta) {
        let jitter_x: i64 = sample_range(-JITTER, JITTER);
        let jitter_y: i64 = sample_range(-JITTER, JITTER);
        Some(spawn_enemy_at(arena, assets, jitter_x, jitter_y))
    } else {
        proof {
            use_type_invariant(&*arena);
            arena.lemma_view_wf();
        }
        None
    }
}

} // verus!
