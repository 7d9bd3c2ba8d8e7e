//! One frame of the whole game: the four rules in their fixed order.

use vstd::prelude::*;
use crate::arena::{lemma_evolves_transitive, lemma_steps_evolve, ArenaView, Tag};
use crate::assets::{enemy_visual, tower_visual};
use crate::camera::{camera_controls, controlled, DirectionKeys, ScrollEvent};
use crate::error::GameError;
use crate::mover::{leaves, lemma_moved_evolves, moved, settled, update_enemies};
use crate::placer::{placed, placer_outcome, spawn_tower, tower_position, Point, PointerInput};
use crate::setup::Game;
use crate::spawner::{spawn_enemies, spawner_frame};
use crate::timer::{elapsed_after, fires};

verus! {

/// What the host hands over for one frame.
#[derive(Debug)]
pub struct FrameInput {
    /// The time since the frame before, in nanoseconds.
    pub delta: u64,
    /// The cameras that the host has.
    pub cameras: usize,
    /// The primary display surfaces that the host has.
    pub surfaces: usize,
    /// The primary button went from released to pressed in this frame.
    pub just_pressed: bool,
    /// The pointer in world coordinates; `None` while it is outside the surface.
    pub pointer: Option<Point>,
    /// The arrow keys that are held down.
    pub keys: DirectionKeys,
    /// The scroll events since the frame before, in the order in which they arrived.
    pub scrolls: Vec<ScrollEvent>,
}

/// What a frame did to the entities, for the host to draw.
#[derive(Debug, PartialEq, Eq)]
pub struct FrameReport {
    /// The enemy that the spawner made, if the countdown fired.
    pub spawned: Option<u64>,
    /// The enemies that the mover removed, in rising order.
    pub despawned: Vec<u64>,
    /// What the placer answered: the tower it placed if any, or that the pointer was
    /// outside the surface.
    pub placed: Result<Option<u64>, GameError>,
}

impl FrameInput {
    /// What the placer sees of this input.
    pub open spec fn pointer_input(self) -> PointerInput {
        PointerInput {
            just_pressed: self.just_pressed,
            cameras: self.cameras,
            surfaces: self.surfaces,
            world: self.pointer,
        }
    }

    /// The host is not set up for this frame: it has not exactly one camera, or the button
    /// went down while it has not exactly one primary surface.
    pub open spec fn violates_precondition(self) -> bool {
        self.cameras != 1 || (self.just_pressed && self.surfaces != 1)
    }
}

/// The store goes from `before` to `after` in one frame by way of `spawned` and `moved_to`:
/// first the spawner, with the countdown at `elapsed`, then the mover over all enemies,
/// the new one among them, then the placer.
pub open spec fn frame_stages<F: Fn(i64) -> i64>(
    before: ArenaView,
    spawned: ArenaView,
    moved_to: ArenaView,
    after: ArenaView,
    elapsed: nat,
    input: FrameInput,
    sine: F,
) -> bool {
    &&& spawner_frame(before, elapsed, input.delta as nat, spawned)
    &&& moved(spawned, moved_to, input.delta as nat, sine)
    &&& after == placed(moved_to, input.pointer_input())
}

/// The store goes from `before` to `after` in one frame.
pub open spec fn frame_of_store<F: Fn(i64) -> i64>(
    before: ArenaView,
    after: ArenaView,
    elapsed: nat,
    input: FrameInput,
    sine: F,
) -> bool {
    exists|spawned: ArenaView, moved_to: ArenaView| #[trigger]
        frame_stages(before, spawned, moved_to, after, elapsed, input, sine)
}

/// A frame is a step in the evolution of the store. An enemy that the frame takes below
/// x = 0 is gone when the frame ends, and every tower that was there is there unchanged.
pub proof fn lemma_frame_of_store<F: Fn(i64) -> i64>(
    before: ArenaView,
    after: ArenaView,
    elapsed: nat,
    input: FrameInput,
    sine: F,
)
    requires
        before.wf(),
        before.next_id + 2 <= u64::MAX,
        frame_of_store(before, after, elapsed, input, sine),
    ensures
        after.wf(),
        before.evolves_to(after),
        forall|id: u64| #[trigger]
            before.entities.contains_key(id) && leaves(before.entities[id], input.delta as nat)
                ==> after.retired(id),
        forall|id: u64| #[trigger]
            before.entities.contains_key(id) && before.entities[id].tag == Tag::Tower
                ==> after.entities.contains_key(id) && after.entities[id] == before.entities[id],
{
    let (spawned, moved_to) = choose|spawned: ArenaView, moved_to: ArenaView| #[trigger]
        frame_stages(before, spawned, moved_to, after, elapsed, input, sine);
    let delta = input.delta as nat;
    let first = before.next_id as u64;
    if fires(elapsed, delta) {
        lemma_steps_evolve(
            before,
            first,
            Tag::Enemy,
            spawned.entities[first].position,
            enemy_visual(),
        );
    }
    lemma_moved_evolves(spawned, moved_to, delta, sine);
    if let Ok(Some(_)) = placer_outcome(input.pointer_input(), moved_to.next_id) {
        lemma_steps_evolve(
            moved_to,
            first,
            Tag::Tower,
            tower_position(input.pointer.unwrap()),
            tower_visual(),
        );
    }
    lemma_evolves_transitive(before, spawned, moved_to);
    lemma_evolves_transitive(before, moved_to, after);
    assert forall|id: u64| #[trigger]
        before.entities.contains_key(id) && leaves(
            before.entities[id],
            delta,
        ) implies after.retired(id) by {
        assert(spawned.entities.contains_key(id));
        assert(!moved_to.entities.contains_key(id));
    }
    assert forall|id: u64| #[trigger]
        before.entities.contains_key(id) && before.entities[id].tag
            == Tag::Tower implies after.entities.contains_key(id) && after.entities[id]
        == before.entities[id] by {
        assert(spawned.entities.contains_key(id));
        assert(moved_to.entities.contains_key(id));
        assert(settled(spawned.entities[id], moved_to.entities[id], delta, sine));
    }
}

/// The game goes from `before` to `after` in one frame that meets its precondition, and
/// `report` tells what it did.
pub open spec fn frame_of_game<F: Fn(i64) -> i64>(
    before: Game,
    after: Game,
    input: FrameInput,
    sine: F,
    report: FrameReport,
) -> bool {
    let delta = input.delta as nat;
    let elapsed = before.timer.elapsed();
    let new_enemies: nat = if fires(elapsed, delta) { 1 } else { 0 };
    &&& after.assets == before.assets
    &&& after.timer.elapsed() == elapsed_after(elapsed, delta)
    &&& after.camera == controlled(before.camera, input.keys, input.scrolls@)
    &&& frame_of_store(before.arena@, after.arena@, elapsed, input, sine)
    &&& report.spawned == if fires(elapsed, delta) {
        Some(before.arena@.next_id as u64)
    } else {
        None
    }
    &&& forall|id: u64|
        report.despawned@.contains(id) <==> after.arena@.retired(id) && !before.arena@.retired(id)
    &&& forall|i: int, j: int|
        0 <= i < j < report.despawned@.len() ==> report.despawned@[i] < report.despawned@[j]
    &&& report.placed == placer_outcome(
        input.pointer_input(),
        before.arena@.next_id + new_enemies,
    )
}

/// One frame of the game. With exactly one camera, and exactly one primary surface if the
/// button went down, the four rules act in their fixed order, each on what the one before
/// left: the spawner, the mover, the placer, the camera controller. A pointer outside the
/// surface is no failure of the frame and is reported under `placed`. Otherwise the frame
/// fails and changes nothing.
pub fn frame<F: Fn(i64) -> i64>(
    game: &mut Game,
    input: &FrameInput,
    sine: F,
) -> (outcome: Result<FrameReport, GameError>)
    requires
        old(game).arena@.next_id + 2 <= u64::MAX,
        forall|angle: i64| angle >= 0 ==> sine.requires((angle,)),
    ensures
        input.violates_precondition() ==> *final(game) == *old(game) && outcome
            == Err::<FrameReport, GameError>(GameError::PreconditionViolation),
        !input.violates_precondition() ==> outcome.is_ok() && frame_of_game(
            *old(game),
            *final(game),
            *input,
            sine,
            outcome.unwrap(),
        ),
{
    if input.cameras != 1 || (input.just_pressed && input.surfaces != 1) {
        return Err(GameError::PreconditionViolation);
    }
    let ghost before = game.arena@;
    let ghost elapsed = game.timer.elapsed();
    let spawned = spawn_enemies(&mut game.timer, &mut game.arena, &game.assets, input.delta);
    let ghost after_spawn = game.arena@;
    let despawned = update_enemies(&mut game.arena, input.delta, sine);
    let ghost after_move = game.arena@;
    let pointer = PointerInput {
        just_pressed: input.just_pressed,
        cameras: input.cameras,
        surfaces: input.surfaces,
        world: input.pointer,
    };
    let placed = spawn_tower(&mut game.arena, &game.assets, &pointer);
    let _ = camera_controls(&mut game.camera, input.cameras, &input.keys, &input.scrolls);
    assert(frame_stages(before, after_spawn, after_move, game.arena@, elapsed, *input, sine));
    Ok(FrameReport { spawned, despawned, placed })
}

} // verus!
