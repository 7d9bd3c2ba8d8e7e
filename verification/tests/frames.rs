use tower_defense::arena::{Position, Tag};
use tower_defense::camera::{DirectionKeys, ScrollEvent, ScrollUnit};
use tower_defense::error::GameError;
use tower_defense::frame::{frame, FrameInput};
use tower_defense::placer::Point;
use tower_defense::setup::setup;
use tower_defense::units::UNIT;

fn quiet(delta: u64) -> FrameInput {
    FrameInput {
        delta,
        cameras: 1,
        surfaces: 1,
        just_pressed: false,
        pointer: None,
        keys: DirectionKeys { left: false, right: false, up: false, down: false },
        scrolls: Vec::new(),
    }
}

fn level(_angle: i64) -> i64 {
    0
}

#[test]
fn quiet_frame_only_runs_the_countdown() {
    let mut game = setup();
    let report = frame(&mut game, &quiet(250_000_000), level).unwrap();
    assert_eq!(report.spawned, None);
    assert!(report.despawned.is_empty());
    assert_eq!(report.placed, Ok(None));
    assert_eq!(game.timer.elapsed_nanos(), 250_000_000);
    assert!(game.arena.ids().is_empty());
    assert_eq!(game.camera, setup().camera);
}

#[test]
fn frame_without_exactly_one_camera_fails_and_changes_nothing() {
    for cameras in [0usize, 2] {
        let mut game = setup();
        frame(&mut game, &quiet(900_000_000), level).unwrap();
        let input = FrameInput {
            cameras,
            just_pressed: true,
            pointer: Some(Point { x: 1, y: 2 }),
            keys: DirectionKeys { left: true, right: false, up: true, down: false },
            scrolls: vec![ScrollEvent { unit: ScrollUnit::Line, delta: UNIT }],
            ..quiet(500_000_000)
        };
        assert_eq!(frame(&mut game, &input, level).err(), Some(GameError::PreconditionViolation));
        assert_eq!(game.timer.elapsed_nanos(), 900_000_000);
        assert!(game.arena.ids().is_empty());
        assert_eq!(game.arena.next_id(), 0);
        assert_eq!(game.camera, setup().camera);
    }
}

#[test]
fn press_without_exactly_one_surface_fails_and_changes_nothing() {
    for surfaces in [0usize, 3] {
        let mut game = setup();
        let input = FrameInput { surfaces, just_pressed: true, ..quiet(2_000_000_000) };
        assert_eq!(frame(&mut game, &input, level).err(), Some(GameError::PreconditionViolation));
        assert_eq!(game.timer.elapsed_nanos(), 0);
        assert!(game.arena.ids().is_empty());
        // Without a press the surfaces are not looked at.
        let input = FrameInput { surfaces, ..quiet(2_000_000_000) };
        let report = frame(&mut game, &input, level).unwrap();
        assert_eq!(report.spawned, Some(0));
    }
}

#[test]
fn new_enemy_is_moved_in_the_frame_in_which_it_appears() {
    let mut game = setup();
    let report = frame(&mut game, &quiet(1_000_000_000), level).unwrap();
    assert_eq!(report.spawned, Some(0));
    assert!(report.despawned.is_empty());
    let enemy = game.arena.get(0).unwrap();
    assert_eq!(enemy.tag, Tag::Enemy);
    // Spawned within [490, 510] and moved left by 50.
    assert!(440 * UNIT <= enemy.position.x && enemy.position.x <= 460 * UNIT);
    assert_eq!(enemy.position.y, 0);
    assert_eq!(enemy.position.z, 0);
}

#[test]
fn new_enemy_can_leave_in_the_frame_in_which_it_appears() {
    let mut game = setup();
    let report = frame(&mut game, &quiet(11_000_000_000), level).unwrap();
    assert_eq!(report.spawned, Some(0));
    assert_eq!(report.despawned, vec![0]);
    assert!(game.arena.ids().is_empty());
    assert_eq!(game.arena.next_id(), 1);
}

#[test]
fn press_places_a_tower_after_the_enemy_of_the_frame() {
    let mut game = setup();
    let input = FrameInput {
        just_pressed: true,
        pointer: Some(Point { x: 30 * UNIT, y: -40 * UNIT }),
        ..quiet(1_000_000_000)
    };
    let report = frame(&mut game, &input, level).unwrap();
    assert_eq!(report.spawned, Some(0));
    assert_eq!(report.placed, Ok(Some(1)));
    let tower = game.arena.get(1).unwrap();
    assert_eq!(tower.tag, Tag::Tower);
    assert_eq!(tower.position, Position { x: 30 * UNIT, y: -40 * UNIT, z: 10 * UNIT });
    assert_eq!(tower.visual, game.assets.tower());
    // Held, not pressed again: nothing more is placed.
    let held = FrameInput { just_pressed: false, ..input };
    let report = frame(&mut game, &held, level).unwrap();
    assert_eq!(report.placed, Ok(None));
    assert_eq!(game.arena.ids(), vec![0, 1, 2]);
    assert_eq!(game.arena.get(2).unwrap().tag, Tag::Enemy);
}

#[test]
fn pointer_outside_the_surface_does_not_fail_the_frame() {
    let mut game = setup();
    let input = FrameInput {
        just_pressed: true,
        keys: DirectionKeys { left: false, right: true, up: false, down: false },
        ..quiet(1_500_000_000)
    };
    let report = frame(&mut game, &input, level).unwrap();
    assert_eq!(report.placed, Err(GameError::PointerUnavailable));
    assert_eq!(report.spawned, Some(0));
    assert_eq!(game.arena.ids(), vec![0]);
    assert_eq!(game.timer.elapsed_nanos(), 500_000_000);
    assert_eq!(game.camera.position.x, 110 * UNIT);
}

#[test]
fn frame_drives_the_camera() {
    let mut game = setup();
    let input = FrameInput {
        keys: DirectionKeys { left: true, right: false, up: true, down: false },
        scrolls: vec![
            ScrollEvent { unit: ScrollUnit::Pixel, delta: 1000 * UNIT },
            ScrollEvent { unit: ScrollUnit::Line, delta: 5 * UNIT },
        ],
        ..quiet(16_000_000)
    };
    frame(&mut game, &input, level).unwrap();
    assert_eq!(game.camera.position, Position { x: 90 * UNIT, y: 110 * UNIT, z: 10 * UNIT });
    assert_eq!(game.camera.scale, 2_001_000_000);
    // The next frame pans at the new scale.
    frame(&mut game, &FrameInput { scrolls: Vec::new(), ..input }, level).unwrap();
    assert_eq!(game.camera.position.x, 90 * UNIT - 20_010_000_000);
}

#[test]
fn enemy_that_crossed_zero_is_absent_from_all_later_frames() {
    let mut game = setup();
    frame(&mut game, &quiet(1_000_000_000), level).unwrap();
    let x = game.arena.get(0).unwrap().position.x;
    // Far enough to take enemy 0 below zero, and not the one that appears in this frame.
    let crossing = (x as u64) / 50 + 1;
    assert!(crossing < 9_800_000_000);
    let report = frame(&mut game, &quiet(crossing), level).unwrap();
    assert_eq!(report.despawned, vec![0]);
    assert_eq!(game.arena.get(0), None);
    for n in 0..40u64 {
        let input = FrameInput {
            just_pressed: n % 3 == 0,
            pointer: Some(Point { x: n as i64, y: 0 }),
            ..quiet(700_000_000)
        };
        let report = frame(&mut game, &input, level).unwrap();
        assert_ne!(report.spawned, Some(0));
        assert_ne!(report.placed, Ok(Some(0)));
        assert_eq!(game.arena.get(0), None);
    }
}

#[test]
fn towers_stay_through_the_frames() {
    let mut game = setup();
    let press = FrameInput { just_pressed: true, pointer: Some(Point { x: 5, y: 6 }), ..quiet(0) };
    assert_eq!(frame(&mut game, &press, level).unwrap().placed, Ok(Some(0)));
    let tower = game.arena.get(0).unwrap();
    for _ in 0..30 {
        frame(&mut game, &quiet(4_000_000_000), level).unwrap();
        assert_eq!(game.arena.get(0), Some(tower));
    }
}
