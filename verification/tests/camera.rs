use tower_defense::arena::Position;
use tower_defense::camera::{
    camera_controls, pan, zoom, Camera, DirectionKeys, ScrollEvent, ScrollUnit, LINE_DIVISOR,
    PAN_STEP, PIXEL_DIVISOR,
};
use tower_defense::error::GameError;
use tower_defense::setup::{setup, CAMERA_HEIGHT, CAMERA_START};
use tower_defense::units::UNIT;

const NO_KEYS: DirectionKeys = DirectionKeys { left: false, right: false, up: false, down: false };

fn camera_at(x: i64, y: i64, z: i64, scale: i64) -> Camera {
    Camera { position: Position { x, y, z }, scale }
}

fn line(delta: i64) -> ScrollEvent {
    ScrollEvent { unit: ScrollUnit::Line, delta }
}

fn pixel(delta: i64) -> ScrollEvent {
    ScrollEvent { unit: ScrollUnit::Pixel, delta }
}

#[test]
fn camera_constants() {
    assert_eq!(PAN_STEP, 10);
    assert_eq!(LINE_DIVISOR, 10_000_000_000_000);
    assert_eq!(PIXEL_DIVISOR, 1_000_000_000_000);
}

#[test]
fn five_lines_scale_the_zoom_by_1_0005() {
    let mut camera = camera_at(0, 0, 0, UNIT);
    zoom(&mut camera, &line(5 * UNIT));
    assert_eq!(camera.scale, 1_000_500_000);
    let mut camera = camera_at(0, 0, 0, 2 * UNIT);
    assert_eq!(camera_controls(&mut camera, 1, &NO_KEYS, &vec![line(5 * UNIT)]), Ok(()));
    assert_eq!(camera.scale, 2_001_000_000);
}

#[test]
fn five_pixels_scale_the_zoom_by_1_005() {
    let mut camera = camera_at(0, 0, 0, UNIT);
    zoom(&mut camera, &pixel(5 * UNIT));
    assert_eq!(camera.scale, 1_005_000_000);
    let mut camera = camera_at(0, 0, 0, 2 * UNIT);
    assert_eq!(camera_controls(&mut camera, 1, &NO_KEYS, &vec![pixel(5 * UNIT)]), Ok(()));
    assert_eq!(camera.scale, 2_010_000_000);
}

#[test]
fn left_and_up_at_scale_two_move_by_twenty() {
    let mut camera = camera_at(100 * UNIT, 100 * UNIT, 10 * UNIT, 2 * UNIT);
    let keys = DirectionKeys { left: true, up: true, ..NO_KEYS };
    assert_eq!(camera_controls(&mut camera, 1, &keys, &Vec::new()), Ok(()));
    assert_eq!(camera.position, Position { x: 80 * UNIT, y: 120 * UNIT, z: 10 * UNIT });
    assert_eq!(camera.scale, 2 * UNIT);
}

#[test]
fn each_key_moves_along_its_axis() {
    let start = camera_at(0, 0, 5, UNIT);
    let mut camera = start;
    pan(&mut camera, &DirectionKeys { left: true, ..NO_KEYS });
    assert_eq!(camera.position, Position { x: -10 * UNIT, y: 0, z: 5 });
    let mut camera = start;
    pan(&mut camera, &DirectionKeys { right: true, ..NO_KEYS });
    assert_eq!(camera.position, Position { x: 10 * UNIT, y: 0, z: 5 });
    let mut camera = start;
    pan(&mut camera, &DirectionKeys { up: true, ..NO_KEYS });
    assert_eq!(camera.position, Position { x: 0, y: 10 * UNIT, z: 5 });
    let mut camera = start;
    pan(&mut camera, &DirectionKeys { down: true, ..NO_KEYS });
    assert_eq!(camera.position, Position { x: 0, y: -10 * UNIT, z: 5 });
}

#[test]
fn opposite_keys_cancel() {
    let start = camera_at(3, 4, 5, 7 * UNIT);
    let mut camera = start;
    pan(&mut camera, &DirectionKeys { left: true, right: true, up: true, down: true });
    assert_eq!(camera, start);
    pan(&mut camera, &DirectionKeys { left: true, right: true, up: true, down: false });
    assert_eq!(camera.position, Position { x: 3, y: 4 + 70 * UNIT, z: 5 });
}

#[test]
fn pan_is_per_frame_and_grows_with_the_scale() {
    let mut camera = camera_at(0, 0, 0, UNIT / 2);
    let keys = DirectionKeys { right: true, ..NO_KEYS };
    for _ in 0..3 {
        pan(&mut camera, &keys);
    }
    assert_eq!(camera.position.x, 15 * UNIT);
}

#[test]
fn no_input_leaves_the_camera() {
    let start = camera_at(1, 2, 3, 4);
    let mut camera = start;
    assert_eq!(camera_controls(&mut camera, 1, &NO_KEYS, &Vec::new()), Ok(()));
    assert_eq!(camera, start);
}

#[test]
fn pan_uses_the_scale_from_before_the_scrolls() {
    let mut camera = camera_at(0, 0, 0, UNIT);
    let keys = DirectionKeys { right: true, ..NO_KEYS };
    assert_eq!(camera_controls(&mut camera, 1, &keys, &vec![pixel(1000 * UNIT)]), Ok(()));
    assert_eq!(camera.position.x, 10 * UNIT);
    assert_eq!(camera.scale, 2 * UNIT);
}

#[test]
fn scrolls_compose_in_order_of_arrival() {
    let mut camera = camera_at(0, 0, 0, UNIT);
    let events = vec![line(5 * UNIT), pixel(-5 * UNIT), line(-10_000 * UNIT / 2)];
    assert_eq!(camera_controls(&mut camera, 1, &NO_KEYS, &events), Ok(()));
    // 1.0005 * 0.995 = 0.9954975, then halved and rounded toward zero.
    assert_eq!(camera.scale, 497_748_750);
    let mut step = camera_at(0, 0, 0, UNIT);
    zoom(&mut step, &events[0]);
    assert_eq!(step.scale, 1_000_500_000);
    zoom(&mut step, &events[1]);
    assert_eq!(step.scale, 995_497_500);
    zoom(&mut step, &events[2]);
    assert_eq!(step.scale, camera.scale);
}

#[test]
fn zoom_rounds_toward_zero() {
    let mut camera = camera_at(0, 0, 0, 3);
    zoom(&mut camera, &pixel(500 * UNIT));
    // 3 * 1.5 = 4.5
    assert_eq!(camera.scale, 4);
    let mut camera = camera_at(0, 0, 0, -3);
    zoom(&mut camera, &pixel(500 * UNIT));
    assert_eq!(camera.scale, -4);
}

#[test]
fn zoom_by_a_scroll_of_zero_changes_nothing() {
    let mut camera = camera_at(9, 9, 9, 123_456_789);
    zoom(&mut camera, &line(0));
    zoom(&mut camera, &pixel(0));
    assert_eq!(camera, camera_at(9, 9, 9, 123_456_789));
}

#[test]
fn zoom_can_turn_the_scale_over() {
    let mut camera = camera_at(0, 0, 0, UNIT);
    zoom(&mut camera, &pixel(-3000 * UNIT));
    assert_eq!(camera.scale, -2 * UNIT);
    zoom(&mut camera, &line(-10_000 * UNIT));
    assert_eq!(camera.scale, 0);
}

#[test]
fn camera_stops_at_the_ends_of_the_lattice() {
    let mut camera = camera_at(i64::MAX - 5, i64::MIN + 5, 0, UNIT);
    pan(&mut camera, &DirectionKeys { right: true, down: true, ..NO_KEYS });
    assert_eq!(camera.position, Position { x: i64::MAX, y: i64::MIN, z: 0 });
    let mut camera = camera_at(0, 0, 0, i64::MAX);
    pan(&mut camera, &DirectionKeys { left: true, up: true, ..NO_KEYS });
    assert_eq!(camera.position, Position { x: i64::MIN, y: i64::MAX, z: 0 });
    zoom(&mut camera, &pixel(i64::MAX));
    assert_eq!(camera.scale, i64::MAX);
    zoom(&mut camera, &line(i64::MIN));
    assert_eq!(camera.scale, i64::MIN);
}

#[test]
fn controller_needs_exactly_one_camera() {
    for cameras in [0usize, 2, 7] {
        let start = camera_at(1, 2, 3, UNIT);
        let mut camera = start;
        let keys = DirectionKeys { left: true, ..NO_KEYS };
        assert_eq!(
            camera_controls(&mut camera, cameras, &keys, &vec![line(UNIT)]),
            Err(GameError::PreconditionViolation)
        );
        assert_eq!(camera, start);
    }
}

#[test]
fn game_starts_empty_with_the_camera_in_place() {
    let game = setup();
    assert_eq!(game.timer.elapsed_nanos(), 0);
    assert!(game.arena.ids().is_empty());
    assert!(game.arena.has_room());
    assert_eq!(game.camera, camera_at(100 * UNIT, 100 * UNIT, 10 * UNIT, UNIT));
    assert_eq!(CAMERA_START, 100_000_000_000);
    assert_eq!(CAMERA_HEIGHT, 10_000_000_000);
    assert_eq!(game.assets.enemy(), tower_defense::assets::AssetSet::new().enemy());
    assert_eq!(game.assets.tower(), tower_defense::assets::AssetSet::new().tower());
}
