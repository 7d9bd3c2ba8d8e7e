use tower_defense::arena::{Arena, Position, Tag};
use tower_defense::assets::{AssetSet, Paint, Shape};
use tower_defense::spawner::{spawn_enemies, spawn_enemy_at, JITTER, ORIGIN_X, ORIGIN_Y};
use tower_defense::timer::{SpawnTimer, SPAWN_PERIOD};
use tower_defense::units::UNIT;

#[test]
fn timer_starts_at_zero() {
    let timer = SpawnTimer::new();
    assert_eq!(timer.elapsed_nanos(), 0);
}

#[test]
fn spawn_period_is_one_second() {
    assert_eq!(SPAWN_PERIOD, 1_000_000_000);
    assert_eq!(UNIT, 1_000_000_000);
}

#[test]
fn timer_does_not_fire_before_the_period_ends() {
    let mut timer = SpawnTimer::new();
    assert!(!timer.tick(400_000_000));
    assert_eq!(timer.elapsed_nanos(), 400_000_000);
    assert!(!timer.tick(599_999_999));
    assert_eq!(timer.elapsed_nanos(), 999_999_999);
}

#[test]
fn timer_fires_and_keeps_the_remainder() {
    let mut timer = SpawnTimer::new();
    assert!(!timer.tick(400_000_000));
    assert!(timer.tick(700_000_000));
    assert_eq!(timer.elapsed_nanos(), 100_000_000);
    assert!(!timer.tick(100_000_000));
    assert_eq!(timer.elapsed_nanos(), 200_000_000);
}

#[test]
fn timer_fires_exactly_on_the_boundary() {
    let mut timer = SpawnTimer::new();
    assert!(timer.tick(1_000_000_000));
    assert_eq!(timer.elapsed_nanos(), 0);
}

#[test]
fn timer_tick_of_zero_changes_nothing() {
    let mut timer = SpawnTimer::new();
    assert!(!timer.tick(250_000_000));
    assert!(!timer.tick(0));
    assert_eq!(timer.elapsed_nanos(), 250_000_000);
}

#[test]
fn timer_fires_once_for_a_long_frame() {
    let mut timer = SpawnTimer::new();
    assert!(timer.tick(5_300_000_000));
    assert_eq!(timer.elapsed_nanos(), 300_000_000);
}

#[test]
fn timer_takes_the_longest_frame() {
    let mut timer = SpawnTimer::new();
    assert!(!timer.tick(999_999_999));
    assert!(timer.tick(u64::MAX));
    let expected = ((999_999_999u128 + u64::MAX as u128) % 1_000_000_000u128) as u64;
    assert_eq!(timer.elapsed_nanos(), expected);
}

#[test]
fn timer_fires_once_per_period_over_short_frames() {
    // 250 frames of 16 ms: 4 s in all, and no frame crosses two boundaries.
    let mut timer = SpawnTimer::new();
    let mut fired = 0u64;
    let mut total = 0u64;
    for _ in 0..250 {
        if timer.tick(16_000_000) {
            fired += 1;
        }
        total += 16_000_000;
    }
    assert_eq!(total, 4_000_000_000);
    assert_eq!(fired, total / SPAWN_PERIOD);
    assert_eq!(fired, 4);
    assert_eq!(timer.elapsed_nanos(), total % SPAWN_PERIOD);
}

#[test]
fn timer_fires_once_per_period_over_uneven_frames() {
    let frames: [u64; 7] =
        [300_000_000, 900_000_000, 50_000_000, 1_700_000_000, 40_000_000, 999_999_999, 10_000_001];
    let mut timer = SpawnTimer::new();
    let mut fired = 0u64;
    let mut total = 0u64;
    for delta in frames {
        // No frame takes the countdown over two boundaries.
        assert!(timer.elapsed_nanos() + delta < 2 * SPAWN_PERIOD);
        if timer.tick(delta) {
            fired += 1;
        }
        total += delta;
    }
    assert_eq!(total, 4_000_000_000);
    assert_eq!(fired, 4);
}

#[test]
fn enemy_is_spawned_at_origin_plus_offsets() {
    let mut arena = Arena::new();
    let assets = AssetSet::new();
    let id = spawn_enemy_at(&mut arena, &assets, 3 * UNIT, -7 * UNIT);
    assert_eq!(id, 0);
    let enemy = arena.get(id).unwrap();
    assert_eq!(enemy.id, 0);
    assert_eq!(enemy.tag, Tag::Enemy);
    assert_eq!(enemy.position, Position { x: 503 * UNIT, y: 193 * UNIT, z: 0 });
    assert_eq!(enemy.visual, assets.enemy());
}

#[test]
fn enemy_spawns_at_the_corners_of_the_box() {
    let mut arena = Arena::new();
    let assets = AssetSet::new();
    let low = spawn_enemy_at(&mut arena, &assets, -JITTER, -JITTER);
    let high = spawn_enemy_at(&mut arena, &assets, JITTER, JITTER);
    assert_eq!(arena.get(low).unwrap().position, Position { x: 490 * UNIT, y: 190 * UNIT, z: 0 });
    assert_eq!(arena.get(high).unwrap().position, Position { x: 510 * UNIT, y: 210 * UNIT, z: 0 });
}

#[test]
fn spawn_origin_and_jitter() {
    assert_eq!(ORIGIN_X, 500_000_000_000);
    assert_eq!(ORIGIN_Y, 200_000_000_000);
    assert_eq!(JITTER, 10_000_000_000);
}

#[test]
fn no_enemy_before_the_period_ends() {
    let mut timer = SpawnTimer::new();
    let mut arena = Arena::new();
    let assets = AssetSet::new();
    assert_eq!(spawn_enemies(&mut timer, &mut arena, &assets, 999_999_999), None);
    assert!(arena.ids().is_empty());
    assert_eq!(timer.elapsed_nanos(), 999_999_999);
}

#[test]
fn one_enemy_when_the_period_ends() {
    let mut timer = SpawnTimer::new();
    let mut arena = Arena::new();
    let assets = AssetSet::new();
    assert_eq!(spawn_enemies(&mut timer, &mut arena, &assets, 600_000_000), None);
    let spawned = spawn_enemies(&mut timer, &mut arena, &assets, 600_000_000);
    assert_eq!(spawned, Some(0));
    assert_eq!(arena.ids(), vec![0]);
    assert_eq!(timer.elapsed_nanos(), 200_000_000);
    let enemy = arena.get(0).unwrap();
    assert_eq!(enemy.tag, Tag::Enemy);
    assert_eq!(enemy.visual.shape, Shape::Circle { radius: 5 * UNIT });
    assert_eq!(enemy.visual.paint, Paint::Purple);
    assert_eq!(enemy.position.z, 0);
}

#[test]
fn one_enemy_even_when_several_periods_end_in_a_frame() {
    let mut timer = SpawnTimer::new();
    let mut arena = Arena::new();
    let assets = AssetSet::new();
    let spawned = spawn_enemies(&mut timer, &mut arena, &assets, 7_500_000_000);
    assert_eq!(spawned, Some(0));
    assert_eq!(arena.ids().len(), 1);
    assert_eq!(timer.elapsed_nanos(), 500_000_000);
}

#[test]
fn spawner_makes_one_enemy_per_period_in_the_box() {
    // 10 s in frames of 100 ms: ten enemies, each in [490, 510] x [190, 210].
    let mut timer = SpawnTimer::new();
    let mut arena = Arena::new();
    let assets = AssetSet::new();
    let mut total = 0u64;
    for _ in 0..100 {
        spawn_enemies(&mut timer, &mut arena, &assets, 100_000_000);
        total += 100_000_000;
    }
    let ids = arena.ids();
    assert_eq!(ids.len() as u64, total / SPAWN_PERIOD);
    assert_eq!(ids, (0..10).collect::<Vec<u64>>());
    for id in ids {
        let enemy = arena.get(id).unwrap();
        assert_eq!(enemy.tag, Tag::Enemy);
        assert!(490 * UNIT <= enemy.position.x && enemy.position.x <= 510 * UNIT);
        assert!(190 * UNIT <= enemy.position.y && enemy.position.y <= 210 * UNIT);
        assert_eq!(enemy.position.z, 0);
    }
}

#[test]
fn spawn_offsets_are_drawn_and_vary() {
    let mut timer = SpawnTimer::new();
    let mut arena = Arena::new();
    let assets = AssetSet::new();
    for _ in 0..200 {
        assert!(spawn_enemies(&mut timer, &mut arena, &assets, SPAWN_PERIOD).is_some());
    }
    let first = arena.get(0).unwrap().position;
    let mut other_x = false;
    let mut other_y = false;
    for id in arena.ids() {
        let p = arena.get(id).unwrap().position;
        assert!(ORIGIN_X - JITTER <= p.x && p.x < ORIGIN_X + JITTER);
        assert!(ORIGIN_Y - JITTER <= p.y && p.y < ORIGIN_Y + JITTER);
        other_x = other_x || p.x != first.x;
        other_y = other_y || p.y != first.y;
    }
    assert!(other_x);
    assert!(other_y);
}
