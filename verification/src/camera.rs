//! The camera controller: arrow keys pan, the scroll wheel zooms.

use vstd::prelude::*;
use crate::arena::Position;
use crate::error::GameError;
use crate::units::UNIT;

verus! {

/// The distance that one held key moves the camera in one frame, at zoom scale 1: 10
/// units. The step grows with the scale.
pub const PAN_STEP: i64 = 10;

/// A scroll of `d` lines multiplies the scale by `1 + d / 10000`. With `d` on the lattice
/// that is `(LINE_DIVISOR + d) / LINE_DIVISOR`.
pub const LINE_DIVISOR: i64 = 10_000 * UNIT;

/// A scroll of `d` pixels multiplies the scale by `1 + d / 1000`. With `d` on the lattice
/// that is `(PIXEL_DIVISOR + d) / PIXEL_DIVISOR`.
pub const PIXEL_DIVISOR: i64 = 1_000 * UNIT;

/// The camera: where it stands and its zoom scale, both on the lattice.
#[derive(Clone, Copy, Debug, PartialEq, Eq, Structural)]
pub struct Camera {
    pub position: Position,
    pub scale: i64,
}

/// Which of the four arrow keys are held down in a frame.
#[derive(Clone, Copy, Debug, PartialEq, Eq, Structural)]
pub struct DirectionKeys {
    pub left: bool,
    pub right: bool,
    pub up: bool,
    pub down: bool,
}

/// The granularity in which a scroll is reported.
#[derive(Clone, Copy, Debug, PartialEq, Eq, Structural)]
pub enum ScrollUnit {
    Line,
    Pixel,
}

/// One scroll of the wheel: its unit and its signed amount on the lattice.
#[derive(Clone, Copy, Debug, PartialEq, Eq, Structural)]
pub struct ScrollEvent {
    pub unit: ScrollUnit,
    pub delta: i64,
}

/// The lattice value nearest to `v`: `v` itself, or the end of the range that it lies
/// beyond.
pub open spec fn saturate(v: int) -> i64 {
    if v < i64::MIN {
        i64::MIN
    } else if v > i64::MAX {
        i64::MAX
    } else {
        v as i64
    }
}

/// The quotient of `p` by the positive `d`, rounded toward zero.
pub open spec fn quotient_toward_zero(p: int, d: int) -> int {
    if p >= 0 {
        p / d
    } else {
        -((-p) / d)
    }
}

/// The displacement along one axis for a step of `step`: forward for the one key, back for
/// the other, nothing for both or neither.
pub open spec fn displacement(back: bool, forward: bool, step: int) -> int {
    if forward && !back {
        step
    } else if back && !forward {
        -step
    } else {
        0
    }
}

/// The camera after the held keys have acted for one frame. Each key moves it by
/// [`PAN_STEP`] times the scale: left and right along x, down and up along y.
pub open spec fn panned(camera: Camera, keys: DirectionKeys) -> Camera {
    let step = PAN_STEP * camera.scale;
    Camera {
        position: Position {
            x: saturate(camera.position.x + displacement(keys.left, keys.right, step)),
            y: saturate(camera.position.y + displacement(keys.down, keys.up, step)),
            z: camera.position.z,
        },
        scale: camera.scale,
    }
}

/// The scale after one scroll event: the old scale times one plus the scroll's amount
/// weighted by its unit, rounded toward zero onto the lattice.
pub open spec fn zoomed(scale: i64, event: ScrollEvent) -> i64 {
    match event.unit {
        ScrollUnit::Line => saturate(
            quotient_toward_zero(scale * (LINE_DIVISOR + event.delta), LINE_DIVISOR as int),
        ),
        ScrollUnit::Pixel => saturate(
            quotient_toward_zero(scale * (PIXEL_DIVISOR + event.delta), PIXEL_DIVISOR as int),
        ),
    }
}

/// The scale after the scroll events of a frame, each applied to what the ones before it
/// left.
pub open spec fn zoomed_by_all(scale: i64, events: Seq<ScrollEvent>) -> i64
    decreases events.len(),
{
    if events.len() == 0 {
        scale
    } else {
        zoomed(zoomed_by_all(scale, events.drop_last()), events.last())
    }
}

/// The camera after one frame of the controller: panned at the scale that it came with,
/// then zoomed.
pub open spec fn controlled(
    camera: Camera,
    keys: DirectionKeys,
    events: Seq<ScrollEvent>,
) -> Camera {
    Camera {
        position: panned(camera, keys).position,
        scale: zoomed_by_all(camera.scale, events),
    }
}

fn saturating(v: i128) -> (r: i64)
    ensures
        r == saturate(v as int),
{
    if v < i64::MIN as i128 {
        i64::MIN
    } else if v > i64::MAX as i128 {
        i64::MAX
    } else {
        v as i64
    }
}

fn displace(back: bool, forward: bool, step: i128) -> (d: i128)
    requires
        -0x1_0000_0000_0000_0000_0000 < step < 0x1_0000_0000_0000_0000_0000,
    ensures
        d == displacement(back, forward, step as int),
{
    if forward && !back {
        step
    } else if back && !forward {
        -step
    } else {
        0
    }
}

/// Moves the camera for the keys held in one frame.
pub fn pan(camera: &mut Camera, keys: &DirectionKeys)
    ensures
        *final(camera) == panned(*old(camera), *keys),
{
    let step: i128 = (PAN_STEP as i128) * (camera.scale as i128);
    let x: i64 = saturating(camera.position.x as i128 + displace(keys.left, keys.right, step));
    let y: i64 = saturating(camera.position.y as i128 + displace(keys.down, keys.up, step));
    camera.position = Position { x, y, z: camera.position.z };
}

fn scale_by(scale: i64, delta: i64, divisor: i64) -> (r: i64)
    requires
        0 < divisor <= LINE_DIVISOR,
    ensures
        r == saturate(quotient_toward_zero(scale * (divisor + delta), divisor as int)),
{
    let factor: i128 = divisor as i128 + delta as i128;
    assert(-0x8000_0000_0000_0000 * 0x8000_1000_0000_0000 <= scale * factor
        <= 0x8000_0000_0000_0000 * 0x8000_1000_0000_0000) by (nonlinear_arith)
        requires
            -0x8000_0000_0000_0000 <= scale <= 0x8000_0000_0000_0000,
            -0x8000_1000_0000_0000 <= factor <= 0x8000_1000_0000_0000,
    ;
    let product: i128 = (scale as i128) * factor;
    let quotient: i128 = if product >= 0 {
        product / (divisor as i128)
    } else {
        -((-product) / (divisor as i128))
    };
    saturating(quotient)
}

/// Applies one scroll event to the camera's zoom scale.
pub fn zoom(camera: &mut Camera, event: &ScrollEvent)
    ensures
        final(camera).scale == zoomed(old(camera).scale, *event),
        final(camera).position == old(camera).position,
{
    camera.scale = match event.unit {
        ScrollUnit::Line => scale_by(camera.scale, event.delta, LINE_DIVISOR),
        ScrollUnit::Pixel => scale_by(camera.scale, event.delta, PIXEL_DIVISOR),
    };
}

/// One frame of the camera controller. The held keys pan the camera, each by [`PAN_STEP`]
/// times the scale that the frame began with; then the scroll events zoom it in the order
/// in which they arrived. With any number of cameras but one, nothing is changed and the
/// frame fails.
pub fn camera_controls(
    camera: &mut Camera,
    cameras: usize,
    keys: &DirectionKeys,
    scrolls: &Vec<ScrollEvent>,
) -> (outcome: Result<(), GameError>)
    ensures
        cameras == 1 ==> outcome == Ok::<(), GameError>(()) && *final(camera) == controlled(
            *old(camera),
            *keys,
            scrolls@,
        ),
        cameras != 1 ==> outcome == Err::<(), GameError>(GameError::PreconditionViolation)
            && *final(camera) == *old(camera),
{
    if cameras != 1 {
        return Err(GameError::PreconditionViolation);
    }
    let ghost start = *camera;
    pan(camera, keys);
    let mut i: usize = 0;
    while i < scrolls.len()
        invariant
            i <= scrolls@.len(),
            camera.position == panned(start, *keys).position,
            camera.scale == zoomed_by_all(start.scale, scrolls@.take(i as int)),
        decreases scrolls@.len() - i,
    {
        assert(scrolls@.take(i + 1).drop_last() == scrolls@.take(i as int));
        zoom(camera, &scrolls[i]);
        i += 1;
    }
    assert(scrolls@.take(i as int) == scrolls@);
    Ok(())
}

} // verus!
