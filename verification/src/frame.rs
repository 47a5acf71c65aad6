//! The per-frame update state machine.
//!
//! Each frame, a fixed rotation increment of `2.0 * (1/60)` radians is
//! applied to the cube's rotation angles for every held key (forward/back
//! drive x, left/right drive y); if and only if no key is held, the
//! y-angle is overwritten with the wall-clock seconds elapsed since start.
//! Angles and times are fixed-point: units of `1 / FX_ONE` radians or
//! seconds, so the per-tick increment `FX_ONE / 30` is exact.
//!
//! A zero-area surface (width or height 0) means the frame is skipped
//! entirely: no rotation update, no aspect ratio, nothing to render.

use vstd::prelude::*;

use crate::fixed::FX_ONE;

verus! {

/// The per-tick rotation increment, `2.0 * (1/60)` radians in units of
/// `1 / FX_ONE` radians: `FX_ONE / 30`.
pub const TICK_INCREMENT: i64 = 20_000;

/// The fixed camera position's z coordinate, `3.0 * FX_ONE` (the camera
/// sits at (0, 0, 3) looking at the origin).
pub const CAMERA_Z: i64 = 1_800_000;

/// Vertical field of view of the projection, in degrees.
pub const FOV_Y_DEGREES: i64 = 45;

/// Near plane distance of the projection, `0.1 * FX_ONE`.
pub const NEAR_PLANE: i64 = 60_000;

/// Far plane distance of the projection, `100.0 * FX_ONE`.
pub const FAR_PLANE: i64 = 60_000_000;

/// Largest angle or elapsed-time magnitude, in units, accepted by the
/// update step; far beyond any reachable value, it only keeps the
/// increment additions inside `i64`.
pub const ANGLE_MAX: i64 = 0x4000_0000_0000_0000;

/// The current key-down state of the four rotation keys.
#[derive(Clone, Copy, Debug, PartialEq, Eq, Structural)]
pub struct KeyboardState {
    pub forward: bool,
    pub left: bool,
    pub back: bool,
    pub right: bool,
}

/// One of the four keys that drive manual rotation.
#[derive(Clone, Copy, Debug, PartialEq, Eq, Structural)]
pub enum RotationKey {
    Forward,
    Left,
    Back,
    Right,
}

/// The cube's rotation angles (radians in units of `1 / FX_ONE`),
/// accumulated frame over frame and never wrapped.
#[derive(Clone, Copy, Debug, PartialEq, Eq, Structural)]
pub struct RotationState {
    pub x: i64,
    pub y: i64,
    pub z: i64,
}

/// At least one rotation key is held.
pub open spec fn any_key_pressed(keys: KeyboardState) -> bool {
    keys.forward || keys.left || keys.back || keys.right
}

/// The x-angle after one update tick: forward subtracts one increment,
/// back adds one; both at once cancel.
pub open spec fn step_x(x: int, keys: KeyboardState) -> int {
    x + (if keys.back { TICK_INCREMENT as int } else { 0 }) - (if keys.forward {
        TICK_INCREMENT as int
    } else {
        0
    })
}

/// The y-angle after one update tick: left subtracts one increment, right
/// adds one — unless no key at all is held, in which case the manual value
/// is discarded and y snaps to the elapsed wall-clock time.
pub open spec fn step_y(y: int, keys: KeyboardState, elapsed: int) -> int {
    if !any_key_pressed(keys) {
        elapsed
    } else {
        y + (if keys.right { TICK_INCREMENT as int } else { 0 }) - (if keys.left {
            TICK_INCREMENT as int
        } else {
            0
        })
    }
}

/// The whole rotation state is comfortably inside the accepted range.
pub open spec fn rotation_in_range(rot: RotationState) -> bool {
    &&& -ANGLE_MAX <= rot.x <= ANGLE_MAX
    &&& -ANGLE_MAX <= rot.y <= ANGLE_MAX
    &&& -ANGLE_MAX <= rot.z <= ANGLE_MAX
}

/// The x-angle after `n` update ticks with a fixed keyboard state.
pub open spec fn x_after(x0: int, keys: KeyboardState, n: nat) -> int
    decreases n,
{
    if n == 0 {
        x0
    } else {
        step_x(x_after(x0, keys, (n - 1) as nat), keys)
    }
}

/// The y-angle after one update tick per entry of `samples`, each entry
/// the wall-clock time observed at that tick, with a fixed keyboard state.
pub open spec fn y_after(y0: int, keys: KeyboardState, samples: Seq<int>) -> int
    decreases samples.len(),
{
    if samples.len() == 0 {
        y0
    } else {
        step_y(y_after(y0, keys, samples.drop_last()), keys, samples.last())
    }
}

/// With all four keys released throughout, the y-angle after any run of
/// ticks is exactly the wall-clock time observed at the last tick, and
/// the x-angle never moves from where it was left.
pub proof fn lemma_idle_auto_rotate(x0: int, y0: int, keys: KeyboardState, samples: Seq<int>)
    requires
        !any_key_pressed(keys),
        samples.len() > 0,
    ensures
        y_after(y0, keys, samples) == samples.last(),
        x_after(x0, keys, samples.len()) == x0,
    decreases samples.len(),
{
    lemma_idle_x(x0, keys, samples.len());
    if samples.len() > 1 {
        lemma_idle_auto_rotate(x0, y0, keys, samples.drop_last());
    }
}

/// With every key released, a tick never moves the x-angle.
proof fn lemma_idle_x(x0: int, keys: KeyboardState, n: nat)
    requires
        !any_key_pressed(keys),
    ensures
        x_after(x0, keys, n) == x0,
    decreases n,
{
    if n > 0 {
        lemma_idle_x(x0, keys, (n - 1) as nat);
    }
}

/// Holding forward for exactly `n` ticks (with back released) lowers the
/// x-angle by `n` increments of `2.0 * (1/60)` radians; one further tick
/// with every key released then leaves it frozen there.
pub proof fn lemma_manual_rotation_accumulation(
    x0: int,
    keys: KeyboardState,
    idle: KeyboardState,
    n: nat,
)
    requires
        keys.forward,
        !keys.back,
        !any_key_pressed(idle),
    ensures
        x_after(x0, keys, n) == x0 - n * TICK_INCREMENT,
        step_x(x_after(x0, keys, n), idle) == x_after(x0, keys, n),
    decreases n,
{
    if n > 0 {
        lemma_manual_rotation_accumulation(x0, keys, idle, (n - 1) as nat);
    }
}

/// Holding right (with left released) raises the y-angle by exactly one
/// increment per tick, whatever the wall clock reads — the manual value
/// that the idle override later discards.
pub proof fn lemma_manual_y_accumulation(y0: int, keys: KeyboardState, samples: Seq<int>)
    requires
        keys.right,
        !keys.left,
    ensures
        y_after(y0, keys, samples) == y0 + samples.len() * TICK_INCREMENT,
    decreases samples.len(),
{
    if samples.len() > 0 {
        lemma_manual_y_accumulation(y0, keys, samples.drop_last());
    }
}

/// The idle override is a hard discontinuity: the instant every key is
/// released, the y-angle snaps to the elapsed wall-clock time, whatever
/// manual value had accumulated before.
pub proof fn lemma_idle_override_discontinuity(
    y0: int,
    y1: int,
    keys: KeyboardState,
    elapsed: int,
)
    requires
        !any_key_pressed(keys),
    ensures
        step_y(y0, keys, elapsed) == elapsed,
        step_y(y0, keys, elapsed) == step_y(y1, keys, elapsed),
{
}

impl KeyboardState {
    /// All four keys start released.
    pub fn new() -> (keys: KeyboardState)
        ensures
            keys == (KeyboardState { forward: false, left: false, back: false, right: false }),
    {
        KeyboardState { forward: false, left: false, back: false, right: false }
    }

    /// Record a key-down or key-up for one rotation key, leaving the
    /// other three flags untouched.
    pub fn set_key(&mut self, key: RotationKey, pressed: bool)
        ensures
            final(self).forward == (if key is Forward { pressed } else { old(self).forward }),
            final(self).left == (if key is Left { pressed } else { old(self).left }),
            final(self).back == (if key is Back { pressed } else { old(self).back }),
            final(self).right == (if key is Right { pressed } else { old(self).right }),
    {
        match key {
            RotationKey::Forward => self.forward = pressed,
            RotationKey::Left => self.left = pressed,
            RotationKey::Back => self.back = pressed,
            RotationKey::Right => self.right = pressed,
        }
    }

    /// Whether any rotation key is currently held.
    pub fn any_pressed(&self) -> (r: bool)
        ensures
            r == any_key_pressed(*self),
    {
        self.forward || self.left || self.back || self.right
    }
}

impl RotationState {
    /// Rotation starts at zero about every axis.
    pub fn new() -> (rot: RotationState)
        ensures
            rot == (RotationState { x: 0, y: 0, z: 0 }),
    {
        RotationState { x: 0, y: 0, z: 0 }
    }
}

/// What one frame needs beyond the rotation angles: the surface aspect
/// ratio, width over height, in units of `1 / FX_ONE`.
#[derive(Clone, Copy, Debug, PartialEq, Eq, Structural)]
pub struct FrameInputs {
    pub rotation: RotationState,
    pub aspect: i64,
}

/// The aspect ratio of a `width` by `height` surface in fixed-point units,
/// rounded down.
pub open spec fn spec_aspect(width: u32, height: u32) -> int {
    (width * FX_ONE) / (height as int)
}

/// Apply one update tick to the rotation state: per-key increments first,
/// then the idle override of the y-angle.
pub fn update_rotation(rot: &mut RotationState, keys: &KeyboardState, elapsed: i64)
    requires
        rotation_in_range(*old(rot)),
        0 <= elapsed <= ANGLE_MAX,
    ensures
        final(rot).x == step_x(old(rot).x as int, *keys),
        final(rot).y == step_y(old(rot).y as int, *keys, elapsed as int),
        final(rot).z == old(rot).z,
{
    if keys.forward {
        rot.x = rot.x - TICK_INCREMENT;
    }
    if keys.back {
        rot.x = rot.x + TICK_INCREMENT;
    }
    if keys.left {
        rot.y = rot.y - TICK_INCREMENT;
    }
    if keys.right {
        rot.y = rot.y + TICK_INCREMENT;
    }
    if !keys.forward && !keys.left && !keys.back && !keys.right {
        rot.y = elapsed;
    }
}

/// Decide whether a surface of the given pixel size can be rendered to at
/// all: a zero-area surface (minimized window) is skipped and must not be
/// reconfigured.
pub fn surface_usable(width: u32, height: u32) -> (r: bool)
    ensures
        r == (width > 0 && height > 0),
{
    width > 0 && height > 0
}

/// Run one frame's update: on a zero-area surface nothing happens and
/// `None` says the frame is skipped; otherwise the rotation state advances
/// by one tick and the angles and aspect ratio to render with come back.
pub fn advance_frame(
    rot: &mut RotationState,
    keys: &KeyboardState,
    elapsed: i64,
    width: u32,
    height: u32,
) -> (r: Option<FrameInputs>)
    requires
        rotation_in_range(*old(rot)),
        0 <= elapsed <= ANGLE_MAX,
    ensures
        width == 0 || height == 0 ==> r is None && *final(rot) == *old(rot),
        width > 0 && height > 0 ==> {
            &&& final(rot).x == step_x(old(rot).x as int, *keys)
            &&& final(rot).y == step_y(old(rot).y as int, *keys, elapsed as int)
            &&& final(rot).z == old(rot).z
            &&& r == Some(FrameInputs { rotation: *final(rot), aspect: spec_aspect(width, height) as i64 })
        },
{
    if !surface_usable(width, height) {
        return None;
    }
    update_rotation(rot, keys, elapsed);
    let aspect: i64 = (((width as u64) * (FX_ONE as u64)) / (height as u64)) as i64;
    Some(FrameInputs { rotation: *rot, aspect })
}

} // verus!
