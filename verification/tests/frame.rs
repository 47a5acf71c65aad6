use intsar3d::fixed::FX_ONE;
use intsar3d::frame::{
    advance_frame, surface_usable, update_rotation, KeyboardState, RotationKey, RotationState,
    TICK_INCREMENT,
};

fn idle() -> KeyboardState {
    KeyboardState::new()
}

fn held(key: RotationKey) -> KeyboardState {
    let mut keys = KeyboardState::new();
    keys.set_key(key, true);
    keys
}

/// With all keys released throughout, the y-angle tracks elapsed
/// wall-clock time exactly and x and z stay at zero.
#[test]
fn idle_auto_rotate_tracks_elapsed_time() {
    let mut rot = RotationState::new();
    for tick in 1..=100_i64 {
        // About a 60th of a second of wall clock per tick.
        let elapsed = tick * (FX_ONE / 60);
        update_rotation(&mut rot, &idle(), elapsed);
        assert_eq!(rot.y, elapsed);
        assert_eq!(rot.x, 0);
        assert_eq!(rot.z, 0);
    }
}

/// Holding forward for N ticks lowers x by exactly N * 2.0/60 radians;
/// releasing it freezes x there.
#[test]
fn manual_rotation_accumulates_and_freezes() {
    let mut rot = RotationState::new();
    let keys = held(RotationKey::Forward);
    for tick in 1..=90_i64 {
        update_rotation(&mut rot, &keys, tick * 10_000);
        assert_eq!(rot.x, -tick * TICK_INCREMENT);
    }
    assert_eq!(rot.x, -90 * TICK_INCREMENT);
    // Release: the next idle tick leaves x frozen.
    update_rotation(&mut rot, &idle(), 1_000_000);
    assert_eq!(rot.x, -90 * TICK_INCREMENT);
}

/// Holding right for one second accumulates y to 2.0 radians; the first
/// idle tick afterwards snaps y to the elapsed time instead of continuing
/// from the accumulated value.
#[test]
fn idle_override_discontinuity() {
    let mut rot = RotationState::new();
    let keys = held(RotationKey::Right);
    // 60 ticks at the nominal 60 ticks per second = 1 second held.
    for tick in 1..=60_i64 {
        update_rotation(&mut rot, &keys, tick * (FX_ONE / 60));
    }
    assert_eq!(rot.y, 2 * FX_ONE, "y accumulated 2.0 radians");
    // All keys released; 1.025 s of wall clock have now elapsed.
    let elapsed = FX_ONE + FX_ONE / 40;
    update_rotation(&mut rot, &idle(), elapsed);
    assert_eq!(rot.y, elapsed, "y snaps to elapsed time, not 2.0 + anything");
}

/// Opposite keys held together cancel; perpendicular keys apply
/// independently in the same tick.
#[test]
fn simultaneous_keys_are_additive() {
    let mut rot = RotationState::new();
    let mut keys = KeyboardState::new();
    keys.set_key(RotationKey::Forward, true);
    keys.set_key(RotationKey::Back, true);
    keys.set_key(RotationKey::Left, true);
    update_rotation(&mut rot, &keys, 12_345);
    assert_eq!(rot.x, 0, "forward and back cancel");
    assert_eq!(rot.y, -TICK_INCREMENT, "left still applies");
    assert_eq!(rot.z, 0);
}

/// Key events toggle exactly the bound flag and leave the rest alone.
#[test]
fn set_key_updates_one_flag() {
    let mut keys = KeyboardState::new();
    assert!(!keys.any_pressed());
    keys.set_key(RotationKey::Left, true);
    assert!(keys.left && !keys.forward && !keys.back && !keys.right);
    assert!(keys.any_pressed());
    keys.set_key(RotationKey::Right, true);
    keys.set_key(RotationKey::Left, false);
    assert!(keys.right && !keys.left);
    keys.set_key(RotationKey::Right, false);
    assert!(!keys.any_pressed());
}

/// A zero-area surface skips the frame entirely: no rotation update, no
/// aspect ratio, nothing to render.
#[test]
fn zero_area_surface_skips_frame() {
    assert!(!surface_usable(0, 600));
    assert!(!surface_usable(800, 0));
    assert!(!surface_usable(0, 0));
    assert!(surface_usable(1, 1));

    let mut rot = RotationState { x: 7, y: 8, z: 9 };
    assert!(advance_frame(&mut rot, &idle(), 555_555, 800, 0).is_none());
    assert_eq!(rot, RotationState { x: 7, y: 8, z: 9 });
    assert!(advance_frame(&mut rot, &idle(), 555_555, 0, 600).is_none());
    assert_eq!(rot, RotationState { x: 7, y: 8, z: 9 });
}

/// A usable surface advances the rotation and reports the aspect ratio
/// width/height in fixed-point units, rounded down.
#[test]
fn advance_frame_reports_aspect_ratio() {
    let mut rot = RotationState::new();
    let f = advance_frame(&mut rot, &idle(), 250_000, 800, 600).expect("frame should render");
    assert_eq!(f.aspect, 800_000, "4:3 is exactly 4/3 * FX_ONE");
    assert_eq!(f.rotation.y, 250_000);
    assert_eq!(f.rotation, rot);

    let f = advance_frame(&mut rot, &idle(), 260_000, 1920, 1080).expect("frame should render");
    // 1920 * 600_000 / 1080 rounded down.
    assert_eq!(f.aspect, 1_066_666);
    assert_eq!(f.rotation.y, 260_000);
}
