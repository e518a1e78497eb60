use cameraman::cameraman;
use cameraman::center;
use cameraman::Cameraman;
use cameraman::IVec2;
use cameraman::IVec3;

#[test]
fn defaults_of_bound_camera() {
    let camera = Cameraman::new_default(42);
    assert_eq!(camera.target, 42);
    assert_eq!(camera.dead_zone, IVec2::new(30_000, 15_000));
    assert_eq!(camera.ahead_factor, IVec3::new(1000, 1000, 1000));
    assert_eq!(camera.target_prev_translation, IVec3::zero());
    assert_eq!(camera.look_at, IVec3::zero());
    assert!(!camera.traveling);
    assert_eq!(camera.center_after.elapsed_ms, 0);
}

#[test]
fn explicit_bind_keeps_parameters() {
    let camera = Cameraman::new(7, IVec2::new(12_000, 8_000), IVec3::new(2000, 500, 0));
    assert_eq!(camera.target, 7);
    assert_eq!(camera.dead_zone, IVec2::new(12_000, 8_000));
    assert_eq!(camera.ahead_factor, IVec3::new(2000, 500, 0));
    assert!(!camera.traveling);
}

#[test]
fn center_snaps_camera_and_primes_state() {
    let mut camera = Cameraman::new_default(1);
    let mut cam_t = IVec3::new(5, 5, 9);
    let target = IVec3::new(10_000, -2_000, 77);
    center(&mut camera, &mut cam_t, target);
    assert_eq!(cam_t, IVec3::new(10_000, -2_000, 9));
    assert_eq!(camera.target_prev_translation, target);
    assert_eq!(camera.look_at, target);
    assert!(!camera.traveling);
}

#[test]
fn stationary_target_leaves_camera_still() {
    let mut camera = Cameraman::new_default(1);
    let mut cam_t = IVec3::zero();
    center(&mut camera, &mut cam_t, IVec3::zero());
    for _ in 0..100 {
        cameraman(&mut camera, &mut cam_t, IVec3::zero(), 16);
        assert_eq!(cam_t, IVec3::zero());
        assert!(!camera.traveling);
    }
    assert_eq!(camera.look_at, IVec3::zero());
    assert_eq!(camera.target_prev_translation, IVec3::zero());
}

#[test]
fn step_out_of_dead_zone_travels_with_lookahead() {
    let mut camera = Cameraman::new_default(1);
    let mut cam_t = IVec3::zero();
    center(&mut camera, &mut cam_t, IVec3::zero());
    // A step of 100 world units over one second: velocity 100/s, unit ahead
    // factor, so the camera aims at 200 and covers 2 % of that distance.
    cameraman(&mut camera, &mut cam_t, IVec3::new(100_000, 0, 0), 1000);
    assert_eq!(camera.look_at.x, 200_000);
    assert_eq!(cam_t.x, 4_000);
    assert_eq!(cam_t.y, 0);
    assert!(camera.traveling);
    assert_eq!(camera.center_after.elapsed_ms, 0);
}

#[test]
fn jitter_inside_dead_zone_never_moves_camera() {
    let mut camera = Cameraman::new_default(1);
    let mut cam_t = IVec3::zero();
    center(&mut camera, &mut cam_t, IVec3::zero());
    let jitter = [
        IVec3::new(20_000, 5_000, 0),
        IVec3::new(-10_000, 3_000, 0),
        IVec3::new(29_000, -14_000, 0),
        IVec3::new(0, 15_000, 0),
        IVec3::new(-30_000, 0, 0),
    ];
    for target in jitter {
        cameraman(&mut camera, &mut cam_t, target, 16);
        assert_eq!(cam_t, IVec3::zero());
        assert!(!camera.traveling);
        assert_eq!(camera.center_after.elapsed_ms, 0);
    }
}

#[test]
fn settle_countdown_then_recenters() {
    let mut camera = Cameraman::new_default(1);
    let mut cam_t = IVec3::zero();
    center(&mut camera, &mut cam_t, IVec3::zero());
    let target = IVec3::new(10_000, 0, 0);
    // The frame of the move itself: inside the dead zone, so the camera
    // holds still, and the move resets the countdown.
    cameraman(&mut camera, &mut cam_t, target, 100);
    assert_eq!(cam_t.x, 0);
    assert_eq!(camera.center_after.elapsed_ms, 0);
    // At rest but off-center: the countdown accumulates without motion.
    for expected in [100u64, 200, 300] {
        cameraman(&mut camera, &mut cam_t, target, 100);
        assert_eq!(camera.center_after.elapsed_ms, expected);
        assert_eq!(cam_t.x, 0);
    }
    // The frame that completes the delay moves the camera by 2 % of the
    // remaining 10 units.
    cameraman(&mut camera, &mut cam_t, target, 100);
    assert_eq!(camera.center_after.elapsed_ms, 400);
    assert_eq!(cam_t.x, 200);
    assert!(!camera.traveling);
    // And keeps converging monotonically afterwards.
    cameraman(&mut camera, &mut cam_t, target, 100);
    assert_eq!(cam_t.x, 396);
    let mut last_distance: i64 = target.x - cam_t.x;
    for _ in 0..50 {
        cameraman(&mut camera, &mut cam_t, target, 100);
        let distance: i64 = target.x - cam_t.x;
        assert!(distance >= 0);
        assert!(distance <= last_distance);
        last_distance = distance;
    }
}

#[test]
fn travel_ends_when_centered_over_resting_target() {
    let mut camera = Cameraman::new_default(1);
    let mut cam_t = IVec3::zero();
    center(&mut camera, &mut cam_t, IVec3::zero());
    let target = IVec3::new(50_000, 0, 0);
    cameraman(&mut camera, &mut cam_t, target, 1000);
    assert!(camera.traveling);
    // The jump frame aims past the target (velocity lookahead) and covers
    // 2 % of that distance.
    assert_eq!(camera.look_at.x, 100_000);
    assert_eq!(cam_t.x, 2_000);
    let mut frames: u32 = 0;
    let mut last_distance: i64 = target.x - cam_t.x;
    while camera.traveling {
        cameraman(&mut camera, &mut cam_t, target, 1000);
        let distance: i64 = target.x - cam_t.x;
        assert!(distance >= 0);
        assert!(distance <= last_distance);
        last_distance = distance;
        frames += 1;
        assert!(frames < 400, "traveling never cleared");
    }
    assert!((target.x - cam_t.x).abs() < 3_000);
    assert_eq!(cam_t.y, 0);
}

#[test]
fn zero_dt_changes_nothing() {
    let mut camera = Cameraman::new_default(1);
    let mut cam_t = IVec3::zero();
    center(&mut camera, &mut cam_t, IVec3::zero());
    let before_camera = camera;
    let before_translation = cam_t;
    cameraman(&mut camera, &mut cam_t, IVec3::new(500_000, 0, 0), 0);
    assert_eq!(camera, before_camera);
    assert_eq!(cam_t, before_translation);
}

#[test]
fn identical_frames_leave_a_centered_idle_camera_alone() {
    let mut camera = Cameraman::new_default(1);
    // Centered (within 3 units) but not exactly on the target.
    let mut cam_t = IVec3::new(2_000, -1_000, 0);
    let target = IVec3::new(0, 0, 0);
    // Prime the previous-position cache so the target counts as resting.
    center(&mut camera, &mut cam_t, target);
    cam_t = IVec3::new(2_000, -1_000, 0);
    for _ in 0..2 {
        cameraman(&mut camera, &mut cam_t, target, 16);
        assert_eq!(camera.target_prev_translation, target);
        assert_eq!(cam_t, IVec3::new(2_000, -1_000, 0));
        assert!(!camera.traveling);
        assert_eq!(camera.center_after.elapsed_ms, 0);
        assert_eq!(camera.look_at, target);
    }
}

#[test]
fn travel_triggers_on_either_axis() {
    let mut camera = Cameraman::new_default(1);
    let mut cam_t = IVec3::zero();
    center(&mut camera, &mut cam_t, IVec3::zero());
    // Within x tolerance, outside y tolerance.
    cameraman(&mut camera, &mut cam_t, IVec3::new(0, 20_000, 0), 1000);
    assert!(camera.traveling);
    assert_eq!(camera.look_at.y, 40_000);
    assert_eq!(cam_t.y, 800);
    assert_eq!(cam_t.x, 0);
}

#[test]
fn negative_direction_steps_symmetrically() {
    let mut camera = Cameraman::new_default(1);
    let mut cam_t = IVec3::zero();
    center(&mut camera, &mut cam_t, IVec3::zero());
    cameraman(&mut camera, &mut cam_t, IVec3::new(-100_000, 0, 0), 1000);
    assert_eq!(camera.look_at.x, -200_000);
    assert_eq!(cam_t.x, -4_000);
    assert!(camera.traveling);
}

#[test]
fn lookahead_leads_constant_velocity_exactly() {
    let mut camera = Cameraman::new_default(1);
    let mut cam_t = IVec3::zero();
    center(&mut camera, &mut cam_t, IVec3::zero());
    // 5 units per second, one-second frames: every frame's look-at point
    // leads the target by exactly the velocity.
    let mut x: i64 = 0;
    for _ in 0..10 {
        x += 5_000;
        cameraman(&mut camera, &mut cam_t, IVec3::new(x, 0, 0), 1000);
        assert_eq!(camera.look_at.x, x + 5_000);
        assert_eq!(camera.look_at.y, 0);
    }
}

#[test]
fn depth_is_led_but_never_integrated() {
    let mut camera = Cameraman::new_default(1);
    let mut cam_t = IVec3::new(0, 0, 123);
    center(&mut camera, &mut cam_t, IVec3::zero());
    assert_eq!(cam_t.z, 123);
    // The target falls 50 units in depth over one second; depth affects the
    // aim point but never the camera's own depth.
    cameraman(&mut camera, &mut cam_t, IVec3::new(100_000, 0, -50_000), 1000);
    assert_eq!(camera.look_at.z, -100_000);
    assert_eq!(cam_t.z, 123);
}

#[test]
fn zero_dead_zone_travels_and_arrives() {
    let mut camera = Cameraman::new(3, IVec2::new(0, 0), IVec3::new(1000, 1000, 1000));
    let mut cam_t = IVec3::zero();
    center(&mut camera, &mut cam_t, IVec3::zero());
    // Any offset at all leaves a zero-sized dead zone.
    cameraman(&mut camera, &mut cam_t, IVec3::new(100, 0, 0), 1000);
    assert!(camera.traveling);
    assert_eq!(cam_t.x, 4);
    // The same resting frame later finds the camera centered and clears the
    // flag.
    cameraman(&mut camera, &mut cam_t, IVec3::new(100, 0, 0), 1000);
    assert!(!camera.traveling);
}

#[test]
fn teleport_spikes_velocity_and_lookahead() {
    let mut camera = Cameraman::new_default(1);
    let mut cam_t = IVec3::zero();
    center(&mut camera, &mut cam_t, IVec3::zero());
    // A teleport over a one-millisecond frame is read as enormous velocity:
    // accepted behavior, not an error.
    cameraman(&mut camera, &mut cam_t, IVec3::new(1_000_000_000, 0, 0), 1);
    assert_eq!(camera.look_at.x, 1_000_000_000 + 1_000_000_000_000);
    assert_eq!(cam_t.x, 1_001_000_000_000 / 50);
    assert!(camera.traveling);
}

#[test]
fn vector_constructors_expose_components() {
    let v2 = IVec2::new(-4, 9);
    assert_eq!(v2.x, -4);
    assert_eq!(v2.y, 9);
    let v3 = IVec3::new(1, -2, 3);
    assert_eq!(v3.x, 1);
    assert_eq!(v3.y, -2);
    assert_eq!(v3.z, 3);
    assert_eq!(IVec3::zero(), IVec3::new(0, 0, 0));
}
