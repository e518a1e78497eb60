//! The camera follow core: the target tracker and the dead-zone/travel state
//! machine.
//!
//! Each frame, [`cameraman`] derives the target's velocity from the cached
//! previous position, aims at a lookahead point that leads fast motion,
//! decides whether to hold still, count down the settle timer, or travel, and
//! steps the camera a fixed fraction of the remaining distance toward the
//! aim point. [`center`] is the one-time snap performed when a camera is
//! bound to its target.

use crate::geom::abs_i64;
use crate::geom::div_trunc;
use crate::geom::lemma_tdiv_bounds;
use crate::geom::tdiv;
use crate::geom::IVec2;
use crate::geom::IVec3;
use crate::timer::SettleTimer;
use crate::timer::SETTLE_MS;
use vstd::arithmetic::div_mod::lemma_div_is_ordered;
use vstd::arithmetic::div_mod::lemma_div_nonincreasing;
use vstd::arithmetic::div_mod::lemma_div_pos_is_pos;
use vstd::math::abs;
use vstd::prelude::*;

verus! {

/// Milli-units per world unit: the fixed-point scale of every coordinate.
pub const MILLI: i64 = 1000;

/// Plane distance, in milli-units, under which the camera counts as centered
/// on its target (3 world units); a fixed threshold, independent of the dead
/// zone.
pub const CENTERED_EPS: i64 = 3000;

/// A moving camera covers one fiftieth (2 %) of the remaining distance to
/// the look-at point per frame.
pub const STEP_DIVISOR: i64 = 50;

/// Default dead-zone half-extent on the x axis (30 world units).
pub const DEFAULT_DEAD_ZONE_X: i64 = 30_000;

/// Default dead-zone half-extent on the y axis (15 world units).
pub const DEFAULT_DEAD_ZONE_Y: i64 = 15_000;

/// Default per-axis lookahead factor: exactly one (milli-scaled).
pub const DEFAULT_AHEAD_FACTOR: i64 = 1000;

/// Largest magnitude, in milli-units, accepted for a coordinate of a target
/// position (a million world units); keeps every intermediate product within
/// a machine word.
pub const POS_LIMIT: i64 = 1_000_000_000;

/// Largest magnitude accepted for a milli-scaled lookahead factor (a factor
/// of a thousand).
pub const FACTOR_LIMIT: i64 = 1_000_000;

/// Largest magnitude a camera or look-at coordinate can reach; every frame
/// keeps both within it.
pub const CAM_LIMIT: i64 = 3_000_000_000_000_000;

/// Largest frame duration accepted, in milliseconds.
pub const DT_LIMIT: u64 = 1_000_000_000;

/// The per-camera follow state: one instance per camera-target binding,
/// owned by the camera.
#[derive(Clone, Copy, Debug, PartialEq, Eq, Structural)]
pub struct Cameraman {
    /// Opaque identifier of the tracked entity; immutable after binding.
    /// The host resolves it to a position each frame, and skips the frame's
    /// update entirely when it does not resolve.
    pub target: u64,
    /// Half-extents of the tolerance rectangle around the camera, in
    /// milli-units; both components nonnegative.
    pub dead_zone: IVec2,
    /// The target position observed on the previous frame; overwritten every
    /// frame the target is found.
    pub target_prev_translation: IVec3,
    /// The point the camera steers toward: the target position led by its
    /// velocity scaled per axis by `ahead_factor`. Derived, never set
    /// directly.
    pub look_at: IVec3,
    /// Per-axis trust in the velocity lead, milli-scaled ([`MILLI`] is a
    /// factor of exactly one).
    pub ahead_factor: IVec3,
    /// True while the camera is actively closing distance toward a target
    /// that left the dead zone.
    pub traveling: bool,
    /// Debounce countdown before an off-center target at rest inside the
    /// dead zone is re-centered.
    pub center_after: SettleTimer,
}

impl Cameraman {
    /// Internal bounds that binding establishes and every frame preserves.
    pub open spec fn wf(self) -> bool {
        &&& 0 <= self.dead_zone.x
        &&& 0 <= self.dead_zone.y
        &&& -FACTOR_LIMIT <= self.ahead_factor.x <= FACTOR_LIMIT
        &&& -FACTOR_LIMIT <= self.ahead_factor.y <= FACTOR_LIMIT
        &&& -FACTOR_LIMIT <= self.ahead_factor.z <= FACTOR_LIMIT
        &&& -POS_LIMIT <= self.target_prev_translation.x <= POS_LIMIT
        &&& -POS_LIMIT <= self.target_prev_translation.y <= POS_LIMIT
        &&& -POS_LIMIT <= self.target_prev_translation.z <= POS_LIMIT
        &&& -CAM_LIMIT <= self.look_at.x <= CAM_LIMIT
        &&& -CAM_LIMIT <= self.look_at.y <= CAM_LIMIT
        &&& -CAM_LIMIT <= self.look_at.z <= CAM_LIMIT
        &&& self.center_after.elapsed_ms <= SETTLE_MS
    }

    /// Binds a camera to `target` with explicit dead-zone half-extents and
    /// lookahead factors.
    pub fn new(target: u64, dead_zone: IVec2, ahead_factor: IVec3) -> (c: Cameraman)
        requires
            0 <= dead_zone.x,
            0 <= dead_zone.y,
            -FACTOR_LIMIT <= ahead_factor.x <= FACTOR_LIMIT,
            -FACTOR_LIMIT <= ahead_factor.y <= FACTOR_LIMIT,
            -FACTOR_LIMIT <= ahead_factor.z <= FACTOR_LIMIT,
        ensures
            c.wf(),
            c.target == target,
            c.dead_zone == dead_zone,
            c.ahead_factor == ahead_factor,
            c.target_prev_translation == (IVec3 { x: 0, y: 0, z: 0 }),
            c.look_at == (IVec3 { x: 0, y: 0, z: 0 }),
            !c.traveling,
            c.center_after.elapsed_ms == 0,
    {
        Cameraman {
            target,
            dead_zone,
            target_prev_translation: IVec3::zero(),
            look_at: IVec3::zero(),
            ahead_factor,
            traveling: false,
            center_after: SettleTimer::new(),
        }
    }

    /// Binds a camera to `target` with the default dead zone of (30, 15)
    /// world units and a unit lookahead factor on every axis.
    pub fn new_default(target: u64) -> (c: Cameraman)
        ensures
            c.wf(),
            c.target == target,
            c.dead_zone == (IVec2 { x: DEFAULT_DEAD_ZONE_X, y: DEFAULT_DEAD_ZONE_Y }),
            c.ahead_factor == (IVec3 {
                x: DEFAULT_AHEAD_FACTOR,
                y: DEFAULT_AHEAD_FACTOR,
                z: DEFAULT_AHEAD_FACTOR,
            }),
            c.target_prev_translation == (IVec3 { x: 0, y: 0, z: 0 }),
            c.look_at == (IVec3 { x: 0, y: 0, z: 0 }),
            !c.traveling,
            c.center_after.elapsed_ms == 0,
    {
        Cameraman::new(
            target,
            IVec2::new(DEFAULT_DEAD_ZONE_X, DEFAULT_DEAD_ZONE_Y),
            IVec3::new(DEFAULT_AHEAD_FACTOR, DEFAULT_AHEAD_FACTOR, DEFAULT_AHEAD_FACTOR),
        )
    }
}

/// Whether the target moved since the previous frame: its observed
/// displacement is not the zero vector.
pub open spec fn spec_moved(target_translation: IVec3, prev: IVec3) -> bool {
    target_translation != prev
}

/// The velocity estimate of one axis, in milli-units per second: the
/// displacement scaled by `1000 / dt_ms` when the target moved this frame,
/// and zero otherwise (no division is performed on a resting target).
pub open spec fn spec_velocity_axis(cur: int, prev: int, dt_ms: int, moved: bool) -> int {
    if moved {
        tdiv((cur - prev) * MILLI, dt_ms)
    } else {
        0
    }
}

/// The lookahead offset of one axis: the velocity scaled by the milli-valued
/// per-axis factor.
pub open spec fn spec_ahead_axis(vel: int, factor: int) -> int {
    tdiv(vel * factor, MILLI as int)
}

/// The look-at coordinate of one axis: the target led by the scaled
/// velocity.
pub open spec fn spec_look_axis(cur: int, prev: int, dt_ms: int, moved: bool, factor: int) -> int {
    cur + spec_ahead_axis(spec_velocity_axis(cur, prev, dt_ms, moved), factor)
}

/// The x coordinate of the look-at point computed from a frame's input.
pub open spec fn spec_look_x(camera: Cameraman, target_translation: IVec3, dt_ms: int) -> int {
    spec_look_axis(
        target_translation.x as int,
        camera.target_prev_translation.x as int,
        dt_ms,
        spec_moved(target_translation, camera.target_prev_translation),
        camera.ahead_factor.x as int,
    )
}

/// The y coordinate of the look-at point computed from a frame's input.
pub open spec fn spec_look_y(camera: Cameraman, target_translation: IVec3, dt_ms: int) -> int {
    spec_look_axis(
        target_translation.y as int,
        camera.target_prev_translation.y as int,
        dt_ms,
        spec_moved(target_translation, camera.target_prev_translation),
        camera.ahead_factor.y as int,
    )
}

/// The z coordinate of the look-at point computed from a frame's input.
pub open spec fn spec_look_z(camera: Cameraman, target_translation: IVec3, dt_ms: int) -> int {
    spec_look_axis(
        target_translation.z as int,
        camera.target_prev_translation.z as int,
        dt_ms,
        spec_moved(target_translation, camera.target_prev_translation),
        camera.ahead_factor.z as int,
    )
}

/// The frame's plane distance between camera and target on the x axis.
pub open spec fn spec_diff_x(camera_translation: IVec3, target_translation: IVec3) -> int {
    abs(target_translation.x - camera_translation.x) as int
}

/// The frame's plane distance between camera and target on the y axis.
pub open spec fn spec_diff_y(camera_translation: IVec3, target_translation: IVec3) -> int {
    abs(target_translation.y - camera_translation.y) as int
}

/// Whether the target sits inside the dead zone: both plane distances within
/// the half-extents. Depth is ignored.
pub open spec fn spec_in_dead_zone(
    camera: Cameraman,
    camera_translation: IVec3,
    target_translation: IVec3,
) -> bool {
    &&& spec_diff_x(camera_translation, target_translation) <= camera.dead_zone.x
    &&& spec_diff_y(camera_translation, target_translation) <= camera.dead_zone.y
}

/// Whether the camera counts as centered: both plane distances under the
/// fixed [`CENTERED_EPS`] threshold.
pub open spec fn spec_centered(camera_translation: IVec3, target_translation: IVec3) -> bool {
    &&& spec_diff_x(camera_translation, target_translation) < CENTERED_EPS
    &&& spec_diff_y(camera_translation, target_translation) < CENTERED_EPS
}

/// Whether the frame advances the settle countdown: the target rests inside
/// the dead zone, off-center, and the camera is not traveling. Any other
/// frame resets the countdown.
pub open spec fn spec_settles(
    camera: Cameraman,
    camera_translation: IVec3,
    target_translation: IVec3,
) -> bool {
    &&& spec_in_dead_zone(camera, camera_translation, target_translation)
    &&& !spec_centered(camera_translation, target_translation)
    &&& !spec_moved(target_translation, camera.target_prev_translation)
    &&& !camera.traveling
}

/// The settle countdown's accumulated time at the end of the frame: advanced
/// and clamped on a settling frame, reset to zero on every other.
pub open spec fn spec_timer_after(
    camera: Cameraman,
    camera_translation: IVec3,
    target_translation: IVec3,
    dt_ms: int,
) -> int {
    if spec_settles(camera, camera_translation, target_translation) {
        camera.center_after.spec_after_tick(dt_ms)
    } else {
        0
    }
}

/// The traveling flag after the trigger: a target outside the dead zone
/// turns it on; nothing else changes it at this point of the frame.
pub open spec fn spec_traveling_trigger(
    camera: Cameraman,
    camera_translation: IVec3,
    target_translation: IVec3,
) -> bool {
    if !spec_in_dead_zone(camera, camera_translation, target_translation) {
        true
    } else {
        camera.traveling
    }
}

/// Whether the camera moves this frame: it is traveling, or the settle
/// countdown has just run out.
pub open spec fn spec_moves_now(
    camera: Cameraman,
    camera_translation: IVec3,
    target_translation: IVec3,
    dt_ms: int,
) -> bool {
    ||| spec_traveling_trigger(camera, camera_translation, target_translation)
    ||| spec_timer_after(camera, camera_translation, target_translation, dt_ms) >= SETTLE_MS
}

/// One interpolation step of an axis toward `look`: the camera advances by a
/// fiftieth of the remaining distance, rounded toward zero.
pub open spec fn spec_step_axis(cam: int, look: int) -> int {
    cam + tdiv(look - cam, STEP_DIVISOR as int)
}

/// The camera's x coordinate at the end of the frame: stepped toward the
/// look-at point on a moving frame, untouched otherwise.
pub open spec fn spec_cam_after_x(
    camera: Cameraman,
    camera_translation: IVec3,
    target_translation: IVec3,
    dt_ms: int,
) -> int {
    if spec_moves_now(camera, camera_translation, target_translation, dt_ms) {
        spec_step_axis(
            camera_translation.x as int,
            spec_look_x(camera, target_translation, dt_ms),
        )
    } else {
        camera_translation.x as int
    }
}

/// The camera's y coordinate at the end of the frame.
pub open spec fn spec_cam_after_y(
    camera: Cameraman,
    camera_translation: IVec3,
    target_translation: IVec3,
    dt_ms: int,
) -> int {
    if spec_moves_now(camera, camera_translation, target_translation, dt_ms) {
        spec_step_axis(
            camera_translation.y as int,
            spec_look_y(camera, target_translation, dt_ms),
        )
    } else {
        camera_translation.y as int
    }
}

/// The traveling flag at the end of the frame: cleared when a moving frame
/// finds the camera centered over a resting target (it has arrived), kept
/// from the trigger otherwise.
pub open spec fn spec_traveling_after(
    camera: Cameraman,
    camera_translation: IVec3,
    target_translation: IVec3,
    dt_ms: int,
) -> bool {
    if spec_moves_now(camera, camera_translation, target_translation, dt_ms)
        && spec_centered(camera_translation, target_translation)
        && !spec_moved(target_translation, camera.target_prev_translation) {
        false
    } else {
        spec_traveling_trigger(camera, camera_translation, target_translation)
    }
}

/// One-time centering at bind: snaps the camera to the target in the plane
/// (depth untouched) and primes the previous-position cache and the look-at
/// point with the target's position, so the first frames see neither a
/// spurious velocity nor a long initial travel.
pub fn center(camera: &mut Cameraman, camera_translation: &mut IVec3, target_translation: IVec3)
    requires
        old(camera).wf(),
        -POS_LIMIT <= target_translation.x <= POS_LIMIT,
        -POS_LIMIT <= target_translation.y <= POS_LIMIT,
        -POS_LIMIT <= target_translation.z <= POS_LIMIT,
    ensures
        final(camera).wf(),
        final(camera_translation).x == target_translation.x,
        final(camera_translation).y == target_translation.y,
        final(camera_translation).z == old(camera_translation).z,
        final(camera).target_prev_translation == target_translation,
        final(camera).look_at == target_translation,
        final(camera).target == old(camera).target,
        final(camera).dead_zone == old(camera).dead_zone,
        final(camera).ahead_factor == old(camera).ahead_factor,
        final(camera).traveling == old(camera).traveling,
        final(camera).center_after == old(camera).center_after,
{
    camera_translation.x = target_translation.x;
    camera_translation.y = target_translation.y;
    camera.target_prev_translation = target_translation;
    camera.look_at = target_translation;
}

/// One frame of the follow behavior: tracks the target's velocity, re-aims
/// the look-at point, runs the dead-zone/travel state machine, and steps the
/// camera. A frame with `dt_ms == 0` is degenerate and changes nothing.
///
/// Depth is never modified on the camera; the dead-zone and centered tests
/// ignore it; the look-at point still leads it.
pub fn cameraman(
    camera: &mut Cameraman,
    camera_translation: &mut IVec3,
    target_translation: IVec3,
    dt_ms: u64,
)
    requires
        old(camera).wf(),
        -CAM_LIMIT <= old(camera_translation).x <= CAM_LIMIT,
        -CAM_LIMIT <= old(camera_translation).y <= CAM_LIMIT,
        -POS_LIMIT <= target_translation.x <= POS_LIMIT,
        -POS_LIMIT <= target_translation.y <= POS_LIMIT,
        -POS_LIMIT <= target_translation.z <= POS_LIMIT,
        dt_ms <= DT_LIMIT,
    ensures
        final(camera).wf(),
        -CAM_LIMIT <= final(camera_translation).x <= CAM_LIMIT,
        -CAM_LIMIT <= final(camera_translation).y <= CAM_LIMIT,
        final(camera).target == old(camera).target,
        final(camera).dead_zone == old(camera).dead_zone,
        final(camera).ahead_factor == old(camera).ahead_factor,
        final(camera_translation).z == old(camera_translation).z,
        dt_ms == 0 ==> *final(camera) == *old(camera),
        dt_ms == 0 ==> *final(camera_translation) == *old(camera_translation),
        dt_ms > 0 ==> final(camera).target_prev_translation == target_translation,
        dt_ms > 0 ==> final(camera).look_at.x as int == spec_look_x(
            *old(camera),
            target_translation,
            dt_ms as int,
        ),
        dt_ms > 0 ==> final(camera).look_at.y as int == spec_look_y(
            *old(camera),
            target_translation,
            dt_ms as int,
        ),
        dt_ms > 0 ==> final(camera).look_at.z as int == spec_look_z(
            *old(camera),
            target_translation,
            dt_ms as int,
        ),
        dt_ms > 0 ==> final(camera).center_after.elapsed_ms as int == spec_timer_after(
            *old(camera),
            *old(camera_translation),
            target_translation,
            dt_ms as int,
        ),
        dt_ms > 0 ==> final(camera).traveling == spec_traveling_after(
            *old(camera),
            *old(camera_translation),
            target_translation,
            dt_ms as int,
        ),
        dt_ms > 0 ==> final(camera_translation).x as int == spec_cam_after_x(
            *old(camera),
            *old(camera_translation),
            target_translation,
            dt_ms as int,
        ),
        dt_ms > 0 ==> final(camera_translation).y as int == spec_cam_after_y(
            *old(camera),
            *old(camera_translation),
            target_translation,
            dt_ms as int,
        ),
{
    if dt_ms == 0 {
        return;
    }
    let ghost camera0 = *camera;
    let ghost translation0 = *camera_translation;

    // Track the target: estimate its velocity from the cached previous
    // position and re-aim the look-at point.
    let prev: IVec3 = camera.target_prev_translation;
    let dx: i64 = target_translation.x - prev.x;
    let dy: i64 = target_translation.y - prev.y;
    let dz: i64 = target_translation.z - prev.z;
    let target_moving: bool = dx != 0 || dy != 0 || dz != 0;
    let dt: i64 = dt_ms as i64;
    let vx: i64 = if target_moving {
        div_trunc(dx * MILLI, dt)
    } else {
        0
    };
    let vy: i64 = if target_moving {
        div_trunc(dy * MILLI, dt)
    } else {
        0
    };
    let vz: i64 = if target_moving {
        div_trunc(dz * MILLI, dt)
    } else {
        0
    };
    proof {
        lemma_tdiv_bounds(dx * MILLI, 2_000_000_000_000, dt as int);
        lemma_tdiv_bounds(dy * MILLI, 2_000_000_000_000, dt as int);
        lemma_tdiv_bounds(dz * MILLI, 2_000_000_000_000, dt as int);
        lemma_ahead_product_bound(vx as int, camera0.ahead_factor.x as int);
        lemma_ahead_product_bound(vy as int, camera0.ahead_factor.y as int);
        lemma_ahead_product_bound(vz as int, camera0.ahead_factor.z as int);
    }
    let ox: i64 = div_trunc(vx * camera.ahead_factor.x, MILLI);
    let oy: i64 = div_trunc(vy * camera.ahead_factor.y, MILLI);
    let oz: i64 = div_trunc(vz * camera.ahead_factor.z, MILLI);
    proof {
        lemma_tdiv_bounds((vx * camera0.ahead_factor.x) as int, 2_000_000_000_000_000_000, MILLI as int);
        lemma_tdiv_bounds((vy * camera0.ahead_factor.y) as int, 2_000_000_000_000_000_000, MILLI as int);
        lemma_tdiv_bounds((vz * camera0.ahead_factor.z) as int, 2_000_000_000_000_000_000, MILLI as int);
        assert(2_000_000_000_000_000_000int / 1000int == 2_000_000_000_000_000int);
    }
    camera.look_at = IVec3::new(
        target_translation.x + ox,
        target_translation.y + oy,
        target_translation.z + oz,
    );
    camera.target_prev_translation = target_translation;

    // The dead-zone and centered tests, on the plane distances of this
    // frame's positions.
    let diff_x: i64 = abs_i64(target_translation.x - camera_translation.x);
    let diff_y: i64 = abs_i64(target_translation.y - camera_translation.y);
    let in_dead_zone: bool = diff_x <= camera.dead_zone.x && diff_y <= camera.dead_zone.y;
    let centered: bool = diff_x < CENTERED_EPS && diff_y < CENTERED_EPS;

    // Advance the settle countdown only while the target rests off-center
    // inside the dead zone and the camera holds still; any disturbance
    // resets it.
    if in_dead_zone && !centered && !target_moving && !camera.traveling {
        camera.center_after.tick(dt_ms);
    } else {
        camera.center_after.reset();
    }

    // A target outside the dead zone triggers traveling; this is the only
    // place the flag is turned on.
    if !in_dead_zone {
        camera.traveling = true;
    }

    // A traveling camera, or one whose settle countdown just ran out, covers
    // a fiftieth of the remaining distance to the look-at point; it stops
    // traveling once it finds itself centered over a resting target.
    if camera.traveling || camera.center_after.finished() {
        proof {
            lemma_step_axis_between(
                translation0.x as int,
                spec_look_x(camera0, target_translation, dt_ms as int),
            );
            lemma_step_axis_between(
                translation0.y as int,
                spec_look_y(camera0, target_translation, dt_ms as int),
            );
        }
        let step_x: i64 = div_trunc(camera.look_at.x - camera_translation.x, STEP_DIVISOR);
        let step_y: i64 = div_trunc(camera.look_at.y - camera_translation.y, STEP_DIVISOR);
        camera_translation.x = camera_translation.x + step_x;
        camera_translation.y = camera_translation.y + step_y;
        if centered && !target_moving {
            camera.traveling = false;
        }
    }
}

/// The product of a velocity estimate and a lookahead factor stays within a
/// machine word: bounds on both factors bound the product.
proof fn lemma_ahead_product_bound(vel: int, factor: int)
    requires
        -2_000_000_000_000 <= vel <= 2_000_000_000_000,
        -1_000_000 <= factor <= 1_000_000,
    ensures
        -2_000_000_000_000_000_000 <= vel * factor <= 2_000_000_000_000_000_000,
{
    assert(-2_000_000_000_000_000_000 <= vel * factor <= 2_000_000_000_000_000_000)
        by (nonlinear_arith)
        requires
            -2_000_000_000_000 <= vel <= 2_000_000_000_000,
            -1_000_000 <= factor <= 1_000_000,
    ;
}

/// An interpolation step lands between the camera and the look-at point,
/// never grows the remaining distance, and strictly shrinks it whenever at
/// least one whole step of distance remains.
pub proof fn lemma_step_axis_between(cam: int, look: int)
    ensures
        cam <= look ==> cam <= spec_step_axis(cam, look) <= look,
        look <= cam ==> look <= spec_step_axis(cam, look) <= cam,
        abs(look - spec_step_axis(cam, look)) <= abs(look - cam),
        abs(look - cam) >= STEP_DIVISOR ==> abs(look - spec_step_axis(cam, look)) < abs(
            look - cam,
        ),
{
    let d = look - cam;
    if d >= 0 {
        lemma_div_pos_is_pos(d, STEP_DIVISOR as int);
        lemma_div_nonincreasing(d, STEP_DIVISOR as int);
        if d >= STEP_DIVISOR {
            lemma_div_is_ordered(STEP_DIVISOR as int, d, STEP_DIVISOR as int);
            assert(STEP_DIVISOR as int / STEP_DIVISOR as int == 1);
        }
    } else {
        lemma_div_pos_is_pos(-d, STEP_DIVISOR as int);
        lemma_div_nonincreasing(-d, STEP_DIVISOR as int);
        if -d >= STEP_DIVISOR {
            lemma_div_is_ordered(STEP_DIVISOR as int, -d, STEP_DIVISOR as int);
            assert(STEP_DIVISOR as int / STEP_DIVISOR as int == 1);
        }
    }
}

} // verus!
