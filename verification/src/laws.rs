//! The laws of the follow behavior, proved over the frame transition that
//! [`cameraman`]'s contract pins down: what holds of every frame, not of one
//! chosen input.

use crate::follow::spec_ahead_axis;
use crate::follow::spec_cam_after_x;
use crate::follow::spec_cam_after_y;
use crate::follow::spec_centered;
use crate::follow::spec_in_dead_zone;
use crate::follow::spec_look_x;
use crate::follow::spec_look_y;
use crate::follow::spec_look_z;
use crate::follow::spec_moved;
use crate::follow::spec_moves_now;
use crate::follow::spec_settles;
use crate::follow::spec_timer_after;
use crate::follow::spec_traveling_after;
use crate::follow::spec_traveling_trigger;
use crate::follow::spec_velocity_axis;
use crate::follow::lemma_step_axis_between;
use crate::follow::Cameraman;
use crate::follow::CENTERED_EPS;
use crate::follow::MILLI;
use crate::follow::STEP_DIVISOR;
use crate::geom::lemma_tdiv_multiple;
use crate::geom::IVec3;
use crate::timer::SETTLE_MS;
use vstd::math::abs;
use vstd::prelude::*;

verus! {

/// Dead-zone containment: on a frame whose target sits inside the dead zone
/// while the camera is not traveling and the settle countdown has not run
/// out, the camera position does not change and the camera still does not
/// travel — small target jitter produces zero camera motion.
pub proof fn lemma_dead_zone_containment(
    camera: Cameraman,
    camera_translation: IVec3,
    target_translation: IVec3,
    dt_ms: int,
)
    requires
        spec_in_dead_zone(camera, camera_translation, target_translation),
        !camera.traveling,
        spec_timer_after(camera, camera_translation, target_translation, dt_ms) < SETTLE_MS,
    ensures
        spec_cam_after_x(camera, camera_translation, target_translation, dt_ms)
            == camera_translation.x as int,
        spec_cam_after_y(camera, camera_translation, target_translation, dt_ms)
            == camera_translation.y as int,
        !spec_traveling_after(camera, camera_translation, target_translation, dt_ms),
{
}

/// Travel trigger correctness: a frame whose plane distance exceeds the dead
/// zone on either axis triggers traveling, whatever the prior state, and the
/// camera moves on that same frame; unless that frame already finds the
/// camera within the centered threshold, traveling is still set when the
/// frame ends.
pub proof fn lemma_travel_trigger(
    camera: Cameraman,
    camera_translation: IVec3,
    target_translation: IVec3,
    dt_ms: int,
)
    requires
        !spec_in_dead_zone(camera, camera_translation, target_translation),
    ensures
        spec_traveling_trigger(camera, camera_translation, target_translation),
        spec_moves_now(camera, camera_translation, target_translation, dt_ms),
        !spec_centered(camera_translation, target_translation) ==> spec_traveling_after(
            camera,
            camera_translation,
            target_translation,
            dt_ms,
        ),
{
}

/// With a dead zone at least as wide as the centered threshold on both axes
/// (the default one is), a target outside the dead zone can never count as
/// centered, so the travel trigger always survives to the end of its frame.
pub proof fn lemma_travel_trigger_wide_zone(
    camera: Cameraman,
    camera_translation: IVec3,
    target_translation: IVec3,
    dt_ms: int,
)
    requires
        !spec_in_dead_zone(camera, camera_translation, target_translation),
        camera.dead_zone.x >= CENTERED_EPS,
        camera.dead_zone.y >= CENTERED_EPS,
    ensures
        spec_traveling_after(camera, camera_translation, target_translation, dt_ms),
{
}

/// Eventual centering: once the target rests (the frame's position equals
/// the cached previous one), the look-at point is the target itself; each
/// frame leaves the camera's distance to the target no larger on either
/// axis, strictly smaller on a moving frame with at least one whole step of
/// distance left, and never carries the camera past the target; and a
/// settling frame whose countdown reaches the delay does move the camera.
pub proof fn lemma_settle_approach(
    camera: Cameraman,
    camera_translation: IVec3,
    target_translation: IVec3,
    dt_ms: int,
)
    requires
        target_translation == camera.target_prev_translation,
    ensures
        spec_look_x(camera, target_translation, dt_ms) == target_translation.x as int,
        spec_look_y(camera, target_translation, dt_ms) == target_translation.y as int,
        abs(
            target_translation.x
                - spec_cam_after_x(camera, camera_translation, target_translation, dt_ms),
        ) <= abs(target_translation.x - camera_translation.x),
        abs(
            target_translation.y
                - spec_cam_after_y(camera, camera_translation, target_translation, dt_ms),
        ) <= abs(target_translation.y - camera_translation.y),
        spec_moves_now(camera, camera_translation, target_translation, dt_ms) && abs(
            target_translation.x - camera_translation.x,
        ) >= STEP_DIVISOR ==> abs(
            target_translation.x
                - spec_cam_after_x(camera, camera_translation, target_translation, dt_ms),
        ) < abs(target_translation.x - camera_translation.x),
        spec_moves_now(camera, camera_translation, target_translation, dt_ms) && abs(
            target_translation.y - camera_translation.y,
        ) >= STEP_DIVISOR ==> abs(
            target_translation.y
                - spec_cam_after_y(camera, camera_translation, target_translation, dt_ms),
        ) < abs(target_translation.y - camera_translation.y),
        camera_translation.x <= target_translation.x ==> camera_translation.x
            <= spec_cam_after_x(camera, camera_translation, target_translation, dt_ms)
            <= target_translation.x,
        target_translation.x <= camera_translation.x ==> target_translation.x
            <= spec_cam_after_x(camera, camera_translation, target_translation, dt_ms)
            <= camera_translation.x,
        camera_translation.y <= target_translation.y ==> camera_translation.y
            <= spec_cam_after_y(camera, camera_translation, target_translation, dt_ms)
            <= target_translation.y,
        target_translation.y <= camera_translation.y ==> target_translation.y
            <= spec_cam_after_y(camera, camera_translation, target_translation, dt_ms)
            <= camera_translation.y,
        spec_settles(camera, camera_translation, target_translation)
            && camera.center_after.spec_after_tick(dt_ms) >= SETTLE_MS ==> spec_moves_now(
            camera,
            camera_translation,
            target_translation,
            dt_ms,
        ),
{
    lemma_step_axis_between(
        camera_translation.x as int,
        spec_look_x(camera, target_translation, dt_ms),
    );
    lemma_step_axis_between(
        camera_translation.y as int,
        spec_look_y(camera, target_translation, dt_ms),
    );
}

/// Eventual centering, the release: a traveling camera that finds itself
/// within the centered threshold of a resting target stops traveling on that
/// same frame — traveling cannot stay stuck once the camera has arrived.
pub proof fn lemma_traveling_clears(
    camera: Cameraman,
    camera_translation: IVec3,
    target_translation: IVec3,
    dt_ms: int,
)
    requires
        camera.traveling,
        spec_centered(camera_translation, target_translation),
        target_translation == camera.target_prev_translation,
    ensures
        !spec_traveling_after(camera, camera_translation, target_translation, dt_ms),
{
}

/// Lookahead linearity: when a frame's displacement is exactly the velocity
/// `v` (milli-units per second) integrated over the frame, the velocity
/// estimate recovers `v` exactly on every axis, and a unit ahead factor
/// makes the look-at point lead the target by exactly `v`.
pub proof fn lemma_lookahead_linearity(
    camera: Cameraman,
    target_translation: IVec3,
    dt_ms: int,
    vx: int,
    vy: int,
    vz: int,
)
    requires
        1 <= dt_ms,
        spec_moved(target_translation, camera.target_prev_translation),
        (target_translation.x - camera.target_prev_translation.x) * MILLI == vx * dt_ms,
        (target_translation.y - camera.target_prev_translation.y) * MILLI == vy * dt_ms,
        (target_translation.z - camera.target_prev_translation.z) * MILLI == vz * dt_ms,
    ensures
        spec_velocity_axis(
            target_translation.x as int,
            camera.target_prev_translation.x as int,
            dt_ms,
            true,
        ) == vx,
        spec_velocity_axis(
            target_translation.y as int,
            camera.target_prev_translation.y as int,
            dt_ms,
            true,
        ) == vy,
        spec_velocity_axis(
            target_translation.z as int,
            camera.target_prev_translation.z as int,
            dt_ms,
            true,
        ) == vz,
        camera.ahead_factor.x == MILLI ==> spec_look_x(camera, target_translation, dt_ms)
            == target_translation.x + vx,
        camera.ahead_factor.y == MILLI ==> spec_look_y(camera, target_translation, dt_ms)
            == target_translation.y + vy,
        camera.ahead_factor.z == MILLI ==> spec_look_z(camera, target_translation, dt_ms)
            == target_translation.z + vz,
{
    lemma_tdiv_multiple(vx, dt_ms);
    lemma_tdiv_multiple(vy, dt_ms);
    lemma_tdiv_multiple(vz, dt_ms);
    lemma_tdiv_multiple(vx, MILLI as int);
    lemma_tdiv_multiple(vy, MILLI as int);
    lemma_tdiv_multiple(vz, MILLI as int);
    assert(spec_ahead_axis(vx, MILLI as int) == vx);
    assert(spec_ahead_axis(vy, MILLI as int) == vy);
    assert(spec_ahead_axis(vz, MILLI as int) == vz);
}

/// Idempotence under no input change: a frame whose target position equals
/// the cached previous one reports zero velocity; and if the camera is
/// already centered inside the dead zone and idle, the frame leaves the
/// camera position untouched, the traveling flag off, and the settle
/// countdown disarmed.
pub proof fn lemma_idle_frame(
    camera: Cameraman,
    camera_translation: IVec3,
    target_translation: IVec3,
    dt_ms: int,
)
    requires
        target_translation == camera.target_prev_translation,
        spec_in_dead_zone(camera, camera_translation, target_translation),
        spec_centered(camera_translation, target_translation),
        !camera.traveling,
    ensures
        !spec_moved(target_translation, camera.target_prev_translation),
        spec_velocity_axis(
            target_translation.x as int,
            camera.target_prev_translation.x as int,
            dt_ms,
            spec_moved(target_translation, camera.target_prev_translation),
        ) == 0,
        spec_timer_after(camera, camera_translation, target_translation, dt_ms) == 0,
        spec_cam_after_x(camera, camera_translation, target_translation, dt_ms)
            == camera_translation.x as int,
        spec_cam_after_y(camera, camera_translation, target_translation, dt_ms)
            == camera_translation.y as int,
        !spec_traveling_after(camera, camera_translation, target_translation, dt_ms),
{
}

} // verus!
