//! A dead-zone camera follow behavior.
//!
//! Given a moving target's position each frame, the library computes a
//! smoothed camera position that tracks the target: small movements inside a
//! rectangular "dead zone" are ignored, fast motion is led by a
//! velocity-proportional lookahead point, and a settle timer re-centers the
//! camera a short while after the target comes to rest off-center.
//!
//! All positions are carried as integer vectors in milli-units: one world
//! unit is `1000`. The host (an entity-component runtime, input handling,
//! rendering) resolves the target reference, converts its positions to
//! milli-units, and calls [`center`] once when a camera is bound and
//! [`cameraman`] once per frame.

use vstd::prelude::*;

pub mod follow;
pub mod geom;
pub mod laws;
pub mod timer;

pub use follow::cameraman;
pub use follow::center;
pub use follow::Cameraman;
pub use follow::CAM_LIMIT;
pub use follow::DT_LIMIT;
pub use follow::FACTOR_LIMIT;
pub use follow::POS_LIMIT;
pub use geom::IVec2;
pub use geom::IVec3;
pub use timer::SettleTimer;
pub use timer::SETTLE_MS;

verus! {

/// Marker for an entity that a camera follows. The host attaches it to the
/// tracked entity and hands that entity's position to [`cameraman`] each
/// frame.
pub struct Target;

/// Marker for the host-side wiring of the follow behavior: the host runs
/// [`center`] once after a camera is bound and [`cameraman`] once per frame,
/// in that order, after all target movement for the frame is final.
pub struct CameraPlugin;

/// Marker for the host-side wiring of the debug overlay, which draws the
/// dead-zone rectangle and the look-at point from the read-only fields of
/// [`Cameraman`]. The overlay is pure presentation and must run after
/// [`cameraman`] so it sees the frame's final state.
pub struct CameraDebugPlugin;

} // verus!
