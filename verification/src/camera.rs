//! Scripted camera takeover: while a scene is active the camera orbits a
//! focus point at a fixed angular rate and direct player control is
//! suspended; once the elapsed time reaches the scene's duration, control
//! returns to the player.

use vstd::prelude::*;

verus! {

use crate::mathx::Vec3Fx;
use crate::player::MAX_FRAME_MS;

/// Orbit rate about world-up while a scene is active: 0.6 radians per
/// second, in micro-radians per millisecond.
pub const ORBIT_RATE_URAD_PER_MS: u64 = 600;

/// Parameters of one scripted camera scene.
#[derive(Clone, Copy, PartialEq, Eq, Structural, Debug)]
pub struct CameraSceneParams {
    pub target_position: Vec3Fx,
    pub pos_offset: Vec3Fx,
    pub duration_ms: u64,
}

/// Whether the camera is under direct player control (`scene_params` is
/// `None`) or following a scripted scene.
#[derive(Clone, Copy, PartialEq, Eq, Structural, Debug)]
pub struct CameraState {
    pub scene_params: Option<CameraSceneParams>,
    pub elapsed_time_ms: u64,
}

impl Default for CameraState {
    /// Player-controlled, with no time accumulated.
    fn default() -> (r: CameraState)
        ensures
            r.scene_params is None,
            r.elapsed_time_ms == 0,
    {
        CameraState { scene_params: None, elapsed_time_ms: 0 }
    }
}

impl CameraState {
    /// Whether a scripted scene currently overrides player control.
    pub fn takeover_active(&self) -> (r: bool)
        ensures
            r == (self.scene_params is Some),
    {
        self.scene_params.is_some()
    }
}

/// What one takeover frame asks of the renderer: rotate the camera position
/// by `angle_urad` about world-up around `focus`, then face `focus`.
#[derive(Clone, Copy, PartialEq, Eq, Structural, Debug)]
pub struct OrbitStep {
    pub focus: Vec3Fx,
    pub angle_urad: u64,
}

/// The takeover state after one frame: elapsed time advances while a scene
/// is active, and the scene ends (elapsed resetting to zero) once elapsed
/// time reaches its duration.
pub open spec fn spec_takeover_tick(c: CameraState, dt_ms: int) -> CameraState {
    match c.scene_params {
        None => c,
        Some(p) => {
            let elapsed = c.elapsed_time_ms + dt_ms;
            if elapsed >= p.duration_ms {
                CameraState { scene_params: None, elapsed_time_ms: 0u64 }
            } else {
                CameraState { scene_params: Some(p), elapsed_time_ms: elapsed as u64 }
            }
        },
    }
}

/// One frame of the camera takeover controller.
///
/// While a scene is active the camera orbits for this frame even if the
/// scene also ends this frame; with no active scene nothing happens.
pub fn camera_state_handler(c: &mut CameraState, dt_ms: u64) -> (step: Option<OrbitStep>)
    requires
        old(c).elapsed_time_ms + dt_ms <= u64::MAX,
        dt_ms <= MAX_FRAME_MS,
    ensures
        *final(c) == spec_takeover_tick(*old(c), dt_ms as int),
        old(c).scene_params is None ==> step is None,
        old(c).scene_params matches Some(p) ==> step == Some(
            OrbitStep {
                focus: p.target_position,
                angle_urad: (ORBIT_RATE_URAD_PER_MS * dt_ms) as u64,
            },
        ),
{
    match c.scene_params {
        None => None,
        Some(p) => {
            let step = OrbitStep {
                focus: p.target_position,
                angle_urad: ORBIT_RATE_URAD_PER_MS * dt_ms,
            };
            c.elapsed_time_ms = c.elapsed_time_ms + dt_ms;
            if c.elapsed_time_ms >= p.duration_ms {
                c.scene_params = None;
                c.elapsed_time_ms = 0;
            }
            Some(step)
        },
    }
}

} // verus!
