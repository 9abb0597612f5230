//! First-person look state and per-frame movement: pointer deltas accumulate
//! into yaw and pitch (pitch clamped to ±80°), held keys become a movement
//! velocity, and a per-frame routine combines both with the dice and camera
//! gating rules.

use vstd::prelude::*;

verus! {

use crate::mathx::{Vec3Fx, spec_add, spec_normalize_or_zero, spec_scale, COORD_LIMIT};

/// Pitch is clamped to this many milli-degrees either side of level (±80°).
pub const PITCH_LIMIT_MDEG: i64 = 80_000;

/// Sprint multiplier in thousandths (2.8x).
pub const SPRINT_MULT_MILLI: i64 = 2_800;

/// Neutral speed multiplier in thousandths (1x).
pub const WALK_MULT_MILLI: i64 = 1_000;

/// Downward acceleration, 9.82 units per second squared, in milli-units.
pub const GRAVITY_MILLI_PER_S2: i64 = 9_820;

/// Vertical offset of the eye above the player's origin, in milli-units.
pub const EYE_OFFSET_MILLI: i64 = 700;

/// Movement velocities stay within this many milli-units per frame.
pub const VELOCITY_LIMIT: i64 = 60_000_000_000;

/// Frame durations are bounded so per-frame products stay inside `i64`.
pub const MAX_FRAME_MS: u64 = 1_000_000_000;

/// The player's look orientation: yaw and pitch in milli-degrees, plus the
/// derived world position of the viewpoint.
#[derive(Clone, Copy, PartialEq, Eq, Structural, Debug)]
pub struct Eye {
    pub yaw_mdeg: i64,
    pub pitch_mdeg: i64,
    pub position: Vec3Fx,
}

/// Movement-relevant state owned by the player entity: the velocity cached
/// for dice-throw inheritance, and whether a thrown dice is still in flight.
#[derive(Clone, Copy, PartialEq, Eq, Structural, Debug)]
pub struct Player {
    pub velocity: Vec3Fx,
    pub dice_active: bool,
}

/// Marker for the light that trails the player.
#[derive(Clone, Copy, PartialEq, Eq, Structural, Debug)]
pub struct PlayerLight;

/// Marker for a player whose cursor is unlocked (look input ignored).
#[derive(Clone, Copy, PartialEq, Eq, Structural, Debug)]
pub struct CursorUnlocked;

/// Marker for a player in free-fly (noclip) mode.
#[derive(Clone, Copy, PartialEq, Eq, Structural, Debug)]
pub struct Noclip;

/// Movement mode flags; `floating` mirrors the free-fly (noclip) state.
#[derive(Clone, Copy, PartialEq, Eq, Structural, Debug)]
pub struct MoveFlags {
    pub floating: bool,
}

/// Per-user tuning: pointer sensitivity in milli-degrees of rotation per
/// count of pointer movement.
#[derive(Clone, Copy, PartialEq, Eq, Structural, Debug)]
pub struct UserSettings {
    pub mouse_sens_mdeg: i32,
}

/// Held directional keys for one frame.
#[derive(Clone, Copy, PartialEq, Eq, Structural, Debug)]
pub struct MoveKeys {
    pub forward: bool,
    pub back: bool,
    pub right: bool,
    pub left: bool,
    pub sprint: bool,
    pub rise: bool,
    pub fall: bool,
}

pub open spec fn spec_clamp(v: int, lo: int, hi: int) -> int {
    if v < lo {
        lo
    } else if v > hi {
        hi
    } else {
        v
    }
}

/// `v` clamped into `[lo, hi]`.
pub fn clamp_i64(v: i64, lo: i64, hi: i64) -> (r: i64)
    requires
        lo <= hi,
    ensures
        r == spec_clamp(v as int, lo as int, hi as int),
{
    if v < lo {
        lo
    } else if v > hi {
        hi
    } else {
        v
    }
}

impl Eye {
    /// The accumulated pitch never leaves the clamp range.
    pub open spec fn wf(self) -> bool {
        -PITCH_LIMIT_MDEG <= self.pitch_mdeg <= PITCH_LIMIT_MDEG
    }

    /// One pointer delta applied to the look state: yaw and pitch each move
    /// by `-delta * sensitivity`, then pitch is clamped.
    pub open spec fn spec_after_delta(self, dx: int, dy: int, sens: int) -> Eye {
        Eye {
            yaw_mdeg: (self.yaw_mdeg - dx * sens) as i64,
            pitch_mdeg: spec_clamp(
                self.pitch_mdeg - dy * sens,
                -PITCH_LIMIT_MDEG as int,
                PITCH_LIMIT_MDEG as int,
            ) as i64,
            position: self.position,
        }
    }

    /// A whole sequence of pointer deltas applied in order.
    pub open spec fn spec_after_deltas(self, deltas: Seq<(int, int)>, sens: int) -> Eye
        decreases deltas.len(),
    {
        if deltas.len() == 0 {
            self
        } else {
            self.spec_after_delta(deltas[0].0, deltas[0].1, sens).spec_after_deltas(
                deltas.skip(1),
                sens,
            )
        }
    }

    /// Apply one frame's pointer delta to yaw and pitch.
    pub fn apply_pointer_delta(&mut self, dx: i32, dy: i32, sens: i32)
        requires
            old(self).wf(),
            i64::MIN <= old(self).yaw_mdeg - dx * sens <= i64::MAX,
        ensures
            *final(self) == old(self).spec_after_delta(dx as int, dy as int, sens as int),
            final(self).wf(),
    {
        proof {
            assert(-0x4000_0000_0000_0000 <= (dx as int) * (sens as int) <= 0x4000_0000_0000_0000
                && -0x4000_0000_0000_0000 <= (dy as int) * (sens as int)
                <= 0x4000_0000_0000_0000) by (nonlinear_arith)
                requires
                    -0x8000_0000 <= dx <= 0x7FFF_FFFF,
                    -0x8000_0000 <= dy <= 0x7FFF_FFFF,
                    -0x8000_0000 <= sens <= 0x7FFF_FFFF,
            ;
        }
        let yaw_step: i64 = (dx as i64) * (sens as i64);
        let pitch_step: i64 = (dy as i64) * (sens as i64);
        self.yaw_mdeg = self.yaw_mdeg - yaw_step;
        self.pitch_mdeg = clamp_i64(
            self.pitch_mdeg - pitch_step,
            -PITCH_LIMIT_MDEG,
            PITCH_LIMIT_MDEG,
        );
    }
}

impl Default for Eye {
    /// The initial look state: level and facing straight down the -Z axis.
    fn default() -> (r: Eye)
        ensures
            r.yaw_mdeg == 0,
            r.pitch_mdeg == 0,
            r.position == (Vec3Fx { x: 0i64, y: 0i64, z: 0i64 }),
            r.wf(),
    {
        Eye { yaw_mdeg: 0, pitch_mdeg: 0, position: Vec3Fx { x: 0, y: 0, z: 0 } }
    }
}

impl Player {
    /// The cached velocity stays small enough for every later per-frame
    /// product to fit in `i64`.
    pub open spec fn wf(self) -> bool {
        self.velocity.in_bounds(VELOCITY_LIMIT as int)
    }
}

impl Default for Player {
    fn default() -> (r: Player)
        ensures
            r.velocity == (Vec3Fx { x: 0i64, y: 0i64, z: 0i64 }),
            !r.dice_active,
            r.wf(),
    {
        Player { velocity: Vec3Fx { x: 0, y: 0, z: 0 }, dice_active: false }
    }
}

impl Default for MoveFlags {
    fn default() -> (r: MoveFlags)
        ensures
            !r.floating,
    {
        MoveFlags { floating: false }
    }
}

/// Every pointer-delta sequence leaves the pitch inside the clamp range,
/// however long the sequence and however large its entries.
pub proof fn lemma_pitch_always_clamped(e: Eye, deltas: Seq<(int, int)>, sens: int)
    requires
        e.wf(),
    ensures
        e.spec_after_deltas(deltas, sens).wf(),
    decreases deltas.len(),
{
    if deltas.len() > 0 {
        let e1 = e.spec_after_delta(deltas[0].0, deltas[0].1, sens);
        assert(e1.wf());
        lemma_pitch_always_clamped(e1, deltas.skip(1), sens);
    }
}

/// Sum of the pressed direction vectors; the forward contribution has its
/// vertical component zeroed so ground movement stays horizontal.
pub open spec fn spec_wish_move(k: MoveKeys, fwd: Vec3Fx, right: Vec3Fx) -> Vec3Fx {
    let wx = (if k.forward {
        fwd.x as int
    } else {
        0
    }) - (if k.back {
        fwd.x as int
    } else {
        0
    }) + (if k.right {
        right.x as int
    } else {
        0
    }) - (if k.left {
        right.x as int
    } else {
        0
    });
    let wy = (if k.right {
        right.y as int
    } else {
        0
    }) - (if k.left {
        right.y as int
    } else {
        0
    });
    let wz = (if k.forward {
        fwd.z as int
    } else {
        0
    }) - (if k.back {
        fwd.z as int
    } else {
        0
    }) + (if k.right {
        right.z as int
    } else {
        0
    }) - (if k.left {
        right.z as int
    } else {
        0
    });
    Vec3Fx { x: wx as i64, y: wy as i64, z: wz as i64 }
}

/// The speed multiplier for the frame, in thousandths.
pub open spec fn spec_sprint_mult(k: MoveKeys) -> int {
    if k.sprint {
        SPRINT_MULT_MILLI as int
    } else {
        WALK_MULT_MILLI as int
    }
}

/// The frame's movement velocity: normalized wish direction scaled by speed,
/// sprint multiplier and frame time, plus either the gravity contribution or
/// the free-fly vertical keys.
pub open spec fn spec_movement_velocity(
    k: MoveKeys,
    fwd: Vec3Fx,
    right: Vec3Fx,
    noclip: bool,
    dt_ms: int,
) -> Vec3Fx {
    let wish = spec_normalize_or_zero(spec_wish_move(k, fwd, right));
    let num = 10 * spec_sprint_mult(k) * dt_ms;
    let base = spec_scale(wish, num, 1_000_000);
    let vy = if !noclip {
        base.y - GRAVITY_MILLI_PER_S2 * dt_ms / 1000
    } else {
        let rate = 10 * spec_sprint_mult(k) * dt_ms / 1000;
        base.y + (if k.rise {
            rate
        } else {
            0
        }) - (if k.fall {
            rate
        } else {
            0
        })
    };
    Vec3Fx { x: base.x, y: vy as i64, z: base.z }
}

/// Compute the frame's movement velocity from held keys and the eye basis.
pub fn movement_velocity(
    k: MoveKeys,
    fwd: Vec3Fx,
    right: Vec3Fx,
    noclip: bool,
    dt_ms: u64,
) -> (r: Vec3Fx)
    requires
        fwd.in_bounds(1000),
        right.in_bounds(1000),
        dt_ms <= MAX_FRAME_MS,
    ensures
        r == spec_movement_velocity(k, fwd, right, noclip, dt_ms as int),
        r.in_bounds(VELOCITY_LIMIT as int),
{
    let wx: i64 = (if k.forward { fwd.x } else { 0 }) - (if k.back { fwd.x } else { 0 }) + (
    if k.right {
        right.x
    } else {
        0
    }) - (if k.left { right.x } else { 0 });
    let wy: i64 = (if k.right { right.y } else { 0 }) - (if k.left { right.y } else { 0 });
    let wz: i64 = (if k.forward { fwd.z } else { 0 }) - (if k.back { fwd.z } else { 0 }) + (
    if k.right {
        right.z
    } else {
        0
    }) - (if k.left { right.z } else { 0 });
    let wish_raw = Vec3Fx { x: wx, y: wy, z: wz };
    assert(wish_raw == spec_wish_move(k, fwd, right));
    let wish = wish_raw.normalize_or_zero();
    let sprint: i64 = if k.sprint {
        SPRINT_MULT_MILLI
    } else {
        WALK_MULT_MILLI
    };
    proof {
        assert(0 <= 10 * sprint * dt_ms <= 28_000_000_000_000) by (nonlinear_arith)
            requires
                1000 <= sprint <= 2800,
                0 <= dt_ms <= 1_000_000_000u64,
        ;
    }
    let num: i64 = 10 * sprint * (dt_ms as i64);
    proof {
        assert(-i64::MAX <= wish.x * num <= i64::MAX && -i64::MAX <= wish.y * num <= i64::MAX
            && -i64::MAX <= wish.z * num <= i64::MAX) by (nonlinear_arith)
            requires
                -1000 <= wish.x <= 1000,
                -1000 <= wish.y <= 1000,
                -1000 <= wish.z <= 1000,
                0 <= num <= 28_000_000_000_000i64,
        ;
        crate::mathx::lemma_scale_bounded(
            wish,
            num as int,
            1_000_000,
            1000,
            28_000_000_000,
        );
    }
    let base = wish.scale(num, 1_000_000);
    let vy: i64 = if !noclip {
        let g: i64 = GRAVITY_MILLI_PER_S2 * (dt_ms as i64) / 1000;
        proof {
            vstd::arithmetic::div_mod::lemma_div_pos_is_pos(9820 * dt_ms, 1000);
            vstd::arithmetic::div_mod::lemma_div_is_ordered(
                9820 * dt_ms,
                9_820_000_000_000,
                1000,
            );
        }
        base.y - g
    } else {
        let rate: i64 = num / 1000;
        proof {
            vstd::arithmetic::div_mod::lemma_div_pos_is_pos(num as int, 1000);
            vstd::arithmetic::div_mod::lemma_div_is_ordered(
                num as int,
                28_000_000_000_000,
                1000,
            );
        }
        base.y + (if k.rise { rate } else { 0 }) - (if k.fall { rate } else { 0 })
    };
    Vec3Fx { x: base.x, y: vy, z: base.z }
}

/// What one movement frame asks of the surrounding engine.
#[derive(Clone, Copy, PartialEq, Eq, Structural, Debug)]
pub struct MoveOutput {
    /// Translation request for the character controller; `None` while a
    /// thrown dice is in flight.
    pub controller_translation: Option<Vec3Fx>,
    /// Camera position snap; `None` while a camera takeover is active.
    pub camera_position: Option<Vec3Fx>,
    /// Whether the camera should re-take the eye's orientation this frame
    /// (suppressed during a takeover).
    pub camera_view_from_eye: bool,
}

/// One frame of player movement and look handling.
///
/// The velocity is always cached on the player for dice-throw inheritance,
/// but is only forwarded to the character controller while no dice is in
/// flight. The camera follows the eye only while no takeover is active, and
/// pointer input is drained without effect while a takeover is active or the
/// cursor is unlocked.
pub fn move_player(
    player: &mut Player,
    eye: &mut Eye,
    k: MoveKeys,
    dx: i32,
    dy: i32,
    sens: i32,
    cursor_unlocked: bool,
    noclip: bool,
    takeover_active: bool,
    player_pos: Vec3Fx,
    fwd: Vec3Fx,
    right: Vec3Fx,
    dt_ms: u64,
) -> (out: MoveOutput)
    requires
        old(eye).wf(),
        fwd.in_bounds(1000),
        right.in_bounds(1000),
        player_pos.in_bounds(COORD_LIMIT as int),
        dt_ms <= MAX_FRAME_MS,
        !takeover_active && !cursor_unlocked ==> i64::MIN <= old(eye).yaw_mdeg - dx * sens
            <= i64::MAX,
    ensures
        ({
            let velocity = spec_movement_velocity(k, fwd, right, noclip, dt_ms as int);
            let eye_pos = Vec3Fx {
                x: player_pos.x,
                y: (player_pos.y + EYE_OFFSET_MILLI) as i64,
                z: player_pos.z,
            };
            &&& spec_look_after_frame(*old(eye), eye_pos, takeover_active, cursor_unlocked, dx as int,
                dy as int, sens as int) == *final(eye)
            &&& final(player).velocity == velocity
            &&& final(player).dice_active == old(player).dice_active
            &&& out.controller_translation == (if old(player).dice_active {
                Option::<Vec3Fx>::None
            } else {
                Option::Some(velocity)
            })
            &&& out.camera_position == (if takeover_active {
                Option::<Vec3Fx>::None
            } else {
                Option::Some(eye_pos)
            })
            &&& out.camera_view_from_eye == !takeover_active
        }),
        final(eye).wf(),
        final(player).wf(),
{
    let velocity = movement_velocity(k, fwd, right, noclip, dt_ms);
    let eye_pos = Vec3Fx { x: player_pos.x, y: player_pos.y + EYE_OFFSET_MILLI, z: player_pos.z };
    eye.position = eye_pos;
    let camera_position: Option<Vec3Fx> = if !takeover_active {
        Option::Some(eye_pos)
    } else {
        Option::None
    };
    player.velocity = velocity;
    let controller_translation: Option<Vec3Fx> = if !player.dice_active {
        Option::Some(velocity)
    } else {
        Option::None
    };
    if !takeover_active && !cursor_unlocked {
        eye.apply_pointer_delta(dx, dy, sens);
    }
    MoveOutput {
        controller_translation,
        camera_position,
        camera_view_from_eye: !takeover_active,
    }
}

/// Height of the player's light above the player's origin (0.5 units).
pub const LIGHT_OFFSET_MILLI: i64 = 500;

/// One frame of the player's light trailing its target: the light moves a
/// `5 * dt` fraction of the way toward the point half a unit above the
/// player.
pub open spec fn spec_move_light(light_pos: Vec3Fx, player_pos: Vec3Fx, dt_ms: int) -> Vec3Fx {
    let target = Vec3Fx {
        x: player_pos.x,
        y: (player_pos.y + LIGHT_OFFSET_MILLI) as i64,
        z: player_pos.z,
    };
    let delta = Vec3Fx {
        x: (target.x - light_pos.x) as i64,
        y: (target.y - light_pos.y) as i64,
        z: (target.z - light_pos.z) as i64,
    };
    spec_add(light_pos, spec_scale(delta, 5 * dt_ms, 1000))
}

/// Move the player's light a step of its interpolation toward the player.
///
/// The interpolation is unclamped: on a frame longer than 200 ms the `5 *
/// dt` factor exceeds one and the light overshoots its target, exactly as
/// the stated formula says. The frame-time bound only keeps the products
/// inside `i64`.
pub fn move_light(light_pos: Vec3Fx, player_pos: Vec3Fx, dt_ms: u64) -> (r: Vec3Fx)
    requires
        light_pos.in_bounds(COORD_LIMIT as int),
        player_pos.in_bounds(COORD_LIMIT as int),
        dt_ms <= 900_000_000,
    ensures
        r == spec_move_light(light_pos, player_pos, dt_ms as int),
{
    let target = Vec3Fx { x: player_pos.x, y: player_pos.y + LIGHT_OFFSET_MILLI, z: player_pos.z };
    let delta = Vec3Fx {
        x: target.x - light_pos.x,
        y: target.y - light_pos.y,
        z: target.z - light_pos.z,
    };
    let num: i64 = 5 * (dt_ms as i64);
    proof {
        assert(-i64::MAX <= delta.x * num <= i64::MAX && -i64::MAX <= delta.y * num <= i64::MAX
            && -i64::MAX <= delta.z * num <= i64::MAX) by (nonlinear_arith)
            requires
                -2_000_000_500 <= delta.x <= 2_000_000_500,
                -2_000_000_500 <= delta.y <= 2_000_000_500,
                -2_000_000_500 <= delta.z <= 2_000_000_500,
                0 <= num <= 4_500_000_000i64,
        ;
        crate::mathx::lemma_scale_bounded(
            delta,
            num as int,
            1000,
            2_000_000_500,
            9_000_002_250_000_000,
        );
    }
    let step = delta.scale(num, 1000);
    light_pos.add(step)
}

/// The look state after one frame: pointer input only lands on the eye when
/// no takeover is active and the cursor is locked; the position always snaps
/// to the player.
pub open spec fn spec_look_after_frame(
    e: Eye,
    eye_pos: Vec3Fx,
    takeover_active: bool,
    cursor_unlocked: bool,
    dx: int,
    dy: int,
    sens: int,
) -> Eye {
    let moved = Eye { yaw_mdeg: e.yaw_mdeg, pitch_mdeg: e.pitch_mdeg, position: eye_pos };
    if takeover_active || cursor_unlocked {
        moved
    } else {
        moved.spec_after_delta(dx, dy, sens)
    }
}

} // verus!
