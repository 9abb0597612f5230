//! The throwable dice: spawn gating and impulse inheritance, settling
//! detection against a velocity threshold, and face-value classification of
//! the resting orientation.

use vstd::prelude::*;

verus! {

use crate::camera::{CameraSceneParams, CameraState};
use crate::mathx::{
    lemma_scale_bounded, spec_add, spec_scale, spec_sq_norm, Vec3Fx, COORD_LIMIT,
};
use crate::player::Player;

/// A dice counts as motionless when the squared magnitudes of both its
/// angular and linear velocity are at most this (0.1 units, squared, in
/// milli-units).
pub const SETTLE_SQ_THRESHOLD: u64 = 10_000;

/// Continuous stillness required before a roll resolves: 0.2 seconds.
pub const SETTLE_TIME_MS: u64 = 200;

/// A face counts as pointing up when its dot product with world-up reaches
/// 0.5, in milli-units.
pub const FACE_DOT_THRESHOLD: i64 = 500;

/// Inherited-velocity scale drawn uniformly from [0.5, 6.5), in thousandths.
pub const THROW_FACTOR_MIN_MILLI: i64 = 500;
pub const THROW_FACTOR_MAX_MILLI: i64 = 6_500;

/// Torque magnitude drawn uniformly from [0.1, 0.3), in thousandths.
pub const TORQUE_MIN_MILLI: i64 = 100;
pub const TORQUE_MAX_MILLI: i64 = 300;

/// The inherited velocity's vertical component is forced to this small
/// upward value (0.07 units).
pub const THROW_RISE_MILLI: i64 = 70;

/// The dice spawns this far along the eye's forward vector (1.5 units).
pub const SPAWN_FORWARD_MILLI: i64 = 1_500;

/// Extra forward impulse on top of the inherited velocity (0.5 units).
pub const FORWARD_IMPULSE_MILLI: i64 = 500;

/// How long the roll-result message stays on screen: 3 seconds.
pub const RESULT_MESSAGE_DURATION_MS: u64 = 3_000;

/// Duration of the camera takeover triggered by a resolved roll: 2 seconds.
pub const TAKEOVER_DURATION_MS: u64 = 2_000;

/// Downward pitch of the spotlight spawned over a resolved dice (-90°).
pub const SPOTLIGHT_PITCH_MDEG: i64 = -90_000;

/// A thrown dice: whether its roll has resolved, and how long its motion
/// has been below the settle threshold.
#[derive(Clone, Copy, PartialEq, Eq, Structural, Debug)]
pub struct Dice {
    pub rolled: bool,
    pub since_landed_ms: u64,
}

impl Default for Dice {
    /// A freshly thrown dice: unresolved, with no stillness accumulated.
    fn default() -> (r: Dice)
        ensures
            !r.rolled,
            r.since_landed_ms == 0,
    {
        Dice { rolled: false, since_landed_ms: 0 }
    }
}

/// A rigid orientation given by the dice's local axes in world space, each
/// in milli-units.
#[derive(Clone, Copy, PartialEq, Eq, Structural, Debug)]
pub struct Orientation {
    pub x_axis: Vec3Fx,
    pub y_axis: Vec3Fx,
    pub z_axis: Vec3Fx,
}

impl Orientation {
    /// Axis components stay within one milli-unit length.
    pub open spec fn wf(self) -> bool {
        &&& self.x_axis.in_bounds(1000)
        &&& self.y_axis.in_bounds(1000)
        &&& self.z_axis.in_bounds(1000)
    }

    /// The untouched orientation: local axes aligned with the world axes.
    pub fn identity() -> (r: Orientation)
        ensures
            r == (Orientation {
                x_axis: Vec3Fx { x: 1000i64, y: 0i64, z: 0i64 },
                y_axis: Vec3Fx { x: 0i64, y: 1000i64, z: 0i64 },
                z_axis: Vec3Fx { x: 0i64, y: 0i64, z: 1000i64 },
            }),
            r.wf(),
    {
        Orientation {
            x_axis: Vec3Fx { x: 1000, y: 0, z: 0 },
            y_axis: Vec3Fx { x: 0, y: 1000, z: 0 },
            z_axis: Vec3Fx { x: 0, y: 0, z: 1000 },
        }
    }

    /// A quarter turn about the world X axis applied to the orientation:
    /// each axis vector `(x, y, z)` becomes `(x, -z, y)`.
    pub fn rotated_x_quarter(self) -> (r: Orientation)
        requires
            self.wf(),
        ensures
            r == (Orientation {
                x_axis: spec_rot_x(self.x_axis),
                y_axis: spec_rot_x(self.y_axis),
                z_axis: spec_rot_x(self.z_axis),
            }),
            r.wf(),
    {
        Orientation {
            x_axis: rot_x(self.x_axis),
            y_axis: rot_x(self.y_axis),
            z_axis: rot_x(self.z_axis),
        }
    }

    /// A quarter turn about the world Y axis: `(x, y, z)` becomes
    /// `(z, y, -x)`.
    pub fn rotated_y_quarter(self) -> (r: Orientation)
        requires
            self.wf(),
        ensures
            r == (Orientation {
                x_axis: spec_rot_y(self.x_axis),
                y_axis: spec_rot_y(self.y_axis),
                z_axis: spec_rot_y(self.z_axis),
            }),
            r.wf(),
    {
        Orientation {
            x_axis: rot_y(self.x_axis),
            y_axis: rot_y(self.y_axis),
            z_axis: rot_y(self.z_axis),
        }
    }

    /// A quarter turn about the world Z axis: `(x, y, z)` becomes
    /// `(-y, x, z)`.
    pub fn rotated_z_quarter(self) -> (r: Orientation)
        requires
            self.wf(),
        ensures
            r == (Orientation {
                x_axis: spec_rot_z(self.x_axis),
                y_axis: spec_rot_z(self.y_axis),
                z_axis: spec_rot_z(self.z_axis),
            }),
            r.wf(),
    {
        Orientation {
            x_axis: rot_z(self.x_axis),
            y_axis: rot_z(self.y_axis),
            z_axis: rot_z(self.z_axis),
        }
    }
}

pub open spec fn spec_rot_x(v: Vec3Fx) -> Vec3Fx {
    Vec3Fx { x: v.x, y: (-v.z) as i64, z: v.y }
}

pub open spec fn spec_rot_y(v: Vec3Fx) -> Vec3Fx {
    Vec3Fx { x: v.z, y: v.y, z: (-v.x) as i64 }
}

pub open spec fn spec_rot_z(v: Vec3Fx) -> Vec3Fx {
    Vec3Fx { x: (-v.y) as i64, y: v.x, z: v.z }
}

fn rot_x(v: Vec3Fx) -> (r: Vec3Fx)
    requires
        v.in_bounds(1000),
    ensures
        r == spec_rot_x(v),
        r.in_bounds(1000),
{
    Vec3Fx { x: v.x, y: -v.z, z: v.y }
}

fn rot_y(v: Vec3Fx) -> (r: Vec3Fx)
    requires
        v.in_bounds(1000),
    ensures
        r == spec_rot_y(v),
        r.in_bounds(1000),
{
    Vec3Fx { x: v.z, y: v.y, z: -v.x }
}

fn rot_z(v: Vec3Fx) -> (r: Vec3Fx)
    requires
        v.in_bounds(1000),
    ensures
        r == spec_rot_z(v),
        r.in_bounds(1000),
{
    Vec3Fx { x: -v.y, y: v.x, z: v.z }
}

/// The face value read from a resting orientation: the first of the six
/// local directions (up, down, right, left, forward, back), in that fixed
/// priority order, whose dot product with world-up reaches the threshold
/// decides the value (1, 6, 5, 2, 3, 4 respectively); if none reaches it,
/// the roll is ambiguous and classified as 0.
pub open spec fn spec_dice_result(o: Orientation) -> int {
    if o.y_axis.y >= FACE_DOT_THRESHOLD {
        1
    } else if -o.y_axis.y >= FACE_DOT_THRESHOLD {
        6
    } else if o.x_axis.y >= FACE_DOT_THRESHOLD {
        5
    } else if -o.x_axis.y >= FACE_DOT_THRESHOLD {
        2
    } else if -o.z_axis.y >= FACE_DOT_THRESHOLD {
        3
    } else if o.z_axis.y >= FACE_DOT_THRESHOLD {
        4
    } else {
        0
    }
}

/// Classify which face of the dice points upward.
pub fn get_dice_result(o: &Orientation) -> (r: i32)
    requires
        o.wf(),
    ensures
        r == spec_dice_result(*o),
        0 <= r <= 6,
{
    let dot_up: i64 = o.y_axis.y;
    let dot_down: i64 = -o.y_axis.y;
    let dot_right: i64 = o.x_axis.y;
    let dot_left: i64 = -o.x_axis.y;
    let dot_forward: i64 = -o.z_axis.y;
    let dot_backward: i64 = o.z_axis.y;
    if dot_up >= FACE_DOT_THRESHOLD {
        1
    } else if dot_down >= FACE_DOT_THRESHOLD {
        6
    } else if dot_right >= FACE_DOT_THRESHOLD {
        5
    } else if dot_left >= FACE_DOT_THRESHOLD {
        2
    } else if dot_forward >= FACE_DOT_THRESHOLD {
        3
    } else if dot_backward >= FACE_DOT_THRESHOLD {
        4
    } else {
        0
    }
}

/// One frame of the settling detector: stillness time accumulates while
/// both velocity magnitudes are at or below the threshold (and does not
/// reset otherwise), and the roll resolves once it reaches the settle time.
pub open spec fn spec_settle_step(d: Dice, ang_sq: int, lin_sq: int, dt_ms: int) -> Dice {
    if d.rolled {
        d
    } else {
        let since = if ang_sq <= SETTLE_SQ_THRESHOLD && lin_sq <= SETTLE_SQ_THRESHOLD {
            d.since_landed_ms + dt_ms
        } else {
            d.since_landed_ms as int
        };
        Dice { rolled: since >= SETTLE_TIME_MS, since_landed_ms: since as u64 }
    }
}

/// Advance the settling detector by one frame.
pub fn dice_settle_step(dice: &mut Dice, angvel: Vec3Fx, linvel: Vec3Fx, dt_ms: u64) -> (resolved_now:
    bool)
    requires
        angvel.in_bounds(COORD_LIMIT as int),
        linvel.in_bounds(COORD_LIMIT as int),
        old(dice).since_landed_ms + dt_ms <= u64::MAX,
    ensures
        *final(dice) == spec_settle_step(
            *old(dice),
            spec_sq_norm(angvel),
            spec_sq_norm(linvel),
            dt_ms as int,
        ),
        resolved_now == (!old(dice).rolled && final(dice).rolled),
{
    if dice.rolled {
        return false;
    }
    let ang_sq = angvel.sq_norm();
    let lin_sq = linvel.sq_norm();
    if ang_sq <= SETTLE_SQ_THRESHOLD && lin_sq <= SETTLE_SQ_THRESHOLD {
        dice.since_landed_ms = dice.since_landed_ms + dt_ms;
    }
    if dice.since_landed_ms >= SETTLE_TIME_MS {
        dice.rolled = true;
        true
    } else {
        false
    }
}

/// One observed frame of a dice in flight, for stating rules over whole
/// flights: squared velocity magnitudes and the frame duration.
pub ghost struct SettleFrame {
    pub ang_sq: int,
    pub lin_sq: int,
    pub dt_ms: int,
}

/// The settling detector run over a whole sequence of observed frames.
pub open spec fn spec_settle_run(d: Dice, frames: Seq<SettleFrame>) -> Dice
    decreases frames.len(),
{
    if frames.len() == 0 {
        d
    } else {
        spec_settle_run(
            spec_settle_step(d, frames[0].ang_sq, frames[0].lin_sq, frames[0].dt_ms),
            frames.skip(1),
        )
    }
}

/// Total observed time of a frame sequence.
pub open spec fn spec_total_ms(frames: Seq<SettleFrame>) -> int
    decreases frames.len(),
{
    if frames.len() == 0 {
        0
    } else {
        frames[0].dt_ms + spec_total_ms(frames.skip(1))
    }
}

/// Both velocity magnitudes at or below the settle threshold.
pub open spec fn spec_calm(f: SettleFrame) -> bool {
    &&& f.ang_sq <= SETTLE_SQ_THRESHOLD
    &&& f.lin_sq <= SETTLE_SQ_THRESHOLD
    &&& 0 <= f.dt_ms
}

/// A resolved dice never changes again, whatever else is observed.
pub proof fn lemma_rolled_stays(d: Dice, frames: Seq<SettleFrame>)
    requires
        d.rolled,
    ensures
        spec_settle_run(d, frames) == d,
    decreases frames.len(),
{
    if frames.len() > 0 {
        lemma_rolled_stays(d, frames.skip(1));
    }
}

/// A dice whose motion stays at or below the settle threshold — including
/// exactly at it — for frames totaling the settle time always resolves.
pub proof fn lemma_settles_when_calm(d: Dice, frames: Seq<SettleFrame>)
    requires
        !d.rolled,
        frames.len() >= 1,
        forall|i: int| 0 <= i < frames.len() ==> spec_calm(#[trigger] frames[i]),
        d.since_landed_ms + spec_total_ms(frames) >= SETTLE_TIME_MS,
        d.since_landed_ms + spec_total_ms(frames) <= u64::MAX,
    ensures
        spec_settle_run(d, frames).rolled,
    decreases frames.len(),
{
    let f0 = frames[0];
    let rest = frames.skip(1);
    lemma_total_nonneg(rest);
    let d1 = spec_settle_step(d, f0.ang_sq, f0.lin_sq, f0.dt_ms);
    if d1.rolled {
        lemma_rolled_stays(d1, rest);
    } else {
        assert(d1.since_landed_ms == d.since_landed_ms + f0.dt_ms);
        if frames.len() == 1 {
            assert(spec_total_ms(rest) == 0);
            assert(false);
        } else {
            assert(forall|i: int| 0 <= i < rest.len() ==> spec_calm(#[trigger] rest[i])) by {
                assert(forall|i: int| 0 <= i < rest.len() ==> #[trigger] rest[i] == frames[i + 1]);
            }
            lemma_settles_when_calm(d1, rest);
        }
    }
}

/// A dice whose linear velocity magnitude stays strictly above the settle
/// threshold never resolves, however long it is observed.
pub proof fn lemma_never_resolves_when_moving(d: Dice, frames: Seq<SettleFrame>)
    requires
        !d.rolled,
        d.since_landed_ms < SETTLE_TIME_MS,
        forall|i: int| 0 <= i < frames.len() ==> (#[trigger] frames[i]).lin_sq
            > SETTLE_SQ_THRESHOLD,
    ensures
        spec_settle_run(d, frames) == d,
    decreases frames.len(),
{
    if frames.len() > 0 {
        let f0 = frames[0];
        let rest = frames.skip(1);
        let d1 = spec_settle_step(d, f0.ang_sq, f0.lin_sq, f0.dt_ms);
        assert(d1 == d);
        assert(forall|i: int| 0 <= i < rest.len() ==> (#[trigger] rest[i]).lin_sq
            > SETTLE_SQ_THRESHOLD) by {
            assert(forall|i: int| 0 <= i < rest.len() ==> #[trigger] rest[i] == frames[i + 1]);
        }
        lemma_never_resolves_when_moving(d, rest);
    }
}

proof fn lemma_total_nonneg(frames: Seq<SettleFrame>)
    requires
        forall|i: int| 0 <= i < frames.len() ==> 0 <= (#[trigger] frames[i]).dt_ms,
    ensures
        spec_total_ms(frames) >= 0,
    decreases frames.len(),
{
    if frames.len() > 0 {
        assert(forall|i: int| 0 <= i < frames.skip(1).len() ==> #[trigger] frames.skip(1)[i]
            == frames[i + 1]);
        lemma_total_nonneg(frames.skip(1));
    }
}

/// Everything a resolved throw hands to the physics engine: where the dice
/// appears, and the linear and angular impulses it starts with.
#[derive(Clone, Copy, PartialEq, Eq, Structural, Debug)]
pub struct ThrowSpec {
    pub spawn_pos: Vec3Fx,
    pub impulse: Vec3Fx,
    pub torque_impulse: Vec3Fx,
}

/// The linear impulse of a throw: the cached velocity with its vertical
/// component forced slightly upward, scaled by the random factor `k`
/// (thousandths), plus a fixed forward push.
pub open spec fn spec_throw_impulse(velocity: Vec3Fx, fwd: Vec3Fx, k: int) -> Vec3Fx {
    spec_add(
        spec_scale(
            Vec3Fx { x: velocity.x, y: THROW_RISE_MILLI, z: velocity.z },
            k,
            1000,
        ),
        spec_scale(fwd, FORWARD_IMPULSE_MILLI as int, 1000),
    )
}

/// Where a throw from `eye_pos` looking along `fwd` spawns the dice.
pub open spec fn spec_throw_spawn_pos(eye_pos: Vec3Fx, fwd: Vec3Fx) -> Vec3Fx {
    spec_add(eye_pos, spec_scale(fwd, SPAWN_FORWARD_MILLI as int, 1000))
}

/// The throw gate: a trigger starts a throw exactly when no dice is
/// already active, and starting one marks the dice active.
pub open spec fn spec_throw_gate(p: Player, trigger: bool) -> (bool, Player) {
    if trigger && !p.dice_active {
        (true, Player { velocity: p.velocity, dice_active: true })
    } else {
        (false, p)
    }
}

/// The resolved roll clears the active flag, permitting a new throw.
pub open spec fn spec_resolve_player(p: Player) -> Player {
    Player { velocity: p.velocity, dice_active: false }
}

/// Within one active window a second trigger starts nothing, and once the
/// roll resolves a trigger starts a throw again.
pub proof fn lemma_throw_gating(p: Player)
    requires
        !p.dice_active,
    ensures
        ({
            let (s1, p1) = spec_throw_gate(p, true);
            let (s2, p2) = spec_throw_gate(p1, true);
            let p3 = spec_resolve_player(p2);
            let (s4, _) = spec_throw_gate(p3, true);
            s1 && !s2 && s4
        }),
{
}

/// Attempt to start a throw. Exactly when the trigger is pressed and no
/// dice is active, a dice is created: its spawn position is exact, its
/// impulse follows the inheritance formula for some drawn factor in its
/// range, its torque is a unit-cube direction scaled by some drawn
/// magnitude in its range, and the player's active flag is raised.
/// Otherwise nothing changes.
pub fn try_start_throw(
    player: &mut Player,
    eye_pos: Vec3Fx,
    fwd: Vec3Fx,
    throw_pressed: bool,
    rng: &mut rand::rngs::ThreadRng,
) -> (r: Option<ThrowSpec>)
    requires
        old(player).wf(),
        eye_pos.in_bounds(COORD_LIMIT as int + 1000),
        fwd.in_bounds(1000),
    ensures
        (r is Some) == spec_throw_gate(*old(player), throw_pressed).0,
        *final(player) == spec_throw_gate(*old(player), throw_pressed).1,
        final(player).wf(),
        r matches Some(t) ==> {
            &&& t.spawn_pos == spec_throw_spawn_pos(eye_pos, fwd)
            &&& exists|k: int|
                THROW_FACTOR_MIN_MILLI <= k < THROW_FACTOR_MAX_MILLI && t.impulse
                    == spec_throw_impulse(old(player).velocity, fwd, k)
            &&& exists|td: Vec3Fx, tm: int|
                td.in_bounds(1000) && TORQUE_MIN_MILLI <= tm < TORQUE_MAX_MILLI
                    && t.torque_impulse == spec_scale(td, tm, 1000)
            &&& t.torque_impulse.in_bounds(TORQUE_MAX_MILLI as int)
        },
{
    if !throw_pressed || player.dice_active {
        return None;
    }
    let k = crate::mathx::gen_range_i64(rng, THROW_FACTOR_MIN_MILLI, THROW_FACTOR_MAX_MILLI);
    let torque_dir = crate::mathx::random_vec3(rng);
    let torque_mag = crate::mathx::gen_range_i64(rng, TORQUE_MIN_MILLI, TORQUE_MAX_MILLI);

    proof {
        lemma_scale_bounded(fwd, SPAWN_FORWARD_MILLI as int, 1000, 1000, 1500);
        lemma_scale_bounded(fwd, FORWARD_IMPULSE_MILLI as int, 1000, 1000, 500);
        assert(-i64::MAX <= torque_dir.x * torque_mag <= i64::MAX && -i64::MAX <= torque_dir.y
            * torque_mag <= i64::MAX && -i64::MAX <= torque_dir.z * torque_mag
            <= i64::MAX) by (nonlinear_arith)
            requires
                -1000 <= torque_dir.x <= 1000,
                -1000 <= torque_dir.y <= 1000,
                -1000 <= torque_dir.z <= 1000,
                0 <= torque_mag <= 300i64,
        ;
        lemma_scale_bounded(torque_dir, torque_mag as int, 1000, 1000, TORQUE_MAX_MILLI as int);
    }
    let spawn_pos = eye_pos.add(fwd.scale(SPAWN_FORWARD_MILLI, 1000));
    let inherit = Vec3Fx { x: player.velocity.x, y: THROW_RISE_MILLI, z: player.velocity.z };
    proof {
        assert(-i64::MAX <= inherit.x * k <= i64::MAX && -i64::MAX <= inherit.y * k <= i64::MAX
            && -i64::MAX <= inherit.z * k <= i64::MAX) by (nonlinear_arith)
            requires
                -60_000_000_000 <= inherit.x <= 60_000_000_000,
                -60_000_000_000 <= inherit.y <= 60_000_000_000,
                -60_000_000_000 <= inherit.z <= 60_000_000_000,
                0 <= k <= 6_500i64,
        ;
        lemma_scale_bounded(inherit, k as int, 1000, 60_000_000_000, 390_000_000_000);
    }
    let impulse = inherit.scale(k, 1000).add(fwd.scale(FORWARD_IMPULSE_MILLI, 1000));
    let torque_impulse = torque_dir.scale(torque_mag, 1000);
    player.dice_active = true;
    let t = ThrowSpec { spawn_pos, impulse, torque_impulse };
    proof {
        assert(THROW_FACTOR_MIN_MILLI <= (k as int) && (k as int) < THROW_FACTOR_MAX_MILLI
            && t.impulse == spec_throw_impulse(old(player).velocity, fwd, k as int));
        assert(torque_dir.in_bounds(1000) && TORQUE_MIN_MILLI <= (torque_mag as int)
            && (torque_mag as int) < TORQUE_MAX_MILLI && t.torque_impulse == spec_scale(
            torque_dir,
            torque_mag as int,
            1000,
        ));
    }
    Some(t)
}

/// Everything a resolved roll asks of the surrounding engine besides the
/// physics state itself: the face value for the on-screen message, the
/// camera's jump position, and where the spotlight effect appears.
#[derive(Clone, Copy, PartialEq, Eq, Structural, Debug)]
pub struct RollOutcome {
    pub value: i32,
    pub message_duration_ms: u64,
    pub camera_jump: Vec3Fx,
    pub spotlight_pos: Vec3Fx,
}

/// One frame of the dice outcome system for an unresolved dice.
///
/// The settling detector advances; exactly when it resolves this frame, the
/// resting orientation is classified, a camera takeover centered on the
/// dice begins, and the player's active flag clears so a new throw is
/// permitted.
pub fn dice_system(
    dice: &mut Dice,
    player: &mut Player,
    camera: &mut CameraState,
    orientation: &Orientation,
    dice_pos: Vec3Fx,
    angvel: Vec3Fx,
    linvel: Vec3Fx,
    dt_ms: u64,
) -> (outcome: Option<RollOutcome>)
    requires
        orientation.wf(),
        dice_pos.in_bounds(COORD_LIMIT as int),
        angvel.in_bounds(COORD_LIMIT as int),
        linvel.in_bounds(COORD_LIMIT as int),
        old(dice).since_landed_ms + dt_ms <= u64::MAX,
    ensures
        *final(dice) == spec_settle_step(
            *old(dice),
            spec_sq_norm(angvel),
            spec_sq_norm(linvel),
            dt_ms as int,
        ),
        (outcome is Some) == (!old(dice).rolled && final(dice).rolled),
        outcome matches Some(o) ==> {
            &&& o.value == spec_dice_result(*orientation)
            &&& 0 <= o.value <= 6
            &&& o.message_duration_ms == RESULT_MESSAGE_DURATION_MS
            &&& o.camera_jump == spec_add(dice_pos, (Vec3Fx { x: 800i64, y: 900i64, z: 800i64 }))
            &&& o.spotlight_pos == spec_add(dice_pos, (Vec3Fx { x: 0i64, y: 1400i64, z: 0i64 }))
            &&& *final(camera) == (CameraState {
                scene_params: Some(
                    CameraSceneParams {
                        target_position: dice_pos,
                        pos_offset: Vec3Fx { x: 0i64, y: 1200i64, z: 0i64 },
                        duration_ms: TAKEOVER_DURATION_MS,
                    },
                ),
                elapsed_time_ms: old(camera).elapsed_time_ms,
            })
            &&& *final(player) == spec_resolve_player(*old(player))
        },
        outcome is None ==> *final(camera) == *old(camera) && *final(player) == *old(player),
{
    let resolved_now = dice_settle_step(dice, angvel, linvel, dt_ms);
    if !resolved_now {
        return None;
    }
    let value = get_dice_result(orientation);
    let camera_jump = dice_pos.add(Vec3Fx { x: 800, y: 900, z: 800 });
    let spotlight_pos = dice_pos.add(Vec3Fx { x: 0, y: 1400, z: 0 });
    camera.scene_params = Some(
        CameraSceneParams {
            target_position: dice_pos,
            pos_offset: Vec3Fx { x: 0, y: 1200, z: 0 },
            duration_ms: TAKEOVER_DURATION_MS,
        },
    );
    player.dice_active = false;
    Some(
        RollOutcome {
            value,
            message_duration_ms: RESULT_MESSAGE_DURATION_MS,
            camera_jump,
            spotlight_pos,
        },
    )
}

} // verus!
