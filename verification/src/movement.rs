//! The player-driven kinematic body: walking, braking, jumping and mouse
//! look, simulated by the authority and overwritten everywhere else.

use vstd::prelude::*;
use crate::fixed::{
    clamp_i64, fx_add, fx_add_spec, fx_clamp_spec, fx_mul, fx_mul_spec, fx_sub, fx_sub_spec,
    fx_wrap, fx_wrap_spec, lemma_fx_mul_bound, lemma_fx_mul_same_sign, lemma_fx_mul_zero,
    lemma_fx_ratio_bound, HALF_PI, TAU,
};
use crate::vector::{
    lemma_limit_bounds, lemma_rescaled_component, lemma_rescaled_length, lemma_scale_by_zero,
    lemma_zero_vector, v_add, v_dot, v_length, v_limit, v_norm, v_scale, v_unit, v_zero, Vec3,
};

verus! {

/// A movement direction shorter than this counts as no input.
pub const WALK_THRESHOLD: i64 = 100_000;

/// What the authority reads from its input devices for one tick.
#[derive(Clone, Copy, Debug, PartialEq, Eq, Structural)]
pub struct MoveInput {
    /// Whether the input focus is captured; while it is not, directional
    /// input and jump requests are ignored.
    pub captured: bool,
    /// The requested direction in world space; its vertical part is ignored.
    pub movement: Vec3,
    pub jump: bool,
    /// Whether the collision solver reports the body as standing on a floor.
    pub on_floor: bool,
}

/// The state that the authority sends to the observers after each tick.
#[derive(Clone, Copy, Debug, PartialEq, Eq, Structural)]
pub struct KinematicSnapshot {
    pub jumping: bool,
    pub position: Vec3,
    pub velocity: Vec3,
    pub yaw_rotation: Vec3,
    pub cam_rotation: Vec3,
}

/// The body that the player drives: its state, and the constants that its
/// movement goes by.
#[derive(Clone, Copy, Debug, PartialEq, Eq, Structural)]
pub struct PlayerKinematicBody {
    pub position: Vec3,
    pub velocity: Vec3,
    /// The body's orientation; its `y` is the yaw.
    pub rotation: Vec3,
    /// The camera's orientation; its `x` is the pitch.
    pub camera_rotation: Vec3,
    pub mesh_rotation: Vec3,
    pub bazooka_rotation: Vec3,
    pub camera_current: bool,
    /// Whether the body is in the air.
    pub jumping: bool,
    pub visible: bool,
    /// Whether the body takes part in the simulation tick.
    pub processing: bool,
    pub gravity: Vec3,
    pub jump_velocity: i64,
    pub accel: i64,
    pub deaccel: i64,
    pub max_speed: i64,
    pub base_mouse_sensitivity: i64,
    pub mouse_sensitivity_mult: i64,
}

/// A newly created body: at rest at `position`, shown and simulated, in the
/// air, with the stock movement constants.
pub open spec fn fresh_kinematic(
    position: Vec3,
    rotation: Vec3,
    gravity: Vec3,
) -> PlayerKinematicBody {
    PlayerKinematicBody {
        position,
        velocity: v_zero(),
        rotation,
        camera_rotation: v_zero(),
        mesh_rotation: v_zero(),
        bazooka_rotation: v_zero(),
        camera_current: false,
        jumping: true,
        visible: true,
        processing: true,
        gravity,
        jump_velocity: 4_000_000,
        accel: 12_000_000,
        deaccel: 12_000_000,
        max_speed: 4_000_000,
        base_mouse_sensitivity: 7_000,
        mouse_sensitivity_mult: 500_000,
    }
}

/// The horizontal part of a vector.
pub open spec fn horizontal(v: Vec3) -> Vec3 {
    Vec3 { x: v.x, y: 0, z: v.z }
}

/// The speed left after braking by `step`, never below zero.
pub open spec fn braked_speed(speed: i64, step: i64) -> i64 {
    if fx_sub_spec(speed, step) < 0 {
        0
    } else {
        fx_sub_spec(speed, step)
    }
}

/// A horizontal velocity slowed toward zero by `step`, keeping its direction.
pub open spec fn braked(h: Vec3, step: i64) -> Vec3 {
    v_scale(v_unit(h), braked_speed(v_length(h), step))
}

/// A horizontal velocity pushed along `dir` at the rate `accel` for `delta`,
/// and limited to `max_speed`.
pub open spec fn accelerated(h: Vec3, dir: Vec3, accel: i64, delta: i64, max_speed: i64) -> Vec3 {
    v_limit(v_add(h, v_scale(v_scale(dir, accel), delta)), max_speed)
}

/// The direction that the input asks for: of unit length, horizontal, and
/// zero while the input focus is not captured.
pub open spec fn wish_direction(input: MoveInput) -> Vec3 {
    if input.captured {
        v_unit(horizontal(input.movement))
    } else {
        v_unit(v_zero())
    }
}

/// The horizontal velocity after one tick of the authority's integration.
pub open spec fn next_horizontal(b: PlayerKinematicBody, delta: i64, input: MoveInput) -> Vec3 {
    let h = horizontal(v_add(b.velocity, v_scale(b.gravity, delta)));
    let dir = wish_direction(input);
    if v_length(dir) > WALK_THRESHOLD {
        accelerated(h, dir, b.accel, delta, b.max_speed)
    } else {
        braked(h, fx_mul_spec(b.deaccel, delta))
    }
}

/// Whether the tick grants a jump: only from the floor, and only on request
/// with the input focus captured.
pub open spec fn jump_granted(input: MoveInput) -> bool {
    input.on_floor && input.captured && input.jump
}

/// The vertical velocity after one tick: the jump speed where a jump is
/// granted, else the old one with gravity applied.
pub open spec fn next_vertical(b: PlayerKinematicBody, delta: i64, input: MoveInput) -> i64 {
    if jump_granted(input) {
        b.jump_velocity
    } else {
        v_add(b.velocity, v_scale(b.gravity, delta)).y
    }
}

/// The body after one tick of the authority's integration.
pub open spec fn kinematic_step(
    b: PlayerKinematicBody,
    delta: i64,
    input: MoveInput,
) -> PlayerKinematicBody {
    PlayerKinematicBody {
        velocity: Vec3 {
            x: next_horizontal(b, delta, input).x,
            y: next_vertical(b, delta, input),
            z: next_horizontal(b, delta, input).z,
        },
        jumping: !input.on_floor || jump_granted(input),
        ..b
    }
}

/// The snapshot that the authority sends of the body.
pub open spec fn snapshot_of(b: PlayerKinematicBody) -> KinematicSnapshot {
    KinematicSnapshot {
        jumping: b.jumping,
        position: b.position,
        velocity: b.velocity,
        yaw_rotation: b.rotation,
        cam_rotation: b.camera_rotation,
    }
}

/// The camera's orientation with the bazooka's own yaw added.
pub open spec fn bazooka_aim(cam_rotation: Vec3, bazooka_rotation: Vec3) -> Vec3 {
    Vec3 {
        x: cam_rotation.x,
        y: fx_add_spec(cam_rotation.y, bazooka_rotation.y),
        z: cam_rotation.z,
    }
}

/// The body with a received snapshot written over it.
pub open spec fn overwritten(b: PlayerKinematicBody, s: KinematicSnapshot) -> PlayerKinematicBody {
    PlayerKinematicBody {
        jumping: s.jumping,
        position: s.position,
        velocity: s.velocity,
        rotation: s.yaw_rotation,
        camera_rotation: s.cam_rotation,
        mesh_rotation: s.cam_rotation,
        bazooka_rotation: bazooka_aim(s.cam_rotation, b.bazooka_rotation),
        ..b
    }
}

/// The mouse sensitivity in effect: the base value times the multiplier.
pub open spec fn sensitivity(b: PlayerKinematicBody) -> i64 {
    fx_mul_spec(b.base_mouse_sensitivity, b.mouse_sensitivity_mult)
}

/// The yaw after a horizontal mouse motion `dx`: the motion is subtracted
/// and the result wrapped into the range from zero up to a full turn.
pub open spec fn next_yaw(b: PlayerKinematicBody, dx: i64) -> int {
    fx_wrap_spec(fx_sub_spec(b.rotation.y, fx_mul_spec(dx, sensitivity(b))), 0, TAU)
}

/// The pitch after a vertical mouse motion `dy`: the motion is subtracted
/// and the result held between a quarter turn down and a quarter turn up.
pub open spec fn next_pitch(b: PlayerKinematicBody, dy: i64) -> i64 {
    fx_clamp_spec(
        fx_sub_spec(b.camera_rotation.x, fx_mul_spec(dy, sensitivity(b))),
        (-HALF_PI) as i64,
        HALF_PI,
    )
}

/// The body after a mouse motion of `dx` and `dy`.
pub open spec fn look_step(b: PlayerKinematicBody, dx: i64, dy: i64) -> PlayerKinematicBody {
    let cam = Vec3 { x: next_pitch(b, dy), y: b.camera_rotation.y, z: b.camera_rotation.z };
    PlayerKinematicBody {
        rotation: Vec3 { x: b.rotation.x, y: next_yaw(b, dx) as i64, z: b.rotation.z },
        camera_rotation: cam,
        mesh_rotation: cam,
        bazooka_rotation: bazooka_aim(cam, b.bazooka_rotation),
        ..b
    }
}

/// Slows a horizontal velocity toward zero by `step`.
pub fn brake(h: Vec3, step: i64) -> (r: Vec3)
    ensures
        r == braked(h, step),
{
    let mut speed: i64 = fx_sub(h.length(), step);
    if speed < 0 {
        speed = 0;
    }
    h.normalized_or_zero().scaled(speed)
}

impl PlayerKinematicBody {
    /// A body at rest at `position`, facing `rotation`, visible and
    /// simulated, in the air until the first tick says otherwise, with the
    /// stock movement constants.
    pub fn new(position: Vec3, rotation: Vec3, gravity: Vec3) -> (r: PlayerKinematicBody)
        ensures
            r == fresh_kinematic(position, rotation, gravity),
    {
        PlayerKinematicBody {
            position,
            velocity: Vec3::zero(),
            rotation,
            camera_rotation: Vec3::zero(),
            mesh_rotation: Vec3::zero(),
            bazooka_rotation: Vec3::zero(),
            camera_current: false,
            jumping: true,
            visible: true,
            processing: true,
            gravity,
            jump_velocity: 4_000_000,
            accel: 12_000_000,
            deaccel: 12_000_000,
            max_speed: 4_000_000,
            base_mouse_sensitivity: 7_000,
            mouse_sensitivity_mult: 500_000,
        }
    }

    /// One tick. Only the authority integrates, and only while the body is
    /// simulated: gravity, then walking or braking, then the jump. The
    /// result is the snapshot to send over the unreliable channel. Everyone
    /// else is left unchanged and sends nothing. Moving the body through the
    /// world is the collision solver's part and follows this call.
    pub fn physics_process(&mut self, is_authority: bool, delta: i64, input: MoveInput) -> (r:
        Option<KinematicSnapshot>)
        ensures
            is_authority && old(self).processing ==> *final(self) == kinematic_step(
                *old(self),
                delta,
                input,
            ) && r == Some(snapshot_of(*final(self))),
            !(is_authority && old(self).processing) ==> *final(self) == *old(self) && r.is_none(),
    {
        if !(is_authority && self.processing) {
            return None;
        }
        let velocity = self.velocity.plus(self.gravity.scaled(delta));
        let mut vertical: i64 = velocity.y;
        let h = Vec3 { x: velocity.x, y: 0, z: velocity.z };
        let movement = if input.captured {
            Vec3 { x: input.movement.x, y: 0, z: input.movement.z }
        } else {
            Vec3::zero()
        };
        let jump_attempt = input.captured && input.jump;
        let dir = movement.normalized_or_zero();
        self.jumping = !input.on_floor;
        let next = if dir.length() > WALK_THRESHOLD {
            h.plus(dir.scaled(self.accel).scaled(delta)).limit_length(self.max_speed)
        } else {
            brake(h, fx_mul(self.deaccel, delta))
        };
        if !self.jumping && jump_attempt {
            vertical = self.jump_velocity;
            self.jumping = true;
        }
        self.velocity = Vec3 { x: next.x, y: vertical, z: next.z };
        Some(
            KinematicSnapshot {
                jumping: self.jumping,
                position: self.position,
                velocity: self.velocity,
                yaw_rotation: self.rotation,
                cam_rotation: self.camera_rotation,
            },
        )
    }

    /// A mouse motion of `dx` and `dy`. It turns the body and tilts the
    /// camera only on the authority and only while the input focus is
    /// captured.
    pub fn input(&mut self, is_authority: bool, captured: bool, dx: i64, dy: i64)
        ensures
            is_authority && captured ==> *final(self) == look_step(*old(self), dx, dy),
            !(is_authority && captured) ==> *final(self) == *old(self),
            is_authority && captured ==> 0 <= final(self).rotation.y < TAU,
            is_authority && captured ==> -HALF_PI <= final(self).camera_rotation.x <= HALF_PI,
    {
        if !(is_authority && captured) {
            return ;
        }
        let sens: i64 = fx_mul(self.base_mouse_sensitivity, self.mouse_sensitivity_mult);
        let mx: i64 = fx_mul(dx, sens);
        let my: i64 = fx_mul(dy, sens);
        let yaw: i64 = fx_wrap(fx_sub(self.rotation.y, mx), 0, TAU);
        let pitch: i64 = clamp_i64(fx_sub(self.camera_rotation.x, my), -HALF_PI, HALF_PI);
        let cam = Vec3 { x: pitch, y: self.camera_rotation.y, z: self.camera_rotation.z };
        self.rotation = Vec3 { x: self.rotation.x, y: yaw, z: self.rotation.z };
        self.camera_rotation = cam;
        self.mesh_rotation = cam;
        self.bazooka_rotation = Vec3 {
            x: cam.x,
            y: fx_add(cam.y, self.bazooka_rotation.y),
            z: cam.z,
        };
    }

    /// Writes a received snapshot over the body. The authority, which sent
    /// it, never applies it.
    pub fn sync_state(&mut self, is_authority: bool, snapshot: KinematicSnapshot)
        ensures
            is_authority ==> *final(self) == *old(self),
            !is_authority ==> *final(self) == overwritten(*old(self), snapshot),
    {
        if is_authority {
            return ;
        }
        self.jumping = snapshot.jumping;
        self.position = snapshot.position;
        self.velocity = snapshot.velocity;
        self.rotation = snapshot.yaw_rotation;
        self.camera_rotation = snapshot.cam_rotation;
        self.mesh_rotation = snapshot.cam_rotation;
        self.bazooka_rotation = Vec3 {
            x: snapshot.cam_rotation.x,
            y: fx_add(snapshot.cam_rotation.y, self.bazooka_rotation.y),
            z: snapshot.cam_rotation.z,
        };
    }

    /// Makes this body's camera the active one, or not.
    pub fn set_camera_current(&mut self, enabled: bool)
        ensures
            *final(self) == (PlayerKinematicBody { camera_current: enabled, ..*old(self) }),
    {
        self.camera_current = enabled;
    }

    /// Takes the new multiplier of the mouse sensitivity.
    pub fn on_mouse_sensitivity_changed(&mut self, value: i64)
        ensures
            *final(self) == (PlayerKinematicBody { mouse_sensitivity_mult: value, ..*old(self) }),
    {
        self.mouse_sensitivity_mult = value;
    }
}

/// A horizontal velocity after `n` ticks of braking by `step`.
pub open spec fn braked_times(h: Vec3, step: i64, n: nat) -> Vec3
    decreases n,
{
    if n == 0 {
        h
    } else {
        braked(braked_times(h, step, (n - 1) as nat), step)
    }
}

/// Whether the input asks for no direction: the focus is not captured, or
/// the requested direction has no horizontal part.
pub open spec fn no_direction(input: MoveInput) -> bool {
    !input.captured || horizontal(input.movement) == v_zero()
}

/// The body after the authority's ticks for the given inputs, in order.
pub open spec fn after_ticks(
    b: PlayerKinematicBody,
    delta: i64,
    inputs: Seq<MoveInput>,
) -> PlayerKinematicBody
    decreases inputs.len(),
{
    if inputs.len() == 0 {
        b
    } else {
        kinematic_step(after_ticks(b, delta, inputs.drop_last()), delta, inputs.last())
    }
}

/// Braking never overshoots: one tick of braking by a positive `step` leaves
/// a speed no greater than the old speed less `step`, and exactly the zero
/// vector once the old speed is `step` or less; no component changes its
/// sign, so the new velocity never points against the old one.
pub proof fn lemma_brake_no_overshoot(h: Vec3, step: i64)
    requires
        step > 0,
    ensures
        v_length(braked(h, step)) <= braked_speed(v_length(h), step),
        v_length(braked(h, step)) <= v_length(h),
        v_length(h) <= step ==> braked(h, step) == v_zero(),
        v_dot(braked(h, step), h) >= 0,
        h.x >= 0 ==> braked(h, step).x >= 0,
        h.x <= 0 ==> braked(h, step).x <= 0,
        h.y >= 0 ==> braked(h, step).y >= 0,
        h.y <= 0 ==> braked(h, step).y <= 0,
        h.z >= 0 ==> braked(h, step).z >= 0,
        h.z <= 0 ==> braked(h, step).z <= 0,
{
    let s = braked_speed(v_length(h), step);
    let norm = v_norm(h) as int;
    lemma_zero_vector();
    if norm == 0 {
        lemma_fx_mul_bound(0, s);
    } else if s == 0 {
        lemma_scale_by_zero(v_unit(h));
    } else {
        lemma_rescaled_component(h.x, norm, s);
        lemma_rescaled_component(h.y, norm, s);
        lemma_rescaled_component(h.z, norm, s);
        lemma_rescaled_length(h, s);
    }
    let w = braked(h, step);
    lemma_fx_mul_same_sign(w.x, h.x);
    lemma_fx_mul_same_sign(w.y, h.y);
    lemma_fx_mul_same_sign(w.z, h.z);
}

/// After `n` ticks of braking the speed is at most the old speed less `n`
/// steps, and never below zero.
pub proof fn lemma_braked_times_length(h: Vec3, step: i64, n: nat)
    requires
        step > 0,
    ensures
        0 <= v_length(braked_times(h, step, n)),
        v_length(braked_times(h, step, n)) > 0 ==> v_length(braked_times(h, step, n)) <= v_length(h)
            - n * step,
    decreases n,
{
    if n > 0 {
        let before = braked_times(h, step, (n - 1) as nat);
        lemma_braked_times_length(h, step, (n - 1) as nat);
        lemma_brake_no_overshoot(before, step);
        assert(n * step == (n - 1) * step + step) by (nonlinear_arith);
    } else {
        assert(n * step == 0) by (nonlinear_arith)
            requires
                n == 0,
        ;
    }
}

/// Braking reaches zero and stays there: from any horizontal velocity, after
/// any number of ticks that is at least one and at least the speed divided by
/// the step, the velocity is exactly zero.
pub proof fn lemma_braking_reaches_zero(h: Vec3, step: i64, n: nat)
    requires
        step > 0,
        n >= 1,
        n * step >= v_length(h),
    ensures
        braked_times(h, step, n) == v_zero(),
{
    let before = braked_times(h, step, (n - 1) as nat);
    lemma_braked_times_length(h, step, (n - 1) as nat);
    lemma_brake_no_overshoot(before, step);
    assert(n * step == (n - 1) * step + step) by (nonlinear_arith);
}

/// Walking is capped: a tick that accelerates leaves a horizontal speed no
/// greater than the top speed.
pub proof fn lemma_walking_is_capped(b: PlayerKinematicBody, delta: i64, input: MoveInput)
    requires
        b.max_speed >= 0,
        v_length(wish_direction(input)) > WALK_THRESHOLD,
    ensures
        v_length(horizontal(kinematic_step(b, delta, input).velocity)) <= b.max_speed,
{
    let h = horizontal(v_add(b.velocity, v_scale(b.gravity, delta)));
    let dir = wish_direction(input);
    let pushed = v_add(h, v_scale(v_scale(dir, b.accel), delta));
    lemma_zero_vector();
    let wish = horizontal(input.movement);
    if v_norm(wish) != 0 {
        lemma_fx_ratio_bound(0, v_norm(wish) as int);
    }
    lemma_fx_mul_zero(b.accel);
    lemma_fx_mul_zero(delta);
    assert(pushed.y == 0);
    if v_norm(pushed) != 0 {
        lemma_fx_ratio_bound(0, v_norm(pushed) as int);
    }
    lemma_fx_mul_zero(b.max_speed);
    assert(v_limit(pushed, b.max_speed).y == 0);
    lemma_limit_bounds(pushed, b.max_speed);
}

/// A tick without a requested direction, under a gravity that points
/// straight up or down, brakes the horizontal velocity and does nothing else
/// to it.
pub proof fn lemma_idle_tick_brakes(b: PlayerKinematicBody, delta: i64, input: MoveInput)
    requires
        b.gravity.x == 0,
        b.gravity.z == 0,
        no_direction(input),
    ensures
        horizontal(kinematic_step(b, delta, input).velocity) == braked(
            horizontal(b.velocity),
            fx_mul_spec(b.deaccel, delta),
        ),
{
    lemma_zero_vector();
    assert(0 * delta == 0) by (nonlinear_arith);
    let h = horizontal(b.velocity);
    let s = braked_speed(v_length(h), fx_mul_spec(b.deaccel, delta));
    if v_norm(h) != 0 {
        lemma_fx_ratio_bound(0, v_norm(h) as int);
    }
    lemma_fx_mul_bound(0, s);
}

/// With no direction requested, a body slows to a halt: under a gravity that
/// points straight up or down, after any number of ticks that is at least one
/// and at least the horizontal speed divided by the braking step, the
/// horizontal velocity is exactly zero, and it is zero after every later
/// tick too.
pub proof fn lemma_idle_body_stops(b: PlayerKinematicBody, delta: i64, inputs: Seq<MoveInput>)
    requires
        b.gravity.x == 0,
        b.gravity.z == 0,
        forall|i: int| 0 <= i < inputs.len() ==> no_direction(#[trigger] inputs[i]),
        fx_mul_spec(b.deaccel, delta) > 0,
        inputs.len() >= 1,
        inputs.len() * fx_mul_spec(b.deaccel, delta) >= v_length(horizontal(b.velocity)),
    ensures
        horizontal(after_ticks(b, delta, inputs).velocity) == v_zero(),
{
    lemma_idle_ticks_brake(b, delta, inputs);
    lemma_braking_reaches_zero(
        horizontal(b.velocity),
        fx_mul_spec(b.deaccel, delta),
        inputs.len(),
    );
}

/// Ticks without a requested direction brake the horizontal velocity once
/// each, and leave the body's constants alone.
pub proof fn lemma_idle_ticks_brake(b: PlayerKinematicBody, delta: i64, inputs: Seq<MoveInput>)
    requires
        b.gravity.x == 0,
        b.gravity.z == 0,
        forall|i: int| 0 <= i < inputs.len() ==> no_direction(#[trigger] inputs[i]),
    ensures
        horizontal(after_ticks(b, delta, inputs).velocity) == braked_times(
            horizontal(b.velocity),
            fx_mul_spec(b.deaccel, delta),
            inputs.len(),
        ),
        after_ticks(b, delta, inputs).gravity == b.gravity,
        after_ticks(b, delta, inputs).deaccel == b.deaccel,
    decreases inputs.len(),
{
    if inputs.len() > 0 {
        let earlier = inputs.drop_last();
        lemma_idle_ticks_brake(b, delta, earlier);
        let before = after_ticks(b, delta, earlier);
        lemma_idle_tick_brakes(before, delta, inputs.last());
    }
}

} // verus!
