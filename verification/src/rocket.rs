//! Rockets: the aerodynamic load on an armed projectile, its lifetime, and
//! the detonation that happens at most once.

use vstd::prelude::*;
use crate::explosion::{spawned_at, Explosion};
use crate::fixed::{fx_mul, fx_mul_spec, fx_neg, fx_neg_spec, fx_sub, fx_sub_spec};
use crate::vector::{
    v_add, v_cross, v_dot, v_length_squared, v_neg, v_scale, v_unit, Vec3,
};

verus! {

/// Where a projectile is in its life.
#[derive(Clone, Copy, Debug, PartialEq, Eq, Structural)]
pub enum ProjectileState {
    /// In flight, with the time left before it times out.
    Armed { lifetime: i64 },
    /// The authority has called for the detonation, which has not been
    /// carried out here yet.
    Exploding,
    /// Removed from the simulation.
    Freed,
}

/// The constants of the flight model.
#[derive(Clone, Copy, Debug, PartialEq, Eq, Structural)]
pub struct RocketParams {
    /// Thrust along the forward axis.
    pub thrust: i64,
    /// Pitching-moment coefficient; negative, so that the moment restores.
    pub cm_alpha: i64,
    /// Drag coefficient.
    pub cd: i64,
    /// Lift coefficient.
    pub cl_alpha: i64,
    /// Induced-drag coefficient.
    pub cd_i: i64,
}

/// A force at the centre of mass and a torque.
#[derive(Clone, Copy, Debug, PartialEq, Eq, Structural)]
pub struct AeroLoad {
    pub force: Vec3,
    pub torque: Vec3,
}

/// What the rocket asks of the replication layer.
#[derive(Clone, Copy, Debug, PartialEq, Eq, Structural)]
pub enum RocketAction {
    Nothing,
    /// Invoke the reliable `explode` operation, everywhere and here, with
    /// this position.
    BroadcastExplode(Vec3),
    /// The rocket timed out in the legacy mode and left without a blast.
    Despawned,
}

/// The result of one tick.
#[derive(Clone, Copy, Debug, PartialEq, Eq, Structural)]
pub struct RocketTick {
    /// The load to apply to the rigid body, where the rocket was simulated.
    pub load: Option<AeroLoad>,
    pub action: RocketAction,
}

/// What a contact led to.
#[derive(Clone, Copy, Debug, PartialEq, Eq, Structural)]
pub enum ContactOutcome {
    Ignored,
    /// Invoke the reliable `explode` operation, everywhere and here, with
    /// this position.
    Broadcast(Vec3),
}

/// A rocket in flight, or what is left of it.
#[derive(Clone, Copy, Debug, PartialEq, Eq, Structural)]
pub struct Rocket {
    pub state: ProjectileState,
    /// The participant that simulates this rocket.
    pub authority: i64,
    /// The participant on whose machine this copy lives.
    pub local_id: i64,
    pub position: Vec3,
    pub rotation: Vec3,
    pub linear_velocity: Vec3,
    pub params: RocketParams,
    /// Whether a timeout detonates the rocket in place. When false the rocket
    /// leaves silently, as early versions did.
    pub detonate_on_timeout: bool,
}

/// Whether the copy is held by the rocket's authority.
pub open spec fn simulated_here(r: Rocket) -> bool {
    r.local_id == r.authority
}

/// The stock constants of the flight model.
pub open spec fn default_params() -> RocketParams {
    RocketParams {
        thrust: 15_000_000,
        cm_alpha: (-5_000_000) as i64,
        cd: 500_000,
        cl_alpha: 20_000_000,
        cd_i: 300_000,
    }
}

/// The time a rocket flies before it times out.
pub const DEFAULT_LIFETIME: i64 = 1_000_000;

/// The dynamic pressure, up to a constant factor: the squared speed.
pub open spec fn dyn_pressure(v: Vec3) -> i64 {
    v_length_squared(v)
}

/// Thrust: along the forward axis, with the thrust constant.
pub open spec fn thrust_force(p: RocketParams, forward: Vec3) -> Vec3 {
    v_scale(forward, p.thrust)
}

/// Drag: against the velocity, with the squared speed times the coefficient.
pub open spec fn drag_force(p: RocketParams, v: Vec3) -> Vec3 {
    v_scale(v_scale(v_neg(v_unit(v)), dyn_pressure(v)), p.cd)
}

/// The lift axis: the negated direction of `(forward × v) × v`.
pub open spec fn lift_axis(v: Vec3, forward: Vec3) -> Vec3 {
    v_neg(v_unit(v_cross(v_cross(forward, v), v)))
}

/// The lift magnitude: the negated product of the lift axis with itself, the
/// squared speed and the lift coefficient.
pub open spec fn lift_magnitude(p: RocketParams, v: Vec3, forward: Vec3) -> i64 {
    fx_neg_spec(
        fx_mul_spec(
            fx_mul_spec(v_dot(lift_axis(v, forward), lift_axis(v, forward)), dyn_pressure(v)),
            p.cl_alpha,
        ),
    )
}

/// Lift: the lift axis times the lift magnitude.
pub open spec fn lift_force(p: RocketParams, v: Vec3, forward: Vec3) -> Vec3 {
    v_scale(lift_axis(v, forward), lift_magnitude(p, v, forward))
}

/// Induced drag: against the velocity, with the lift magnitude times the
/// induced-drag coefficient.
pub open spec fn induced_drag_force(p: RocketParams, v: Vec3, forward: Vec3) -> Vec3 {
    v_scale(v_scale(v_neg(v_unit(v)), lift_magnitude(p, v, forward)), p.cd_i)
}

/// The net force: thrust, drag, lift and induced drag.
pub open spec fn net_force(p: RocketParams, v: Vec3, forward: Vec3) -> Vec3 {
    v_add(
        v_add(v_add(thrust_force(p, forward), drag_force(p, v)), lift_force(p, v, forward)),
        induced_drag_force(p, v, forward),
    )
}

/// The aerodynamic moment: `v × forward`, times the squared speed, times the
/// pitching-moment coefficient.
pub open spec fn aero_torque(p: RocketParams, v: Vec3, forward: Vec3) -> Vec3 {
    v_scale(v_scale(v_cross(v, forward), dyn_pressure(v)), p.cm_alpha)
}

/// The net force and the aerodynamic moment together.
pub open spec fn aero_load(p: RocketParams, v: Vec3, forward: Vec3) -> AeroLoad {
    AeroLoad { force: net_force(p, v, forward), torque: aero_torque(p, v, forward) }
}

/// The rocket and the tick's result after a tick of length `delta`, with the
/// rocket pointing along `forward`.
pub open spec fn tick_spec(r: Rocket, is_authority: bool, delta: i64, forward: Vec3) -> (
    Rocket,
    RocketTick,
) {
    match r.state {
        ProjectileState::Armed { lifetime } if is_authority => {
            let load = Some(aero_load(r.params, r.linear_velocity, forward));
            let left = fx_sub_spec(lifetime, delta);
            if left > 0 {
                (
                    Rocket { state: ProjectileState::Armed { lifetime: left }, ..r },
                    RocketTick { load, action: RocketAction::Nothing },
                )
            } else if r.detonate_on_timeout {
                (
                    Rocket { state: ProjectileState::Exploding, ..r },
                    RocketTick { load, action: RocketAction::BroadcastExplode(r.position) },
                )
            } else {
                (
                    Rocket { state: ProjectileState::Freed, ..r },
                    RocketTick { load, action: RocketAction::Despawned },
                )
            }
        },
        _ => (r, RocketTick { load: None, action: RocketAction::Nothing }),
    }
}

/// The rocket and the outcome after a contact with a body, whatever its
/// kind. Only the authority decides, and only for an armed rocket: it calls
/// for the detonation at the rocket's place. No copy detonates on its own.
pub open spec fn contact_spec(r: Rocket, is_authority: bool) -> (Rocket, ContactOutcome) {
    match r.state {
        ProjectileState::Armed { lifetime } if is_authority => (
            Rocket { state: ProjectileState::Exploding, ..r },
            ContactOutcome::Broadcast(r.position),
        ),
        _ => (r, ContactOutcome::Ignored),
    }
}

/// The rocket and the explosion created when `explode` is carried out.
pub open spec fn explode_spec(r: Rocket, position: Vec3) -> (Rocket, Option<Explosion>) {
    if r.state == ProjectileState::Freed {
        (r, None)
    } else {
        (Rocket { state: ProjectileState::Freed, ..r }, Some(spawned_at(position)))
    }
}

/// Computes the load on a rocket that moves with velocity `v` and points
/// along `forward`.
pub fn compute_load(p: &RocketParams, v: Vec3, forward: Vec3) -> (r: AeroLoad)
    ensures
        r == aero_load(*p, v, forward),
{
    let vel_norm = v.normalized_or_zero();
    let q: i64 = v.length_squared();
    let thrust = forward.scaled(p.thrust);
    let drag = vel_norm.negated().scaled(q).scaled(p.cd);
    let axis = forward.cross(v).cross(v).normalized_or_zero().negated();
    let magnitude: i64 = fx_neg(fx_mul(fx_mul(axis.dot(axis), q), p.cl_alpha));
    let lift = axis.scaled(magnitude);
    let induced = vel_norm.negated().scaled(magnitude).scaled(p.cd_i);
    let force = thrust.plus(drag).plus(lift).plus(induced);
    let torque = v.cross(forward).scaled(q).scaled(p.cm_alpha);
    AeroLoad { force, torque }
}

impl RocketParams {
    /// The stock constants of the flight model.
    pub fn standard() -> (r: RocketParams)
        ensures
            r == default_params(),
    {
        RocketParams {
            thrust: 15_000_000,
            cm_alpha: -5_000_000,
            cd: 500_000,
            cl_alpha: 20_000_000,
            cd_i: 300_000,
        }
    }
}

impl Rocket {
    /// An armed rocket with the standard constants and lifetime, which
    /// detonates when it times out.
    pub fn new(
        local_id: i64,
        authority: i64,
        position: Vec3,
        rotation: Vec3,
        linear_velocity: Vec3,
    ) -> (r: Rocket)
        ensures
            r == (Rocket {
                state: ProjectileState::Armed { lifetime: DEFAULT_LIFETIME },
                authority,
                local_id,
                position,
                rotation,
                linear_velocity,
                params: default_params(),
                detonate_on_timeout: true,
            }),
    {
        Rocket {
            state: ProjectileState::Armed { lifetime: DEFAULT_LIFETIME },
            authority,
            local_id,
            position,
            rotation,
            linear_velocity,
            params: RocketParams::standard(),
            detonate_on_timeout: true,
        }
    }

    /// Whether this copy is held by the rocket's authority.
    pub fn is_authority(&self) -> (r: bool)
        ensures
            r == simulated_here(*self),
    {
        self.local_id == self.authority
    }

    /// One tick. Only the authority simulates, and only an armed rocket: it
    /// gets its load, and its lifetime shrinks by `delta`. When no lifetime
    /// is left the rocket calls for its detonation in place or, in the
    /// legacy mode, leaves silently.
    pub fn physics_process(&mut self, delta: i64, forward: Vec3) -> (r: RocketTick)
        ensures
            (*final(self), r) == tick_spec(*old(self), simulated_here(*old(self)), delta, forward),
    {
        let is_authority = self.is_authority();
        match self.state {
            ProjectileState::Armed { lifetime } => {
                if !is_authority {
                    return RocketTick { load: None, action: RocketAction::Nothing };
                }
                let load = Some(compute_load(&self.params, self.linear_velocity, forward));
                let left: i64 = fx_sub(lifetime, delta);
                if left > 0 {
                    self.state = ProjectileState::Armed { lifetime: left };
                    RocketTick { load, action: RocketAction::Nothing }
                } else if self.detonate_on_timeout {
                    self.state = ProjectileState::Exploding;
                    RocketTick { load, action: RocketAction::BroadcastExplode(self.position) }
                } else {
                    self.state = ProjectileState::Freed;
                    RocketTick { load, action: RocketAction::Despawned }
                }
            },
            _ => RocketTick { load: None, action: RocketAction::Nothing },
        }
    }

    /// A body touched the rocket, a rigid body or a wall alike. The
    /// authority of an armed rocket calls for the detonation, which then
    /// reaches every copy as the `explode` operation. An observer's copy, and
    /// a rocket that is no longer armed, ignore the contact.
    pub fn on_body_entered(&mut self) -> (r: ContactOutcome)
        ensures
            (*final(self), r) == contact_spec(*old(self), simulated_here(*old(self))),
    {
        let is_authority = self.is_authority();
        match self.state {
            ProjectileState::Armed { lifetime } => {
                if is_authority {
                    self.state = ProjectileState::Exploding;
                    ContactOutcome::Broadcast(self.position)
                } else {
                    ContactOutcome::Ignored
                }
            },
            _ => ContactOutcome::Ignored,
        }
    }

    /// Carries out the detonation: unless the rocket is already gone, an
    /// explosion appears at `position` and the rocket is removed.
    pub fn explode(&mut self, position: Vec3) -> (r: Option<Explosion>)
        ensures
            (*final(self), r) == explode_spec(*old(self), position),
    {
        if self.state == ProjectileState::Freed {
            None
        } else {
            self.state = ProjectileState::Freed;
            Some(Explosion::spawn(position))
        }
    }
}

/// Something that happens to a rocket.
pub enum RocketEvent {
    /// A tick of the given length, with the rocket's forward axis.
    Tick(i64, Vec3),
    /// A contact with a body.
    Contact,
    /// A delivery of the `explode` operation with the given position.
    Explode(Vec3),
}

/// The rocket after one event.
pub open spec fn after_event(r: Rocket, is_authority: bool, e: RocketEvent) -> Rocket {
    match e {
        RocketEvent::Tick(delta, forward) => tick_spec(r, is_authority, delta, forward).0,
        RocketEvent::Contact => contact_spec(r, is_authority).0,
        RocketEvent::Explode(position) => explode_spec(r, position).0,
    }
}

/// The number of explosions that one event creates: 0 or 1.
pub open spec fn created_by(r: Rocket, is_authority: bool, e: RocketEvent) -> nat {
    match e {
        RocketEvent::Tick(_, _) => 0,
        RocketEvent::Contact => 0,
        RocketEvent::Explode(position) => if explode_spec(r, position).1.is_some() {
            1
        } else {
            0
        },
    }
}

/// The number of explosions that a sequence of events creates, delivered in
/// order to a rocket that starts as `r`.
pub open spec fn created_by_all(r: Rocket, is_authority: bool, events: Seq<RocketEvent>) -> nat
    decreases events.len(),
{
    if events.len() == 0 {
        0
    } else {
        created_by(r, is_authority, events[0]) + created_by_all(
            after_event(r, is_authority, events[0]),
            is_authority,
            events.subrange(1, events.len() as int),
        )
    }
}

/// A rocket detonates at most once: whatever ticks, contacts and `explode`
/// deliveries reach it, in whatever state it starts, and however often they
/// repeat, at most one explosion is created, and none by a rocket that is
/// already gone.
pub proof fn lemma_explodes_at_most_once(r: Rocket, is_authority: bool, events: Seq<RocketEvent>)
    ensures
        created_by_all(r, is_authority, events) <= 1,
        r.state == ProjectileState::Freed ==> created_by_all(r, is_authority, events) == 0,
    decreases events.len(),
{
    if events.len() > 0 {
        let next = after_event(r, is_authority, events[0]);
        lemma_explodes_at_most_once(next, is_authority, events.subrange(1, events.len() as int));
    }
}

/// A rocket that detonates does so exactly once: where the rocket is not
/// gone yet and does not leave silently on a timeout, and an `explode`
/// delivery is among the events, exactly one explosion is created, whatever
/// else is delivered and however often.
pub proof fn lemma_explodes_exactly_once(
    r: Rocket,
    is_authority: bool,
    events: Seq<RocketEvent>,
    at: int,
)
    requires
        r.state != ProjectileState::Freed,
        r.detonate_on_timeout,
        0 <= at < events.len(),
        events[at] is Explode,
    ensures
        created_by_all(r, is_authority, events) == 1,
    decreases events.len(),
{
    let next = after_event(r, is_authority, events[0]);
    let rest = events.subrange(1, events.len() as int);
    if events[0] is Explode {
        lemma_explodes_at_most_once(next, is_authority, rest);
    } else {
        assert(rest[at - 1] == events[at]);
        lemma_explodes_exactly_once(next, is_authority, rest, at - 1);
    }
}

} // verus!
