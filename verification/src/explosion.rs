//! Explosions: a lethal window that opens at spawn, and a one-shot effect
//! whose completion removes the entity.

use vstd::prelude::*;
use crate::fixed::{fx_add, fx_add_spec};
use crate::timer::{expires, started, ticked, Countdown};
use crate::vector::{v_scale, v_sub, v_unit, Vec3};

verus! {

/// An explosion can knock a player over only while it is younger than this.
pub const LETHAL_WINDOW: i64 = 200_000;

/// The speed given to a player caught in the lethal window.
pub const KNOCKBACK_SPEED: i64 = 20_000_000;

/// What kind of entity took part in an overlap.
#[derive(Clone, Copy, Debug, PartialEq, Eq, Structural)]
pub enum EntityKind {
    Player,
    RigidBody,
    Explosion,
    Other,
}

/// A timed, area-triggered blast.
#[derive(Clone, Copy, Debug, PartialEq, Eq, Structural)]
pub struct Explosion {
    pub position: Vec3,
    /// Time since spawn.
    pub physics_time: i64,
    /// Whether the one-shot particle effect is still playing.
    pub emitting: bool,
    /// Whether the entity has been removed from the simulation.
    pub freed: bool,
}

/// A fresh explosion at `position`.
pub open spec fn spawned_at(position: Vec3) -> Explosion {
    Explosion { position, physics_time: 0, emitting: true, freed: false }
}

/// Whether an overlap with the explosion still triggers a knockback.
pub open spec fn lethal(e: Explosion) -> bool {
    e.physics_time < LETHAL_WINDOW
}

/// The velocity given to a body at `target` by a blast at `origin`: the fixed
/// knockback speed along the direction from the blast to the body.
pub open spec fn knockback(origin: Vec3, target: Vec3) -> Vec3 {
    v_scale(v_unit(v_sub(target, origin)), KNOCKBACK_SPEED)
}

/// What an overlap with an entity of kind `other` at `other_position` raises.
pub open spec fn overlap_outcome(e: Explosion, other: EntityKind, other_position: Vec3) -> Option<
    Vec3,
> {
    if other == EntityKind::Player && lethal(e) {
        Some(knockback(e.position, other_position))
    } else {
        None
    }
}

/// Computes the knockback velocity for a body at `target` hit from `origin`.
pub fn knockback_velocity(origin: Vec3, target: Vec3) -> (r: Vec3)
    ensures
        r == knockback(origin, target),
{
    target.minus(origin).normalized_or_zero().scaled(KNOCKBACK_SPEED)
}

impl Explosion {
    /// Creates the explosion at `position`, with its effect playing and its
    /// lethal window just opened.
    pub fn spawn(position: Vec3) -> (r: Explosion)
        ensures
            r == spawned_at(position),
    {
        Explosion { position, physics_time: 0, emitting: true, freed: false }
    }

    /// Adds the tick's duration to the elapsed time. Nothing else changes:
    /// the end of the lethal window does not remove the entity.
    pub fn physics_process(&mut self, delta: i64)
        ensures
            *final(self) == (Explosion {
                physics_time: fx_add_spec(old(self).physics_time, delta),
                ..*old(self)
            }),
    {
        self.physics_time = fx_add(self.physics_time, delta);
    }

    /// The time elapsed since spawn.
    pub fn get_time(&self) -> (r: i64)
        ensures
            r == self.physics_time,
    {
        self.physics_time
    }

    /// Whether the lethal window is still open.
    pub fn is_lethal(&self) -> (r: bool)
        ensures
            r == lethal(*self),
    {
        self.physics_time < LETHAL_WINDOW
    }

    /// Handles an overlap with another entity. A player inside the lethal
    /// window gets a knockback velocity; every such overlap gets one again.
    pub fn on_overlap(&self, other: EntityKind, other_position: Vec3) -> (r: Option<Vec3>)
        ensures
            r == overlap_outcome(*self, other, other_position),
    {
        if other == EntityKind::Player && self.is_lethal() {
            Some(knockback_velocity(self.position, other_position))
        } else {
            None
        }
    }

    /// The one-shot effect has finished: the entity is removed.
    pub fn on_effect_finished(&mut self)
        ensures
            *final(self) == (Explosion { emitting: false, freed: true, ..*old(self) }),
    {
        self.emitting = false;
        self.freed = true;
    }
}

/// An emitter that spawns an explosion at its own place each time its timer
/// runs out, and then starts the timer again.
#[derive(Clone, Copy, Debug, PartialEq, Eq, Structural)]
pub struct RepeatExploder {
    pub position: Vec3,
    pub timer: Countdown,
}

impl RepeatExploder {
    /// Creates the emitter with its timer started.
    pub fn new(position: Vec3, period: i64) -> (r: RepeatExploder)
        ensures
            r.position == position,
            r.timer == started(Countdown { wait: period, remaining: 0, running: false }),
    {
        let mut timer = Countdown::new(period);
        timer.start();
        RepeatExploder { position, timer }
    }

    /// Creates one explosion at the emitter's place.
    pub fn spawn_new_explosion(&self) -> (r: Explosion)
        ensures
            r == spawned_at(self.position),
    {
        Explosion::spawn(self.position)
    }

    /// Advances the timer; where it runs out, spawns an explosion and starts
    /// the timer again.
    pub fn physics_process(&mut self, delta: i64) -> (r: Option<Explosion>)
        ensures
            final(self).position == old(self).position,
            expires(old(self).timer, delta) ==> r == Some(spawned_at(old(self).position))
                && final(self).timer == started(old(self).timer),
            !expires(old(self).timer, delta) ==> r.is_none() && final(self).timer == ticked(
                old(self).timer,
                delta,
            ),
    {
        if self.timer.tick(delta) {
            self.timer.start();
            Some(self.spawn_new_explosion())
        } else {
            None
        }
    }
}

/// A proximity mine: it detonates once, when a player steps on it.
#[derive(Clone, Copy, Debug, PartialEq, Eq, Structural)]
pub struct Mine {
    pub position: Vec3,
    pub freed: bool,
}

impl Mine {
    /// A live mine at `position`.
    pub fn new(position: Vec3) -> (r: Mine)
        ensures
            r == (Mine { position, freed: false }),
    {
        Mine { position, freed: false }
    }

    /// Handles an area entering the mine. A player sets a live mine off: an
    /// explosion appears at the mine's place and the mine is removed. Anything
    /// else, or a mine already removed, changes nothing.
    pub fn on_stomped(&mut self, area: EntityKind) -> (r: Option<Explosion>)
        ensures
            final(self).position == old(self).position,
            area == EntityKind::Player && !old(self).freed ==> r == Some(
                spawned_at(old(self).position),
            ) && final(self).freed,
            !(area == EntityKind::Player && !old(self).freed) ==> r.is_none() && *final(self)
                == *old(self),
    {
        if area == EntityKind::Player && !self.freed {
            self.freed = true;
            Some(Explosion::spawn(self.position))
        } else {
            None
        }
    }
}

} // verus!
