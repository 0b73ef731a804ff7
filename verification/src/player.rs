//! The player: a kinematic body and a ragdoll body of which exactly one is
//! live, the timer that ends a ragdoll, and the bazooka's readiness.

use vstd::prelude::*;
use crate::explosion::{overlap_outcome, EntityKind, Explosion};
use crate::movement::{fresh_kinematic, PlayerKinematicBody};
use crate::rocket::Rocket;
use crate::timer::{expires, started, ticked, Countdown};
use crate::vector::{v_add, v_scale, v_zero, Vec3};

verus! {

/// A player whose height falls below this has left the playable volume.
pub const OUT_OF_BOUNDS_Y: i64 = -10_000_000;

/// The collision layer of a ragdoll body before its authority is known.
pub const DEFAULT_COLLISION_LAYER: u32 = 1;

/// The bit of the collision layer that marks the locally simulated ragdoll.
pub const AUTHORITY_LAYER: u32 = 0x80;

/// The collision layers kept on a ragdoll that is simulated elsewhere.
pub const OBSERVER_LAYERS: u32 = 0x7f;

/// The state that the authority sends of its ragdoll body after each tick.
#[derive(Clone, Copy, Debug, PartialEq, Eq, Structural)]
pub struct DynamicSnapshot {
    pub position: Vec3,
    pub rotation: Vec3,
    pub velocity: Vec3,
    pub ang_velocity: Vec3,
}

/// The free rigid body that stands for the player while in ragdoll mode. Its
/// motion is the rigid-body solver's work; this type holds its state.
#[derive(Clone, Copy, Debug, PartialEq, Eq, Structural)]
pub struct PlayerDynamicBody {
    pub position: Vec3,
    pub rotation: Vec3,
    pub linear_velocity: Vec3,
    pub angular_velocity: Vec3,
    pub visible: bool,
    /// Whether the body takes part in the simulation tick.
    pub processing: bool,
    pub collision_layer: u32,
}

/// The snapshot that the authority sends of the body.
pub open spec fn dynamic_snapshot_of(b: PlayerDynamicBody) -> DynamicSnapshot {
    DynamicSnapshot {
        position: b.position,
        rotation: b.rotation,
        velocity: b.linear_velocity,
        ang_velocity: b.angular_velocity,
    }
}

impl PlayerDynamicBody {
    /// A hidden, frozen body at rest at `position`.
    pub fn new(position: Vec3, rotation: Vec3, collision_layer: u32) -> (r: PlayerDynamicBody)
        ensures
            r == (PlayerDynamicBody {
                position,
                rotation,
                linear_velocity: v_zero(),
                angular_velocity: v_zero(),
                visible: false,
                processing: false,
                collision_layer,
            }),
    {
        PlayerDynamicBody {
            position,
            rotation,
            linear_velocity: Vec3::zero(),
            angular_velocity: Vec3::zero(),
            visible: false,
            processing: false,
            collision_layer,
        }
    }

    /// Sets the authority's layer bit on the authority and keeps only the
    /// lower layers everywhere else.
    pub fn ready(&mut self, is_authority: bool)
        ensures
            *final(self) == (PlayerDynamicBody {
                collision_layer: if is_authority {
                    old(self).collision_layer | AUTHORITY_LAYER
                } else {
                    old(self).collision_layer & OBSERVER_LAYERS
                },
                ..*old(self)
            }),
    {
        if is_authority {
            self.collision_layer = self.collision_layer | AUTHORITY_LAYER;
        } else {
            self.collision_layer = self.collision_layer & OBSERVER_LAYERS;
        }
    }

    /// One tick: the authority of a simulated body hands out the snapshot to
    /// send to the observers; nobody else sends anything. The body itself is
    /// not changed.
    pub fn physics_process(&self, is_authority: bool) -> (r: Option<DynamicSnapshot>)
        ensures
            r == if is_authority && self.processing {
                Some(dynamic_snapshot_of(*self))
            } else {
                None
            },
    {
        if is_authority && self.processing {
            Some(
                DynamicSnapshot {
                    position: self.position,
                    rotation: self.rotation,
                    velocity: self.linear_velocity,
                    ang_velocity: self.angular_velocity,
                },
            )
        } else {
            None
        }
    }

    /// Writes a received snapshot over the body. The authority, which sent
    /// it, never applies it.
    pub fn update_states(&mut self, is_authority: bool, snapshot: DynamicSnapshot)
        ensures
            is_authority ==> *final(self) == *old(self),
            !is_authority ==> *final(self) == (PlayerDynamicBody {
                position: snapshot.position,
                rotation: snapshot.rotation,
                linear_velocity: snapshot.velocity,
                angular_velocity: snapshot.ang_velocity,
                ..*old(self)
            }),
    {
        if is_authority {
            return ;
        }
        self.position = snapshot.position;
        self.rotation = snapshot.rotation;
        self.linear_velocity = snapshot.velocity;
        self.angular_velocity = snapshot.ang_velocity;
    }
}

/// What a key or button event asks of the player.
#[derive(Clone, Copy, Debug, PartialEq, Eq, Structural)]
pub struct InputEvent {
    pub ragdoll_pressed: bool,
    pub shoot_pressed: bool,
}

/// The arguments of the reliable `shoot_rocket` operation.
#[derive(Clone, Copy, Debug, PartialEq, Eq, Structural)]
pub struct ShootRequest {
    pub position: Vec3,
    pub rotation: Vec3,
    pub base_velocity: Vec3,
}

/// An area that entered the player's own.
#[derive(Clone, Copy, Debug, PartialEq, Eq, Structural)]
pub enum Area {
    Explosion(Explosion),
    Other(EntityKind),
}

/// What the player asks of the replication layer and of the spawner after a
/// tick.
#[derive(Clone, Copy, Debug, PartialEq, Eq, Structural)]
pub struct PlayerTick {
    /// The ragdoll flag to send over the unreliable-ordered channel; only
    /// the authority sends one.
    pub sync_ragdoll: Option<bool>,
    /// Whether the authority found the player outside the playable volume.
    pub out_of_bounds: bool,
}

/// A player: its two bodies, its mode, its timers and its bazooka.
#[derive(Clone, Copy, Debug, PartialEq, Eq, Structural)]
pub struct Player {
    pub kinematic: PlayerKinematicBody,
    pub dynamic: PlayerDynamicBody,
    pub position: Vec3,
    pub ragdoll: bool,
    pub ragdoll_timer: Countdown,
    pub bazooka_loaded: bool,
    pub reload_timer: Countdown,
    pub rocket_init_vel: i64,
    pub init_pos: Vec3,
    pub init_rot: Vec3,
    /// The participant that simulates this player.
    pub peer_id: i64,
    /// The participant on whose machine this copy lives.
    pub local_id: i64,
}

/// Whether the kinematic body is the live one: shown and simulated.
pub open spec fn kinematic_live(p: Player) -> bool {
    p.kinematic.visible && p.kinematic.processing
}

/// Whether the ragdoll body is the live one: shown and simulated.
pub open spec fn ragdoll_live(p: Player) -> bool {
    p.dynamic.visible && p.dynamic.processing
}

/// The player's invariant: the body that the mode names is shown and
/// simulated, the other is hidden and frozen, and a ragdoll has its timer
/// running.
pub open spec fn well_formed(p: Player) -> bool {
    &&& p.kinematic.visible == !p.ragdoll
    &&& p.kinematic.processing == !p.ragdoll
    &&& p.dynamic.visible == p.ragdoll
    &&& p.dynamic.processing == p.ragdoll
    &&& p.ragdoll ==> p.ragdoll_timer.running
}

/// Whether the copy is held by the player's authority.
pub open spec fn authority(p: Player) -> bool {
    p.local_id == p.peer_id
}

/// A newly created player: in kinematic mode at `position`, at rest, with a
/// loaded bazooka and both timers stopped.
pub open spec fn fresh_player(
    local_id: i64,
    peer_id: i64,
    position: Vec3,
    rotation: Vec3,
    gravity: Vec3,
    ragdoll_time: i64,
    reload_time: i64,
) -> Player {
    Player {
        kinematic: fresh_kinematic(position, rotation, gravity),
        dynamic: PlayerDynamicBody {
            position,
            rotation,
            linear_velocity: v_zero(),
            angular_velocity: v_zero(),
            visible: false,
            processing: false,
            collision_layer: if local_id == peer_id {
                DEFAULT_COLLISION_LAYER | AUTHORITY_LAYER
            } else {
                DEFAULT_COLLISION_LAYER & OBSERVER_LAYERS
            },
        },
        position,
        ragdoll: false,
        ragdoll_timer: Countdown { wait: ragdoll_time, remaining: 0, running: false },
        bazooka_loaded: true,
        reload_timer: Countdown { wait: reload_time, remaining: 0, running: false },
        rocket_init_vel: 15_000_000,
        init_pos: position,
        init_rot: rotation,
        peer_id,
        local_id,
    }
}

/// The player in ragdoll mode, with the timer started afresh.
pub open spec fn ragdoll_begun(p: Player) -> Player {
    Player {
        ragdoll: true,
        ragdoll_timer: started(p.ragdoll_timer),
        kinematic: PlayerKinematicBody { visible: false, processing: false, ..p.kinematic },
        dynamic: PlayerDynamicBody { visible: true, processing: true, ..p.dynamic },
        ..p
    }
}

/// The player in kinematic mode. A ragdoll's last place and velocity pass
/// to the kinematic body; a player that was no ragdoll keeps its own.
pub open spec fn ragdoll_ended(p: Player) -> Player {
    Player {
        ragdoll: false,
        kinematic: PlayerKinematicBody {
            position: if p.ragdoll {
                p.dynamic.position
            } else {
                p.kinematic.position
            },
            velocity: if p.ragdoll {
                p.dynamic.linear_velocity
            } else {
                p.kinematic.velocity
            },
            visible: true,
            processing: true,
            ..p.kinematic
        },
        dynamic: PlayerDynamicBody { visible: false, processing: false, ..p.dynamic },
        ..p
    }
}

/// The player after a received ragdoll flag: a one-way move to the mode that
/// the flag names where it differs from the player's own, and no change where
/// it does not.
pub open spec fn ragdoll_synced(p: Player, flag: bool) -> Player {
    if p.ragdoll && !flag {
        ragdoll_ended(p)
    } else if !p.ragdoll && flag {
        ragdoll_begun(p)
    } else {
        p
    }
}

/// The player with the live body's place and velocity copied into the other
/// body, and its own place taken from the ragdoll body.
pub open spec fn mirrored(p: Player) -> Player {
    if p.ragdoll {
        Player {
            kinematic: PlayerKinematicBody {
                position: p.dynamic.position,
                velocity: p.dynamic.linear_velocity,
                ..p.kinematic
            },
            position: p.dynamic.position,
            ..p
        }
    } else {
        Player {
            dynamic: PlayerDynamicBody {
                position: p.kinematic.position,
                linear_velocity: p.kinematic.velocity,
                ..p.dynamic
            },
            position: p.kinematic.position,
            ..p
        }
    }
}

/// The player after its two timers have advanced by `delta`: a ragdoll timer
/// that runs out returns the player to kinematic mode, a reload timer that
/// runs out loads the bazooka.
pub open spec fn timers_advanced(p: Player, delta: i64) -> Player {
    let q = Player {
        ragdoll_timer: ticked(p.ragdoll_timer, delta),
        reload_timer: ticked(p.reload_timer, delta),
        bazooka_loaded: p.bazooka_loaded || expires(p.reload_timer, delta),
        ..p
    };
    if expires(p.ragdoll_timer, delta) {
        ragdoll_ended(q)
    } else {
        q
    }
}

/// The player after one tick.
pub open spec fn ticked_player(p: Player, delta: i64) -> Player {
    timers_advanced(mirrored(p), delta)
}

/// What the player reports after one tick, given its state after that tick.
pub open spec fn tick_report(p: Player) -> PlayerTick {
    if authority(p) {
        PlayerTick { sync_ragdoll: Some(p.ragdoll), out_of_bounds: p.position.y < OUT_OF_BOUNDS_Y }
    } else {
        PlayerTick { sync_ragdoll: None, out_of_bounds: false }
    }
}

/// The player after an area entered it.
pub open spec fn area_entered(p: Player, area: Area) -> Player {
    match area {
        Area::Explosion(e) => match overlap_outcome(e, EntityKind::Player, p.dynamic.position) {
            Some(velocity) => Player {
                dynamic: PlayerDynamicBody {
                    linear_velocity: velocity,
                    ..ragdoll_begun(p).dynamic
                },
                ..ragdoll_begun(p)
            },
            None => p,
        },
        Area::Other(_) => p,
    }
}

/// The player reset to the spawn point `pos`.
pub open spec fn respawned(p: Player, pos: Vec3) -> Player {
    ragdoll_ended(
        Player {
            position: pos,
            dynamic: PlayerDynamicBody {
                position: pos,
                rotation: p.init_rot,
                linear_velocity: v_zero(),
                angular_velocity: v_zero(),
                ..p.dynamic
            },
            kinematic: PlayerKinematicBody {
                position: pos,
                rotation: p.init_rot,
                velocity: v_zero(),
                ..p.kinematic
            },
            ..p
        },
    )
}

/// The rocket that a shot creates: owned by the player's authority, leaving
/// along `forward` at the launch speed on top of the shooter's velocity.
pub open spec fn rocket_fired(p: Player, request: ShootRequest, forward: Vec3) -> Rocket {
    Rocket {
        state: crate::rocket::ProjectileState::Armed { lifetime: crate::rocket::DEFAULT_LIFETIME },
        authority: p.peer_id,
        local_id: p.local_id,
        position: request.position,
        rotation: request.rotation,
        linear_velocity: v_add(v_scale(forward, p.rocket_init_vel), request.base_velocity),
        params: crate::rocket::default_params(),
        detonate_on_timeout: true,
    }
}

/// The player after a shot was fired.
pub open spec fn unloaded(p: Player) -> Player {
    Player { bazooka_loaded: false, reload_timer: started(p.reload_timer), ..p }
}

/// The player after a key or button event.
pub open spec fn input_handled(p: Player, captured: bool, event: InputEvent) -> Player {
    if authority(p) && captured && event.ragdoll_pressed {
        ragdoll_begun(p)
    } else {
        p
    }
}

/// Whether a key or button event makes the player ask for a shot.
pub open spec fn shot_requested(p: Player, captured: bool, event: InputEvent) -> bool {
    authority(p) && captured && !input_handled(p, captured, event).ragdoll && event.shoot_pressed
}

impl Player {
    /// A player in kinematic mode at `position`, with a loaded bazooka.
    /// `peer_id` names its authority and `local_id` the participant that
    /// holds this copy. The two waiting times are those of the ragdoll timer
    /// and of the reload.
    pub fn new(
        local_id: i64,
        peer_id: i64,
        position: Vec3,
        rotation: Vec3,
        gravity: Vec3,
        ragdoll_time: i64,
        reload_time: i64,
    ) -> (r: Player)
        ensures
            r == fresh_player(
                local_id,
                peer_id,
                position,
                rotation,
                gravity,
                ragdoll_time,
                reload_time,
            ),
            well_formed(r),
    {
        let mut dynamic = PlayerDynamicBody::new(position, rotation, DEFAULT_COLLISION_LAYER);
        dynamic.ready(local_id == peer_id);
        Player {
            kinematic: PlayerKinematicBody::new(position, rotation, gravity),
            dynamic,
            position,
            ragdoll: false,
            ragdoll_timer: Countdown::new(ragdoll_time),
            bazooka_loaded: true,
            reload_timer: Countdown::new(reload_time),
            rocket_init_vel: 15_000_000,
            init_pos: position,
            init_rot: rotation,
            peer_id,
            local_id,
        }
    }

    /// Names the participant that simulates this player.
    pub fn set_peer_id(&mut self, peer_id: i64)
        ensures
            *final(self) == (Player { peer_id, ..*old(self) }),
    {
        self.peer_id = peer_id;
    }

    /// The participant that simulates this player.
    pub fn get_peer_id(&self) -> (r: i64)
        ensures
            r == self.peer_id,
    {
        self.peer_id
    }

    /// Whether this copy is held by the player's authority.
    pub fn is_authority(&self) -> (r: bool)
        ensures
            r == authority(*self),
    {
        self.local_id == self.peer_id
    }

    /// Whether the player has left the playable volume.
    pub fn out_of_bounds(&self) -> (r: bool)
        ensures
            r == (self.position.y < OUT_OF_BOUNDS_Y),
    {
        self.position.y < OUT_OF_BOUNDS_Y
    }

    /// Enters ragdoll mode and starts the timer afresh. On a player that is
    /// already a ragdoll this restarts the timer and changes nothing else.
    pub fn begin_ragdoll(&mut self)
        ensures
            *final(self) == ragdoll_begun(*old(self)),
            well_formed(*final(self)),
    {
        self.ragdoll_timer.start();
        self.ragdoll = true;
        self.kinematic.visible = false;
        self.kinematic.processing = false;
        self.dynamic.visible = true;
        self.dynamic.processing = true;
    }

    /// Returns to kinematic mode. A ragdoll hands its last place and velocity
    /// to the kinematic body, which resumes from there; a well-formed player
    /// already in kinematic mode is left as it is.
    pub fn end_ragdoll(&mut self)
        ensures
            *final(self) == ragdoll_ended(*old(self)),
            well_formed(*final(self)),
            old(self).ragdoll ==> final(self).kinematic.position == old(self).dynamic.position
                && final(self).kinematic.velocity == old(self).dynamic.linear_velocity,
    {
        if self.ragdoll {
            self.kinematic.position = self.dynamic.position;
            self.kinematic.velocity = self.dynamic.linear_velocity;
        }
        self.ragdoll = false;
        self.kinematic.visible = true;
        self.kinematic.processing = true;
        self.dynamic.visible = false;
        self.dynamic.processing = false;
    }

    /// Applies a ragdoll flag received from the authority. The authority
    /// itself never applies it.
    pub fn sync_ragdoll(&mut self, ragdoll: bool)
        ensures
            *final(self) == sync_applied(*old(self), ragdoll),
            authority(*old(self)) ==> *final(self) == *old(self),
            well_formed(*old(self)) ==> well_formed(*final(self)),
            !authority(*old(self)) ==> final(self).ragdoll == ragdoll,
    {
        if self.is_authority() {
            return ;
        }
        if self.ragdoll && !ragdoll {
            self.end_ragdoll();
        } else if !self.ragdoll && ragdoll {
            self.begin_ragdoll();
        }
    }

    /// One tick: the live body's place and velocity are copied into the
    /// other body, the player's place is taken from the ragdoll body, and
    /// the timers advance. The authority reports its ragdoll flag for the
    /// observers, and whether it has left the playable volume.
    pub fn physics_process(&mut self, delta: i64) -> (r: PlayerTick)
        ensures
            *final(self) == ticked_player(*old(self), delta),
            r == tick_report(*final(self)),
            well_formed(*old(self)) ==> well_formed(*final(self)),
    {
        if self.ragdoll {
            self.kinematic.position = self.dynamic.position;
            self.kinematic.velocity = self.dynamic.linear_velocity;
        } else {
            self.dynamic.position = self.kinematic.position;
            self.dynamic.linear_velocity = self.kinematic.velocity;
        }
        self.position = self.dynamic.position;
        let ragdoll_over = self.ragdoll_timer.tick(delta);
        let reloaded = self.reload_timer.tick(delta);
        if reloaded {
            self.bazooka_loaded = true;
        }
        if ragdoll_over {
            self.end_ragdoll();
        }
        if self.is_authority() {
            PlayerTick { sync_ragdoll: Some(self.ragdoll), out_of_bounds: self.out_of_bounds() }
        } else {
            PlayerTick { sync_ragdoll: None, out_of_bounds: false }
        }
    }

    /// A key or button event. Only the authority reacts, and only while the
    /// input focus is captured: a ragdoll request begins the ragdoll; a shot
    /// request, unless the player is a ragdoll by then, yields the arguments
    /// of the reliable `shoot_rocket` operation, taken from the aim given and
    /// the kinematic body's velocity.
    pub fn input(
        &mut self,
        captured: bool,
        event: InputEvent,
        aim_position: Vec3,
        aim_rotation: Vec3,
    ) -> (r: Option<ShootRequest>)
        ensures
            *final(self) == input_handled(*old(self), captured, event),
            r == if shot_requested(*old(self), captured, event) {
                Some(
                    ShootRequest {
                        position: aim_position,
                        rotation: aim_rotation,
                        base_velocity: old(self).kinematic.velocity,
                    },
                )
            } else {
                None
            },
            well_formed(*old(self)) ==> well_formed(*final(self)),
    {
        if !(self.is_authority() && captured) {
            return None;
        }
        if event.ragdoll_pressed {
            self.begin_ragdoll();
        }
        if !self.ragdoll && event.shoot_pressed {
            Some(
                ShootRequest {
                    position: aim_position,
                    rotation: aim_rotation,
                    base_velocity: self.kinematic.velocity,
                },
            )
        } else {
            None
        }
    }

    /// An area entered the player's own. An explosion inside its lethal
    /// window begins the ragdoll and throws the ragdoll body away from the
    /// blast; on every such overlap again. Anything else changes nothing.
    pub fn on_area_entered(&mut self, area: Area)
        ensures
            *final(self) == area_entered(*old(self), area),
            well_formed(*old(self)) ==> well_formed(*final(self)),
    {
        match area {
            Area::Explosion(explosion) => {
                match explosion.on_overlap(EntityKind::Player, self.dynamic.position) {
                    Some(velocity) => {
                        self.begin_ragdoll();
                        self.dynamic.linear_velocity = velocity;
                    },
                    None => {},
                }
            },
            Area::Other(_) => {},
        }
    }

    /// Resets the player to the spawn point `pos`: both bodies stand there
    /// at rest with the initial orientation, in kinematic mode.
    pub fn respawn(&mut self, pos: Vec3)
        ensures
            *final(self) == respawned(*old(self), pos),
            well_formed(*final(self)),
    {
        self.position = pos;
        self.dynamic.position = pos;
        self.kinematic.position = pos;
        self.dynamic.rotation = self.init_rot;
        self.kinematic.rotation = self.init_rot;
        self.dynamic.linear_velocity = Vec3::zero();
        self.kinematic.velocity = Vec3::zero();
        self.dynamic.angular_velocity = Vec3::zero();
        self.end_ragdoll();
    }

    /// Fires the bazooka if it is loaded: the rocket leaves along `forward`,
    /// the forward axis of the orientation asked for, the bazooka is
    /// unloaded and the reload begins. An unloaded bazooka does nothing.
    pub fn shoot_rocket(&mut self, request: ShootRequest, forward: Vec3) -> (r: Option<Rocket>)
        ensures
            old(self).bazooka_loaded ==> r == Some(rocket_fired(*old(self), request, forward))
                && *final(self) == unloaded(*old(self)),
            !old(self).bazooka_loaded ==> r.is_none() && *final(self) == *old(self),
            well_formed(*old(self)) ==> well_formed(*final(self)),
    {
        if !self.bazooka_loaded {
            return None;
        }
        let velocity = forward.scaled(self.rocket_init_vel).plus(request.base_velocity);
        let rocket = Rocket::new(
            self.local_id,
            self.peer_id,
            request.position,
            request.rotation,
            velocity,
        );
        self.bazooka_loaded = false;
        self.reload_timer.start();
        Some(rocket)
    }

    /// Makes this player's camera the active one, or not.
    pub fn set_camera_current(&mut self, enabled: bool)
        ensures
            *final(self) == (Player {
                kinematic: PlayerKinematicBody { camera_current: enabled, ..old(self).kinematic },
                ..*old(self)
            }),
    {
        self.kinematic.set_camera_current(enabled);
    }
}

/// Exactly one body is live: in every well-formed state either the kinematic
/// body or the ragdoll body is shown and simulated, never both and never
/// neither, and it is the one that the mode names.
pub proof fn lemma_exactly_one_live(p: Player)
    requires
        well_formed(p),
    ensures
        kinematic_live(p) != ragdoll_live(p),
        ragdoll_live(p) == p.ragdoll,
{
}

/// Beginning a ragdoll is idempotent: on a player that is already a ragdoll
/// it restarts the timer and changes nothing else, and doing it twice is the
/// same as doing it once.
pub proof fn lemma_begin_ragdoll_idempotent(p: Player)
    ensures
        ragdoll_begun(ragdoll_begun(p)) == ragdoll_begun(p),
        well_formed(p) && p.ragdoll ==> ragdoll_begun(p) == (Player {
            ragdoll_timer: started(p.ragdoll_timer),
            ..p
        }),
        ragdoll_ended(ragdoll_ended(p)) == ragdoll_ended(p),
        well_formed(p) && !p.ragdoll ==> ragdoll_ended(p) == p,
{
}

/// Something that happens to a player.
pub enum PlayerEvent {
    /// A tick of the given length.
    Tick(i64),
    /// An area entered the player's own.
    AreaEntered(Area),
    /// A ragdoll flag arrived from the authority.
    SyncRagdoll(bool),
    /// A key or button event, with whether the input focus is captured.
    Input(bool, InputEvent),
    /// The `respawn` operation, with the spawn point.
    Respawn(Vec3),
    /// The `shoot_rocket` operation.
    Shoot,
}

/// The player after a received ragdoll flag, which its authority ignores.
pub open spec fn sync_applied(p: Player, flag: bool) -> Player {
    if authority(p) {
        p
    } else {
        ragdoll_synced(p, flag)
    }
}

/// The player after one event.
pub open spec fn after_event(p: Player, e: PlayerEvent) -> Player {
    match e {
        PlayerEvent::Tick(delta) => ticked_player(p, delta),
        PlayerEvent::AreaEntered(area) => area_entered(p, area),
        PlayerEvent::SyncRagdoll(flag) => sync_applied(p, flag),
        PlayerEvent::Input(captured, event) => input_handled(p, captured, event),
        PlayerEvent::Respawn(pos) => respawned(p, pos),
        PlayerEvent::Shoot => if p.bazooka_loaded {
            unloaded(p)
        } else {
            p
        },
    }
}

/// The player after a sequence of events, in order.
pub open spec fn after_events(p: Player, events: Seq<PlayerEvent>) -> Player
    decreases events.len(),
{
    if events.len() == 0 {
        p
    } else {
        after_event(after_events(p, events.drop_last()), events.last())
    }
}

/// At all times exactly one body is live: whatever happens to a well-formed
/// player, and in whatever order, it stays well formed, so that one of its
/// two bodies is shown and simulated and the other is not.
pub proof fn lemma_always_one_live(p: Player, events: Seq<PlayerEvent>)
    requires
        well_formed(p),
    ensures
        well_formed(after_events(p, events)),
        kinematic_live(after_events(p, events)) != ragdoll_live(after_events(p, events)),
    decreases events.len(),
{
    if events.len() > 0 {
        lemma_always_one_live(p, events.drop_last());
    }
}

/// The timer's expiry returns the player to kinematic mode, however many
/// triggers came before: whatever happened to the player, the tick in which
/// its ragdoll timer runs out leaves it in kinematic mode, with the kinematic
/// body live and the ragdoll body not.
pub proof fn lemma_expiry_ends_ragdoll(p: Player, events: Seq<PlayerEvent>, delta: i64)
    requires
        expires(after_events(p, events).ragdoll_timer, delta),
    ensures
        !ticked_player(after_events(p, events), delta).ragdoll,
        kinematic_live(ticked_player(after_events(p, events), delta)),
        !ragdoll_live(ticked_player(after_events(p, events), delta)),
{
}

/// A tick changes the mode only through the timer: unless the ragdoll timer
/// runs out in it, a tick leaves the ragdoll flag as it was, and the flag
/// that the authority reports is the player's own.
pub proof fn lemma_tick_keeps_mode(p: Player, delta: i64)
    requires
        !expires(p.ragdoll_timer, delta),
    ensures
        ticked_player(p, delta).ragdoll == p.ragdoll,
        authority(p) ==> tick_report(ticked_player(p, delta)).sync_ragdoll == Some(p.ragdoll),
        !authority(p) ==> tick_report(ticked_player(p, delta)) == (PlayerTick {
            sync_ragdoll: None,
            out_of_bounds: false,
        }),
{
}

/// The return to kinematic mode carries the pose: however a ragdoll ends,
/// by the timer in a tick, by a flag from the authority, or by a respawn,
/// the kinematic body that becomes live stands where the ragdoll body stands
/// and moves as it moves.
pub proof fn lemma_recovery_carries_pose(p: Player, delta: i64, pos: Vec3)
    requires
        p.ragdoll,
    ensures
        ragdoll_ended(p).kinematic.position == p.dynamic.position,
        ragdoll_ended(p).kinematic.velocity == p.dynamic.linear_velocity,
        !authority(p) ==> sync_applied(p, false).kinematic.position == p.dynamic.position
            && sync_applied(p, false).kinematic.velocity == p.dynamic.linear_velocity,
        expires(p.ragdoll_timer, delta) ==> ticked_player(p, delta).kinematic.position
            == p.dynamic.position && ticked_player(p, delta).kinematic.velocity
            == p.dynamic.linear_velocity,
        respawned(p, pos).kinematic.position == respawned(p, pos).dynamic.position,
        respawned(p, pos).kinematic.velocity == respawned(p, pos).dynamic.linear_velocity,
{
}

/// A ragdoll always has its timer running, and a running timer runs out:
/// after a tick as long as the time that remains, the player is in
/// kinematic mode.
pub proof fn lemma_ragdoll_is_timed(p: Player)
    requires
        well_formed(p),
        p.ragdoll,
    ensures
        p.ragdoll_timer.running,
        expires(p.ragdoll_timer, p.ragdoll_timer.remaining),
        !ticked_player(p, p.ragdoll_timer.remaining).ragdoll,
{
}

} // verus!
