//! Applying a received operation to the local copy of an entity.

use vstd::prelude::*;
use crate::explosion::Explosion;
use crate::movement::{overwritten, KinematicSnapshot, PlayerKinematicBody};
use crate::player::{
    ragdoll_begun, ragdoll_ended, ragdoll_synced, respawned, rocket_fired, unloaded,
    DynamicSnapshot, Player, PlayerDynamicBody, ShootRequest,
};
use crate::replication::{accepts, delivered, is_state_sync, Operation, Target};
use crate::rocket::{explode_spec, Rocket};
use crate::vector::Vec3;

verus! {

/// An operation on an entity together with its payload.
#[derive(Clone, Copy, Debug, PartialEq, Eq, Structural)]
pub enum Message {
    SyncState(KinematicSnapshot),
    UpdateStates(DynamicSnapshot),
    SyncRagdoll(bool),
    BeginRagdoll,
    EndRagdoll,
    Respawn(Vec3),
    /// The shot asked for, and the forward axis of its orientation.
    ShootRocket(ShootRequest, Vec3),
    Explode(Vec3),
}

/// A local copy of a simulated entity.
#[derive(Clone, Copy, Debug, PartialEq, Eq, Structural)]
pub enum Entity {
    Player(Player),
    Rocket(Rocket),
}

/// What a received message did.
#[derive(Clone, Copy, Debug, PartialEq, Eq, Structural)]
pub enum Outcome {
    /// The message was not for this copy: its sender may not send it, this
    /// machine is not among its recipients, or the entity is of another kind.
    Dropped,
    /// The payload was applied to the copy.
    Applied,
    /// The payload was applied and a rocket was created.
    Launched(Rocket),
    /// The payload was applied and an explosion was created.
    Detonated(Explosion),
}

/// The operation that a message invokes.
pub open spec fn operation_of(m: Message) -> Operation {
    match m {
        Message::SyncState(_) => Operation::SyncState,
        Message::UpdateStates(_) => Operation::UpdateStates,
        Message::SyncRagdoll(_) => Operation::SyncRagdoll,
        Message::BeginRagdoll => Operation::BeginRagdoll,
        Message::EndRagdoll => Operation::EndRagdoll,
        Message::Respawn(_) => Operation::Respawn,
        Message::ShootRocket(_, _) => Operation::ShootRocket,
        Message::Explode(_) => Operation::Explode,
    }
}

/// The participant that simulates the entity.
pub open spec fn authority_of(e: Entity) -> i64 {
    match e {
        Entity::Player(p) => p.peer_id,
        Entity::Rocket(r) => r.authority,
    }
}

/// The participant that holds this copy of the entity.
pub open spec fn holder_of(e: Entity) -> i64 {
    match e {
        Entity::Player(p) => p.local_id,
        Entity::Rocket(r) => r.local_id,
    }
}

/// Whether this copy runs a broadcast of `m` that `sender` made.
pub open spec fn reaches(e: Entity, sender: i64, m: Message) -> bool {
    delivered(operation_of(m), sender, authority_of(e), Target::Everyone, holder_of(e))
}

/// A player with a received payload applied, and what that did.
pub open spec fn player_applied(p: Player, m: Message) -> (Entity, Outcome) {
    match m {
        Message::SyncState(s) => (
            Entity::Player(Player { kinematic: overwritten(p.kinematic, s), ..p }),
            Outcome::Applied,
        ),
        Message::UpdateStates(s) => (
            Entity::Player(
                Player {
                    dynamic: PlayerDynamicBody {
                        position: s.position,
                        rotation: s.rotation,
                        linear_velocity: s.velocity,
                        angular_velocity: s.ang_velocity,
                        ..p.dynamic
                    },
                    ..p
                },
            ),
            Outcome::Applied,
        ),
        Message::SyncRagdoll(flag) => (Entity::Player(ragdoll_synced(p, flag)), Outcome::Applied),
        Message::BeginRagdoll => (Entity::Player(ragdoll_begun(p)), Outcome::Applied),
        Message::EndRagdoll => (Entity::Player(ragdoll_ended(p)), Outcome::Applied),
        Message::Respawn(pos) => (Entity::Player(respawned(p, pos)), Outcome::Applied),
        Message::ShootRocket(request, forward) => if p.bazooka_loaded {
            (Entity::Player(unloaded(p)), Outcome::Launched(rocket_fired(p, request, forward)))
        } else {
            (Entity::Player(p), Outcome::Applied)
        },
        Message::Explode(_) => (Entity::Player(p), Outcome::Dropped),
    }
}

/// A rocket with a received payload applied, and what that did.
pub open spec fn rocket_applied(r: Rocket, m: Message) -> (Entity, Outcome) {
    match m {
        Message::Explode(position) => match explode_spec(r, position).1 {
            Some(e) => (Entity::Rocket(explode_spec(r, position).0), Outcome::Detonated(e)),
            None => (Entity::Rocket(r), Outcome::Applied),
        },
        _ => (Entity::Rocket(r), Outcome::Dropped),
    }
}

/// The entity after a broadcast of `m` by `sender` arrived, and what the
/// message did. A message that does not reach this copy, or that is meant
/// for another kind of entity, is dropped and changes nothing.
pub open spec fn received(e: Entity, sender: i64, m: Message) -> (Entity, Outcome) {
    if !reaches(e, sender, m) {
        (e, Outcome::Dropped)
    } else {
        match e {
            Entity::Player(p) => player_applied(p, m),
            Entity::Rocket(r) => rocket_applied(r, m),
        }
    }
}

/// The operation that a message invokes.
pub fn operation(m: &Message) -> (r: Operation)
    ensures
        r == operation_of(*m),
{
    match m {
        Message::SyncState(_) => Operation::SyncState,
        Message::UpdateStates(_) => Operation::UpdateStates,
        Message::SyncRagdoll(_) => Operation::SyncRagdoll,
        Message::BeginRagdoll => Operation::BeginRagdoll,
        Message::EndRagdoll => Operation::EndRagdoll,
        Message::Respawn(_) => Operation::Respawn,
        Message::ShootRocket(_, _) => Operation::ShootRocket,
        Message::Explode(_) => Operation::Explode,
    }
}

fn receive_on_player(p: &mut Player, m: Message) -> (r: Outcome)
    requires
        is_state_sync(operation_of(m)) ==> old(p).local_id != old(p).peer_id,
    ensures
        (Entity::Player(*final(p)), r) == player_applied(*old(p), m),
{
    match m {
        Message::SyncState(s) => {
            p.kinematic.sync_state(false, s);
            Outcome::Applied
        },
        Message::UpdateStates(s) => {
            p.dynamic.update_states(false, s);
            Outcome::Applied
        },
        Message::SyncRagdoll(flag) => {
            p.sync_ragdoll(flag);
            Outcome::Applied
        },
        Message::BeginRagdoll => {
            p.begin_ragdoll();
            Outcome::Applied
        },
        Message::EndRagdoll => {
            p.end_ragdoll();
            Outcome::Applied
        },
        Message::Respawn(pos) => {
            p.respawn(pos);
            Outcome::Applied
        },
        Message::ShootRocket(request, forward) => match p.shoot_rocket(request, forward) {
            Some(rocket) => Outcome::Launched(rocket),
            None => Outcome::Applied,
        },
        Message::Explode(_) => Outcome::Dropped,
    }
}

/// Handles a broadcast of `message` by `sender` that arrived at this copy
/// of the entity: the payload is written over the copy as it is, and nothing
/// is simulated. The authority of an entity never applies a state snapshot
/// of it.
pub fn receive(entity: &mut Entity, sender: i64, message: Message) -> (r: Outcome)
    ensures
        (*final(entity), r) == received(*old(entity), sender, message),
        is_state_sync(operation_of(message)) && holder_of(*old(entity)) == authority_of(
            *old(entity),
        ) ==> *final(entity) == *old(entity) && r == Outcome::Dropped,
{
    let op = operation(&message);
    match entity {
        Entity::Player(p) => {
            if !accepts(op, sender, p.peer_id, Target::Everyone, p.local_id) {
                return Outcome::Dropped;
            }
            let mut player = *p;
            let outcome = receive_on_player(&mut player, message);
            *entity = Entity::Player(player);
            outcome
        },
        Entity::Rocket(r) => {
            if !accepts(op, sender, r.authority, Target::Everyone, r.local_id) {
                return Outcome::Dropped;
            }
            match message {
                Message::Explode(position) => {
                    let mut rocket = *r;
                    let blast = rocket.explode(position);
                    *entity = Entity::Rocket(rocket);
                    match blast {
                        Some(e) => Outcome::Detonated(e),
                        None => Outcome::Applied,
                    }
                },
                _ => Outcome::Dropped,
            }
        },
    }
}

/// No feedback: a state snapshot never changes the copy that the entity's
/// authority holds, whoever sent it; the message is dropped there.
pub proof fn lemma_authority_drops_snapshots(e: Entity, sender: i64, m: Message)
    requires
        is_state_sync(operation_of(m)),
        holder_of(e) == authority_of(e),
    ensures
        received(e, sender, m) == (e, Outcome::Dropped),
{
}

/// Receiving a state snapshot is idempotent: a snapshot that arrives twice
/// leaves the copy as it was after the first arrival. The bazooka adds the
/// camera's yaw to its own on every arrival, so this is stated for cameras
/// that carry no yaw.
pub proof fn lemma_snapshot_twice(e: Entity, sender: i64, m: Message)
    requires
        is_state_sync(operation_of(m)),
        m is SyncState ==> m->SyncState_0.cam_rotation.y == 0,
    ensures
        received(received(e, sender, m).0, sender, m).0 == received(e, sender, m).0,
{
}

} // verus!
