//! The spawn coordinator: the roster, the pool of spawn points, and the
//! players that every participant creates from them.

use vstd::prelude::*;
use crate::authority::AuthorityModel;
use crate::movement::PlayerKinematicBody;
use crate::player::{authority, fresh_player, respawned, well_formed, Player};
use crate::vector::{v_zero, Vec3};

verus! {

/// The arguments of the reliable `respawn` operation, and the player whose
/// authority carries it out.
#[derive(Clone, Copy, Debug, PartialEq, Eq, Structural)]
pub struct RespawnCommand {
    /// The participant that simulates the player to reset.
    pub target: i64,
    pub position: Vec3,
}

/// The time a ragdoll lasts, and the time a reload takes, for the players
/// that the coordinator creates.
#[derive(Clone, Copy, Debug, PartialEq, Eq, Structural)]
pub struct PlayerSetup {
    pub gravity: Vec3,
    pub ragdoll_time: i64,
    pub reload_time: i64,
}

/// The spawn coordinator of one participant.
pub struct NPlayers {
    /// The roster: participant ids with their display names.
    pub player_info: Vec<(i64, String)>,
    /// The pool of spawn points.
    pub spawn_points: Vec<Vec3>,
    /// The players created so far; a player's index is its entity id.
    pub players: Vec<Player>,
    pub authority: AuthorityModel,
    /// The participant on whose machine this coordinator lives.
    pub local_id: i64,
    pub setup: PlayerSetup,
}

/// Whether no participant occurs twice on the roster: a roster maps each
/// participant to one display name.
pub open spec fn distinct_ids(roster: Seq<(i64, String)>) -> bool {
    forall|i: int, j: int|
        #![trigger roster[i], roster[j]]
        0 <= i < j < roster.len() ==> roster[i].0 != roster[j].0
}

/// Whether no participant occurs twice on the roster.
pub fn ids_are_distinct(roster: &Vec<(i64, String)>) -> (r: bool)
    ensures
        r == distinct_ids(roster@),
{
    let mut j: usize = 0;
    while j < roster.len()
        invariant
            j <= roster.len(),
            forall|a: int, b: int|
                #![trigger roster@[a], roster@[b]]
                0 <= a < b < j ==> roster@[a].0 != roster@[b].0,
        decreases roster.len() - j,
    {
        let mut i: usize = 0;
        while i < j
            invariant
                i <= j < roster.len(),
                forall|a: int| 0 <= a < i ==> (#[trigger] roster@[a]).0 != roster@[j as int].0,
            decreases j - i,
        {
            if roster[i].0 == roster[j].0 {
                assert(roster@[i as int].0 == roster@[j as int].0);
                return false;
            }
            i = i + 1;
        }
        j = j + 1;
    }
    true
}

/// The participant ids of a roster, in its order.
pub open spec fn roster_ids(roster: Seq<(i64, String)>) -> Seq<i64> {
    Seq::new(roster.len(), |i: int| roster[i].0)
}

/// The spawn point that the random number `sample` selects from a pool that
/// is not empty.
pub open spec fn sampled(pool: Seq<Vec3>, sample: u64) -> Vec3 {
    pool[(sample as int) % (pool.len() as int)]
}

/// The player that a participant creates for `peer_id` at `point`: simulated
/// by `peer_id`, and with its camera active on `peer_id`'s own machine only.
pub open spec fn spawned_player(
    local_id: i64,
    peer_id: i64,
    point: Vec3,
    setup: PlayerSetup,
) -> Player {
    let p = fresh_player(
        local_id,
        peer_id,
        point,
        v_zero(),
        setup.gravity,
        setup.ragdoll_time,
        setup.reload_time,
    );
    Player {
        kinematic: PlayerKinematicBody { camera_current: local_id == peer_id, ..p.kinematic },
        ..p
    }
}

/// The players, each reset to `position` if `target` simulates it.
pub open spec fn respawn_applied(
    players: Seq<Player>,
    target: i64,
    position: Vec3,
) -> Seq<Player> {
    Seq::new(
        players.len(),
        |i: int|
            if players[i].peer_id == target {
                respawned(players[i], position)
            } else {
                players[i]
            },
    )
}

/// The players, each with the mouse-sensitivity multiplier `value` if this
/// machine simulates it.
pub open spec fn sensitivity_applied(players: Seq<Player>, value: i64) -> Seq<Player> {
    Seq::new(
        players.len(),
        |i: int|
            if authority(players[i]) {
                Player {
                    kinematic: PlayerKinematicBody {
                        mouse_sensitivity_mult: value,
                        ..players[i].kinematic
                    },
                    ..players[i]
                }
            } else {
                players[i]
            },
    )
}

impl NPlayers {
    /// The coordinator's invariant: nobody is on the roster twice, the
    /// players' indices are exactly the
    /// entities that have an authority, each player's authority is the one
    /// assigned to its entity, and each player is well formed.
    pub open spec fn well_formed(&self) -> bool {
        &&& distinct_ids(self.player_info@)
        &&& forall|e: u64| #[trigger]
            self.authority@.contains_key(e) <==> (e as int) < self.players@.len()
        &&& forall|i: int|
            0 <= i < self.players@.len() ==> self.authority@[i as u64] == (
            #[trigger] self.players@[i]).peer_id
        &&& forall|i: int| 0 <= i < self.players@.len() ==> well_formed(#[trigger] self.players@[i])
    }

    /// A coordinator with an empty roster and no players yet.
    pub fn new(local_id: i64, spawn_points: Vec<Vec3>, setup: PlayerSetup) -> (r: NPlayers)
        ensures
            r.well_formed(),
            r.player_info@.len() == 0,
            r.spawn_points@ == spawn_points@,
            r.players@.len() == 0,
            r.authority@ == Map::<u64, i64>::empty(),
            r.local_id == local_id,
            r.setup == setup,
    {
        NPlayers {
            player_info: Vec::new(),
            spawn_points,
            players: Vec::new(),
            authority: AuthorityModel::new(),
            local_id,
            setup,
        }
    }

    /// Takes the roster from the session setup and reports whether it did. A
    /// roster that names a participant twice is refused, and the coordinator
    /// keeps the roster it had.
    pub fn initialize_authority(&mut self, player_info: Vec<(i64, String)>) -> (r: bool)
        ensures
            r == distinct_ids(player_info@),
            r ==> final(self).player_info@ == player_info@,
            !r ==> final(self).player_info@ == old(self).player_info@,
            old(self).well_formed() ==> final(self).well_formed(),
            final(self).spawn_points@ == old(self).spawn_points@,
            final(self).players@ == old(self).players@,
            final(self).authority@ == old(self).authority@,
            final(self).local_id == old(self).local_id,
            final(self).setup == old(self).setup,
    {
        if !ids_are_distinct(&player_info) {
            return false;
        }
        self.player_info = player_info;
        true
    }

    /// The participants for which to invoke the reliable `spawn_player`
    /// operation when the game is ready: on the host everyone on the roster,
    /// in its order; elsewhere nobody. Nobody is named twice.
    pub fn ready(&self, is_host: bool) -> (r: Vec<i64>)
        ensures
            r@ == if is_host {
                roster_ids(self.player_info@)
            } else {
                Seq::<i64>::empty()
            },
            distinct_ids(self.player_info@) ==> r@.no_duplicates(),
    {
        let mut ids: Vec<i64> = Vec::new();
        if !is_host {
            return ids;
        }
        let mut i: usize = 0;
        while i < self.player_info.len()
            invariant
                i <= self.player_info.len(),
                ids@.len() == i,
                forall|k: int| 0 <= k < i ==> ids@[k] == self.player_info@[k].0,
            decreases self.player_info.len() - i,
        {
            ids.push(self.player_info[i].0);
            i = i + 1;
        }
        proof {
            assert(ids@ =~= roster_ids(self.player_info@));
        }
        ids
    }

    /// The spawn point that the random number `sample` selects from the
    /// pool, which must not be empty: always a point of the pool.
    pub fn sample_spawn_point(&self, sample: u64) -> (r: Vec3)
        requires
            self.spawn_points@.len() > 0,
        ensures
            r == sampled(self.spawn_points@, sample),
            self.spawn_points@.contains(r),
    {
        let n: usize = self.spawn_points.len();
        let k: u64 = sample % (n as u64);
        self.spawn_points[k as usize]
    }

    /// Creates the player of participant `peer_id` at the spawn point that
    /// `sample` selects, and makes `peer_id` its authority. Its camera
    /// becomes the active one only where `peer_id` is this machine's own id.
    /// The pool must not be empty. Reports whether the player was created:
    /// always on a well-formed coordinator, and otherwise not where the new
    /// entity already has an authority.
    pub fn spawn_player(&mut self, peer_id: i64, sample: u64) -> (r: bool)
        requires
            old(self).spawn_points@.len() > 0,
        ensures
            old(self).well_formed() ==> final(self).well_formed() && r,
            r == !old(self).authority@.contains_key(old(self).players@.len() as u64),
            r ==> final(self).players@ == old(self).players@.push(
                spawned_player(
                    old(self).local_id,
                    peer_id,
                    sampled(old(self).spawn_points@, sample),
                    old(self).setup,
                ),
            ) && final(self).authority@ == old(self).authority@.insert(
                old(self).players@.len() as u64,
                peer_id,
            ),
            !r ==> final(self).players@ == old(self).players@ && final(self).authority@ == old(
                self,
            ).authority@,
            final(self).player_info@ == old(self).player_info@,
            final(self).spawn_points@ == old(self).spawn_points@,
            final(self).local_id == old(self).local_id,
            final(self).setup == old(self).setup,
    {
        let point = self.sample_spawn_point(sample);
        let mut player = Player::new(
            self.local_id,
            peer_id,
            point,
            Vec3::zero(),
            self.setup.gravity,
            self.setup.ragdoll_time,
            self.setup.reload_time,
        );
        if self.local_id == peer_id {
            player.set_camera_current(true);
        }
        let entity: u64 = self.players.len() as u64;
        if !self.authority.assign(entity, peer_id) {
            return false;
        }
        self.players.push(player);
        true
    }

    /// The `respawn` command for the player at `index`, which has left the
    /// playable volume: addressed to that player's authority, with the spawn
    /// point that `sample` selects from the pool, which must not be empty.
    /// `None` where there is no such player.
    pub fn respawn_player(&self, index: usize, sample: u64) -> (r: Option<RespawnCommand>)
        requires
            self.spawn_points@.len() > 0,
        ensures
            r == if index < self.players@.len() {
                Some(
                    RespawnCommand {
                        target: self.players@[index as int].peer_id,
                        position: sampled(self.spawn_points@, sample),
                    },
                )
            } else {
                None
            },
    {
        if index >= self.players.len() {
            return None;
        }
        let position = self.sample_spawn_point(sample);
        Some(RespawnCommand { target: self.players[index].peer_id, position })
    }

    /// Carries out a `respawn` command: every player that `command.target`
    /// simulates is reset to the command's position, and no other.
    pub fn apply_respawn(&mut self, command: RespawnCommand)
        ensures
            old(self).well_formed() ==> final(self).well_formed(),
            final(self).players@ == respawn_applied(
                old(self).players@,
                command.target,
                command.position,
            ),
            final(self).authority@ == old(self).authority@,
            final(self).player_info@ == old(self).player_info@,
            final(self).spawn_points@ == old(self).spawn_points@,
            final(self).local_id == old(self).local_id,
            final(self).setup == old(self).setup,
    {
        let mut i: usize = 0;
        while i < self.players.len()
            invariant
                i <= self.players.len(),
                self.players@.len() == old(self).players@.len(),
                self.authority@ == old(self).authority@,
                self.player_info@ == old(self).player_info@,
                self.spawn_points@ == old(self).spawn_points@,
                self.local_id == old(self).local_id,
                self.setup == old(self).setup,
                forall|k: int|
                    0 <= k < i ==> self.players@[k] == respawn_applied(
                        old(self).players@,
                        command.target,
                        command.position,
                    )[k],
                forall|k: int|
                    i <= k < self.players@.len() ==> self.players@[k] == old(self).players@[k],
            decreases self.players.len() - i,
        {
            let mut player = self.players[i];
            if player.peer_id == command.target {
                player.respawn(command.position);
                self.players.set(i, player);
            }
            i = i + 1;
        }
        proof {
            assert(self.players@ =~= respawn_applied(
                old(self).players@,
                command.target,
                command.position,
            ));
        }
    }

    /// Hands the new mouse-sensitivity multiplier to the players that this
    /// machine simulates.
    pub fn mouse_sensitivity_changed(&mut self, value: i64)
        ensures
            old(self).well_formed() ==> final(self).well_formed(),
            final(self).players@ == sensitivity_applied(old(self).players@, value),
            final(self).authority@ == old(self).authority@,
            final(self).player_info@ == old(self).player_info@,
            final(self).spawn_points@ == old(self).spawn_points@,
            final(self).local_id == old(self).local_id,
            final(self).setup == old(self).setup,
    {
        let mut i: usize = 0;
        while i < self.players.len()
            invariant
                i <= self.players.len(),
                self.players@.len() == old(self).players@.len(),
                self.authority@ == old(self).authority@,
                self.player_info@ == old(self).player_info@,
                self.spawn_points@ == old(self).spawn_points@,
                self.local_id == old(self).local_id,
                self.setup == old(self).setup,
                forall|k: int|
                    0 <= k < i ==> self.players@[k] == sensitivity_applied(
                        old(self).players@,
                        value,
                    )[k],
                forall|k: int|
                    i <= k < self.players@.len() ==> self.players@[k] == old(self).players@[k],
            decreases self.players.len() - i,
        {
            let mut player = self.players[i];
            if player.is_authority() {
                player.kinematic.on_mouse_sensitivity_changed(value);
                self.players.set(i, player);
            }
            i = i + 1;
        }
        proof {
            assert(self.players@ =~= sensitivity_applied(old(self).players@, value));
        }
    }
}

} // verus!
