//! The game root: it owns the spawn coordinator and the mouse sensitivity
//! that the settings menu tunes.

use vstd::prelude::*;
use crate::spawner::{distinct_ids, sensitivity_applied, NPlayers};

verus! {

/// The mouse-sensitivity multiplier of a game whose settings name none.
pub const DEFAULT_MOUSE_SENSITIVITY: i64 = 700_000;

/// The root of a running game.
pub struct Game {
    pub player_spawner: NPlayers,
    pub global_mouse_sensitivity: i64,
}

impl Game {
    /// A game around the given coordinator, with the stock sensitivity.
    pub fn new(player_spawner: NPlayers) -> (r: Game)
        ensures
            r.player_spawner == player_spawner,
            r.global_mouse_sensitivity == DEFAULT_MOUSE_SENSITIVITY,
    {
        Game { player_spawner, global_mouse_sensitivity: DEFAULT_MOUSE_SENSITIVITY }
    }

    /// Hands the roster from the session setup to the spawn coordinator and
    /// reports whether the coordinator took it: not one that names a
    /// participant twice.
    pub fn initialize_authority(&mut self, player_info: Vec<(i64, String)>) -> (r: bool)
        ensures
            r == distinct_ids(player_info@),
            r ==> final(self).player_spawner.player_info@ == player_info@,
            !r ==> final(self).player_spawner.player_info@ == old(self).player_spawner.player_info@,
            old(self).player_spawner.well_formed() ==> final(self).player_spawner.well_formed(),
            final(self).player_spawner.spawn_points@ == old(self).player_spawner.spawn_points@,
            final(self).player_spawner.players@ == old(self).player_spawner.players@,
            final(self).player_spawner.authority@ == old(self).player_spawner.authority@,
            final(self).player_spawner.local_id == old(self).player_spawner.local_id,
            final(self).player_spawner.setup == old(self).player_spawner.setup,
            final(self).global_mouse_sensitivity == old(self).global_mouse_sensitivity,
    {
        self.player_spawner.initialize_authority(player_info)
    }

    /// The settings changed the mouse sensitivity: the game keeps the new
    /// value and hands it to the players that this machine simulates.
    pub fn mouse_sensitivity_changed(&mut self, value: i64)
        ensures
            final(self).global_mouse_sensitivity == value,
            final(self).player_spawner.players@ == sensitivity_applied(
                old(self).player_spawner.players@,
                value,
            ),
            old(self).player_spawner.well_formed() ==> final(self).player_spawner.well_formed(),
            final(self).player_spawner.player_info@ == old(self).player_spawner.player_info@,
            final(self).player_spawner.spawn_points@ == old(self).player_spawner.spawn_points@,
            final(self).player_spawner.authority@ == old(self).player_spawner.authority@,
            final(self).player_spawner.local_id == old(self).player_spawner.local_id,
            final(self).player_spawner.setup == old(self).player_spawner.setup,
    {
        self.global_mouse_sensitivity = value;
        self.player_spawner.mouse_sensitivity_changed(value);
    }
}

} // verus!
