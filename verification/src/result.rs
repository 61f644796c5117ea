//! Per-tick outcome records: one per player, one per collection tick.

use vstd::prelude::*;
use crate::context::SimulatorData;
use crate::player::Player;

verus! {

/// What one player decided during its tick: the ids requesting a
/// transfer. In the single-player scope this holds at most the player's
/// own id; it is a sequence so results compose upstream.
#[derive(Clone, Debug)]
pub struct PlayerResult {
    pub transfer_requests: Vec<u32>,
}

impl PlayerResult {
    /// A fresh outcome with no transfer requests yet.
    pub fn new() -> (r: PlayerResult)
        ensures
            r.transfer_requests@ == Seq::<u32>::empty(),
    {
        PlayerResult { transfer_requests: Vec::new() }
    }

    /// Record that the player with `player_id` asks to leave its roster.
    pub fn request_transfer(&mut self, player_id: u32)
        ensures
            final(self).transfer_requests@ == old(self).transfer_requests@.push(player_id),
    {
        self.transfer_requests.push(player_id);
    }
}

/// The aggregate outcome of one collection tick: the per-player results in
/// iteration order, and the players physically removed this tick. Whoever
/// consumes the result owns the removed players.
pub struct PlayerCollectionResult {
    pub players: Vec<PlayerResult>,
    pub outgoing_players: Vec<Player>,
}

impl PlayerCollectionResult {
    /// Bundle the per-player results with the extracted players.
    pub fn new(players: Vec<PlayerResult>, outgoing_players: Vec<Player>) -> (r: PlayerCollectionResult)
        ensures
            r.players == players,
            r.outgoing_players == outgoing_players,
    {
        PlayerCollectionResult { players, outgoing_players }
    }

    /// The seam to the persistence/roster layer: applying the outgoing
    /// players to the wider simulation (roster changes, market listings,
    /// notifications) belongs to that layer and is an extension point
    /// here, so the global state passes through unchanged.
    pub fn process(&self, data: &mut SimulatorData)
        ensures
            *final(data) == *old(data),
    {
    }
}

} // verus!
