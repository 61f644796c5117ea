//! Simulation contexts handed into the tick pipeline, and the seam to the
//! global simulator state.

use vstd::prelude::*;
use crate::date::Date;

verus! {

/// The simulation-wide part of a tick's context: the current simulation
/// date and the policy switch for contract-expiration checks.
#[derive(Clone, Copy, Debug, PartialEq, Eq, Structural)]
pub struct SimulationContext {
    pub date: Date,
    pub contract_expiration_check: bool,
}

impl SimulationContext {
    /// A context for one tick on `date` with the given expiration policy.
    pub fn new(date: Date, contract_expiration_check: bool) -> (r: SimulationContext)
        ensures
            r.date == date,
            r.contract_expiration_check == contract_expiration_check,
    {
        SimulationContext { date, contract_expiration_check }
    }

    /// The policy query: whether this tick evaluates contract expiration.
    pub fn check_contract_expiration(&self) -> (r: bool)
        ensures
            r == self.contract_expiration_check,
    {
        self.contract_expiration_check
    }
}

/// A tick context, optionally narrowed to one player.
#[derive(Clone, Copy, Debug, PartialEq, Eq, Structural)]
pub struct GlobalContext {
    pub simulation: SimulationContext,
    pub player_id: Option<u32>,
}

impl GlobalContext {
    /// A collection-wide context, scoped to no player yet.
    pub fn new(simulation: SimulationContext) -> (r: GlobalContext)
        ensures
            r.simulation == simulation,
            r.player_id is None,
    {
        GlobalContext { simulation, player_id: None }
    }

    /// The same context, narrowed to the given player.
    pub fn with_player(&self, player_id: Option<u32>) -> (r: GlobalContext)
        ensures
            r.simulation == self.simulation,
            r.player_id == player_id,
    {
        GlobalContext { simulation: self.simulation, player_id }
    }
}

/// The global simulator state: the seam through which one tick's results
/// are applied to the wider system (rosters, market listings,
/// notifications). Its internals belong to the surrounding layer; this
/// core only threads it through.
#[derive(Clone, Copy, Debug, PartialEq, Eq, Structural)]
pub struct SimulatorData {
}

impl SimulatorData {
    /// An empty simulator state.
    pub fn new() -> SimulatorData {
        SimulatorData {  }
    }
}

} // verus!
