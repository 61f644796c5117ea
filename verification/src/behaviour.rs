//! The latent morale/form state machine of a person in the simulation.
//!
//! Three ordered states, `Poor < Normal < Good`. The one transition this
//! core exercises is the increase attempt fired on a player's birthday,
//! which moves the state one step toward `Good` and leaves `Good` where it
//! is. A decrease transition is a policy question for the surrounding
//! layer and is deliberately not decided here.

use vstd::prelude::*;

verus! {

/// Morale/form classification. Governs training yield and the decision to
/// request a transfer (`Poor` requests one).
#[derive(Clone, Copy, Debug, PartialEq, Eq, Structural)]
pub enum BehaviourState {
    Poor,
    Normal,
    Good,
}

impl BehaviourState {
    /// The state one step closer to `Good`; `Good` is a fixed point.
    pub open spec fn increased(self) -> BehaviourState {
        match self {
            BehaviourState::Poor => BehaviourState::Normal,
            BehaviourState::Normal => BehaviourState::Good,
            BehaviourState::Good => BehaviourState::Good,
        }
    }
}

/// A person's behaviour: the current state of the morale machine.
#[derive(Clone, Copy, Debug, PartialEq, Eq, Structural)]
pub struct Behaviour {
    pub state: BehaviourState,
}

impl Behaviour {
    /// The behaviour every newly constructed person starts from.
    pub open spec fn initial() -> Behaviour {
        Behaviour { state: BehaviourState::Normal }
    }

    /// The behaviour after one increase attempt.
    pub open spec fn spec_increased(self) -> Behaviour {
        Behaviour { state: self.state.increased() }
    }

    /// A fresh behaviour in the `Normal` state.
    pub fn default() -> (b: Behaviour)
        ensures
            b == Behaviour::initial(),
    {
        Behaviour { state: BehaviourState::Normal }
    }

    /// Attempt to move one step toward `Good`: `Poor` becomes `Normal`,
    /// `Normal` becomes `Good`, `Good` stays `Good`.
    pub fn try_increase(&mut self)
        ensures
            *final(self) == old(self).spec_increased(),
    {
        self.state = match self.state {
            BehaviourState::Poor => BehaviourState::Normal,
            BehaviourState::Normal => BehaviourState::Good,
            BehaviourState::Good => BehaviourState::Good,
        };
    }
}

} // verus!
