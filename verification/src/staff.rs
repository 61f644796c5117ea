//! Coaching staff as seen by the player core.
//!
//! A staff member is a collaborator: training only reads the coach's
//! behaviour state, so only that much is modeled here.

use vstd::prelude::*;
use crate::behaviour::Behaviour;

verus! {

/// A member of the coaching staff.
#[derive(Clone, Copy, Debug, PartialEq, Eq, Structural)]
pub struct Staff {
    pub behaviour: Behaviour,
}

impl Staff {
    /// A staff member with the given behaviour.
    pub fn new(behaviour: Behaviour) -> (r: Staff)
        ensures
            r.behaviour == behaviour,
    {
        Staff { behaviour }
    }
}

} // verus!
