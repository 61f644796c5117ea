//! Skill groups of a player and the attribute block attached to them.
//!
//! Skill internals are a collaborator of this core, not its subject: the
//! tick pipeline only ever trains a group by a small amount and reads an
//! aggregate rating, so each group is kept to the level the pipeline
//! touches. Training saturates at the top of the scale instead of wrapping.

use vstd::prelude::*;
use crate::behaviour::BehaviourState;
use crate::player::PlayerPositionType;

verus! {

/// `a + b`, capped at the top of the `u8` scale.
pub open spec fn sat_add_u8(a: u8, b: u8) -> u8 {
    if a + b > 255 {
        255u8
    } else {
        (a + b) as u8
    }
}

/// Saturating addition on the skill scale.
fn sat_add(a: u8, b: u8) -> (r: u8)
    ensures
        r == sat_add_u8(a, b),
{
    let sum: u16 = a as u16 + b as u16;
    if sum > 255 {
        255
    } else {
        sum as u8
    }
}

/// Mental skill group, summarized by its level.
#[derive(Clone, Copy, Debug, PartialEq, Eq, Structural)]
pub struct MentalSkills {
    pub level: u8,
}

impl MentalSkills {
    /// The group after a training session of the given intensity.
    pub open spec fn spec_trained(self, amount: u8) -> MentalSkills {
        MentalSkills { level: sat_add_u8(self.level, amount) }
    }

    /// Raise the level by `amount`, saturating at the top of the scale.
    pub fn train(&mut self, amount: u8)
        ensures
            *final(self) == old(self).spec_trained(amount),
    {
        self.level = sat_add(self.level, amount);
    }
}

/// Technical skill group, summarized by its level.
#[derive(Clone, Copy, Debug, PartialEq, Eq, Structural)]
pub struct TechnicalSkills {
    pub level: u8,
}

impl TechnicalSkills {
    /// The group after a training session of the given intensity.
    pub open spec fn spec_trained(self, amount: u8) -> TechnicalSkills {
        TechnicalSkills { level: sat_add_u8(self.level, amount) }
    }

    /// Raise the level by `amount`, saturating at the top of the scale.
    pub fn train(&mut self, amount: u8)
        ensures
            *final(self) == old(self).spec_trained(amount),
    {
        self.level = sat_add(self.level, amount);
    }
}

/// Physical skill group: its level plus the current match readiness.
#[derive(Clone, Copy, Debug, PartialEq, Eq, Structural)]
pub struct PhysicalSkills {
    pub level: u8,
    pub match_readiness: u8,
}

impl PhysicalSkills {
    /// The group after a training session: the level rises, the readiness
    /// gauge is untouched by training.
    pub open spec fn spec_trained(self, amount: u8) -> PhysicalSkills {
        PhysicalSkills { level: sat_add_u8(self.level, amount), match_readiness: self.match_readiness }
    }

    /// Raise the level by `amount`, saturating at the top of the scale.
    pub fn train(&mut self, amount: u8)
        ensures
            *final(self) == old(self).spec_trained(amount),
    {
        self.level = sat_add(self.level, amount);
    }
}

/// The three skill groups of a player.
#[derive(Clone, Copy, Debug, PartialEq, Eq, Structural)]
pub struct PlayerSkills {
    pub mental: MentalSkills,
    pub technical: TechnicalSkills,
    pub physical: PhysicalSkills,
}

impl PlayerSkills {
    /// All three groups after a generic training session.
    pub open spec fn spec_trained(self, amount: u8) -> PlayerSkills {
        PlayerSkills {
            mental: self.mental.spec_trained(amount),
            technical: self.technical.spec_trained(amount),
            physical: self.physical.spec_trained(amount),
        }
    }

    /// The skill set after one session under a coach: a `Good` coach
    /// raises the mental and technical groups by one, a `Normal` coach
    /// raises every group by one, a `Poor` coach raises the physical
    /// group by two.
    pub open spec fn spec_coached(self, coach_state: BehaviourState) -> PlayerSkills {
        match coach_state {
            BehaviourState::Good => (PlayerSkills {
                mental: self.mental.spec_trained(1),
                technical: self.technical.spec_trained(1),
                ..self
            }),
            BehaviourState::Normal => self.spec_trained(1),
            BehaviourState::Poor => (PlayerSkills { physical: self.physical.spec_trained(2), ..self }),
        }
    }

    /// The aggregate rating: the sum of the three group levels. The rating
    /// is the same whichever position it is asked for; position-specific
    /// weighting belongs to the skill model outside this core.
    pub open spec fn spec_rating(self) -> int {
        self.mental.level + self.technical.level + self.physical.level
    }

    /// Generic training: every group rises by `amount`.
    pub fn train(&mut self, amount: u8)
        ensures
            *final(self) == old(self).spec_trained(amount),
    {
        self.mental.train(amount);
        self.technical.train(amount);
        self.physical.train(amount);
    }

    /// The aggregate rating of this skill set when lined up on `position`.
    pub fn get_for_position(&self, position: PlayerPositionType) -> (r: u32)
        ensures
            r as int == self.spec_rating(),
    {
        let _unused: PlayerPositionType = position;
        self.mental.level as u32 + self.technical.level as u32 + self.physical.level as u32
    }
}

/// Innate attributes of a player. Their internals belong to collaborating
/// modules outside this core; nothing in the tick pipeline reads them.
#[derive(Clone, Copy, Debug, PartialEq, Eq, Structural)]
pub struct PlayerAttributes {
}

impl PlayerAttributes {
    /// An empty attribute block.
    pub fn new() -> PlayerAttributes {
        PlayerAttributes {  }
    }
}

} // verus!
