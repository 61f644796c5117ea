//! Player-tick simulation core of a football-club management game.
//!
//! The library advances player entities by one simulated tick, evolves each
//! player's latent behaviour state, applies training effects from coaching
//! staff, evaluates contract status, and surfaces players who request a
//! transfer so the surrounding club/league layer can move them between
//! rosters.

pub mod behaviour;
pub mod context;
pub mod contract;
pub mod date;
pub mod fullname;
pub mod player;
pub mod result;
pub mod skills;
pub mod staff;
pub mod strings;
