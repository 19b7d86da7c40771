//! The data of a recorded game as the match-history API gives it, and how
//! a recording's metadata is put together from it.

pub mod game;
pub mod metadata;
pub mod objects;
pub mod timeline;

pub use crate::riot_datatypes::{ChampionId, GameId, ParticipantId, SpellId, Timestamp};
