//! A finished game as the client's match history reports it.

use vstd::prelude::*;

pub use crate::riot_datatypes::lcu::Stats;
use super::{ChampionId, GameId, ParticipantId, SpellId};

verus! {

pub struct Game {
    pub game_version: String,
    pub game_id: GameId,
    pub map_id: i64,
    /// The game mode's name as the API spells it (such as "CLASSIC").
    pub game_mode: String,
    pub queue_id: i64,
    pub game_duration: u64,
    pub participant_identities: Vec<ParticipantIdentity>,
    pub participants: Vec<Participant>,
}

pub struct ParticipantIdentity {
    pub participant_id: ParticipantId,
    pub player: Player,
}

/// A player; two players are equal when name, tag line and summoner id agree.
pub struct Player {
    pub game_name: String,
    pub tag_line: String,
    pub summoner_id: Option<i64>,
}

/// Whether two players are equal in every field.
pub open spec fn player_eq(a: Player, b: Player) -> bool {
    a.game_name@ == b.game_name@ && a.tag_line@ == b.tag_line@ && a.summoner_id == b.summoner_id
}

impl PartialEq for Player {
    fn eq(&self, other: &Self) -> (r: bool) {
        self.game_name == other.game_name && self.tag_line == other.tag_line && self.summoner_id == other.summoner_id
    }
}

impl vstd::std_specs::cmp::PartialEqSpecImpl for Player {
    open spec fn obeys_eq_spec() -> bool {
        true
    }

    open spec fn eq_spec(&self, other: &Self) -> bool {
        player_eq(*self, *other)
    }
}

pub struct Participant {
    pub participant_id: ParticipantId,
    pub champion_id: ChampionId,
    pub spell1_id: SpellId,
    pub spell2_id: SpellId,
    pub stats: Stats,
}

} // verus!
