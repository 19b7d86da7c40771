//! A finished game as the client's match history reports it.

use vstd::prelude::*;

use crate::riot_datatypes::common::{ChampionId, F64Bits, GameId, MapId, ParticipantId, QueueId, SpellId, SummonerId, Timestamp};

verus! {

pub struct Game {
    pub game_version: String,
    pub game_id: GameId,
    pub map_id: MapId,
    pub queue_id: QueueId,
    pub game_duration: Timestamp,
    pub participant_identities: Vec<ParticipantIdentity>,
    pub participants: Vec<Participant>,
}

pub struct ParticipantIdentity {
    pub participant_id: ParticipantId,
    pub player: Player,
}

/// A player; two players are the same player when name and tag line agree
/// (the summoner id is not compared).
pub struct Player {
    pub game_name: String,
    pub tag_line: String,
    pub summoner_id: Option<SummonerId>,
}

/// Whether two players are the same player: same game name and tag line.
pub open spec fn same_player(a: Player, b: Player) -> bool {
    a.game_name@ == b.game_name@ && a.tag_line@ == b.tag_line@
}

impl PartialEq for Player {
    fn eq(&self, other: &Self) -> (r: bool) {
        self.game_name == other.game_name && self.tag_line == other.tag_line
    }
}

impl vstd::std_specs::cmp::PartialEqSpecImpl for Player {
    open spec fn obeys_eq_spec() -> bool {
        true
    }

    open spec fn eq_spec(&self, other: &Self) -> bool {
        same_player(*self, *other)
    }
}

pub struct Participant {
    pub participant_id: ParticipantId,
    pub champion_id: ChampionId,
    pub spell1_id: SpellId,
    pub spell2_id: SpellId,
    pub stats: Stats,
}

/// The end-of-game statistics of one participant.
pub struct Stats {
    pub kills: i64,
    pub deaths: i64,
    pub assists: i64,
    pub largest_multi_kill: i64,
    pub neutral_minions_killed: i64,
    pub neutral_minions_killed_enemy_jungle: i64,
    pub neutral_minions_killed_team_jungle: i64,
    pub total_minions_killed: i64,
    pub vision_score: F64Bits,
    pub vision_wards_bought_in_game: i64,
    pub wards_placed: i64,
    pub wards_killed: i64,
    /// A remake: `win` is then to be ignored, the team that remade counts as the loser.
    pub game_ended_in_early_surrender: bool,
    pub game_ended_in_surrender: bool,
    pub win: bool,
}

} // verus!
