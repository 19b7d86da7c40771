//! Identifiers, timeline events and the objects they mention.

use vstd::prelude::*;

use crate::text::{i64_to_string, signed_decimal};

verus! {

pub type QueueId = i64;
pub type GameId = i64;
pub type MapId = i64;
pub type ParticipantId = i64;
pub type SummonerId = i64;
pub type ChampionId = i64;
pub type Timestamp = i64;
pub type SpellId = i64;

/// The bit pattern (`f64::to_bits`) of a floating-point value that the data
/// carries through unchanged; nothing here computes with it.
pub type F64Bits = u64;

/// A champion: champions are the same champion when their ids are equal.
pub struct Champion {
    pub id: ChampionId,
    pub name: String,
}

impl PartialEq for Champion {
    fn eq(&self, other: &Self) -> (r: bool) {
        self.id == other.id
    }
}

impl vstd::std_specs::cmp::PartialEqSpecImpl for Champion {
    open spec fn obeys_eq_spec() -> bool {
        true
    }

    open spec fn eq_spec(&self, other: &Self) -> bool {
        self.id == other.id
    }
}

/// A game queue (ranked or not).
pub struct Queue {
    pub id: QueueId,
    pub name: String,
    pub is_ranked: bool,
}

/// A match, known by its game id and the platform (server) it was played on.
pub struct MatchId {
    pub game_id: GameId,
    pub platform_id: String,
}

/// The display form of a match id: `{platform_id}_{game_id}`.
pub open spec fn match_id_text(m: MatchId) -> Seq<char> {
    m.platform_id@ + seq!['_'] + signed_decimal(m.game_id as int)
}

impl MatchId {
    /// The match id as text, `{platform_id}_{game_id}` (its `Display` form).
    pub fn to_display_string(&self) -> (r: String)
        ensures
            r@ == match_id_text(*self),
    {
        let mut s = String::new();
        s.append(self.platform_id.as_str());
        s.append("_");
        let id = i64_to_string(self.game_id);
        s.append(id.as_str());
        proof {
            reveal_strlit("_");
        }
        assert(s@ =~= match_id_text(*self));
        s
    }
}

/// A full match timeline, frame by frame.
pub struct Timeline {
    pub frames: Vec<Frame>,
}

impl Timeline {
    /// A timeline without frames (its `Default`).
    pub fn empty() -> (r: Timeline)
        ensures
            r.frames@.len() == 0,
    {
        Timeline { frames: Vec::new() }
    }
}

/// One frame of a timeline.
pub struct Frame {
    pub events: Vec<GameEvent>,
    pub participant_frames: Vec<(ParticipantId, ParticipantFrame)>,
    pub timestamp: Timestamp,
}

/// An event of a timeline with the time it happened at.
pub struct GameEvent {
    pub event: Event,
    pub timestamp: Timestamp,
}

/// The kinds of timeline events that are recorded; everything else is `Unknown`.
pub enum Event {
    ChampionKill {
        victim_id: ParticipantId,
        killer_id: ParticipantId,
        assisting_participant_ids: Vec<ParticipantId>,
        position: Position,
    },
    BuildingKill {
        team_id: Team,
        killer_id: ParticipantId,
        building_type: BuildingType,
        assisting_participant_ids: Vec<ParticipantId>,
    },
    EliteMonsterKill {
        killer_id: ParticipantId,
        monster_type: MonsterType,
        assisting_participant_ids: Vec<ParticipantId>,
    },
    Unknown {},
}

#[derive(Clone, Copy, Debug, PartialEq, Eq, Structural)]
pub enum BuildingType {
    InhibitorBuilding { lane_type: LaneType },
    TowerBuilding { lane_type: LaneType, tower_type: TowerType },
}

#[derive(Clone, Copy, Debug, PartialEq, Eq, Structural)]
pub enum LaneType {
    TopLane,
    MidLane,
    BotLane,
}

#[derive(Clone, Copy, Debug, PartialEq, Eq, Structural)]
pub enum TowerType {
    OuterTurret,
    InnerTurret,
    BaseTurret,
    NexusTurret,
}

#[derive(Clone, Copy, Debug, PartialEq, Eq, Structural)]
pub enum MonsterType {
    Horde,
    Riftherald,
    Atakhan,
    BaronNashor,
    Dragon { dragon_type: DragonType },
}

#[derive(Clone, Copy, Debug, PartialEq, Eq, Structural)]
pub enum DragonType {
    FireDragon,
    EarthDragon,
    WaterDragon,
    AirDragon,
    HextechDragon,
    ChemtechDragon,
    ElderDragon,
}

/// The two teams; their numeric codes are 100 and 200.
#[derive(Clone, Copy, Debug, PartialEq, Eq, Structural)]
pub enum Team {
    Blue,
    Red,
}

/// The numeric code that stands for a team in the API's data.
pub open spec fn team_code(t: Team) -> u32 {
    match t {
        Team::Blue => 100,
        Team::Red => 200,
    }
}

impl Team {
    /// The team's numeric code: 100 for blue, 200 for red.
    pub fn code(&self) -> (r: u32)
        ensures
            r == team_code(*self),
    {
        match self {
            Team::Blue => 100,
            Team::Red => 200,
        }
    }

    /// The team with the numeric code `code`, if there is one.
    pub fn from_code(code: u32) -> (r: Option<Team>)
        ensures
            r matches Some(t) ==> team_code(t) == code,
            r is None <==> (code != 100 && code != 200),
    {
        if code == 100 {
            Some(Team::Blue)
        } else if code == 200 {
            Some(Team::Red)
        } else {
            None
        }
    }
}

#[derive(Clone, Copy, Debug, PartialEq, Eq, Structural)]
pub struct Position {
    pub x: i64,
    pub y: i64,
}

#[derive(Clone, Copy, Debug, PartialEq, Eq, Structural)]
pub struct ParticipantFrame {
    pub participant_id: ParticipantId,
    pub level: i64,
    pub current_gold: i64,
    pub total_gold: i64,
    pub xp: i64,
    pub minions_killed: i64,
    pub jungle_minions_killed: i64,
    pub position: Position,
}

/// The teams' codes tell them apart: blue is 100, red is 200, and two teams
/// with the same code are the same team, so that reading back the code of
/// a team gives that team.
pub proof fn lemma_team_code_round_trip(t: Team, u: Team)
    ensures
        team_code(Team::Blue) == 100 && team_code(Team::Red) == 200,
        team_code(t) == team_code(u) ==> t == u,
{
}

} // verus!
