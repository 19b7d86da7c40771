//! The data the League client's APIs hand out: champions, queues, match ids,
//! timeline events and the lcu game / session records.

pub mod common;
pub mod lcu;

pub use common::{
    BuildingType, Champion, ChampionId, DragonType, Event, F64Bits, Frame, GameEvent, GameId, LaneType, MapId,
    MatchId, MonsterType, ParticipantFrame, ParticipantId, Position, Queue, QueueId, SpellId, SummonerId, Team,
    Timeline, Timestamp, TowerType,
};
