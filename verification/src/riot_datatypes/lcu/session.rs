//! The gameflow session messages the client sends while a game runs.

use vstd::prelude::*;

use crate::riot_datatypes::common::{GameId, Queue};

verus! {

/// A message of the client's websocket subscriptions.
pub enum SubscriptionResponse {
    Session(SessionEventData),
    EogStatsBlock {},
}

/// A gameflow session update: the phase and the game it is about.
pub struct SessionEventData {
    pub game_data: GameData,
    pub phase: GamePhase,
}

/// The phases of the client's gameflow (`NoPhase` is the phase the client calls "None").
#[derive(Clone, Copy, Debug, PartialEq, Eq, Structural)]
pub enum GamePhase {
    NoPhase,
    Lobby,
    Matchmaking,
    CheckedIntoTournament,
    ReadyCheck,
    ChampSelect,
    GameStart,
    FailedToLaunch,
    InProgress,
    Reconnect,
    WaitingForStats,
    PreEndOfGame,
    EndOfGame,
    TerminatedInError,
}

/// The game a session update is about.
pub struct GameData {
    pub queue: Queue,
    pub game_id: GameId,
}

} // verus!
