//! Records of the local League client (lcu) API.

pub mod game;
pub mod session;

pub use game::{Game, Participant, ParticipantIdentity, Player, Stats};
pub use session::{GameData, GamePhase, SessionEventData, SubscriptionResponse};
