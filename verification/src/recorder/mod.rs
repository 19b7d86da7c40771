//! The recorder: the game listener's state machine, the metadata files of the
//! recordings and the helpers the recording tasks use.

pub mod game_listener;
pub mod recorder;
pub mod data;
pub mod recording_task;
