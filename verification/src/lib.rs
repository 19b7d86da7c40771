//! Verified core of a League of Legends game recorder: the data model of the
//! recorded games, the settings file format, the recorder's state machine,
//! the recordings cleanup rules, the local file server's request handling,
//! the folder watcher's notifications, the tray menu, finding the game's
//! window and the in-game markers.

pub mod app;
pub mod fileserver;
pub mod filewatcher;
pub mod game_data;
pub mod json;
pub mod lol_rec;
pub mod record;
pub mod recorder;
pub mod riot_datatypes;
pub mod state;
pub mod text;
pub mod util;
pub mod window;
