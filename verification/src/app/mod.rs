//! The application's own rules around the recorder: its events and
//! windows, its tray menu, which files are recordings and which of them the
//! limits remove, and how it reacts to changed settings.

pub mod event;
pub mod manager;
pub mod recordings;
pub mod system_tray;
pub mod window;

pub use event::{AppEvent, EventManager};
pub use system_tray::SystemTrayManager;
pub use window::AppWindow;
