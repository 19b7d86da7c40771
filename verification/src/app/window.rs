//! The application's windows.

use vstd::prelude::*;

verus! {

/// A window of the application.
#[derive(Debug, Clone, Copy, PartialEq, Eq, Structural)]
pub enum AppWindow {
    Main,
}

impl AppWindow {
    /// The label the window is created and found under: the name of its variant.
    pub fn label(&self) -> (r: &'static str)
        ensures
            r@ == "Main"@,
    {
        match self {
            AppWindow::Main => "Main",
        }
    }
}

/// The events of the application's run loop that it reacts to.
#[derive(Debug, Clone, Copy, PartialEq, Eq, Structural)]
pub enum RunEventKind {
    /// The main window's close button was pressed.
    MainWindowCloseRequested,
    /// The application is about to exit because no window remains.
    ExitRequested,
    /// Any other event.
    Other,
}

/// What the application does on an event of its run loop.
#[derive(Debug, Clone, Copy, PartialEq, Eq, Structural)]
pub enum RunEventAction {
    /// Remember the main window's size and position.
    SaveWindowState,
    /// Keep running with just the tray icon.
    PreventExit,
    Nothing,
}

/// The reaction to an event of the run loop: the main window's state is
/// saved when it closes, and the application keeps running in the tray
/// when its last window closes, unless it is shutting down.
pub fn run_event_action(event: RunEventKind, shutting_down: bool) -> (r: RunEventAction)
    ensures
        r == (match event {
            RunEventKind::MainWindowCloseRequested => RunEventAction::SaveWindowState,
            RunEventKind::ExitRequested => if shutting_down {
                RunEventAction::Nothing
            } else {
                RunEventAction::PreventExit
            },
            RunEventKind::Other => RunEventAction::Nothing,
        }),
{
    match event {
        RunEventKind::MainWindowCloseRequested => RunEventAction::SaveWindowState,
        RunEventKind::ExitRequested => {
            if shutting_down {
                RunEventAction::Nothing
            } else {
                RunEventAction::PreventExit
            }
        },
        RunEventKind::Other => RunEventAction::Nothing,
    }
}

} // verus!
