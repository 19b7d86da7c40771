//! What the tray menu shows: whether a recording runs and whether an update
//! is available.

use vstd::prelude::*;

verus! {

pub struct TrayState {
    update_available: bool,
    recording: bool,
}

impl TrayState {
    /// The two flags of the tray: (update available, recording).
    pub closed spec fn view(&self) -> (bool, bool) {
        (self.update_available, self.recording)
    }

    /// No update known, nothing recording.
    pub fn default() -> (r: Self)
        ensures
            r.view() == (false, false),
    {
        TrayState { update_available: false, recording: false }
    }

    pub fn set_update_available(&mut self, update_available: bool)
        ensures
            final(self).view() == (update_available, old(self).view().1),
    {
        self.update_available = update_available;
    }

    pub fn update_available(&self) -> (r: bool)
        ensures
            r == self.view().0,
    {
        self.update_available
    }

    pub fn set_recording(&mut self, recording: bool)
        ensures
            final(self).view() == (old(self).view().0, recording),
    {
        self.recording = recording;
    }

    pub fn recording(&self) -> (r: bool)
        ensures
            r == self.view().1,
    {
        self.recording
    }
}

} // verus!
