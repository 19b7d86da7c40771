//! Whether the application is shutting down.

use vstd::prelude::*;

verus! {

/// Set once the user asked to quit; until then closing the last window
/// keeps the application running in the tray.
pub struct Shutdown(bool);

impl Shutdown {
    pub closed spec fn view(&self) -> bool {
        self.0
    }

    /// Not shutting down.
    pub fn default() -> (r: Self)
        ensures
            !r.view(),
    {
        Shutdown(false)
    }

    /// Marks the application as shutting down.
    pub fn set(&mut self)
        ensures
            final(self).view(),
    {
        self.0 = true;
    }

    /// Whether the application is shutting down.
    pub fn get(&self) -> (r: bool)
        ensures
            r == self.view(),
    {
        self.0
    }
}

} // verus!
