//! The file that is being recorded right now, if any.

use vstd::prelude::*;

verus! {

/// The path of the video that is being recorded, if a recording runs.
pub struct CurrentlyRecording(Option<String>);

/// The path that a `CurrentlyRecording` holds.
pub open spec fn path_view(p: Option<String>) -> Option<Seq<char>> {
    match p {
        Some(s) => Some(s@),
        None => None,
    }
}

impl CurrentlyRecording {
    pub closed spec fn view(&self) -> Option<Seq<char>> {
        path_view(self.0)
    }

    /// Nothing is being recorded.
    pub fn default() -> (r: Self)
        ensures
            r.view() is None,
    {
        CurrentlyRecording(None)
    }

    /// Records which file is being recorded (or that none is).
    pub fn set(&mut self, path: Option<String>)
        ensures
            final(self).view() == path_view(path),
    {
        self.0 = path;
    }

    /// The file that is being recorded, if any.
    pub fn get(&self) -> (r: Option<String>)
        ensures
            path_view(r) == self.view(),
    {
        match &self.0 {
            Some(s) => Some(s.clone()),
            None => None,
        }
    }
}

} // verus!
