//! The events the application sends to its window.

use vstd::prelude::*;

verus! {

/// An event for the window: the list of recordings changed, the metadata
/// of the named recordings changed, or the marker settings changed.
#[allow(inconsistent_fields)]
pub enum AppEvent {
    RecordingsChanged { payload: () },
    MetadataChanged { payload: Vec<String> },
    MarkerflagsChanged { payload: () },
}

/// The name an event is sent under.
pub open spec fn event_name(e: AppEvent) -> Seq<char> {
    match e {
        AppEvent::RecordingsChanged { .. } => "RecordingsChanged"@,
        AppEvent::MetadataChanged { .. } => "MetadataChanged"@,
        AppEvent::MarkerflagsChanged { .. } => "MarkerflagsChanged"@,
    }
}

impl AppEvent {
    /// The name the event is sent under: the name of its variant.
    pub fn name(&self) -> (r: &'static str)
        ensures
            r@ == event_name(*self),
    {
        match self {
            AppEvent::RecordingsChanged { .. } => "RecordingsChanged",
            AppEvent::MetadataChanged { .. } => "MetadataChanged",
            AppEvent::MarkerflagsChanged { .. } => "MarkerflagsChanged",
        }
    }
}

/// Something that can send events to the window.
pub trait EventManager {
    /// Sends the event; an error says why it could not be sent.
    fn send_event(&self, event: AppEvent) -> Result<(), String>;
}

/// Events of different kinds are sent under different names.
pub proof fn lemma_event_names_distinct(a: AppEvent, b: AppEvent)
    ensures
        event_name(a) == event_name(b) ==> (a is RecordingsChanged) == (b is RecordingsChanged)
            && (a is MetadataChanged) == (b is MetadataChanged)
            && (a is MarkerflagsChanged) == (b is MarkerflagsChanged),
{
    reveal_strlit("RecordingsChanged");
    reveal_strlit("MetadataChanged");
    reveal_strlit("MarkerflagsChanged");
    assert("RecordingsChanged"@.len() == 17 && "MetadataChanged"@.len() == 15 && "MarkerflagsChanged"@.len() == 18);
}

} // verus!
