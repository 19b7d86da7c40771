//! What the window is told when the recordings folder changes.
//!
//! The watching itself is the caller's; each change it reports comes here
//! with its kind and the paths it touched.

use vstd::prelude::*;

use crate::app::event::AppEvent;
use crate::util::{extension_of, has_extension};

verus! {

/// The kinds of changes of the folder.
#[derive(Debug, Clone, Copy, PartialEq, Eq, Structural)]
pub enum ChangeKind {
    /// A file was created.
    Create,
    /// A file was removed.
    Remove,
    /// A file got a new name (the change names the new name, or both).
    Rename,
    /// Anything else, the old name of a renamed file among it.
    Other,
}

/// A path that a change touched.
pub struct ChangedPath {
    /// The full path.
    pub path: String,
    /// Its last component, where there is one and it is valid Unicode.
    pub file_name: Option<String>,
    /// The path is the video being recorded: equal to it as a path,
    /// component by component.
    pub is_currently_recording: bool,
}

/// Whether a path counts at all: the video being recorded does not.
pub open spec fn counts(p: ChangedPath) -> bool {
    !p.is_currently_recording
}

/// Whether a path that counts is a recording (extension "mp4").
pub open spec fn is_recording_path(p: ChangedPath) -> bool {
    p.file_name matches Some(n) && extension_of(n@) == Some("mp4"@)
}

/// Whether a path that counts is a metadata file (extension "json").
pub open spec fn is_metadata_path(p: ChangedPath) -> bool {
    p.file_name matches Some(n) && extension_of(n@) == Some("json"@)
}

/// Whether any of the paths that count is a recording.
pub open spec fn touches_recordings(paths: Seq<ChangedPath>) -> bool {
    exists|i: int| 0 <= i < paths.len() && counts(paths[i]) && #[trigger] is_recording_path(paths[i])
}

/// The file names of the metadata files among the paths that count, in order.
pub open spec fn metadata_names(paths: Seq<ChangedPath>) -> Seq<Seq<char>>
    decreases paths.len(),
{
    if paths.len() == 0 {
        seq![]
    } else {
        let rest = metadata_names(paths.drop_last());
        let p = paths.last();
        if counts(p) && is_metadata_path(p) {
            rest.push(p.file_name->0@)
        } else {
            rest
        }
    }
}

/// The events for a change, as (is a recordings event, names of a metadata
/// event): for a creation, removal or renaming, the recordings changed
/// where a recording was touched, and then the metadata of the touched
/// metadata files changed where there are any; nothing for other changes.
pub open spec fn change_events(kind: ChangeKind, paths: Seq<ChangedPath>) -> Seq<Option<Seq<Seq<char>>>> {
    if kind == ChangeKind::Other {
        seq![]
    } else {
        let first: Seq<Option<Seq<Seq<char>>>> = if touches_recordings(paths) { seq![None] } else { seq![] };
        let names = metadata_names(paths);
        if names.len() > 0 {
            first.push(Some(names))
        } else {
            first
        }
    }
}

/// An event as plain values: `None` for "recordings changed", the names for
/// "metadata changed", and the empty list for "marker flags changed".
pub open spec fn event_view(e: AppEvent) -> Option<Seq<Seq<char>>> {
    match e {
        AppEvent::RecordingsChanged { .. } => None,
        AppEvent::MetadataChanged { payload } => Some(payload@.map_values(|s: String| s@)),
        AppEvent::MarkerflagsChanged { .. } => Some(seq![]),
    }
}

/// The events the window is told of for one change of the recordings
/// folder; the video being recorded is ignored.
pub fn change_notifications(kind: ChangeKind, paths: &Vec<ChangedPath>) -> (r: Vec<AppEvent>)
    ensures
        r@.map_values(|e: AppEvent| event_view(e)) == change_events(kind, paths@),
{
    let mut contains_mp4: bool = false;
    let mut names: Vec<String> = Vec::new();
    let mut i: usize = 0;
    while i < paths.len()
        invariant
            i <= paths.len(),
            contains_mp4 == touches_recordings(paths@.subrange(0, i as int)),
            names@.map_values(|s: String| s@) == metadata_names(paths@.subrange(0, i as int)),
        decreases paths.len() - i,
    {
        let p = &paths[i];
        let ghost sub = paths@.subrange(0, i + 1);
        proof {
            assert(sub.drop_last() =~= paths@.subrange(0, i as int));
            assert(sub.last() == paths@[i as int]);
        }
        if !p.is_currently_recording {
            match &p.file_name {
                Some(n) => {
                    if has_extension(n.as_str(), "mp4") {
                        contains_mp4 = true;
                    }
                    if has_extension(n.as_str(), "json") {
                        names.push(n.clone());
                        proof {
                            assert(names@.map_values(|s: String| s@) =~= metadata_names(paths@.subrange(0, i as int)).push(n@));
                        }
                    }
                },
                None => {},
            }
        }
        proof {
            let pre = paths@.subrange(0, i as int);
            if touches_recordings(pre) {
                let w = choose|w: int| 0 <= w < pre.len() && counts(pre[w]) && #[trigger] is_recording_path(pre[w]);
                assert(sub[w] == pre[w]);
                assert(touches_recordings(sub));
            }
            if touches_recordings(sub) && !touches_recordings(pre) {
                let w = choose|w: int| 0 <= w < sub.len() && counts(sub[w]) && #[trigger] is_recording_path(sub[w]);
                if w < i {
                    assert(sub[w] == pre[w]);
                    assert(is_recording_path(pre[w]));
                }
            }
            if counts(paths@[i as int]) && is_recording_path(paths@[i as int]) {
                assert(is_recording_path(sub[i as int]));
            }
        }
        i = i + 1;
    }
    assert(paths@.subrange(0, paths.len() as int) =~= paths@);
    let mut r: Vec<AppEvent> = Vec::new();
    match kind {
        ChangeKind::Other => {
            assert(r@.map_values(|e: AppEvent| event_view(e)) =~= change_events(kind, paths@));
            return r;
        },
        _ => {},
    }
    if contains_mp4 {
        r.push(AppEvent::RecordingsChanged { payload: () });
    }
    let ghost first = r@.map_values(|e: AppEvent| event_view(e));
    assert(first =~= (if touches_recordings(paths@) { seq![None] } else { Seq::<Option<Seq<Seq<char>>>>::empty() }));
    if names.len() > 0 {
        let ghost nv = names@.map_values(|s: String| s@);
        r.push(AppEvent::MetadataChanged { payload: names });
        assert(r@.map_values(|e: AppEvent| event_view(e)) =~= first.push(Some(nv)));
    }
    r
}

/// Every metadata file among the paths that count has its name in the
/// list, and every name in the list is that of such a file.
proof fn lemma_metadata_names_members(paths: Seq<ChangedPath>)
    ensures
        forall|i: int| #![trigger paths[i]] 0 <= i < paths.len() && counts(paths[i]) && is_metadata_path(paths[i])
            ==> metadata_names(paths).contains(paths[i].file_name->0@),
        forall|k: int| #![trigger metadata_names(paths)[k]] 0 <= k < metadata_names(paths).len() ==> exists|i: int| #![trigger paths[i]]
            0 <= i < paths.len() && counts(paths[i]) && is_metadata_path(paths[i])
                && paths[i].file_name->0@ == metadata_names(paths)[k],
    decreases paths.len(),
{
    if paths.len() > 0 {
        let prev = paths.drop_last();
        lemma_metadata_names_members(prev);
        let rest = metadata_names(prev);
        let names = metadata_names(paths);
        assert forall|i: int| #![trigger paths[i]] 0 <= i < paths.len() && counts(paths[i]) && is_metadata_path(paths[i])
            implies names.contains(paths[i].file_name->0@) by {
            if i < prev.len() {
                assert(prev[i] == paths[i]);
                let j = choose|j: int| 0 <= j < rest.len() && rest[j] == paths[i].file_name->0@;
                assert(names[j] == rest[j]);
            } else {
                assert(names[names.len() - 1] == paths[i].file_name->0@);
            }
        }
        assert forall|k: int| #![trigger names[k]] 0 <= k < names.len() implies exists|i: int| #![trigger paths[i]]
            0 <= i < paths.len() && counts(paths[i]) && is_metadata_path(paths[i])
                && paths[i].file_name->0@ == names[k] by {
            if k < rest.len() {
                assert(names[k] == rest[k]);
                let i = choose|i: int| #![trigger prev[i]]
                    0 <= i < prev.len() && counts(prev[i]) && is_metadata_path(prev[i])
                        && prev[i].file_name->0@ == rest[k];
                assert(prev[i] == paths[i]);
            } else {
                assert(paths[paths.len() - 1] == paths.last());
            }
        }
    }
}

/// What the window is told of a change of the recordings folder. Other
/// changes than a creation, removal or renaming tell it nothing. For a
/// creation, a removal or a renaming: a touched recording (an "mp4" file
/// that is not the video being recorded) makes the first event "recordings
/// changed", and there is such an event only then; a touched metadata file
/// (a "json" file) makes the last event "metadata changed" with its name
/// among the names, every name there being that of a touched metadata file,
/// and there is such an event only then. No change gives more than these two.
pub proof fn lemma_change_events(kind: ChangeKind, paths: Seq<ChangedPath>)
    ensures
        kind == ChangeKind::Other ==> change_events(kind, paths) == Seq::<Option<Seq<Seq<char>>>>::empty(),
        change_events(kind, paths).len() <= 2,
        forall|i: int, n: String| #![trigger paths[i], n@]
            (kind == ChangeKind::Create || kind == ChangeKind::Remove || kind == ChangeKind::Rename)
            && 0 <= i < paths.len() && !paths[i].is_currently_recording
            && paths[i].file_name == Some(n) && extension_of(n@) == Some("mp4"@)
            ==> change_events(kind, paths).len() >= 1 && change_events(kind, paths)[0] is None,
        forall|i: int, n: String| #![trigger paths[i], n@]
            (kind == ChangeKind::Create || kind == ChangeKind::Remove || kind == ChangeKind::Rename)
            && 0 <= i < paths.len() && !paths[i].is_currently_recording
            && paths[i].file_name == Some(n) && extension_of(n@) == Some("json"@)
            ==> change_events(kind, paths).len() >= 1
                && change_events(kind, paths).last() is Some
                && change_events(kind, paths).last()->0.contains(n@),
        forall|e: int| 0 <= e < change_events(kind, paths).len() && change_events(kind, paths)[e] is None
            ==> e == 0 && exists|i: int| #![trigger paths[i]] 0 <= i < paths.len() && !paths[i].is_currently_recording
                && paths[i].file_name is Some && extension_of(paths[i].file_name->0@) == Some("mp4"@),
        forall|e: int, name: Seq<char>| #![trigger change_events(kind, paths)[e]->0.contains(name)]
            0 <= e < change_events(kind, paths).len() && change_events(kind, paths)[e] is Some
            && change_events(kind, paths)[e]->0.contains(name)
            ==> exists|i: int| #![trigger paths[i]] 0 <= i < paths.len() && !paths[i].is_currently_recording
                && paths[i].file_name is Some && extension_of(paths[i].file_name->0@) == Some("json"@)
                && paths[i].file_name->0@ == name,
{
    lemma_metadata_names_members(paths);
    let ev = change_events(kind, paths);
    assert forall|i: int, n: String| #![trigger paths[i], n@]
        (kind == ChangeKind::Create || kind == ChangeKind::Remove || kind == ChangeKind::Rename)
        && 0 <= i < paths.len() && !paths[i].is_currently_recording
        && paths[i].file_name == Some(n) && extension_of(n@) == Some("mp4"@)
        implies ev.len() >= 1 && ev[0] is None by {
        assert(counts(paths[i]) && is_recording_path(paths[i]));
    }
    assert forall|i: int, n: String| #![trigger paths[i], n@]
        (kind == ChangeKind::Create || kind == ChangeKind::Remove || kind == ChangeKind::Rename)
        && 0 <= i < paths.len() && !paths[i].is_currently_recording
        && paths[i].file_name == Some(n) && extension_of(n@) == Some("json"@)
        implies ev.len() >= 1 && ev.last() is Some && ev.last()->0.contains(n@) by {
        assert(counts(paths[i]) && is_metadata_path(paths[i]));
        assert(metadata_names(paths).contains(n@));
    }
    assert forall|e: int| 0 <= e < ev.len() && ev[e] is None
        implies e == 0 && exists|i: int| #![trigger paths[i]] 0 <= i < paths.len() && !paths[i].is_currently_recording
            && paths[i].file_name is Some && extension_of(paths[i].file_name->0@) == Some("mp4"@) by {
        let i = choose|i: int| 0 <= i < paths.len() && counts(paths[i]) && #[trigger] is_recording_path(paths[i]);
    }
    assert forall|e: int, name: Seq<char>| #![trigger change_events(kind, paths)[e]->0.contains(name)]
        0 <= e < change_events(kind, paths).len() && change_events(kind, paths)[e] is Some
        && change_events(kind, paths)[e]->0.contains(name)
        implies exists|i: int| #![trigger paths[i]] 0 <= i < paths.len() && !paths[i].is_currently_recording
            && paths[i].file_name is Some && extension_of(paths[i].file_name->0@) == Some("json"@)
            && paths[i].file_name->0@ == name by {
        let names = metadata_names(paths);
        assert(change_events(kind, paths)[e]->0 == names);
        let k = choose|k: int| 0 <= k < names.len() && names[k] == name;
        let i = choose|i: int| #![trigger paths[i]] 0 <= i < paths.len() && counts(paths[i]) && is_metadata_path(paths[i])
            && paths[i].file_name->0@ == names[k];
        assert(paths[i].file_name is Some);
    }
}

} // verus!
