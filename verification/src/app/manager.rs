//! How the application reacts to its settings and to its own version: the
//! autostart entry, the log and the folder watcher after the settings were
//! edited, and the notice after an update.

use vstd::prelude::*;

use crate::state::{Settings, SettingsView};

verus! {

/// What to do about the system's autostart entry.
#[derive(Debug, Clone, Copy, PartialEq, Eq, Structural)]
pub enum AutostartAction {
    Nothing,
    Enable,
    Disable,
}

/// What brings the autostart entry in line with the setting `wanted`, given
/// whether it is enabled now (`None` where that could not be read).
pub open spec fn autostart_action_of(wanted: bool, enabled: Option<bool>) -> AutostartAction {
    match enabled {
        None => AutostartAction::Nothing,
        Some(e) => if e == wanted {
            AutostartAction::Nothing
        } else if wanted {
            AutostartAction::Enable
        } else {
            AutostartAction::Disable
        },
    }
}

/// Brings the autostart entry in line with the setting `wanted`, given
/// whether it is enabled now (`None` where that could not be read: then
/// nothing is done).
pub fn autostart_action(wanted: bool, enabled: Option<bool>) -> (r: AutostartAction)
    ensures
        r == autostart_action_of(wanted, enabled),
{
    match enabled {
        None => AutostartAction::Nothing,
        Some(e) => {
            if e == wanted {
                AutostartAction::Nothing
            } else if wanted {
                AutostartAction::Enable
            } else {
                AutostartAction::Disable
            }
        },
    }
}

/// What has to follow an edit of the settings.
#[derive(Debug, Clone, Copy, PartialEq, Eq, Structural)]
pub struct SettingsReaction {
    /// The new state of the debug log where it changed: the log is then
    /// started or stopped.
    pub debug_log: Option<bool>,
    /// The recordings folder changed: it is watched instead of the old one
    /// and the window is told that the recordings changed.
    pub recordings_folder_changed: bool,
    /// The marker flags changed: the window is told.
    pub marker_flags_changed: bool,
}

/// The reaction to settings that went from `old` to `new`, where
/// `old_log` and `new_log` say whether the debug log was and is wanted and
/// `same_folder` whether both recordings folders are the same path.
pub open spec fn settings_reaction_of(
    old: SettingsView,
    new: SettingsView,
    old_log: bool,
    new_log: bool,
    same_folder: bool,
) -> SettingsReaction {
    SettingsReaction {
        debug_log: if old_log != new_log { Some(new_log) } else { None },
        recordings_folder_changed: !same_folder,
        marker_flags_changed: old.marker_flags != new.marker_flags,
    }
}

/// What has to follow an edit of the settings from `old` to `new`; `args`
/// are the command-line arguments, which can also ask for the debug log,
/// and `same_recordings_folder` says whether the full recordings folders of
/// both settings are the same path, compared component by component.
pub fn settings_reaction(
    old: &Settings,
    new: &Settings,
    args: &Vec<String>,
    same_recordings_folder: bool,
) -> (r: SettingsReaction)
    ensures
        r == settings_reaction_of(
            old@,
            new@,
            old@.debug_log || crate::state::debug_flag_given(args@.map_values(|a: String| a@)),
            new@.debug_log || crate::state::debug_flag_given(args@.map_values(|a: String| a@)),
            same_recordings_folder,
        ),
{
    let old_log = old.debug_log(args);
    let new_log = new.debug_log(args);
    let old_flags = old.get_marker_flags();
    let new_flags = new.get_marker_flags();
    SettingsReaction {
        debug_log: if old_log != new_log { Some(new_log) } else { None },
        recordings_folder_changed: !same_recordings_folder,
        marker_flags_changed: old_flags != new_flags,
    }
}

/// Whether a text parses as a semantic version (`semver::Version::parse`).
pub uninterp spec fn is_semver(s: Seq<char>) -> bool;

/// Whether the version `a` orders before the version `b` (the order of
/// `semver::Version`).
pub uninterp spec fn semver_less(a: Seq<char>, b: Seq<char>) -> bool;

/// `semver::Version::parse(s).is_ok()`, taken as `is_semver` of the text.
#[verifier::external_body]
fn parses_as_version(s: &str) -> (r: bool)
    ensures
        r == is_semver(s@),
{
    semver::Version::parse(s).is_ok()
}

/// `<` on the two parsed versions (`semver::Version`'s order), taken as
/// `semver_less` of the two texts. Both parse.
#[verifier::external_body]
fn version_less(a: &str, b: &str) -> (r: bool)
    requires
        is_semver(a@),
        is_semver(b@),
    ensures
        r == semver_less(a@, b@),
{
    semver::Version::parse(a).unwrap() < semver::Version::parse(b).unwrap()
}

/// What reading the file that records the last version run gave.
pub enum VersionFile {
    /// There is no such file.
    Missing,
    /// It exists but could not be read.
    Unreadable,
    /// Its contents.
    Contents(String),
}

/// What is done with that file, and whether the user is told of an update.
#[derive(Debug, Clone, Copy, PartialEq, Eq, Structural)]
pub enum VersionFileAction {
    Keep,
    /// Write the current version to it.
    Write,
    /// Tell the user that the update to the current version succeeded, and
    /// write the current version to it.
    AnnounceAndWrite,
}

/// The version this program was built as does not parse.
#[derive(Debug, Clone, Copy, PartialEq, Eq, Structural)]
pub struct InvalidVersion;

/// What the file holds, as far as the decision goes.
#[derive(Debug, Clone, Copy, PartialEq, Eq, Structural)]
pub enum VersionFileState {
    Missing,
    Unreadable,
    /// It holds no version.
    NotAVersion,
    /// It holds a version; `older` says whether it orders before the current one.
    Version { older: bool },
}

/// The decision for a file in `state`: a missing file or one without a
/// version is written; an older version is announced as an update and
/// overwritten; an unreadable file or one with the current or a newer
/// version is kept. `current_valid` says whether the current version
/// parses; where a version is read and it does not, that is an error.
pub fn version_file_decision(state: VersionFileState, current_valid: bool) -> (r: Result<VersionFileAction, InvalidVersion>)
    ensures
        r == (match state {
            VersionFileState::Missing => Ok(VersionFileAction::Write),
            VersionFileState::Unreadable => Ok(VersionFileAction::Keep),
            VersionFileState::NotAVersion => Ok(VersionFileAction::Write),
            VersionFileState::Version { older } => if !current_valid {
                Err(InvalidVersion)
            } else if older {
                Ok(VersionFileAction::AnnounceAndWrite)
            } else {
                Ok(VersionFileAction::Keep)
            },
        }),
{
    match state {
        VersionFileState::Missing => Ok(VersionFileAction::Write),
        VersionFileState::Unreadable => Ok(VersionFileAction::Keep),
        VersionFileState::NotAVersion => Ok(VersionFileAction::Write),
        VersionFileState::Version { older } => {
            if !current_valid {
                Err(InvalidVersion)
            } else if older {
                Ok(VersionFileAction::AnnounceAndWrite)
            } else {
                Ok(VersionFileAction::Keep)
            }
        },
    }
}

/// The decision for the version file after reading it, for the program's
/// version `current`.
pub fn version_file_action(file: &VersionFile, current: &str) -> (r: Result<VersionFileAction, InvalidVersion>)
    ensures
        r == (match file {
            VersionFile::Missing => Ok(VersionFileAction::Write),
            VersionFile::Unreadable => Ok(VersionFileAction::Keep),
            VersionFile::Contents(v) => if !is_semver(v@) {
                Ok(VersionFileAction::Write)
            } else if !is_semver(current@) {
                Err(InvalidVersion)
            } else if semver_less(v@, current@) {
                Ok(VersionFileAction::AnnounceAndWrite)
            } else {
                Ok(VersionFileAction::Keep)
            },
        }),
{
    let current_valid = parses_as_version(current);
    let state = match file {
        VersionFile::Missing => VersionFileState::Missing,
        VersionFile::Unreadable => VersionFileState::Unreadable,
        VersionFile::Contents(v) => {
            if !parses_as_version(v.as_str()) {
                VersionFileState::NotAVersion
            } else if !current_valid {
                VersionFileState::Version { older: false }
            } else {
                VersionFileState::Version { older: version_less(v.as_str(), current) }
            }
        },
    };
    version_file_decision(state, current_valid)
}

/// The reaction to an edit of the settings brings the debug log to the
/// state the new settings and the command line want: where the edit turns
/// the setting on or off and the command line does not ask for the log,
/// the log is started or stopped accordingly; where the command line asks
/// for it, or the setting is unchanged, the log is left as it is. In every
/// case the log's state after the reaction is the wanted one. The watcher
/// follows the recordings folder exactly when it changed, and the window
/// hears of the marker flags exactly when they changed.
pub proof fn lemma_settings_reaction_log(old: SettingsView, new: SettingsView, args: Seq<Seq<char>>, same_folder: bool)
    ensures
        ({
            let old_log = old.debug_log || crate::state::debug_flag_given(args);
            let new_log = new.debug_log || crate::state::debug_flag_given(args);
            let r = settings_reaction_of(old, new, old_log, new_log, same_folder);
            &&& !crate::state::debug_flag_given(args) && !old.debug_log && new.debug_log ==> r.debug_log == Some(true)
            &&& !crate::state::debug_flag_given(args) && old.debug_log && !new.debug_log ==> r.debug_log == Some(false)
            &&& crate::state::debug_flag_given(args) || old.debug_log == new.debug_log ==> r.debug_log is None
            &&& (match r.debug_log {
                Some(on) => on,
                None => old_log,
            }) == new_log
            &&& r.recordings_folder_changed == !same_folder
            &&& r.marker_flags_changed == (old.marker_flags != new.marker_flags)
        }),
{
}

/// The autostart entry ends up as the setting wants it: where its state
/// could be read, enabling it when it is off and disabling it when it is
/// on brings it to the wanted state, and an entry already in that state is
/// left alone; where it could not be read, nothing is done.
pub proof fn lemma_autostart_reaches_wanted(wanted: bool, enabled: bool)
    ensures
        ({
            let after = match autostart_action_of(wanted, Some(enabled)) {
                AutostartAction::Enable => true,
                AutostartAction::Disable => false,
                AutostartAction::Nothing => enabled,
            };
            after == wanted
        }),
        enabled == wanted ==> autostart_action_of(wanted, Some(enabled)) == AutostartAction::Nothing,
        autostart_action_of(wanted, None) == AutostartAction::Nothing,
{
}

} // verus!
