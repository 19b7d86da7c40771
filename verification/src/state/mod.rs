//! The application's state: the settings and their file format, and the
//! small shared records (what is being recorded, the tray's state, whether
//! the application shuts down).

pub mod currently_recording;
pub mod media;
pub mod shutdown;
pub mod tray_state;

use vstd::prelude::*;

use crate::json::{
    as_bool, as_opt_positive, as_string, as_u32, lookup, opt_u64_value, spec_as_bool, spec_as_opt_positive, spec_as_str,
    spec_as_u32, string_value, JsonNumber, JsonValue,
};
use crate::state::media::{
    as_audio_source, as_framerate, as_resolution, framerate_value, spec_as_audio_source, spec_as_framerate,
    spec_as_resolution, AudioSource, Framerate, StdResolution,
};
use crate::text::str_eq;

pub use crate::state::currently_recording::CurrentlyRecording;
pub use crate::state::shutdown::Shutdown;
pub use crate::state::tray_state::TrayState;

verus! {

/// The path of the settings file.
pub struct SettingsFile(String);

impl SettingsFile {
    pub closed spec fn path(&self) -> Seq<char> {
        self.0@
    }

    pub fn new(pathbuf: String) -> (r: Self)
        ensures
            r.path() == pathbuf@,
    {
        Self(pathbuf)
    }

    pub fn get(&self) -> (r: &str)
        ensures
            r@ == self.path(),
    {
        self.0.as_str()
    }
}

/// Which kinds of events the timeline of a recording shows by default.
#[derive(Clone, Copy, Debug, PartialEq, Eq, Structural)]
pub struct MarkerFlags {
    pub kill: bool,
    pub death: bool,
    pub assist: bool,
    pub turret: bool,
    pub inhibitor: bool,
    pub dragon: bool,
    pub herald: bool,
    pub baron: bool,
}

/// All markers shown.
pub open spec fn default_marker_flags() -> MarkerFlags {
    MarkerFlags {
        kill: true,
        death: true,
        assist: true,
        turret: true,
        inhibitor: true,
        dragon: true,
        herald: true,
        baron: true,
    }
}

/// A marker flag read from the entries: the last entry of that name if it
/// is a boolean, and `true` when it is missing or not a boolean.
pub open spec fn flag_of(entries: Seq<(String, JsonValue)>, key: Seq<char>) -> bool {
    match lookup(entries, key) {
        Some(v) => match spec_as_bool(v) {
            Some(b) => b,
            None => true,
        },
        None => true,
    }
}

/// The marker flags an object's entries give; other entries are ignored.
pub open spec fn marker_flags_of(entries: Seq<(String, JsonValue)>) -> MarkerFlags {
    MarkerFlags {
        kill: flag_of(entries, "kill"@),
        death: flag_of(entries, "death"@),
        assist: flag_of(entries, "assist"@),
        turret: flag_of(entries, "turret"@),
        inhibitor: flag_of(entries, "inhibitor"@),
        dragon: flag_of(entries, "dragon"@),
        herald: flag_of(entries, "herald"@),
        baron: flag_of(entries, "baron"@),
    }
}

/// The marker flags a JSON value gives: from an object its entries, and the
/// defaults from anything else. Reading never fails.
pub open spec fn marker_flags_from_json(v: JsonValue) -> MarkerFlags {
    match v {
        JsonValue::Object(es) => marker_flags_of(es@),
        _ => default_marker_flags(),
    }
}

/// The names of the marker flags differ from each other.
pub proof fn lemma_marker_keys_distinct()
    ensures
        "kill"@ != "death"@, "kill"@ != "assist"@, "kill"@ != "turret"@, "kill"@ != "inhibitor"@,
        "kill"@ != "dragon"@, "kill"@ != "herald"@, "kill"@ != "baron"@,
        "death"@ != "assist"@, "death"@ != "turret"@, "death"@ != "inhibitor"@, "death"@ != "dragon"@,
        "death"@ != "herald"@, "death"@ != "baron"@,
        "assist"@ != "turret"@, "assist"@ != "inhibitor"@, "assist"@ != "dragon"@, "assist"@ != "herald"@,
        "assist"@ != "baron"@,
        "turret"@ != "inhibitor"@, "turret"@ != "dragon"@, "turret"@ != "herald"@, "turret"@ != "baron"@,
        "inhibitor"@ != "dragon"@, "inhibitor"@ != "herald"@, "inhibitor"@ != "baron"@,
        "dragon"@ != "herald"@, "dragon"@ != "baron"@,
        "herald"@ != "baron"@,
{
    reveal_strlit("kill");
    reveal_strlit("death");
    reveal_strlit("assist");
    reveal_strlit("turret");
    reveal_strlit("inhibitor");
    reveal_strlit("dragon");
    reveal_strlit("herald");
    reveal_strlit("baron");
    assert("kill"@[0] == 'k');
    assert("death"@[0] == 'd' && "death"@[1] == 'e');
    assert("assist"@[0] == 'a');
    assert("turret"@[0] == 't');
    assert("inhibitor"@[0] == 'i');
    assert("dragon"@[0] == 'd' && "dragon"@[1] == 'r');
    assert("herald"@[0] == 'h');
    assert("baron"@[0] == 'b');
}

fn flag_value(v: &JsonValue) -> (r: bool)
    ensures
        r == match spec_as_bool(*v) {
            Some(b) => b,
            None => true,
        },
{
    match as_bool(v) {
        Some(b) => b,
        None => true,
    }
}

impl MarkerFlags {
    /// All markers shown.
    pub fn default() -> (r: MarkerFlags)
        ensures
            r == default_marker_flags(),
    {
        MarkerFlags {
            kill: true,
            death: true,
            assist: true,
            turret: true,
            inhibitor: true,
            dragon: true,
            herald: true,
            baron: true,
        }
    }

    /// Reads the marker flags from a JSON value: each flag from the last
    /// entry of its name if that is a boolean, `true` otherwise; other
    /// entries are ignored, and anything but an object gives the defaults.
    pub fn from_json(v: &JsonValue) -> (r: MarkerFlags)
        ensures
            r == marker_flags_from_json(*v),
    {
        match v {
            JsonValue::Object(es) => {
                let mut flags = MarkerFlags::default();
                let mut i: usize = 0;
                while i < es.len()
                    invariant
                        i <= es@.len(),
                        flags == marker_flags_of(es@.take(i as int)),
                    decreases es.len() - i,
                {
                    let key = es[i].0.as_str();
                    let value = &es[i].1;
                    proof {
                        crate::json::lemma_lookup_take(es@, i as int);
                        lemma_marker_keys_distinct();
                    }
                    if str_eq(key, "kill") {
                        flags.kill = flag_value(value);
                    } else if str_eq(key, "death") {
                        flags.death = flag_value(value);
                    } else if str_eq(key, "assist") {
                        flags.assist = flag_value(value);
                    } else if str_eq(key, "turret") {
                        flags.turret = flag_value(value);
                    } else if str_eq(key, "inhibitor") {
                        flags.inhibitor = flag_value(value);
                    } else if str_eq(key, "dragon") {
                        flags.dragon = flag_value(value);
                    } else if str_eq(key, "herald") {
                        flags.herald = flag_value(value);
                    } else if str_eq(key, "baron") {
                        flags.baron = flag_value(value);
                    }
                    i = i + 1;
                }
                assert(es@.take(es@.len() as int) =~= es@);
                flags
            },
            _ => MarkerFlags::default(),
        }
    }

    /// The JSON form of the marker flags: an object with one boolean entry
    /// per flag; reading it back gives the same flags.
    pub fn to_json(&self) -> (r: JsonValue)
        ensures
            marker_flags_from_json(r) == *self,
            r is Object,
    {
        let mut es: Vec<(String, JsonValue)> = Vec::new();
        es.push((String::from_str("kill"), JsonValue::Bool(self.kill)));
        es.push((String::from_str("death"), JsonValue::Bool(self.death)));
        es.push((String::from_str("assist"), JsonValue::Bool(self.assist)));
        es.push((String::from_str("turret"), JsonValue::Bool(self.turret)));
        es.push((String::from_str("inhibitor"), JsonValue::Bool(self.inhibitor)));
        es.push((String::from_str("dragon"), JsonValue::Bool(self.dragon)));
        es.push((String::from_str("herald"), JsonValue::Bool(self.herald)));
        es.push((String::from_str("baron"), JsonValue::Bool(self.baron)));
        proof {
            lemma_marker_keys_distinct();
            let e = es@;
            crate::json::lemma_lookup_last_occurrence(e, 0, "kill"@);
            crate::json::lemma_lookup_last_occurrence(e, 1, "death"@);
            crate::json::lemma_lookup_last_occurrence(e, 2, "assist"@);
            crate::json::lemma_lookup_last_occurrence(e, 3, "turret"@);
            crate::json::lemma_lookup_last_occurrence(e, 4, "inhibitor"@);
            crate::json::lemma_lookup_last_occurrence(e, 5, "dragon"@);
            crate::json::lemma_lookup_last_occurrence(e, 6, "herald"@);
            crate::json::lemma_lookup_last_occurrence(e, 7, "baron"@);
        }
        JsonValue::Object(es)
    }
}

} // verus!

verus! {

/// What the settings hold, as plain values.
pub ghost struct SettingsView {
    pub marker_flags: MarkerFlags,
    pub check_for_updates: bool,
    pub debug_log: bool,
    pub recordings_folder: Seq<char>,
    pub filename_format: Seq<char>,
    pub encoding_quality: u32,
    pub output_resolution: Option<StdResolution>,
    pub framerate: Framerate,
    pub record_audio: AudioSource,
    pub only_record_ranked: bool,
    pub autostart: bool,
    pub max_recording_age: Option<u64>,
    pub max_recordings_size: Option<u64>,
}

/// The settings a missing or unreadable settings file gives.
pub open spec fn default_settings() -> SettingsView {
    SettingsView {
        marker_flags: default_marker_flags(),
        check_for_updates: true,
        debug_log: false,
        recordings_folder: "league_recordings"@,
        filename_format: "%Y-%m-%d_%H-%M.mp4"@,
        encoding_quality: 30,
        output_resolution: None,
        framerate: Framerate { num: 30, den: 1 },
        record_audio: AudioSource::APPLICATION,
        only_record_ranked: false,
        autostart: false,
        max_recording_age: None,
        max_recordings_size: None,
    }
}

/// A setting read from the entries: the value of the last entry of that
/// name if `read` accepts it, the default if the entry is missing or invalid.
pub open spec fn read_or<T>(entries: Seq<(String, JsonValue)>, key: Seq<char>, read: spec_fn(JsonValue) -> Option<T>, default: T) -> T {
    match lookup(entries, key) {
        Some(v) => match read(v) {
            Some(x) => x,
            None => default,
        },
        None => default,
    }
}

/// An encoding quality: an integer from 0 to 50.
pub open spec fn spec_as_quality(v: JsonValue) -> Option<u32> {
    match spec_as_u32(v) {
        Some(q) => if q <= 50 { Some(q) } else { None },
        None => None,
    }
}

fn as_quality(v: &JsonValue) -> (r: Option<u32>)
    ensures
        r == spec_as_quality(*v),
{
    match as_u32(v) {
        Some(q) => if q <= 50 { Some(q) } else { None },
        None => None,
    }
}

/// The values the settings can hold: an encoding quality up to 50, a frame
/// rate with positive numerator and denominator, and limits that are
/// positive where there are any.
pub open spec fn settings_valid(s: SettingsView) -> bool {
    &&& s.encoding_quality <= 50
    &&& s.framerate.num > 0
    &&& s.framerate.den > 0
    &&& s.max_recording_age != Some(0u64)
    &&& s.max_recordings_size != Some(0u64)
}

/// The settings an object's entries give: each setting from the last entry
/// of its name when that holds a valid value, its default otherwise; other
/// entries are ignored.
pub open spec fn settings_of(es: Seq<(String, JsonValue)>) -> SettingsView {
    let d = default_settings();
    SettingsView {
        marker_flags: match lookup(es, "markerFlags"@) {
            Some(v) => marker_flags_from_json(v),
            None => d.marker_flags,
        },
        check_for_updates: read_or(es, "checkForUpdates"@, |v: JsonValue| spec_as_bool(v), d.check_for_updates),
        debug_log: read_or(es, "debugLog"@, |v: JsonValue| spec_as_bool(v), d.debug_log),
        recordings_folder: read_or(es, "recordingsFolder"@, |v: JsonValue| spec_as_str(v), d.recordings_folder),
        filename_format: read_or(es, "filenameFormat"@, |v: JsonValue| spec_as_str(v), d.filename_format),
        encoding_quality: read_or(es, "encodingQuality"@, |v: JsonValue| spec_as_quality(v), d.encoding_quality),
        output_resolution: match lookup(es, "outputResolution"@) {
            Some(v) => spec_as_resolution(v),
            None => d.output_resolution,
        },
        framerate: read_or(es, "outputFramerate"@, |v: JsonValue| spec_as_framerate(v), d.framerate),
        record_audio: read_or(es, "recordAudio"@, |v: JsonValue| spec_as_audio_source(v), d.record_audio),
        only_record_ranked: read_or(es, "onlyRecordRanked"@, |v: JsonValue| spec_as_bool(v), d.only_record_ranked),
        autostart: read_or(es, "autostart"@, |v: JsonValue| spec_as_bool(v), d.autostart),
        max_recording_age: read_or(es, "maxRecordingAgeDays"@, |v: JsonValue| spec_as_opt_positive(v), d.max_recording_age),
        max_recordings_size: read_or(es, "maxRecordingsSizeGb"@, |v: JsonValue| spec_as_opt_positive(v), d.max_recordings_size),
    }
}

/// The settings a JSON value gives; anything but an object gives the defaults.
pub open spec fn settings_from_json(v: JsonValue) -> SettingsView {
    match v {
        JsonValue::Object(es) => settings_of(es@),
        _ => default_settings(),
    }
}

/// The position of a setting's name in the settings file (13 for an unknown name).
pub open spec fn setting_index(k: Seq<char>) -> int {
    if k == "markerFlags"@ {
        0
    } else if k == "checkForUpdates"@ {
        1
    } else if k == "debugLog"@ {
        2
    } else if k == "recordingsFolder"@ {
        3
    } else if k == "filenameFormat"@ {
        4
    } else if k == "encodingQuality"@ {
        5
    } else if k == "outputResolution"@ {
        6
    } else if k == "outputFramerate"@ {
        7
    } else if k == "recordAudio"@ {
        8
    } else if k == "onlyRecordRanked"@ {
        9
    } else if k == "autostart"@ {
        10
    } else if k == "maxRecordingAgeDays"@ {
        11
    } else if k == "maxRecordingsSizeGb"@ {
        12
    } else {
        13
    }
}

fn setting_index_of(key: &str) -> (r: u8)
    ensures
        r == setting_index(key@),
{
    if str_eq(key, "markerFlags") {
        0
    } else if str_eq(key, "checkForUpdates") {
        1
    } else if str_eq(key, "debugLog") {
        2
    } else if str_eq(key, "recordingsFolder") {
        3
    } else if str_eq(key, "filenameFormat") {
        4
    } else if str_eq(key, "encodingQuality") {
        5
    } else if str_eq(key, "outputResolution") {
        6
    } else if str_eq(key, "outputFramerate") {
        7
    } else if str_eq(key, "recordAudio") {
        8
    } else if str_eq(key, "onlyRecordRanked") {
        9
    } else if str_eq(key, "autostart") {
        10
    } else if str_eq(key, "maxRecordingAgeDays") {
        11
    } else if str_eq(key, "maxRecordingsSizeGb") {
        12
    } else {
        13
    }
}

/// The settings after reading one more entry named `k` with value `v`: the
/// setting of that name takes the value (or its default when the value is
/// invalid); an unknown name changes nothing.
pub open spec fn apply_setting(s: SettingsView, k: Seq<char>, v: JsonValue) -> SettingsView {
    let d = default_settings();
    if k == "markerFlags"@ {
        SettingsView { marker_flags: marker_flags_from_json(v), ..s }
    } else if k == "checkForUpdates"@ {
        SettingsView { check_for_updates: match spec_as_bool(v) { Some(b) => b, None => d.check_for_updates }, ..s }
    } else if k == "debugLog"@ {
        SettingsView { debug_log: match spec_as_bool(v) { Some(b) => b, None => d.debug_log }, ..s }
    } else if k == "recordingsFolder"@ {
        SettingsView { recordings_folder: match spec_as_str(v) { Some(x) => x, None => d.recordings_folder }, ..s }
    } else if k == "filenameFormat"@ {
        SettingsView { filename_format: match spec_as_str(v) { Some(x) => x, None => d.filename_format }, ..s }
    } else if k == "encodingQuality"@ {
        SettingsView { encoding_quality: match spec_as_quality(v) { Some(x) => x, None => d.encoding_quality }, ..s }
    } else if k == "outputResolution"@ {
        SettingsView { output_resolution: spec_as_resolution(v), ..s }
    } else if k == "outputFramerate"@ {
        SettingsView { framerate: match spec_as_framerate(v) { Some(x) => x, None => d.framerate }, ..s }
    } else if k == "recordAudio"@ {
        SettingsView { record_audio: match spec_as_audio_source(v) { Some(x) => x, None => d.record_audio }, ..s }
    } else if k == "onlyRecordRanked"@ {
        SettingsView { only_record_ranked: match spec_as_bool(v) { Some(b) => b, None => d.only_record_ranked }, ..s }
    } else if k == "autostart"@ {
        SettingsView { autostart: match spec_as_bool(v) { Some(b) => b, None => d.autostart }, ..s }
    } else if k == "maxRecordingAgeDays"@ {
        SettingsView { max_recording_age: match spec_as_opt_positive(v) { Some(x) => x, None => d.max_recording_age }, ..s }
    } else if k == "maxRecordingsSizeGb"@ {
        SettingsView { max_recordings_size: match spec_as_opt_positive(v) { Some(x) => x, None => d.max_recordings_size }, ..s }
    } else {
        s
    }
}


/// The settings after the setting at position `i` read the value `v`.
pub open spec fn apply_setting_at(s: SettingsView, i: int, v: JsonValue) -> SettingsView {
    let d = default_settings();
    if i == 0 {
        SettingsView { marker_flags: marker_flags_from_json(v), ..s }
    } else if i == 1 {
        SettingsView { check_for_updates: match spec_as_bool(v) { Some(b) => b, None => d.check_for_updates }, ..s }
    } else if i == 2 {
        SettingsView { debug_log: match spec_as_bool(v) { Some(b) => b, None => d.debug_log }, ..s }
    } else if i == 3 {
        SettingsView { recordings_folder: match spec_as_str(v) { Some(x) => x, None => d.recordings_folder }, ..s }
    } else if i == 4 {
        SettingsView { filename_format: match spec_as_str(v) { Some(x) => x, None => d.filename_format }, ..s }
    } else if i == 5 {
        SettingsView { encoding_quality: match spec_as_quality(v) { Some(x) => x, None => d.encoding_quality }, ..s }
    } else if i == 6 {
        SettingsView { output_resolution: spec_as_resolution(v), ..s }
    } else if i == 7 {
        SettingsView { framerate: match spec_as_framerate(v) { Some(x) => x, None => d.framerate }, ..s }
    } else if i == 8 {
        SettingsView { record_audio: match spec_as_audio_source(v) { Some(x) => x, None => d.record_audio }, ..s }
    } else if i == 9 {
        SettingsView { only_record_ranked: match spec_as_bool(v) { Some(b) => b, None => d.only_record_ranked }, ..s }
    } else if i == 10 {
        SettingsView { autostart: match spec_as_bool(v) { Some(b) => b, None => d.autostart }, ..s }
    } else if i == 11 {
        SettingsView { max_recording_age: match spec_as_opt_positive(v) { Some(x) => x, None => d.max_recording_age }, ..s }
    } else if i == 12 {
        SettingsView { max_recordings_size: match spec_as_opt_positive(v) { Some(x) => x, None => d.max_recordings_size }, ..s }
    } else {
        s
    }
}


/// Finding a setting by its name or by its position gives the same update.
#[verifier::rlimit(100)]
pub proof fn lemma_apply_setting_index(s: SettingsView, k: Seq<char>, v: JsonValue)
    ensures
        apply_setting(s, k, v) == apply_setting_at(s, setting_index(k), v),
{
    lemma_settings_keys_distinct();
}

/// Reading the entries one by one: one more entry updates the settings read so far.
pub proof fn lemma_settings_of_take(es: Seq<(String, JsonValue)>, i: int)
    requires
        0 <= i < es.len(),
    ensures
        settings_of(es.take(i + 1)) == apply_setting(settings_of(es.take(i)), es[i].0@, es[i].1),
{
    let k = es[i].0@;
    lemma_apply_setting_index(settings_of(es.take(i)), k, es[i].1);
    lemma_settings_of_take_at(es, i, setting_index(k));
}

#[verifier::spinoff_prover]
#[verifier::rlimit(100)]
proof fn lemma_settings_of_take_at(es: Seq<(String, JsonValue)>, i: int, idx: int)
    requires
        0 <= i < es.len(),
        idx == setting_index(es[i].0@),
    ensures
        settings_of(es.take(i + 1)) == apply_setting_at(settings_of(es.take(i)), idx, es[i].1),
{
    let k = es[i].0@;
    crate::json::lemma_lookup_take(es, i);
    lemma_settings_keys_distinct();
    if idx == 0 {
        assert(k == "markerFlags"@);
    } else if idx == 1 {
        assert(k == "checkForUpdates"@);
    } else if idx == 2 {
        assert(k == "debugLog"@);
    } else if idx == 3 {
        assert(k == "recordingsFolder"@);
    } else if idx == 4 {
        assert(k == "filenameFormat"@);
    } else if idx == 5 {
        assert(k == "encodingQuality"@);
    } else if idx == 6 {
        assert(k == "outputResolution"@);
    } else if idx == 7 {
        assert(k == "outputFramerate"@);
    } else if idx == 8 {
        assert(k == "recordAudio"@);
    } else if idx == 9 {
        assert(k == "onlyRecordRanked"@);
    } else if idx == 10 {
        assert(k == "autostart"@);
    } else if idx == 11 {
        assert(k == "maxRecordingAgeDays"@);
    } else if idx == 12 {
        assert(k == "maxRecordingsSizeGb"@);
    }
}

/// The names of the settings differ from each other.
pub proof fn lemma_settings_keys_distinct()
    ensures
        "markerFlags"@ != "checkForUpdates"@,
        "markerFlags"@ != "debugLog"@,
        "markerFlags"@ != "recordingsFolder"@,
        "markerFlags"@ != "filenameFormat"@,
        "markerFlags"@ != "encodingQuality"@,
        "markerFlags"@ != "outputResolution"@,
        "markerFlags"@ != "outputFramerate"@,
        "markerFlags"@ != "recordAudio"@,
        "markerFlags"@ != "onlyRecordRanked"@,
        "markerFlags"@ != "autostart"@,
        "markerFlags"@ != "maxRecordingAgeDays"@,
        "markerFlags"@ != "maxRecordingsSizeGb"@,
        "checkForUpdates"@ != "debugLog"@,
        "checkForUpdates"@ != "recordingsFolder"@,
        "checkForUpdates"@ != "filenameFormat"@,
        "checkForUpdates"@ != "encodingQuality"@,
        "checkForUpdates"@ != "outputResolution"@,
        "checkForUpdates"@ != "outputFramerate"@,
        "checkForUpdates"@ != "recordAudio"@,
        "checkForUpdates"@ != "onlyRecordRanked"@,
        "checkForUpdates"@ != "autostart"@,
        "checkForUpdates"@ != "maxRecordingAgeDays"@,
        "checkForUpdates"@ != "maxRecordingsSizeGb"@,
        "debugLog"@ != "recordingsFolder"@,
        "debugLog"@ != "filenameFormat"@,
        "debugLog"@ != "encodingQuality"@,
        "debugLog"@ != "outputResolution"@,
        "debugLog"@ != "outputFramerate"@,
        "debugLog"@ != "recordAudio"@,
        "debugLog"@ != "onlyRecordRanked"@,
        "debugLog"@ != "autostart"@,
        "debugLog"@ != "maxRecordingAgeDays"@,
        "debugLog"@ != "maxRecordingsSizeGb"@,
        "recordingsFolder"@ != "filenameFormat"@,
        "recordingsFolder"@ != "encodingQuality"@,
        "recordingsFolder"@ != "outputResolution"@,
        "recordingsFolder"@ != "outputFramerate"@,
        "recordingsFolder"@ != "recordAudio"@,
        "recordingsFolder"@ != "onlyRecordRanked"@,
        "recordingsFolder"@ != "autostart"@,
        "recordingsFolder"@ != "maxRecordingAgeDays"@,
        "recordingsFolder"@ != "maxRecordingsSizeGb"@,
        "filenameFormat"@ != "encodingQuality"@,
        "filenameFormat"@ != "outputResolution"@,
        "filenameFormat"@ != "outputFramerate"@,
        "filenameFormat"@ != "recordAudio"@,
        "filenameFormat"@ != "onlyRecordRanked"@,
        "filenameFormat"@ != "autostart"@,
        "filenameFormat"@ != "maxRecordingAgeDays"@,
        "filenameFormat"@ != "maxRecordingsSizeGb"@,
        "encodingQuality"@ != "outputResolution"@,
        "encodingQuality"@ != "outputFramerate"@,
        "encodingQuality"@ != "recordAudio"@,
        "encodingQuality"@ != "onlyRecordRanked"@,
        "encodingQuality"@ != "autostart"@,
        "encodingQuality"@ != "maxRecordingAgeDays"@,
        "encodingQuality"@ != "maxRecordingsSizeGb"@,
        "outputResolution"@ != "outputFramerate"@,
        "outputResolution"@ != "recordAudio"@,
        "outputResolution"@ != "onlyRecordRanked"@,
        "outputResolution"@ != "autostart"@,
        "outputResolution"@ != "maxRecordingAgeDays"@,
        "outputResolution"@ != "maxRecordingsSizeGb"@,
        "outputFramerate"@ != "recordAudio"@,
        "outputFramerate"@ != "onlyRecordRanked"@,
        "outputFramerate"@ != "autostart"@,
        "outputFramerate"@ != "maxRecordingAgeDays"@,
        "outputFramerate"@ != "maxRecordingsSizeGb"@,
        "recordAudio"@ != "onlyRecordRanked"@,
        "recordAudio"@ != "autostart"@,
        "recordAudio"@ != "maxRecordingAgeDays"@,
        "recordAudio"@ != "maxRecordingsSizeGb"@,
        "onlyRecordRanked"@ != "autostart"@,
        "onlyRecordRanked"@ != "maxRecordingAgeDays"@,
        "onlyRecordRanked"@ != "maxRecordingsSizeGb"@,
        "autostart"@ != "maxRecordingAgeDays"@,
        "autostart"@ != "maxRecordingsSizeGb"@,
        "maxRecordingAgeDays"@ != "maxRecordingsSizeGb"@,
{
    reveal_strlit("markerFlags");
    reveal_strlit("checkForUpdates");
    reveal_strlit("debugLog");
    reveal_strlit("recordingsFolder");
    reveal_strlit("filenameFormat");
    reveal_strlit("encodingQuality");
    reveal_strlit("outputResolution");
    reveal_strlit("outputFramerate");
    reveal_strlit("recordAudio");
    reveal_strlit("onlyRecordRanked");
    reveal_strlit("autostart");
    reveal_strlit("maxRecordingAgeDays");
    reveal_strlit("maxRecordingsSizeGb");
    assert("markerFlags"@[0] == 'm' && "markerFlags"@[2] == 'r');
    assert("checkForUpdates"@[0] == 'c');
    assert("debugLog"@[0] == 'd');
    assert("recordingsFolder"@[0] == 'r' && "recordingsFolder"@[6] == 'i');
    assert("filenameFormat"@[0] == 'f' && "filenameFormat"@[1] == 'i');
    assert("encodingQuality"@[0] == 'e');
    assert("outputResolution"@[0] == 'o' && "outputResolution"@[1] == 'u' && "outputResolution"@[6] == 'R');
    assert("outputFramerate"@[0] == 'o' && "outputFramerate"@[1] == 'u' && "outputFramerate"@[6] == 'F');
    assert("recordAudio"@[0] == 'r' && "recordAudio"@[6] == 'A');
    assert("onlyRecordRanked"@[0] == 'o' && "onlyRecordRanked"@[1] == 'n');
    assert("autostart"@[0] == 'a');
    assert("maxRecordingAgeDays"@[0] == 'm' && "maxRecordingAgeDays"@[2] == 'x' && "maxRecordingAgeDays"@[12] == 'A');
    assert("maxRecordingsSizeGb"@[0] == 'm' && "maxRecordingsSizeGb"@[2] == 'x' && "maxRecordingsSizeGb"@[12] == 's');
}

/// The application's settings.
pub struct Settings {
    marker_flags: MarkerFlags,
    check_for_updates: bool,
    debug_log: bool,
    recordings_folder: String,
    filename_format: String,
    encoding_quality: u32,
    output_resolution: Option<StdResolution>,
    framerate: Framerate,
    record_audio: AudioSource,
    only_record_ranked: bool,
    autostart: bool,
    max_recording_age: Option<u64>,
    max_recordings_size: Option<u64>,
}

impl View for Settings {
    type V = SettingsView;

    closed spec fn view(&self) -> SettingsView {
        SettingsView {
            marker_flags: self.marker_flags,
            check_for_updates: self.check_for_updates,
            debug_log: self.debug_log,
            recordings_folder: self.recordings_folder@,
            filename_format: self.filename_format@,
            encoding_quality: self.encoding_quality,
            output_resolution: self.output_resolution,
            framerate: self.framerate,
            record_audio: self.record_audio,
            only_record_ranked: self.only_record_ranked,
            autostart: self.autostart,
            max_recording_age: self.max_recording_age,
            max_recordings_size: self.max_recordings_size,
        }
    }
}

impl Settings {
    #[verifier::type_invariant]
    spec fn holds_valid_values(self) -> bool {
        settings_valid(self@)
    }
}

/// The folder the recordings go to by default (below the system's video folder).
pub fn default_recordings_folder() -> (r: String)
    ensures
        r@ == "league_recordings"@,
{
    String::from_str("league_recordings")
}

/// The default name pattern of a new recording (a date-time format).
pub fn default_filename_format() -> (r: String)
    ensures
        r@ == "%Y-%m-%d_%H-%M.mp4"@,
{
    String::from_str("%Y-%m-%d_%H-%M.mp4")
}

/// 30 frames per second.
pub fn default_framerate() -> (r: Framerate)
    ensures
        r == (Framerate { num: 30, den: 1 }),
{
    Framerate::new(30, 1)
}

/// Whether the command line asks for debug logging ("-d" or "--debug").
pub open spec fn debug_flag_given(args: Seq<Seq<char>>) -> bool {
    exists|i: int| 0 <= i < args.len() && (args[i] == "-d"@ || args[i] == "--debug"@)
}

impl Settings {
    /// The default settings.
    pub fn default() -> (r: Settings)
        ensures
            r@ == default_settings(),
    {
        Settings {
            marker_flags: MarkerFlags::default(),
            check_for_updates: true,
            debug_log: false,
            recordings_folder: default_recordings_folder(),
            filename_format: default_filename_format(),
            encoding_quality: 30,
            output_resolution: None,
            framerate: default_framerate(),
            record_audio: AudioSource::APPLICATION,
            only_record_ranked: false,
            autostart: false,
            max_recording_age: None,
            max_recordings_size: None,
        }
    }

    /// Takes one entry of the settings file into account.
    #[verifier::spinoff_prover]
    #[verifier::rlimit(100)]
    pub fn apply_entry(&mut self, key: &str, value: &JsonValue)
        ensures
            final(self)@ == apply_setting(old(self)@, key@, *value),
    {
        let idx = setting_index_of(key);
        proof {
            lemma_apply_setting_index(self@, key@, *value);
        }
        self.apply_at(idx, value);
    }

    fn apply_at(&mut self, idx: u8, value: &JsonValue)
        requires
            idx <= 13,
        ensures
            final(self)@ == apply_setting_at(old(self)@, idx as int, *value),
    {
        if idx <= 3 {
            self.apply_at_0_3(idx, value);
        } else if idx <= 7 {
            self.apply_at_4_7(idx, value);
        } else if idx <= 10 {
            self.apply_at_8_10(idx, value);
        } else {
            self.apply_at_11_13(idx, value);
        }
    }

    #[verifier::spinoff_prover]
    fn apply_at_0_3(&mut self, idx: u8, value: &JsonValue)
        requires
            0 <= idx <= 3,
        ensures
            final(self)@ == apply_setting_at(old(self)@, idx as int, *value),
    {
        proof {
            use_type_invariant(&*self);
        }
        if idx == 0 {
            self.marker_flags = MarkerFlags::from_json(value);
        } else if idx == 1 {
            self.check_for_updates = match as_bool(value) { Some(b) => b, None => true };
        } else if idx == 2 {
            self.debug_log = match as_bool(value) { Some(b) => b, None => false };
        } else if idx == 3 {
            self.recordings_folder = match as_string(value) { Some(s) => s, None => default_recordings_folder() };
        }
    }

    #[verifier::spinoff_prover]
    fn apply_at_4_7(&mut self, idx: u8, value: &JsonValue)
        requires
            4 <= idx <= 7,
        ensures
            final(self)@ == apply_setting_at(old(self)@, idx as int, *value),
    {
        proof {
            use_type_invariant(&*self);
        }
        if idx == 4 {
            self.filename_format = match as_string(value) { Some(s) => s, None => default_filename_format() };
        } else if idx == 5 {
            self.encoding_quality = match as_quality(value) { Some(q) => q, None => 30 };
        } else if idx == 6 {
            self.output_resolution = as_resolution(value);
        } else if idx == 7 {
            self.framerate = match as_framerate(value) { Some(f) => f, None => default_framerate() };
        }
    }

    #[verifier::spinoff_prover]
    fn apply_at_8_10(&mut self, idx: u8, value: &JsonValue)
        requires
            8 <= idx <= 10,
        ensures
            final(self)@ == apply_setting_at(old(self)@, idx as int, *value),
    {
        proof {
            use_type_invariant(&*self);
        }
        if idx == 8 {
            self.record_audio = match as_audio_source(value) { Some(a) => a, None => AudioSource::APPLICATION };
        } else if idx == 9 {
            self.only_record_ranked = match as_bool(value) { Some(b) => b, None => false };
        } else if idx == 10 {
            self.autostart = match as_bool(value) { Some(b) => b, None => false };
        }
    }

    #[verifier::spinoff_prover]
    fn apply_at_11_13(&mut self, idx: u8, value: &JsonValue)
        requires
            11 <= idx <= 13,
        ensures
            final(self)@ == apply_setting_at(old(self)@, idx as int, *value),
    {
        proof {
            use_type_invariant(&*self);
        }
        if idx == 11 {
            self.max_recording_age = match as_opt_positive(value) { Some(o) => o, None => None };
        } else if idx == 12 {
            self.max_recordings_size = match as_opt_positive(value) { Some(o) => o, None => None };
        }
    }

    /// Reads the settings from the settings file's JSON: a setting that is
    /// missing or holds an invalid value gets its default, unknown entries are
    /// ignored, and anything but an object gives the default settings.
    pub fn from_json(v: &JsonValue) -> (r: Settings)
        ensures
            r@ == settings_from_json(*v),
    {
        match v {
            JsonValue::Object(es) => {
                let mut st = Settings::default();
                let mut i: usize = 0;
                while i < es.len()
                    invariant
                        i <= es@.len(),
                        st@ == settings_of(es@.take(i as int)),
                    decreases es.len() - i,
                {
                    proof {
                        lemma_settings_of_take(es@, i as int);
                    }
                    st.apply_entry(es[i].0.as_str(), &es[i].1);
                    i = i + 1;
                }
                assert(es@.take(es@.len() as int) =~= es@);
                st
            },
            _ => Settings::default(),
        }
    }
}

} // verus!

verus! {

/// The names of the settings, in the order the settings file lists them.
pub open spec fn setting_names() -> Seq<Seq<char>> {
    seq![
        "markerFlags"@, "checkForUpdates"@, "debugLog"@, "recordingsFolder"@, "filenameFormat"@,
        "encodingQuality"@, "outputResolution"@, "outputFramerate"@, "recordAudio"@, "onlyRecordRanked"@,
        "autostart"@, "maxRecordingAgeDays"@, "maxRecordingsSizeGb"@
    ]
}

/// Entries that hold each setting of `s` under its name, in order, read back
/// as `s`.
#[verifier::rlimit(100)]
proof fn lemma_settings_entries_read_back(e: Seq<(String, JsonValue)>, s: SettingsView)
    requires
        e.len() == 13,
        forall|j: int| 0 <= j < 13 ==> #[trigger] e[j].0@ == setting_names()[j],
        marker_flags_from_json(e[0].1) == s.marker_flags,
        spec_as_bool(e[1].1) == Some(s.check_for_updates),
        spec_as_bool(e[2].1) == Some(s.debug_log),
        spec_as_str(e[3].1) == Some(s.recordings_folder),
        spec_as_str(e[4].1) == Some(s.filename_format),
        spec_as_quality(e[5].1) == Some(s.encoding_quality),
        spec_as_resolution(e[6].1) == s.output_resolution,
        spec_as_framerate(e[7].1) == Some(s.framerate),
        spec_as_audio_source(e[8].1) == Some(s.record_audio),
        spec_as_bool(e[9].1) == Some(s.only_record_ranked),
        spec_as_bool(e[10].1) == Some(s.autostart),
        spec_as_opt_positive(e[11].1) == Some(s.max_recording_age),
        spec_as_opt_positive(e[12].1) == Some(s.max_recordings_size),
    ensures
        settings_of(e) == s,
{
    lemma_settings_keys_distinct();
    let names = setting_names();
    assert forall|j: int| 0 <= j < 13 implies lookup(e, #[trigger] names[j]) == Some(e[j].1) by {
        assert(e[j].0@ == names[j]);
        assert forall|m: int| j < m < e.len() implies e[m].0@ != names[j] by {
            assert(e[m].0@ == names[m]);
        }
        crate::json::lemma_lookup_last_occurrence(e, j, names[j]);
    }
    assert(lookup(e, names[0]) == Some(e[0].1));
    assert(lookup(e, names[1]) == Some(e[1].1));
    assert(lookup(e, names[2]) == Some(e[2].1));
    assert(lookup(e, names[3]) == Some(e[3].1));
    assert(lookup(e, names[4]) == Some(e[4].1));
    assert(lookup(e, names[5]) == Some(e[5].1));
    assert(lookup(e, names[6]) == Some(e[6].1));
    assert(lookup(e, names[7]) == Some(e[7].1));
    assert(lookup(e, names[8]) == Some(e[8].1));
    assert(lookup(e, names[9]) == Some(e[9].1));
    assert(lookup(e, names[10]) == Some(e[10].1));
    assert(lookup(e, names[11]) == Some(e[11].1));
    assert(lookup(e, names[12]) == Some(e[12].1));
}

fn resolution_value(r: Option<StdResolution>) -> (v: JsonValue)
    ensures
        spec_as_resolution(v) == r,
{
    match r {
        Some(x) => {
            proof {
                crate::state::media::lemma_resolution_names(x);
            }
            string_value(x.name())
        },
        None => JsonValue::Null,
    }
}

fn audio_value(a: AudioSource) -> (v: JsonValue)
    ensures
        spec_as_audio_source(v) == Some(a),
{
    proof {
        crate::state::media::lemma_audio_source_names(a);
    }
    string_value(a.name())
}

impl Settings {
    /// The settings file's JSON for these settings: an object with one entry
    /// per setting. Reading it back gives the same settings, so that the
    /// file and the settings in use stay in step.
    pub fn to_json(&self) -> (r: JsonValue)
        ensures
            settings_from_json(r) == self@,
            r is Object,
    {
        proof {
            use_type_invariant(self);
        }
        let mut es: Vec<(String, JsonValue)> = Vec::new();
        es.push((String::from_str("markerFlags"), self.marker_flags.to_json()));
        es.push((String::from_str("checkForUpdates"), JsonValue::Bool(self.check_for_updates)));
        es.push((String::from_str("debugLog"), JsonValue::Bool(self.debug_log)));
        es.push((String::from_str("recordingsFolder"), JsonValue::Str(self.recordings_folder.clone())));
        es.push((String::from_str("filenameFormat"), JsonValue::Str(self.filename_format.clone())));
        es.push((String::from_str("encodingQuality"), JsonValue::Number(JsonNumber::PosInt(self.encoding_quality as u64))));
        es.push((String::from_str("outputResolution"), resolution_value(self.output_resolution)));
        es.push((String::from_str("outputFramerate"), framerate_value(self.framerate)));
        es.push((String::from_str("recordAudio"), audio_value(self.record_audio)));
        es.push((String::from_str("onlyRecordRanked"), JsonValue::Bool(self.only_record_ranked)));
        es.push((String::from_str("autostart"), JsonValue::Bool(self.autostart)));
        es.push((String::from_str("maxRecordingAgeDays"), opt_u64_value(self.max_recording_age)));
        es.push((String::from_str("maxRecordingsSizeGb"), opt_u64_value(self.max_recordings_size)));
        proof {
            let e = es@;
            assert forall|j: int| 0 <= j < 13 implies #[trigger] e[j].0@ == setting_names()[j] by {
                if j == 0 { } else if j == 1 { } else if j == 2 { } else if j == 3 { } else if j == 4 { }
                else if j == 5 { } else if j == 6 { } else if j == 7 { } else if j == 8 { } else if j == 9 { }
                else if j == 10 { } else if j == 11 { } else { }
            }
            lemma_settings_entries_read_back(e, self@);
        }
        JsonValue::Object(es)
    }

    /// The folder the recordings are stored in.
    pub fn get_recordings_path(&self) -> (r: String)
        ensures
            r@ == self@.recordings_folder,
    {
        self.recordings_folder.clone()
    }

    /// Replaces the recordings folder (with the resolved, absolute path).
    pub fn set_recordings_path(&mut self, path: String)
        ensures
            final(self)@ == (SettingsView { recordings_folder: path@, ..old(self)@ }),
    {
        proof {
            use_type_invariant(&*self);
        }
        self.recordings_folder = path;
    }

    /// The name pattern of new recordings.
    pub fn get_filename_format(&self) -> (r: String)
        ensures
            r@ == self@.filename_format,
    {
        self.filename_format.clone()
    }

    pub fn get_encoding_quality(&self) -> (r: u32)
        ensures
            r == self@.encoding_quality,
    {
        self.encoding_quality
    }

    pub fn get_output_resolution(&self) -> (r: Option<StdResolution>)
        ensures
            r == self@.output_resolution,
    {
        self.output_resolution
    }

    pub fn get_framerate(&self) -> (r: Framerate)
        ensures
            r == self@.framerate,
    {
        self.framerate
    }

    pub fn get_audio_source(&self) -> (r: AudioSource)
        ensures
            r == self@.record_audio,
    {
        self.record_audio
    }

    pub fn check_for_updates(&self) -> (r: bool)
        ensures
            r == self@.check_for_updates,
    {
        self.check_for_updates
    }

    pub fn get_marker_flags(&self) -> (r: MarkerFlags)
        ensures
            r == self@.marker_flags,
    {
        self.marker_flags
    }

    pub fn set_marker_flags(&mut self, marker_flags: MarkerFlags)
        ensures
            final(self)@ == (SettingsView { marker_flags, ..old(self)@ }),
    {
        proof {
            use_type_invariant(&*self);
        }
        self.marker_flags = marker_flags;
    }

    pub fn only_record_ranked(&self) -> (r: bool)
        ensures
            r == self@.only_record_ranked,
    {
        self.only_record_ranked
    }

    pub fn autostart(&self) -> (r: bool)
        ensures
            r == self@.autostart,
    {
        self.autostart
    }

    /// The age in days after which recordings that are not favorites are deleted.
    pub fn max_recording_age(&self) -> (r: Option<u64>)
        ensures
            r == self@.max_recording_age,
    {
        self.max_recording_age
    }

    /// The total size in gigabytes above which recordings that are not
    /// favorites are deleted.
    pub fn max_recordings_size(&self) -> (r: Option<u64>)
        ensures
            r == self@.max_recordings_size,
    {
        self.max_recordings_size
    }

    /// Whether to log: when the settings say so, or when the command line
    /// (`args`) holds "-d" or "--debug".
    pub fn debug_log(&self, args: &Vec<String>) -> (r: bool)
        ensures
            r == (self@.debug_log || debug_flag_given(args@.map_values(|a: String| a@))),
    {
        let ghost views = args@.map_values(|a: String| a@);
        if self.debug_log {
            return true;
        }
        let mut i: usize = 0;
        while i < args.len()
            invariant
                i <= args@.len(),
                views == args@.map_values(|a: String| a@),
                forall|j: int| 0 <= j < i ==> !(views[j] == "-d"@ || views[j] == "--debug"@),
            decreases args.len() - i,
        {
            let a = args[i].as_str();
            if str_eq(a, "-d") || str_eq(a, "--debug") {
                assert(views[i as int] == args@[i as int]@);
                return true;
            }
            i = i + 1;
        }
        false
    }
}

/// Every setting that is missing from the settings file, or holds an
/// invalid value, is reset to its default; in particular an empty object, or
/// a file that is no JSON object at all, gives the default settings.
pub proof fn lemma_missing_settings_default(es: Seq<(String, JsonValue)>)
    requires
        forall|m: int| 0 <= m < es.len() ==> !setting_names().contains(#[trigger] es[m].0@),
    ensures
        settings_of(es) == default_settings(),
{
    let names = setting_names();
    assert forall|j: int| 0 <= j < 13 implies lookup(es, #[trigger] names[j]) is None by {
        assert forall|m: int| 0 <= m < es.len() implies es[m].0@ != names[j] by {
            if es[m].0@ == names[j] {
                assert(names.contains(es[m].0@));
            }
        }
        crate::json::lemma_lookup_absent(es, names[j]);
    }
    assert(lookup(es, names[0]) is None);
    assert(lookup(es, names[1]) is None);
    assert(lookup(es, names[2]) is None);
    assert(lookup(es, names[3]) is None);
    assert(lookup(es, names[4]) is None);
    assert(lookup(es, names[5]) is None);
    assert(lookup(es, names[6]) is None);
    assert(lookup(es, names[7]) is None);
    assert(lookup(es, names[8]) is None);
    assert(lookup(es, names[9]) is None);
    assert(lookup(es, names[10]) is None);
    assert(lookup(es, names[11]) is None);
    assert(lookup(es, names[12]) is None);
}

} // verus!
