use league_record::json::{JsonNumber, JsonValue};
use league_record::state::media::{AudioSource, Framerate, StdResolution};
use league_record::state::{default_filename_format, default_recordings_folder, MarkerFlags, Settings, SettingsFile};

fn s(v: &str) -> JsonValue {
    JsonValue::Str(v.to_string())
}

fn n(v: u64) -> JsonValue {
    JsonValue::Number(JsonNumber::PosInt(v))
}

fn obj(entries: Vec<(&str, JsonValue)>) -> JsonValue {
    JsonValue::Object(entries.into_iter().map(|(k, v)| (k.to_string(), v)).collect())
}

fn no_args() -> Vec<String> {
    vec![]
}

#[test]
fn defaults_when_nothing_is_set() {
    let settings = Settings::from_json(&obj(vec![]));
    assert!(settings.check_for_updates());
    assert!(!settings.debug_log(&no_args()));
    assert_eq!(settings.get_recordings_path(), "league_recordings");
    assert_eq!(settings.get_filename_format(), "%Y-%m-%d_%H-%M.mp4");
    assert_eq!(settings.get_encoding_quality(), 30);
    assert_eq!(settings.get_output_resolution(), None);
    assert_eq!(settings.get_framerate(), Framerate { num: 30, den: 1 });
    assert_eq!(settings.get_audio_source(), AudioSource::APPLICATION);
    assert!(!settings.only_record_ranked());
    assert!(!settings.autostart());
    assert_eq!(settings.max_recording_age(), None);
    assert_eq!(settings.max_recordings_size(), None);
    assert_eq!(settings.get_marker_flags(), MarkerFlags::default());
    assert_eq!(default_recordings_folder(), "league_recordings");
    assert_eq!(default_filename_format(), "%Y-%m-%d_%H-%M.mp4");
}

#[test]
fn default_settings_equal_reading_an_empty_file() {
    let d = Settings::default();
    let e = Settings::from_json(&obj(vec![]));
    assert_eq!(d.get_recordings_path(), e.get_recordings_path());
    assert_eq!(d.get_encoding_quality(), e.get_encoding_quality());
    assert_eq!(d.get_framerate(), e.get_framerate());
    // anything but an object gives the defaults too
    let x = Settings::from_json(&JsonValue::Null);
    assert_eq!(x.get_encoding_quality(), 30);
}

#[test]
fn valid_values_are_read() {
    let settings = Settings::from_json(&obj(vec![
        ("checkForUpdates", JsonValue::Bool(false)),
        ("debugLog", JsonValue::Bool(true)),
        ("recordingsFolder", s("D:/videos")),
        ("filenameFormat", s("%H.mp4")),
        ("encodingQuality", n(40)),
        ("outputResolution", s("1440p")),
        ("outputFramerate", JsonValue::Array(vec![n(60), n(1)])),
        ("recordAudio", s("ALL")),
        ("onlyRecordRanked", JsonValue::Bool(true)),
        ("autostart", JsonValue::Bool(true)),
        ("maxRecordingAgeDays", n(14)),
        ("maxRecordingsSizeGb", n(100)),
    ]));
    assert!(!settings.check_for_updates());
    assert!(settings.debug_log(&no_args()));
    assert_eq!(settings.get_recordings_path(), "D:/videos");
    assert_eq!(settings.get_filename_format(), "%H.mp4");
    assert_eq!(settings.get_encoding_quality(), 40);
    assert_eq!(settings.get_output_resolution(), Some(StdResolution::_1440p));
    assert_eq!(settings.get_framerate(), Framerate { num: 60, den: 1 });
    assert_eq!(settings.get_audio_source(), AudioSource::ALL);
    assert!(settings.only_record_ranked());
    assert!(settings.autostart());
    assert_eq!(settings.max_recording_age(), Some(14));
    assert_eq!(settings.max_recordings_size(), Some(100));
}

#[test]
fn invalid_values_fall_back_to_their_default() {
    let settings = Settings::from_json(&obj(vec![
        ("checkForUpdates", s("yes")),
        ("encodingQuality", JsonValue::Number(JsonNumber::NegInt(-3))),
        ("outputResolution", s("999p")),
        ("outputFramerate", JsonValue::Array(vec![n(60)])),
        ("recordAudio", s("MICROPHONE")),
        ("maxRecordingAgeDays", s("old")),
        ("unknownKey", JsonValue::Bool(true)),
    ]));
    assert!(settings.check_for_updates());
    assert_eq!(settings.get_encoding_quality(), 30);
    assert_eq!(settings.get_output_resolution(), None);
    assert_eq!(settings.get_framerate(), Framerate { num: 30, den: 1 });
    assert_eq!(settings.get_audio_source(), AudioSource::APPLICATION);
    assert_eq!(settings.max_recording_age(), None);
}

#[test]
fn values_outside_their_documented_range_fall_back_to_their_default() {
    let settings = Settings::from_json(&obj(vec![
        ("encodingQuality", n(51)),
        ("outputFramerate", JsonValue::Array(vec![n(0), n(1)])),
        ("maxRecordingAgeDays", n(0)),
        ("maxRecordingsSizeGb", n(0)),
    ]));
    assert_eq!(settings.get_encoding_quality(), 30);
    assert_eq!(settings.get_framerate(), Framerate { num: 30, den: 1 });
    assert_eq!(settings.max_recording_age(), None);
    assert_eq!(settings.max_recordings_size(), None);
    let edge = Settings::from_json(&obj(vec![("encodingQuality", n(0)), ("outputFramerate", JsonValue::Array(vec![n(30), n(2)]))]));
    assert_eq!(edge.get_encoding_quality(), 0);
    assert_eq!(edge.get_framerate(), Framerate { num: 30, den: 2 });
    let old_names = Settings::from_json(&obj(vec![("framerate", JsonValue::Array(vec![n(60), n(1)])), ("maxRecordingAge", n(3))]));
    assert_eq!(old_names.get_framerate(), Framerate { num: 30, den: 1 });
    assert_eq!(old_names.max_recording_age(), None);
}

#[test]
fn the_last_entry_of_a_name_counts() {
    let settings = Settings::from_json(&obj(vec![("encodingQuality", n(10)), ("encodingQuality", n(40))]));
    assert_eq!(settings.get_encoding_quality(), 40);
    let settings = Settings::from_json(&obj(vec![("encodingQuality", n(10)), ("encodingQuality", s("bad"))]));
    assert_eq!(settings.get_encoding_quality(), 30);
}

#[test]
fn null_limits_mean_no_limit() {
    let settings = Settings::from_json(&obj(vec![("maxRecordingAgeDays", JsonValue::Null), ("maxRecordingsSizeGb", JsonValue::Null)]));
    assert_eq!(settings.max_recording_age(), None);
    assert_eq!(settings.max_recordings_size(), None);
}

#[test]
fn settings_written_and_read_back_are_the_same() {
    let mut settings = Settings::from_json(&obj(vec![
        ("recordingsFolder", s("E:/clips")),
        ("outputResolution", s("720p")),
        ("maxRecordingsSizeGb", n(5)),
    ]));
    let mut flags = MarkerFlags::default();
    flags.assist = false;
    flags.baron = false;
    settings.set_marker_flags(flags);
    let back = Settings::from_json(&settings.to_json());
    assert_eq!(back.get_recordings_path(), "E:/clips");
    assert_eq!(back.get_output_resolution(), Some(StdResolution::_720p));
    assert_eq!(back.max_recordings_size(), Some(5));
    assert_eq!(back.max_recording_age(), None);
    assert_eq!(back.get_marker_flags(), flags);
    assert_eq!(back.get_framerate(), settings.get_framerate());
    assert_eq!(back.get_audio_source(), settings.get_audio_source());
}

#[test]
fn marker_flags_default_to_all_shown() {
    let f = MarkerFlags::default();
    assert!(f.kill && f.death && f.assist && f.turret && f.inhibitor && f.dragon && f.herald && f.baron);
    let read = MarkerFlags::from_json(&obj(vec![("kill", JsonValue::Bool(false)), ("baron", s("no"))]));
    assert!(!read.kill);
    assert!(read.baron);
    assert_eq!(MarkerFlags::from_json(&read.to_json()), read);
}

#[test]
fn debug_log_can_be_asked_for_on_the_command_line() {
    let settings = Settings::default();
    assert!(settings.debug_log(&vec!["app".to_string(), "-d".to_string()]));
    assert!(settings.debug_log(&vec!["--debug".to_string()]));
    assert!(!settings.debug_log(&vec!["--dbg".to_string()]));
}

#[test]
fn recordings_path_can_be_changed() {
    let mut settings = Settings::default();
    settings.set_recordings_path("F:/rec".to_string());
    assert_eq!(settings.get_recordings_path(), "F:/rec");
}

#[test]
fn resolution_names() {
    assert_eq!(StdResolution::from_name("480p"), Some(StdResolution::_480p));
    assert_eq!(StdResolution::from_name("4320p"), Some(StdResolution::_4320p));
    assert_eq!(StdResolution::from_name("1081p"), None);
    assert_eq!(StdResolution::from_name_or_1080p("junk"), StdResolution::_1080p);
    assert_eq!(StdResolution::_2160p.name(), "2160p");
    assert_eq!(AudioSource::from_name("SYSTEM"), Some(AudioSource::SYSTEM));
    assert_eq!(AudioSource::NONE.name(), "NONE");
}

#[test]
fn settings_file_keeps_its_path() {
    let f = SettingsFile::new("C:/cfg/settings.json".to_string());
    assert_eq!(f.get(), "C:/cfg/settings.json");
}
