use league_record::app::event::AppEvent;
use league_record::app::manager::{
    autostart_action, settings_reaction, version_file_action, version_file_decision, AutostartAction, InvalidVersion,
    VersionFile, VersionFileAction, VersionFileState,
};
use league_record::app::system_tray::{create_tray_menu, menu_action, MenuAction, MenuEntry};
use league_record::app::window::{run_event_action, AppWindow, RunEventAction, RunEventKind};
use league_record::filewatcher::{change_notifications, ChangeKind, ChangedPath};
use league_record::state::{CurrentlyRecording, MarkerFlags, Settings, Shutdown, TrayState};

#[test]
fn events_are_sent_under_their_variant_names() {
    assert_eq!(AppEvent::RecordingsChanged { payload: () }.name(), "RecordingsChanged");
    assert_eq!(AppEvent::MetadataChanged { payload: vec![] }.name(), "MetadataChanged");
    assert_eq!(AppEvent::MarkerflagsChanged { payload: () }.name(), "MarkerflagsChanged");
    assert_eq!(AppWindow::Main.label(), "Main");
}

#[test]
fn run_loop_reactions() {
    assert_eq!(run_event_action(RunEventKind::MainWindowCloseRequested, false), RunEventAction::SaveWindowState);
    assert_eq!(run_event_action(RunEventKind::ExitRequested, false), RunEventAction::PreventExit);
    assert_eq!(run_event_action(RunEventKind::ExitRequested, true), RunEventAction::Nothing);
    assert_eq!(run_event_action(RunEventKind::Other, false), RunEventAction::Nothing);
}

fn entry(e: &MenuEntry) -> (u8, &str, &str, bool) {
    match e {
        MenuEntry::DisabledCheck { id, label, checked } => (0, id, label, *checked),
        MenuEntry::Separator => (1, "", "", false),
        MenuEntry::Item { id, label } => (2, id, label, false),
    }
}

#[test]
fn tray_menu_shows_recording_state_and_update() {
    let mut tray = TrayState::default();
    let menu = create_tray_menu(&tray);
    assert_eq!(
        menu.iter().map(entry).collect::<Vec<_>>(),
        vec![
            (0, "recording", "Recording", false),
            (1, "", "", false),
            (2, "settings", "Settings", false),
            (2, "open", "Open", false),
            (2, "quit", "Quit", false),
        ]
    );
    tray.set_recording(true);
    tray.set_update_available(true);
    assert!(tray.recording() && tray.update_available());
    let menu = create_tray_menu(&tray);
    assert_eq!(menu.len(), 7);
    assert_eq!(entry(&menu[0]), (0, "recording", "Recording", true));
    assert_eq!(entry(&menu[5]), (1, "", "", false));
    assert_eq!(entry(&menu[6]), (2, "update", "Update", false));
}

#[test]
fn tray_menu_actions() {
    assert_eq!(menu_action("settings"), MenuAction::EditSettings);
    assert_eq!(menu_action("open"), MenuAction::OpenWindow);
    assert_eq!(menu_action("quit"), MenuAction::Quit);
    assert_eq!(menu_action("update"), MenuAction::Update);
    assert_eq!(menu_action("recording"), MenuAction::Nothing);
    assert_eq!(menu_action("Quit"), MenuAction::Nothing);
}

#[test]
fn autostart_is_brought_in_line_with_the_setting() {
    assert_eq!(autostart_action(true, Some(false)), AutostartAction::Enable);
    assert_eq!(autostart_action(false, Some(true)), AutostartAction::Disable);
    assert_eq!(autostart_action(true, Some(true)), AutostartAction::Nothing);
    assert_eq!(autostart_action(false, None), AutostartAction::Nothing);
}

#[test]
fn reactions_to_edited_settings() {
    let old = Settings::default();
    let mut new = Settings::default();
    let r = settings_reaction(&old, &new, &vec![], true);
    assert_eq!(r.debug_log, None);
    assert!(!r.recordings_folder_changed && !r.marker_flags_changed);

    new.set_recordings_path("X:/other".to_string());
    let mut flags = MarkerFlags::default();
    flags.kill = false;
    new.set_marker_flags(flags);
    let r = settings_reaction(&old, &new, &vec![], false);
    assert!(r.recordings_folder_changed);
    assert!(r.marker_flags_changed);
}

#[test]
fn update_notice_after_installing_a_newer_version() {
    let contents = |s: &str| VersionFile::Contents(s.to_string());
    assert_eq!(version_file_action(&contents("1.2.0"), "1.3.0"), Ok(VersionFileAction::AnnounceAndWrite));
    assert_eq!(version_file_action(&contents("1.3.0"), "1.3.0"), Ok(VersionFileAction::Keep));
    assert_eq!(version_file_action(&contents("2.0.0"), "1.3.0"), Ok(VersionFileAction::Keep));
    assert_eq!(version_file_action(&contents("1.3.0-beta.1"), "1.3.0"), Ok(VersionFileAction::AnnounceAndWrite));
    assert_eq!(version_file_action(&contents("not a version"), "1.3.0"), Ok(VersionFileAction::Write));
    assert_eq!(version_file_action(&contents("1.2.0\n"), "1.3.0"), Ok(VersionFileAction::Write));
    assert_eq!(version_file_action(&VersionFile::Missing, "1.3.0"), Ok(VersionFileAction::Write));
    assert_eq!(version_file_action(&VersionFile::Unreadable, "1.3.0"), Ok(VersionFileAction::Keep));
    assert_eq!(version_file_action(&contents("1.2.0"), "bad"), Err(InvalidVersion));
    assert_eq!(version_file_decision(VersionFileState::Version { older: true }, true), Ok(VersionFileAction::AnnounceAndWrite));
    assert_eq!(version_file_decision(VersionFileState::NotAVersion, false), Ok(VersionFileAction::Write));
}

fn changed(path: &str, name: Option<&str>) -> ChangedPath {
    ChangedPath { path: path.to_string(), file_name: name.map(|n| n.to_string()), is_currently_recording: false }
}

fn view(events: &[AppEvent]) -> Vec<(String, Vec<String>)> {
    events
        .iter()
        .map(|e| match e {
            AppEvent::MetadataChanged { payload } => (e.name().to_string(), payload.clone()),
            _ => (e.name().to_string(), vec![]),
        })
        .collect()
}

#[test]
fn folder_changes_notify_the_window() {
    let paths = vec![
        changed("/v/a.mp4", Some("a.mp4")),
        changed("/v/a.json", Some("a.json")),
        changed("/v/b.json", Some("b.json")),
        changed("/v/notes.txt", Some("notes.txt")),
    ];
    let r = change_notifications(ChangeKind::Create, &paths);
    assert_eq!(
        view(&r),
        vec![
            ("RecordingsChanged".to_string(), vec![]),
            ("MetadataChanged".to_string(), vec!["a.json".to_string(), "b.json".to_string()]),
        ]
    );
    assert_eq!(view(&change_notifications(ChangeKind::Rename, &vec![changed("/v/a.mp4", Some("a.mp4"))])).len(), 1);
    assert!(change_notifications(ChangeKind::Other, &paths).is_empty());
    // the video being recorded is ignored
    let mut current = changed("/v/a.mp4", Some("a.mp4"));
    current.is_currently_recording = true;
    let r = change_notifications(ChangeKind::Remove, &vec![current]);
    assert!(r.is_empty());
    let r = change_notifications(ChangeKind::Remove, &vec![changed("/v/x.txt", Some("x.txt"))]);
    assert!(r.is_empty());
}

#[test]
fn shared_state_reads_back_what_was_set() {
    let mut cr = CurrentlyRecording::default();
    assert_eq!(cr.get(), None);
    cr.set(Some("/v/now.mp4".to_string()));
    assert_eq!(cr.get(), Some("/v/now.mp4".to_string()));
    cr.set(None);
    assert_eq!(cr.get(), None);
    let mut s = Shutdown::default();
    assert!(!s.get());
    s.set();
    assert!(s.get());
}
