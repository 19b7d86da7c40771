use league_record::app::recordings::{
    cleanup_recordings_by_age, cleanup_recordings_by_size, get_recordings, newest_first, plan_removal_by_size, recordings_size,
    DirEntryInfo, RecordingFile,
};
use league_record::util::{compare_time, has_extension};
use std::cmp::Ordering;

fn entry(path: &str, is_file: bool, name: Option<&str>) -> DirEntryInfo {
    DirEntryInfo { path: path.to_string(), is_file, file_name: name.map(|n| n.to_string()), is_currently_recording: false }
}

fn marking(mut entries: Vec<DirEntryInfo>, current: &str) -> Vec<DirEntryInfo> {
    for e in entries.iter_mut() {
        e.is_currently_recording = e.path == current;
    }
    entries
}

fn rec(size: Option<u64>, created: Option<i128>, favorite: Option<bool>) -> RecordingFile {
    RecordingFile { size, created, favorite }
}

const GB: u64 = 1_000_000_000;

#[test]
fn only_mp4_files_that_are_not_being_recorded_are_recordings() {
    let entries = vec![
        entry("/v/a.mp4", true, Some("a.mp4")),
        entry("/v/a.json", true, Some("a.json")),
        entry("/v/dir.mp4", false, Some("dir.mp4")),
        entry("/v/current.mp4", true, Some("current.mp4")),
        entry("/v/.mp4", true, Some(".mp4")),
        entry("/v/upper.MP4", true, Some("upper.MP4")),
        entry("/v/b.final.mp4", true, Some("b.final.mp4")),
        entry("/v/noname", true, None),
    ];
    let all = get_recordings(&entries);
    assert_eq!(all, vec!["/v/a.mp4".to_string(), "/v/current.mp4".to_string(), "/v/b.final.mp4".to_string()]);
    let r = get_recordings(&marking(entries, "/v/current.mp4"));
    assert_eq!(r, vec!["/v/a.mp4".to_string(), "/v/b.final.mp4".to_string()]);
}

#[test]
fn extension_follows_the_last_dot() {
    assert!(has_extension("video.mp4", "mp4"));
    assert!(has_extension("a.b.json", "json"));
    assert!(!has_extension("a.json.bak", "json"));
    assert!(!has_extension(".mp4", "mp4"));
    assert!(!has_extension("mp4", "mp4"));
    assert!(has_extension("trailing.", ""));
    assert!(has_extension("..mp4", "mp4"));
}

#[test]
fn compare_time_puts_newer_first() {
    assert_eq!(compare_time(Some(5), Some(3)), Some(Ordering::Less));
    assert_eq!(compare_time(Some(3), Some(5)), Some(Ordering::Greater));
    assert_eq!(compare_time(Some(4), Some(4)), Some(Ordering::Equal));
    assert_eq!(compare_time(None, Some(4)), None);
    assert_eq!(compare_time(Some(4), None), None);
}

#[test]
fn newest_first_sorts_stably_by_creation_time() {
    let recs = vec![rec(None, Some(10), None), rec(None, Some(30), None), rec(None, Some(20), None), rec(None, Some(30), None)];
    assert_eq!(newest_first(&recs), vec![1, 3, 2, 0]);
}

#[test]
fn newest_first_keeps_listing_order_without_times() {
    let recs = vec![rec(None, None, None), rec(None, None, None), rec(None, None, None)];
    assert_eq!(newest_first(&recs), vec![0, 1, 2]);
    let mixed = vec![rec(None, Some(1), None), rec(None, None, None), rec(None, Some(2), None)];
    assert_eq!(newest_first(&mixed), vec![1, 2, 0]);
    assert_eq!(newest_first(&vec![]), Vec::<usize>::new());
}

#[test]
fn size_limit_removes_oldest_non_favorites_once_over_the_limit() {
    // newest first: 3 (t=40), 2 (t=30), 1 (t=20), 0 (t=10)
    let recs = vec![
        rec(Some(400_000_000), Some(10), Some(false)),
        rec(Some(400_000_000), Some(20), Some(false)),
        rec(Some(400_000_000), Some(30), Some(true)),
        rec(Some(400_000_000), Some(40), Some(false)),
    ];
    // base = favorite 0.4 GB; 3 -> 0.8, 1 -> 1.2 > 1.0 removed, 0 -> 1.6 removed
    assert_eq!(cleanup_recordings_by_size(Some(1), None, &recs), vec![1, 0]);
    // without a limit nothing is removed
    assert_eq!(cleanup_recordings_by_size(None, None, &recs), Vec::<usize>::new());
    // with room for everything nothing is removed
    assert_eq!(cleanup_recordings_by_size(Some(2), None, &recs), Vec::<usize>::new());
}

#[test]
fn size_limit_counts_the_video_being_recorded() {
    let recs = vec![rec(Some(500_000_000), Some(1), Some(false))];
    assert_eq!(cleanup_recordings_by_size(Some(1), None, &recs), Vec::<usize>::new());
    assert_eq!(cleanup_recordings_by_size(Some(1), Some(600_000_000), &recs), vec![0]);
}

#[test]
fn size_limit_never_removes_favorites_or_unreadable_metadata() {
    let recs = vec![
        rec(Some(3 * GB), Some(3), Some(true)),
        rec(Some(3 * GB), Some(2), None),
        rec(Some(3 * GB), Some(1), Some(false)),
    ];
    assert_eq!(cleanup_recordings_by_size(Some(1), None, &recs), vec![2]);
}

#[test]
fn size_limit_with_exact_fit_keeps_everything() {
    let recs = vec![rec(Some(GB / 2), Some(2), Some(false)), rec(Some(GB / 2), Some(1), Some(false))];
    assert_eq!(cleanup_recordings_by_size(Some(1), None, &recs), Vec::<usize>::new());
    // an unreadable size counts as nothing
    let recs2 = vec![rec(None, Some(2), Some(false)), rec(Some(GB), Some(1), Some(false))];
    assert_eq!(cleanup_recordings_by_size(Some(1), None, &recs2), Vec::<usize>::new());
}

#[test]
fn plan_walks_the_given_order() {
    let recs = vec![rec(Some(GB), None, Some(false)), rec(Some(GB), None, Some(false))];
    assert_eq!(plan_removal_by_size(1, None, &recs, &vec![1, 0]), vec![0]);
    assert_eq!(plan_removal_by_size(1, None, &recs, &vec![0, 1]), vec![1]);
    // huge limits do not overflow
    assert_eq!(plan_removal_by_size(u64::MAX, Some(u64::MAX), &recs, &vec![0, 1]), Vec::<usize>::new());
}

#[test]
fn age_limit_removes_only_old_non_favorites() {
    let day: i128 = 86_400_000_000_000;
    let now: i128 = 100 * day;
    let recs = vec![
        rec(None, Some(now - 31 * day), Some(false)),
        rec(None, Some(now - 31 * day), Some(true)),
        rec(None, Some(now - 31 * day), None),
        rec(None, Some(now - 30 * day), Some(false)),
        rec(None, Some(now - 30 * day - 1), Some(false)),
        rec(None, None, Some(false)),
        rec(None, Some(now + day), Some(false)),
    ];
    assert_eq!(cleanup_recordings_by_age(Some(30), now, &recs), vec![0, 4]);
    assert_eq!(cleanup_recordings_by_age(None, now, &recs), Vec::<usize>::new());
    assert_eq!(cleanup_recordings_by_age(Some(0), now, &recs), vec![0, 3, 4]);
}

#[test]
fn age_limit_handles_extreme_times() {
    let recs = vec![rec(None, Some(i128::MIN), Some(false))];
    assert_eq!(cleanup_recordings_by_age(Some(u64::MAX), i128::MAX, &recs), vec![0]);
}

#[test]
fn total_size_counts_readable_sizes() {
    let recs = vec![rec(Some(u64::MAX), None, None), rec(None, None, None), rec(Some(u64::MAX), None, None)];
    assert_eq!(recordings_size(&recs), 2 * (u64::MAX as u128));
    assert_eq!(recordings_size(&vec![]), 0);
}
