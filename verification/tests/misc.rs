use league_record::lol_rec::{marker_name, result_after, result_from_end_of_game, DragonKind, IngameEvent, Killer};
use league_record::record::{get_capture_item_size, SizeInt32};
use league_record::riot_datatypes::{MatchId, Team};
use league_record::text::{chars_of, i64_to_string, parse_u64, u64_to_string};
use league_record::util::{path_to_string, PathError};
use league_record::window::{find_league_window, truncate_to_first_null_char, WindowInfo, LOLCLASS, LOLWNAME};
use std::path::PathBuf;

fn kill(killer: Option<&str>, victim: &str, assisters: &[&str]) -> IngameEvent {
    IngameEvent::ChampionKill {
        killer: match killer {
            Some(k) => Killer::Summoner(k.to_string()),
            None => Killer::Other,
        },
        victim_name: victim.to_string(),
        assisters: assisters.iter().map(|a| a.to_string()).collect(),
    }
}

#[test]
fn ingame_events_become_markers() {
    assert_eq!(marker_name(&kill(Some("me"), "you", &[]), "me"), Some("Kill"));
    assert_eq!(marker_name(&kill(Some("you"), "me", &[]), "me"), Some("Death"));
    assert_eq!(marker_name(&kill(None, "me", &[]), "me"), Some("Death"));
    assert_eq!(marker_name(&kill(Some("x"), "y", &["z", "me"]), "me"), Some("Assist"));
    assert_eq!(marker_name(&kill(Some("x"), "y", &["z"]), "me"), None);
    assert_eq!(marker_name(&IngameEvent::DragonKill { dragon: DragonKind::Elder }, "me"), Some("ElderDragon"));
    assert_eq!(marker_name(&IngameEvent::DragonKill { dragon: DragonKind::Infernal }, "me"), Some("InfernalDragon"));
    assert_eq!(marker_name(&IngameEvent::BaronKill, "me"), Some("Baron"));
    assert_eq!(marker_name(&IngameEvent::HeraldKill, "me"), Some("Herald"));
    assert_eq!(marker_name(&IngameEvent::InhibKilled, "me"), Some("Inhibitor"));
    assert_eq!(marker_name(&IngameEvent::TurretKilled, "me"), Some("Turret"));
    assert_eq!(marker_name(&IngameEvent::GameEnd { win: true }, "me"), None);
    assert_eq!(marker_name(&IngameEvent::Other, "me"), None);
}

#[test]
fn game_result() {
    assert_eq!(result_after(None, &IngameEvent::GameEnd { win: false }), Some(false));
    assert_eq!(result_after(Some(true), &IngameEvent::BaronKill), Some(true));
    assert_eq!(result_from_end_of_game(None, true, false), Some(true));
    assert_eq!(result_from_end_of_game(None, false, true), Some(false));
    assert_eq!(result_from_end_of_game(None, false, false), None);
    assert_eq!(result_from_end_of_game(Some(false), true, false), Some(false));
}

#[test]
fn capture_sizes_are_even() {
    assert_eq!(get_capture_item_size(SizeInt32 { width: 1921, height: 1080 }), SizeInt32 { width: 1922, height: 1080 });
    assert_eq!(get_capture_item_size(SizeInt32 { width: 7, height: 3 }), SizeInt32 { width: 8, height: 4 });
    assert_eq!(get_capture_item_size(SizeInt32 { width: -3, height: 0 }), SizeInt32 { width: -2, height: 0 });
}

#[test]
fn match_ids_and_teams() {
    let m = MatchId { game_id: 6_712_345_678, platform_id: "EUW1".to_string() };
    assert_eq!(m.to_display_string(), "EUW1_6712345678");
    assert_eq!(Team::Blue.code(), 100);
    assert_eq!(Team::from_code(200), Some(Team::Red));
    assert_eq!(Team::from_code(300), None);
}

#[test]
fn numbers_as_text() {
    assert_eq!(u64_to_string(0), "0");
    assert_eq!(u64_to_string(u64::MAX), "18446744073709551615");
    assert_eq!(i64_to_string(i64::MIN), "-9223372036854775808");
    assert_eq!(parse_u64(&chars_of("18446744073709551615")), Some(u64::MAX));
    assert_eq!(parse_u64(&chars_of("18446744073709551616")), None);
    assert_eq!(parse_u64(&chars_of("+12")), Some(12));
    assert_eq!(parse_u64(&chars_of("+")), None);
    assert_eq!(parse_u64(&chars_of("")), None);
    assert_eq!(parse_u64(&chars_of("-1")), None);
    assert_eq!(parse_u64(&chars_of("1 ")), None);
}

#[test]
fn paths_as_strings() {
    assert_eq!(path_to_string(&PathBuf::from("/videos/a.mp4")), Ok("/videos/a.mp4".to_string()));
    let _ = PathError::NotUnicode;
}

#[test]
fn window_text_is_cut_at_nul() {
    let mut t = "League\0\0garbage".to_string();
    truncate_to_first_null_char(&mut t);
    assert_eq!(t, "League");
    let mut u = "no nul".to_string();
    truncate_to_first_null_char(&mut u);
    assert_eq!(u, "no nul");
    let mut e = "\0x".to_string();
    truncate_to_first_null_char(&mut e);
    assert_eq!(e, "");
}

fn window(title: &str, class: &str) -> WindowInfo {
    WindowInfo::new(title.to_string(), class.to_string(), false, true, true, 0, 0, None)
}

#[test]
fn the_game_window_is_found_among_capturable_windows() {
    let mut hidden = window(LOLWNAME, LOLCLASS);
    hidden.is_visible = false;
    let windows = vec![
        window("Task View", "Windows.UI.Core.CoreWindow"),
        hidden,
        window("League of Legends", LOLCLASS),
        window(&format!("{}\0\0", LOLWNAME), &format!("{}\0", LOLCLASS)),
    ];
    assert!(!windows[0].is_capturable_window());
    assert!(windows[0].is_known_blocked_window());
    assert!(!windows[1].is_capturable_window());
    assert!(windows[2].is_capturable_window());
    assert!(!windows[2].is_league_window());
    assert!(windows[3].is_league_window());
    assert_eq!(find_league_window(&windows), Some(3));
    assert_eq!(find_league_window(&vec![window("", LOLCLASS)]), None);
    let mut cloaked = window("App", "ApplicationFrameWindow");
    cloaked.cloaked = Some(2);
    assert!(!cloaked.is_capturable_window());
    cloaked.cloaked = Some(1);
    assert!(cloaked.is_capturable_window());
}
