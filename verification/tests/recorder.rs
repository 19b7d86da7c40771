use league_record::recorder::data::{
    build_game_metadata, collect_kept_events,
    collected_metadata, metadata_lookup, new_empty_metadata, toggle_favorite, Deferred, Event, GameEvent,
    GameMetadata, MetadataFile, MetadataLookup, NoData, UnknownEvent,
};
use league_record::recorder::game_listener::{Action, GameListener, ListenerEvent};
use league_record::recorder::recording_task::{capture_action, recording_file_format, usable_window_size, CaptureAction};
use league_record::riot_datatypes::lcu::{GameData, GamePhase, Player, SessionEventData, Stats, SubscriptionResponse};
use league_record::riot_datatypes::{self, MatchId, Position, Queue};

fn session(phase: GamePhase, game_id: i64, ranked: bool) -> ListenerEvent<&'static str> {
    ListenerEvent::Subscription(SubscriptionResponse::Session(SessionEventData {
        game_data: GameData { queue: Queue { id: 420, name: "Ranked Solo".to_string(), is_ranked: ranked }, game_id },
        phase,
    }))
}

#[test]
fn a_game_is_recorded_from_start_to_collected_data() {
    let mut listener = GameListener::<&'static str>::new();
    assert!(!listener.is_recording());
    assert!(matches!(listener.state_transition(session(GamePhase::ChampSelect, 7, true), false), Action::Nothing));
    assert!(matches!(listener.state_transition(session(GamePhase::GameStart, 7, true), false), Action::StartRecording(7)));
    assert!(listener.is_recording());
    // a second start while recording does not start another recording
    assert!(matches!(listener.state_transition(session(GamePhase::InProgress, 8, true), false), Action::Nothing));
    assert!(matches!(listener.state_transition(session(GamePhase::WaitingForStats, 7, true), false), Action::StopRecording));
    assert!(!listener.is_recording());
    assert!(matches!(listener.state_transition(ListenerEvent::RecordingStopped(Some("meta")), false), Action::Nothing));
    assert!(matches!(
        listener.state_transition(ListenerEvent::Subscription(SubscriptionResponse::EogStatsBlock {}), false),
        Action::CollectGameData("meta")
    ));
    assert!(matches!(listener.state_transition(session(GamePhase::Lobby, 9, true), false), Action::Nothing));
}

#[test]
fn unranked_games_are_skipped_when_only_ranked_are_recorded() {
    let mut listener = GameListener::<&'static str>::new();
    assert!(matches!(listener.state_transition(session(GamePhase::GameStart, 3, false), true), Action::Nothing));
    assert!(!listener.is_recording());
    assert!(matches!(listener.state_transition(session(GamePhase::GameStart, 3, false), false), Action::StartRecording(3)));
}

#[test]
fn a_failed_stop_returns_to_waiting() {
    let mut listener = GameListener::<&'static str>::new();
    listener.state_transition(session(GamePhase::InProgress, 1, true), false);
    assert!(matches!(listener.state_transition(session(GamePhase::Reconnect, 1, true), false), Action::StopRecording));
    assert!(matches!(listener.state_transition(ListenerEvent::RecordingStopped(None), false), Action::Nothing));
    assert!(matches!(listener.state_transition(session(GamePhase::GameStart, 2, true), false), Action::StartRecording(2)));
}

#[test]
fn finishing_stops_a_running_recording() {
    let mut listener = GameListener::<&'static str>::new();
    assert!(matches!(listener.finish(), Action::Nothing));
    listener.state_transition(session(GamePhase::GameStart, 1, true), false);
    assert!(matches!(listener.finish(), Action::StopRecording));
    assert!(matches!(listener.finish(), Action::Nothing));
}

fn no_data(favorite: bool) -> MetadataFile {
    MetadataFile::NoData(NoData { favorite })
}

#[test]
fn favorite_flag_reads_back_what_was_set() {
    let mut m = no_data(false);
    assert!(!m.is_favorite());
    m.set_favorite(true);
    assert!(m.is_favorite());
    let mut d = MetadataFile::Deferred(Deferred {
        match_id: MatchId { game_id: 5, platform_id: "EUW1".to_string() },
        ingame_time_rec_start_offset: 0,
        favorite: true,
    });
    d.set_favorite(false);
    assert!(!d.is_favorite());
    assert!(matches!(d, MetadataFile::Deferred(Deferred { ref match_id, .. }) if match_id.game_id == 5));
}

#[test]
fn toggling_favorite_twice_restores_it() {
    let mut m = no_data(false);
    assert!(toggle_favorite(&mut m));
    assert!(m.is_favorite());
    assert!(!toggle_favorite(&mut m));
    assert!(!m.is_favorite());
}

#[test]
fn metadata_lookup_decisions() {
    assert!(matches!(metadata_lookup(None, true), MetadataLookup::CreateEmpty));
    assert!(matches!(new_empty_metadata(), MetadataFile::NoData(NoData { favorite: false })));
    assert!(matches!(metadata_lookup(Some(no_data(true)), false), MetadataLookup::Ready(MetadataFile::NoData(NoData { favorite: true }))));
    let deferred = || MetadataFile::Deferred(Deferred {
        match_id: MatchId { game_id: 9, platform_id: "NA1".to_string() },
        ingame_time_rec_start_offset: 42,
        favorite: true,
    });
    assert!(matches!(metadata_lookup(Some(deferred()), false), MetadataLookup::NotCollected));
    match metadata_lookup(Some(deferred()), true) {
        MetadataLookup::Fetch { match_id, ingame_time_rec_start_offset, favorite } => {
            assert_eq!(match_id.game_id, 9);
            assert_eq!(match_id.to_display_string(), "NA1_9");
            assert_eq!(ingame_time_rec_start_offset, 42);
            assert!(favorite);
        }
        _ => panic!("expected a fetch"),
    }
}

fn stats() -> Stats {
    Stats {
        kills: 1,
        deaths: 2,
        assists: 3,
        largest_multi_kill: 1,
        neutral_minions_killed: 0,
        neutral_minions_killed_enemy_jungle: 0,
        neutral_minions_killed_team_jungle: 0,
        total_minions_killed: 150,
        vision_score: 0,
        vision_wards_bought_in_game: 0,
        wards_placed: 0,
        wards_killed: 0,
        game_ended_in_early_surrender: false,
        game_ended_in_surrender: false,
        win: true,
    }
}

#[test]
fn collected_metadata_keeps_the_favorite_flag() {
    let metadata = GameMetadata {
        match_id: MatchId { game_id: 1, platform_id: "EUW1".to_string() },
        ingame_time_rec_start_offset: 0,
        queue: Queue { id: 420, name: "Ranked".to_string(), is_ranked: true },
        player: Player { game_name: "a".to_string(), tag_line: "b".to_string(), summoner_id: Some(3) },
        champion_name: "Ahri".to_string(),
        stats: stats(),
        participant_id: 4,
        events: vec![],
        favorite: false,
    };
    let m = collected_metadata(metadata, true);
    assert!(m.is_favorite());
    assert!(matches!(m, MetadataFile::Metadata(ref g) if g.champion_name == "Ahri"));
}

#[test]
fn kept_events_convert_and_others_are_refused() {
    let kill = riot_datatypes::Event::ChampionKill {
        victim_id: 2,
        killer_id: 1,
        assisting_participant_ids: vec![3, 4],
        position: Position { x: 10, y: 20 },
    };
    match Event::try_from(kill) {
        Ok(Event::ChampionKill { victim_id, killer_id, assisting_participant_ids, position }) => {
            assert_eq!((victim_id, killer_id), (2, 1));
            assert_eq!(assisting_participant_ids, vec![3, 4]);
            assert_eq!(position, Position { x: 10, y: 20 });
        }
        _ => panic!("expected a champion kill"),
    }
    assert!(matches!(Event::try_from(riot_datatypes::Event::Unknown {}), Err(UnknownEvent(riot_datatypes::Event::Unknown {}))));
    let ge = riot_datatypes::GameEvent { event: riot_datatypes::Event::Unknown {}, timestamp: 5 };
    assert!(GameEvent::try_from(ge).is_err());
    let ge = riot_datatypes::GameEvent {
        event: riot_datatypes::Event::EliteMonsterKill {
            killer_id: 1,
            monster_type: riot_datatypes::MonsterType::BaronNashor,
            assisting_participant_ids: vec![],
        },
        timestamp: 1200,
    };
    match GameEvent::try_from(ge) {
        Ok(g) => {
            assert_eq!(g.timestamp, 1200);
            assert!(matches!(g.event, Event::EliteMonsterKill { killer_id: 1, .. }));
        }
        Err(_) => panic!("expected a kept event"),
    }
}

#[test]
fn recording_files_end_in_mp4() {
    assert_eq!(recording_file_format("%Y-%m-%d"), "%Y-%m-%d.mp4");
    assert_eq!(recording_file_format("%Y.mp4"), "%Y.mp4");
    assert_eq!(recording_file_format(""), ".mp4");
    assert_eq!(recording_file_format("mp4"), "mp4.mp4");
}

#[test]
fn window_sizes_of_one_pixel_are_not_used() {
    assert_eq!(usable_window_size(1920, 1080), Some((1920, 1080)));
    assert_eq!(usable_window_size(1, 1), None);
    assert_eq!(usable_window_size(2, 1), None);
    assert_eq!(usable_window_size(-5, 100), None);
}

#[test]
fn the_window_recorder_follows_the_window() {
    assert_eq!(capture_action(true, false), CaptureAction::Start);
    assert_eq!(capture_action(true, true), CaptureAction::Nothing);
    assert_eq!(capture_action(false, true), CaptureAction::Stop);
    assert_eq!(capture_action(false, false), CaptureAction::Nothing);
}

fn riot_event(event: riot_datatypes::Event, timestamp: i64) -> riot_datatypes::GameEvent {
    riot_datatypes::GameEvent { event, timestamp }
}

fn riot_timeline() -> riot_datatypes::Timeline {
    riot_datatypes::Timeline {
        frames: vec![
            riot_datatypes::Frame {
                events: vec![
                    riot_event(riot_datatypes::Event::Unknown {}, 1),
                    riot_event(
                        riot_datatypes::Event::ChampionKill {
                            victim_id: 2,
                            killer_id: 1,
                            assisting_participant_ids: vec![],
                            position: Position { x: 0, y: 0 },
                        },
                        100,
                    ),
                ],
                participant_frames: vec![],
                timestamp: 0,
            },
            riot_datatypes::Frame { events: vec![], participant_frames: vec![], timestamp: 60000 },
            riot_datatypes::Frame {
                events: vec![
                    riot_event(
                        riot_datatypes::Event::EliteMonsterKill {
                            killer_id: 1,
                            monster_type: riot_datatypes::MonsterType::Horde,
                            assisting_participant_ids: vec![2],
                        },
                        70000,
                    ),
                    riot_event(riot_datatypes::Event::Unknown {}, 80000),
                ],
                participant_frames: vec![],
                timestamp: 120000,
            },
        ],
    }
}

#[test]
fn metadata_keeps_the_known_events_of_the_timeline_in_order() {
    let events = collect_kept_events(riot_timeline());
    assert_eq!(events.iter().map(|e| e.timestamp).collect::<Vec<_>>(), vec![100, 70000]);
    assert!(matches!(events[0].event, Event::ChampionKill { victim_id: 2, .. }));
    assert!(matches!(events[1].event, Event::EliteMonsterKill { .. }));

    let m = build_game_metadata(
        MatchId { game_id: 77, platform_id: "EUW1".to_string() },
        5,
        Queue { id: 440, name: "Flex".to_string(), is_ranked: true },
        Player { game_name: "Me".to_string(), tag_line: "EUW".to_string(), summoner_id: Some(1) },
        "Lux".to_string(),
        stats(),
        3,
        Some(riot_timeline()),
    );
    assert_eq!(m.match_id.to_display_string(), "EUW1_77");
    assert_eq!(m.ingame_time_rec_start_offset, 5);
    assert!(m.queue.is_ranked);
    assert_eq!(m.champion_name, "Lux");
    assert_eq!(m.stats.total_minions_killed, 150);
    assert_eq!(m.participant_id, 3);
    assert_eq!(m.events.len(), 2);
    assert!(!m.favorite);

    let empty = build_game_metadata(
        MatchId { game_id: 1, platform_id: "NA1".to_string() },
        0,
        Queue { id: 0, name: "Custom Game".to_string(), is_ranked: false },
        Player { game_name: "a".to_string(), tag_line: "b".to_string(), summoner_id: None },
        "Ahri".to_string(),
        stats(),
        1,
        None,
    );
    assert!(empty.events.is_empty());
}
