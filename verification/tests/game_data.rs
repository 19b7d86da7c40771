use league_record::game_data::game::{Game, Participant, ParticipantIdentity, Player, Stats};
use league_record::game_data::metadata::{
    assemble_metadata, champion_request, current_summoner_request, find_participant, find_participant_id,
    game_request, plan_participant, queue_request, timeline_request, MetadataError,
};
use league_record::game_data::objects::{builtin_queue, Queue};
use league_record::game_data::timeline::{collect_events, Event, Frame, GameEvent, Timeline};
use league_record::riot_datatypes::{BuildingType, LaneType, MonsterType, DragonType, Position, Team, TowerType};

fn player(name: &str, tag: &str, id: Option<i64>) -> Player {
    Player { game_name: name.to_string(), tag_line: tag.to_string(), summoner_id: id }
}

fn stats(kills: i64) -> Stats {
    Stats {
        kills,
        deaths: 0,
        assists: 0,
        largest_multi_kill: 0,
        neutral_minions_killed: 0,
        neutral_minions_killed_enemy_jungle: 0,
        neutral_minions_killed_team_jungle: 0,
        total_minions_killed: 0,
        vision_score: 0,
        vision_wards_bought_in_game: 0,
        wards_placed: 0,
        wards_killed: 0,
        game_ended_in_early_surrender: false,
        game_ended_in_surrender: false,
        win: false,
    }
}

fn participant(id: i64, champion: i64, kills: i64) -> Participant {
    Participant { participant_id: id, champion_id: champion, spell1_id: 4, spell2_id: 14, stats: stats(kills) }
}

fn game() -> Game {
    Game {
        game_version: "14.1".to_string(),
        game_id: 123,
        map_id: 11,
        game_mode: "CLASSIC".to_string(),
        queue_id: 420,
        game_duration: 1800,
        participant_identities: vec![
            ParticipantIdentity { participant_id: 1, player: player("Someone", "EUW", Some(11)) },
            ParticipantIdentity { participant_id: 2, player: player("Me", "EUW", Some(22)) },
        ],
        participants: vec![participant(1, 103, 5), participant(2, 157, 9)],
    }
}

#[test]
fn practice_tool_and_custom_games_have_builtin_queues() {
    let q = builtin_queue(-1).unwrap();
    assert_eq!((q.id, q.name.as_str(), q.description.as_str()), (-1, "Practicetool", "Practicetool"));
    let q = builtin_queue(0).unwrap();
    assert_eq!((q.id, q.name.as_str(), q.description.as_str()), (0, "Custom Game", "Custom Game"));
    assert!(builtin_queue(420).is_none());
}

#[test]
fn request_paths() {
    assert_eq!(current_summoner_request(), "/lol-summoner/v1/current-summoner");
    assert_eq!(game_request(6_500_000_123), "/lol-match-history/v1/games/6500000123");
    assert_eq!(timeline_request(42), "/lol-match-history/v1/game-timelines/42");
    assert_eq!(queue_request(-1), "/lol-game-queues/v1/queues/-1");
    assert_eq!(champion_request(22, 157), "/lol-champions/v1/inventories/22/champions/157");
}

#[test]
fn the_player_is_found_by_all_fields() {
    let g = game();
    assert_eq!(find_participant_id(&g, &player("Me", "EUW", Some(22))), Some(2));
    assert_eq!(find_participant_id(&g, &player("Me", "EUW", Some(99))), None);
    assert_eq!(find_participant_id(&g, &player("me", "EUW", Some(22))), None);
    assert_eq!(find_participant(&g, 1), Some(0));
    assert_eq!(find_participant(&g, 3), None);
}

#[test]
fn planning_finds_the_participant_and_its_champion() {
    let g = game();
    let plan = plan_participant(&g, &player("Me", "EUW", Some(22))).ok().unwrap();
    assert_eq!(plan.participant_id, 2);
    assert_eq!(plan.participant_index, 1);
    assert_eq!(plan.champion_path, "/lol-champions/v1/inventories/22/champions/157");
    assert!(matches!(plan_participant(&g, &player("Nobody", "NA", Some(1))), Err(MetadataError::PlayerNotFound)));
    let mut g2 = game();
    g2.participants.pop();
    assert!(matches!(plan_participant(&g2, &player("Me", "EUW", Some(22))), Err(MetadataError::ParticipantNotFound)));
}

fn kill(ts: i64) -> Event {
    Event::ChampionKill {
        timestamp: ts,
        victim_id: 1,
        killer_id: 2,
        assisting_participant_ids: vec![3],
        position: Position { x: 1, y: 2 },
    }
}

fn timeline() -> Timeline {
    Timeline {
        frames: vec![
            Frame { events: vec![kill(10), kill(20)], participant_frames: vec![], timestamp: 0 },
            Frame { events: vec![], participant_frames: vec![], timestamp: 60000 },
            Frame {
                events: vec![
                    Event::BuildingKill {
                        timestamp: 70000,
                        team_id: Team::Red,
                        killer_id: 2,
                        building_type: BuildingType::TowerBuilding { lane_type: LaneType::MidLane, tower_type: TowerType::OuterTurret },
                        assisting_participant_ids: vec![],
                    },
                    Event::EliteMonsterKill {
                        timestamp: 80000,
                        killer_id: 2,
                        monster_type: MonsterType::Dragon { dragon_type: DragonType::ElderDragon },
                        assisting_participant_ids: vec![],
                    },
                ],
                participant_frames: vec![],
                timestamp: 120000,
            },
        ],
    }
}

fn timestamp(e: &GameEvent) -> i64 {
    match e {
        GameEvent::ChampionKill { timestamp, .. } => *timestamp,
        GameEvent::BuildingKill { timestamp, .. } => *timestamp,
        GameEvent::EliteMonsterKill { timestamp, .. } => *timestamp,
    }
}

#[test]
fn events_of_all_frames_are_collected_in_order() {
    let events = collect_events(timeline());
    assert_eq!(events.iter().map(timestamp).collect::<Vec<_>>(), vec![10, 20, 70000, 80000]);
    assert!(matches!(events[2], GameEvent::BuildingKill { team_id: Team::Red, .. }));
    assert!(collect_events(Timeline { frames: vec![] }).is_empty());
    assert!(matches!(GameEvent::from(kill(5)), GameEvent::ChampionKill { timestamp: 5, victim_id: 1, .. }));
}

#[test]
fn metadata_is_assembled_from_the_answers() {
    let g = game();
    let me = player("Me", "EUW", Some(22));
    let plan = plan_participant(&g, &me).ok().unwrap();
    let queue = Queue { id: 420, name: "Ranked Solo/Duo".to_string(), description: "5v5 Ranked Solo".to_string() };
    let m = assemble_metadata(7, queue, me, "Yasuo".to_string(), g, &plan, Some(timeline()));
    assert_eq!(m.ingame_time_rec_start_offset, 7);
    assert_eq!(m.queue.id, 420);
    assert_eq!(m.champion_name, "Yasuo");
    assert_eq!(m.stats.kills, 9);
    assert_eq!(m.participant_id, 2);
    assert_eq!(m.events.len(), 4);
    assert!(!m.favorite);

    let g = game();
    let me = player("Me", "EUW", Some(22));
    let plan = plan_participant(&g, &me).ok().unwrap();
    let queue = builtin_queue(0).unwrap();
    let m = assemble_metadata(0, queue, me, "Ahri".to_string(), g, &plan, None);
    assert!(m.events.is_empty());
}

#[test]
fn a_missing_participant_is_an_error_whatever_the_summoner_id() {
    let mut g = game();
    g.participants.pop();
    g.participant_identities[1].player.summoner_id = None;
    assert!(matches!(plan_participant(&g, &player("Me", "EUW", None)), Err(MetadataError::ParticipantNotFound)));
    assert!(matches!(plan_participant(&g, &player("Nobody", "EUW", None)), Err(MetadataError::PlayerNotFound)));
}

use league_record::game_data::metadata::{fetch_start, fetch_step, FetchAction, FetchEvent, FetchFailure, FETCH_ROUNDS};

#[test]
fn collection_goes_on_once_everything_came_back() {
    let (s, a) = fetch_start();
    assert_eq!(a, FetchAction::Fetch);
    let (_, a) = fetch_step(s, FetchEvent::Fetched { game: true, timeline: true });
    assert_eq!(a, FetchAction::Proceed);
}

#[test]
fn collection_is_cancelled_while_waiting() {
    let (s, _) = fetch_start();
    let (s, a) = fetch_step(s, FetchEvent::Fetched { game: true, timeline: false });
    assert_eq!(a, FetchAction::Wait);
    let (_, a) = fetch_step(s, FetchEvent::WaitEnded { cancelled: true });
    assert_eq!(a, FetchAction::Fail(FetchFailure::Cancelled));
}

fn rounds(game: bool, timeline: bool) -> (u32, FetchAction) {
    let (mut s, mut a) = fetch_start();
    let mut made = 0;
    loop {
        match a {
            FetchAction::Fetch => {
                made += 1;
                let r = fetch_step(s, FetchEvent::Fetched { game, timeline });
                s = r.0;
                a = r.1;
            }
            FetchAction::Wait => {
                let r = fetch_step(s, FetchEvent::WaitEnded { cancelled: false });
                s = r.0;
                a = r.1;
            }
            other => return (made, other),
        }
    }
}

#[test]
fn collection_makes_at_most_sixty_rounds() {
    assert_eq!(FETCH_ROUNDS, 60);
    assert_eq!(rounds(false, false), (60, FetchAction::Fail(FetchFailure::NoGameData)));
    assert_eq!(rounds(false, true), (60, FetchAction::Fail(FetchFailure::NoGameData)));
    // without a timeline the last round's game is used
    assert_eq!(rounds(true, false), (60, FetchAction::Proceed));
    assert_eq!(rounds(true, true), (1, FetchAction::Proceed));
}
