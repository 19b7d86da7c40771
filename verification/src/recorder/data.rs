//! The metadata file stored beside each recording: the game's data once it
//! was collected, what is needed to collect it later, or nothing at all;
//! in each case with the recording's favorite flag.

use crate::riot_datatypes::lcu::{Player, Stats};
use crate::riot_datatypes::{self, BuildingType, F64Bits, MatchId, MonsterType, ParticipantId, Position, Queue, Team, Timestamp};
use vstd::prelude::*;

verus! {

/// The metadata of one recording.
pub enum MetadataFile {
    Metadata(GameMetadata),
    Deferred(Deferred),
    NoData(NoData),
}

/// The collected data of a recorded game.
pub struct GameMetadata {
    pub match_id: MatchId,
    /// Bit pattern of the in-game time (seconds) at which the recording started.
    pub ingame_time_rec_start_offset: F64Bits,
    pub queue: Queue,
    pub player: Player,
    pub champion_name: String,
    pub stats: Stats,
    pub participant_id: ParticipantId,
    pub events: Vec<GameEvent>,
    pub favorite: bool,
}

/// What is needed to collect a game's data later.
pub struct Deferred {
    pub match_id: MatchId,
    /// Bit pattern of the in-game time (seconds) at which the recording started.
    pub ingame_time_rec_start_offset: F64Bits,
    pub favorite: bool,
}

/// A recording without game data.
pub struct NoData {
    pub favorite: bool,
}

/// A recorded timeline event with the time it happened at.
pub struct GameEvent {
    pub event: Event,
    pub timestamp: Timestamp,
}

/// The timeline events that are kept in a recording's metadata.
pub enum Event {
    ChampionKill {
        victim_id: ParticipantId,
        killer_id: ParticipantId,
        assisting_participant_ids: Vec<ParticipantId>,
        position: Position,
    },
    BuildingKill {
        team_id: Team,
        killer_id: ParticipantId,
        building_type: BuildingType,
        assisting_participant_ids: Vec<ParticipantId>,
    },
    EliteMonsterKill {
        killer_id: ParticipantId,
        monster_type: MonsterType,
        assisting_participant_ids: Vec<ParticipantId>,
    },
}

/// A timeline event of a kind that is not kept; it carries the event.
pub struct UnknownEvent(pub riot_datatypes::Event);

/// The favorite flag of a metadata file.
pub open spec fn favorite_of(m: MetadataFile) -> bool {
    match m {
        MetadataFile::Metadata(d) => d.favorite,
        MetadataFile::Deferred(d) => d.favorite,
        MetadataFile::NoData(d) => d.favorite,
    }
}

/// The metadata file with its favorite flag set to `favorite` and all else
/// unchanged.
pub open spec fn with_favorite(m: MetadataFile, favorite: bool) -> MetadataFile {
    match m {
        MetadataFile::Metadata(d) => MetadataFile::Metadata(GameMetadata { favorite, ..d }),
        MetadataFile::Deferred(d) => MetadataFile::Deferred(Deferred { favorite, ..d }),
        MetadataFile::NoData(d) => MetadataFile::NoData(NoData { favorite }),
    }
}

impl MetadataFile {
    /// Whether the recording is marked as favorite.
    pub fn is_favorite(&self) -> (r: bool)
        ensures
            r == favorite_of(*self),
    {
        match self {
            MetadataFile::Metadata(metadata) => metadata.favorite,
            MetadataFile::Deferred(deferred) => deferred.favorite,
            MetadataFile::NoData(no_data) => no_data.favorite,
        }
    }

    /// Marks or unmarks the recording as favorite.
    pub fn set_favorite(&mut self, favorite: bool)
        ensures
            *final(self) == with_favorite(*old(self), favorite),
    {
        match self {
            MetadataFile::Metadata(metadata) => metadata.favorite = favorite,
            MetadataFile::Deferred(deferred) => deferred.favorite = favorite,
            MetadataFile::NoData(no_data) => no_data.favorite = favorite,
        };
    }
}

/// Setting the favorite flag and reading it back gives what was set; the
/// kind of metadata is kept.
pub proof fn lemma_favorite_read_back(m: MetadataFile, favorite: bool)
    ensures
        favorite_of(with_favorite(m, favorite)) == favorite,
        (with_favorite(m, favorite) is Metadata) == (m is Metadata),
        (with_favorite(m, favorite) is Deferred) == (m is Deferred),
        (with_favorite(m, favorite) is NoData) == (m is NoData),
{
}

/// Of two settings of the favorite flag the last one counts; setting the
/// flag it already has changes nothing.
pub proof fn lemma_favorite_last_write_wins(m: MetadataFile, a: bool, b: bool)
    ensures
        with_favorite(with_favorite(m, a), b) == with_favorite(m, b),
        with_favorite(m, favorite_of(m)) == m,
{
}

/// Whether a timeline event is of a kind that is kept.
pub open spec fn is_kept_event(e: riot_datatypes::Event) -> bool {
    !(e is Unknown)
}

/// The kept event for a timeline event of a kept kind.
pub open spec fn kept_event(e: riot_datatypes::Event) -> Event {
    match e {
        riot_datatypes::Event::ChampionKill { victim_id, killer_id, assisting_participant_ids, position } =>
            Event::ChampionKill { victim_id, killer_id, assisting_participant_ids, position },
        riot_datatypes::Event::BuildingKill { team_id, killer_id, building_type, assisting_participant_ids } =>
            Event::BuildingKill { team_id, killer_id, building_type, assisting_participant_ids },
        riot_datatypes::Event::EliteMonsterKill { killer_id, monster_type, assisting_participant_ids } =>
            Event::EliteMonsterKill { killer_id, monster_type, assisting_participant_ids },
        riot_datatypes::Event::Unknown {} => arbitrary(),
    }
}

impl Event {
    /// The kept event for a timeline event; an event of another kind is
    /// handed back as the error.
    pub fn try_from(value: riot_datatypes::Event) -> (r: Result<Event, UnknownEvent>)
        ensures
            is_kept_event(value) ==> r == Ok::<Event, UnknownEvent>(kept_event(value)),
            !is_kept_event(value) ==> r == Err::<Event, UnknownEvent>(UnknownEvent(value)),
    {
        match value {
            riot_datatypes::Event::ChampionKill { victim_id, killer_id, assisting_participant_ids, position } =>
                Ok(Event::ChampionKill { victim_id, killer_id, assisting_participant_ids, position }),
            riot_datatypes::Event::BuildingKill { team_id, killer_id, building_type, assisting_participant_ids } =>
                Ok(Event::BuildingKill { team_id, killer_id, building_type, assisting_participant_ids }),
            riot_datatypes::Event::EliteMonsterKill { killer_id, monster_type, assisting_participant_ids } =>
                Ok(Event::EliteMonsterKill { killer_id, monster_type, assisting_participant_ids }),
            event => Err(UnknownEvent(event)),
        }
    }
}

impl GameEvent {
    /// The kept event for a timeline event, with its timestamp; an event of
    /// another kind is handed back as the error.
    pub fn try_from(value: riot_datatypes::GameEvent) -> (r: Result<GameEvent, UnknownEvent>)
        ensures
            is_kept_event(value.event) ==> r == Ok::<GameEvent, UnknownEvent>(
                GameEvent { event: kept_event(value.event), timestamp: value.timestamp },
            ),
            !is_kept_event(value.event) ==> r == Err::<GameEvent, UnknownEvent>(UnknownEvent(value.event)),
    {
        let timestamp = value.timestamp;
        match Event::try_from(value.event) {
            Ok(event) => Ok(GameEvent { event, timestamp }),
            Err(e) => Err(e),
        }
    }
}

/// What to do with a recording's metadata file once it was read (`None`
/// where there is none).
pub enum MetadataLookup {
    /// There was none: store and use `NoData` without the favorite flag.
    CreateEmpty,
    /// Use the file as it is.
    Ready(MetadataFile),
    /// Collect the game's data for this match now, then keep the favorite flag.
    Fetch { match_id: MatchId, ingame_time_rec_start_offset: F64Bits, favorite: bool },
    /// The game's data is still to be collected, and collecting was not asked for.
    NotCollected,
}

/// The metadata file stored where a recording has none.
pub open spec fn empty_metadata() -> MetadataFile {
    MetadataFile::NoData(NoData { favorite: false })
}

/// Decides what a lookup of a recording's metadata does with what was
/// read: a missing file is created empty; data that was deferred is
/// collected when `fetch` asks for it and is an error otherwise; anything
/// else is used as it is.
pub fn metadata_lookup(stored: Option<MetadataFile>, fetch: bool) -> (r: MetadataLookup)
    ensures
        match stored {
            None => r is CreateEmpty,
            Some(MetadataFile::Deferred(d)) => if fetch {
                r == MetadataLookup::Fetch {
                    match_id: d.match_id,
                    ingame_time_rec_start_offset: d.ingame_time_rec_start_offset,
                    favorite: d.favorite,
                }
            } else {
                r is NotCollected
            },
            Some(m) => r == MetadataLookup::Ready(m),
        },
{
    match stored {
        None => MetadataLookup::CreateEmpty,
        Some(MetadataFile::Deferred(d)) => {
            if fetch {
                MetadataLookup::Fetch {
                    match_id: d.match_id,
                    ingame_time_rec_start_offset: d.ingame_time_rec_start_offset,
                    favorite: d.favorite,
                }
            } else {
                MetadataLookup::NotCollected
            }
        },
        Some(m) => MetadataLookup::Ready(m),
    }
}

/// The empty metadata file, stored where a recording has none.
pub fn new_empty_metadata() -> (r: MetadataFile)
    ensures
        r == empty_metadata(),
{
    MetadataFile::NoData(NoData { favorite: false })
}

/// The metadata file for data collected later: the collected data with
/// the favorite flag the recording had meanwhile.
pub fn collected_metadata(metadata: GameMetadata, favorite: bool) -> (r: MetadataFile)
    ensures
        r == MetadataFile::Metadata(GameMetadata { favorite, ..metadata }),
        favorite_of(r) == favorite,
{
    let mut metadata = metadata;
    metadata.favorite = favorite;
    MetadataFile::Metadata(metadata)
}

/// Flips the favorite flag of a recording's metadata and gives the new flag.
pub fn toggle_favorite(metadata: &mut MetadataFile) -> (r: bool)
    ensures
        r == !favorite_of(*old(metadata)),
        *final(metadata) == with_favorite(*old(metadata), r),
{
    let favorite = !metadata.is_favorite();
    metadata.set_favorite(favorite);
    favorite
}

/// Toggling the favorite flag twice gives back the metadata it started from.
pub proof fn lemma_toggle_twice(m: MetadataFile)
    ensures
        with_favorite(with_favorite(m, !favorite_of(m)), !favorite_of(with_favorite(m, !favorite_of(m)))) == m,
{
}

/// The timeline events of all frames, frame after frame.
pub open spec fn timeline_events(frames: Seq<riot_datatypes::Frame>) -> Seq<riot_datatypes::GameEvent>
    decreases frames.len(),
{
    if frames.len() == 0 {
        seq![]
    } else {
        timeline_events(frames.drop_last()) + frames.last().events@
    }
}

/// The kept events among timeline events, in order, each with its timestamp.
pub open spec fn kept_game_events(events: Seq<riot_datatypes::GameEvent>) -> Seq<GameEvent>
    decreases events.len(),
{
    if events.len() == 0 {
        seq![]
    } else {
        let rest = kept_game_events(events.drop_last());
        let e = events.last();
        if is_kept_event(e.event) {
            rest.push(GameEvent { event: kept_event(e.event), timestamp: e.timestamp })
        } else {
            rest
        }
    }
}

/// The events a recording's metadata keeps of a timeline: every event of a
/// kept kind, frame after frame, in order.
pub fn collect_kept_events(timeline: riot_datatypes::Timeline) -> (r: Vec<GameEvent>)
    ensures
        r@ == kept_game_events(timeline_events(timeline.frames@)),
{
    let riot_datatypes::Timeline { frames } = timeline;
    let ghost all_frames = frames@;
    let frame_count = frames.len();
    let mut frames = frames;
    let mut rev_frames: Vec<riot_datatypes::Frame> = Vec::new();
    while frames.len() > 0
        invariant
            rev_frames@.len() + frames@.len() == all_frames.len(),
            frames@ == all_frames.subrange(0, frames@.len() as int),
            forall|i: int| 0 <= i < rev_frames@.len() ==> rev_frames@[i] == all_frames[all_frames.len() - 1 - i],
        decreases frames.len(),
    {
        let f = frames.pop().unwrap();
        rev_frames.push(f);
    }
    let mut r: Vec<GameEvent> = Vec::new();
    let mut done: usize = 0;
    while rev_frames.len() > 0
        invariant
            done + rev_frames@.len() == all_frames.len(),
            all_frames.len() == frame_count,
            forall|i: int| 0 <= i < rev_frames@.len() ==> rev_frames@[i] == all_frames[all_frames.len() - 1 - i],
            r@ == kept_game_events(timeline_events(all_frames.subrange(0, done as int))),
        decreases rev_frames.len(),
    {
        let frame = rev_frames.pop().unwrap();
        let ghost before_events = timeline_events(all_frames.subrange(0, done as int));
        let ghost frame_events = frame.events@;
        proof {
            assert(frame == all_frames[done as int]);
        }
        let event_count = frame.events.len();
        let riot_datatypes::Frame { events, participant_frames: _, timestamp: _ } = frame;
        let mut events = events;
        let mut rev_events: Vec<riot_datatypes::GameEvent> = Vec::new();
        while events.len() > 0
            invariant
                rev_events@.len() + events@.len() == frame_events.len(),
                events@ == frame_events.subrange(0, events@.len() as int),
                forall|i: int| 0 <= i < rev_events@.len() ==> rev_events@[i] == frame_events[frame_events.len() - 1 - i],
            decreases events.len(),
        {
            let e = events.pop().unwrap();
            rev_events.push(e);
        }
        let mut taken: usize = 0;
        while rev_events.len() > 0
            invariant
                taken + rev_events@.len() == frame_events.len(),
                frame_events.len() == event_count,
                forall|i: int| 0 <= i < rev_events@.len() ==> rev_events@[i] == frame_events[frame_events.len() - 1 - i],
                r@ == kept_game_events(before_events + frame_events.subrange(0, taken as int)),
            decreases rev_events.len(),
        {
            let e = rev_events.pop().unwrap();
            proof {
                assert(e == frame_events[taken as int]);
                let prefix = before_events + frame_events.subrange(0, taken + 1);
                assert(prefix.drop_last() =~= before_events + frame_events.subrange(0, taken as int));
                assert(prefix.last() == e);
            }
            match GameEvent::try_from(e) {
                Ok(g) => {
                    r.push(g);
                },
                Err(_) => {},
            }
            taken = taken + 1;
        }
        proof {
            let sub = all_frames.subrange(0, done + 1);
            assert(sub.drop_last() =~= all_frames.subrange(0, done as int));
            assert(sub.last() == all_frames[done as int]);
            assert(frame_events.subrange(0, taken as int) =~= frame_events);
        }
        done = done + 1;
    }
    assert(all_frames.subrange(0, done as int) =~= all_frames);
    r
}

/// The metadata of a recorded game from the answers of the client: the
/// match, the in-game time the recording started at, the queue, the player,
/// the champion's name, the participant's statistics and id, and the kept
/// events of the timeline (none where no timeline could be had); not yet a
/// favorite.
pub fn build_game_metadata(
    match_id: MatchId,
    ingame_time_rec_start_offset: F64Bits,
    queue: Queue,
    player: Player,
    champion_name: String,
    stats: Stats,
    participant_id: ParticipantId,
    timeline: Option<riot_datatypes::Timeline>,
) -> (r: GameMetadata)
    ensures
        r.match_id == match_id,
        r.ingame_time_rec_start_offset == ingame_time_rec_start_offset,
        r.queue == queue,
        r.player == player,
        r.champion_name == champion_name,
        r.stats == stats,
        r.participant_id == participant_id,
        r.events@ == (match timeline {
            Some(t) => kept_game_events(timeline_events(t.frames@)),
            None => Seq::<GameEvent>::empty(),
        }),
        !r.favorite,
{
    let events = match timeline {
        Some(t) => collect_kept_events(t),
        None => Vec::new(),
    };
    GameMetadata {
        match_id,
        ingame_time_rec_start_offset,
        queue,
        player,
        champion_name,
        stats,
        participant_id,
        events,
        favorite: false,
    }
}

/// Every timeline event of a known kind is kept, with the same fields:
/// champion kills, building (turret and inhibitor) kills and elite monster
/// kills; only events of an unknown kind are not.
pub proof fn lemma_known_events_kept(e: riot_datatypes::Event)
    ensures
        e matches riot_datatypes::Event::ChampionKill { victim_id, killer_id, assisting_participant_ids, position }
            ==> is_kept_event(e) && kept_event(e) == (Event::ChampionKill {
                victim_id, killer_id, assisting_participant_ids, position,
            }),
        e matches riot_datatypes::Event::BuildingKill { team_id, killer_id, building_type, assisting_participant_ids }
            ==> is_kept_event(e) && kept_event(e) == (Event::BuildingKill {
                team_id, killer_id, building_type, assisting_participant_ids,
            }),
        e matches riot_datatypes::Event::EliteMonsterKill { killer_id, monster_type, assisting_participant_ids }
            ==> is_kept_event(e) && kept_event(e) == (Event::EliteMonsterKill {
                killer_id, monster_type, assisting_participant_ids,
            }),
        e is Unknown ==> !is_kept_event(e),
{
}

/// The kept events of a run of timeline events are exactly those whose
/// kind is known, in their order, each converted with its timestamp.
pub proof fn lemma_kept_game_events_are_known_ones(events: Seq<riot_datatypes::GameEvent>)
    ensures
        kept_game_events(events) == events.filter(|g: riot_datatypes::GameEvent| !(g.event is Unknown)).map_values(
            |g: riot_datatypes::GameEvent| GameEvent { event: kept_event(g.event), timestamp: g.timestamp },
        ),
    decreases events.len(),
{
    let pred = |g: riot_datatypes::GameEvent| !(g.event is Unknown);
    let conv = |g: riot_datatypes::GameEvent| GameEvent { event: kept_event(g.event), timestamp: g.timestamp };
    reveal(Seq::filter);
    if events.len() == 0 {
        assert(events.filter(pred) =~= events);
        assert(events.filter(pred).map_values(conv) =~= Seq::<GameEvent>::empty());
    } else {
        lemma_kept_game_events_are_known_ones(events.drop_last());
        let prev = events.drop_last().filter(pred);
        if pred(events.last()) {
            assert(events.filter(pred) == prev.push(events.last()));
            assert(prev.push(events.last()).map_values(conv) =~= prev.map_values(conv).push(conv(events.last())));
        } else {
            assert(events.filter(pred) == prev);
        }
    }
}

/// The timeline events of a game are those of its frames laid end to end: a
/// single frame gives its own events, and two runs of frames one after the
/// other give the events of the first run followed by those of the second.
pub proof fn lemma_timeline_events_along_frames(a: Seq<riot_datatypes::Frame>, b: Seq<riot_datatypes::Frame>, f: riot_datatypes::Frame)
    ensures
        timeline_events(seq![f]) == f.events@,
        timeline_events(a + b) == timeline_events(a) + timeline_events(b),
    decreases b.len(),
{
    assert(seq![f].drop_last() =~= Seq::<riot_datatypes::Frame>::empty());
    assert(seq![f].last() == f);
    assert(timeline_events(Seq::<riot_datatypes::Frame>::empty()).len() == 0);
    assert(timeline_events(seq![f]) =~= f.events@);
    if b.len() == 0 {
        assert(a + b =~= a);
        assert(timeline_events(a) + timeline_events(b) =~= timeline_events(a));
    } else {
        lemma_timeline_events_along_frames(a, b.drop_last(), f);
        assert((a + b).drop_last() =~= a + b.drop_last());
        assert((a + b).last() == b.last());
        assert(timeline_events(a + b) =~= timeline_events(a) + timeline_events(b));
    }
}

} // verus!
