//! A game's timeline as the match-history API gives it, and the events of
//! it that a recording keeps.

use vstd::prelude::*;

pub use crate::riot_datatypes::{BuildingType, DragonType, LaneType, MonsterType, ParticipantFrame, Position, Team};
use super::{ParticipantId, Timestamp};

verus! {

pub struct Timeline {
    pub frames: Vec<Frame>,
}

pub struct Frame {
    pub events: Vec<Event>,
    pub participant_frames: Vec<(ParticipantId, ParticipantFrame)>,
    pub timestamp: Timestamp,
}

/// A timeline event of one of the kinds that are kept.
pub enum Event {
    ChampionKill {
        timestamp: Timestamp,
        victim_id: ParticipantId,
        killer_id: ParticipantId,
        assisting_participant_ids: Vec<ParticipantId>,
        position: Position,
    },
    BuildingKill {
        timestamp: Timestamp,
        team_id: Team,
        killer_id: ParticipantId,
        building_type: BuildingType,
        assisting_participant_ids: Vec<ParticipantId>,
    },
    EliteMonsterKill {
        timestamp: Timestamp,
        killer_id: ParticipantId,
        monster_type: MonsterType,
        assisting_participant_ids: Vec<ParticipantId>,
    },
}

/// An event as a recording's metadata stores it.
pub enum GameEvent {
    ChampionKill {
        timestamp: Timestamp,
        victim_id: ParticipantId,
        killer_id: ParticipantId,
        assisting_participant_ids: Vec<ParticipantId>,
        position: Position,
    },
    BuildingKill {
        timestamp: Timestamp,
        team_id: Team,
        killer_id: ParticipantId,
        building_type: BuildingType,
        assisting_participant_ids: Vec<ParticipantId>,
    },
    EliteMonsterKill {
        timestamp: Timestamp,
        killer_id: ParticipantId,
        monster_type: MonsterType,
        assisting_participant_ids: Vec<ParticipantId>,
    },
}

/// The stored event for a timeline event: the same kind with the same fields.
pub open spec fn game_event_of(e: Event) -> GameEvent {
    match e {
        Event::ChampionKill { timestamp, victim_id, killer_id, assisting_participant_ids, position } =>
            GameEvent::ChampionKill { timestamp, victim_id, killer_id, assisting_participant_ids, position },
        Event::BuildingKill { timestamp, team_id, killer_id, building_type, assisting_participant_ids } =>
            GameEvent::BuildingKill { timestamp, team_id, killer_id, building_type, assisting_participant_ids },
        Event::EliteMonsterKill { timestamp, killer_id, monster_type, assisting_participant_ids } =>
            GameEvent::EliteMonsterKill { timestamp, killer_id, monster_type, assisting_participant_ids },
    }
}

impl From<Event> for GameEvent {
    fn from(value: Event) -> (r: GameEvent) {
        match value {
            Event::ChampionKill { timestamp, victim_id, killer_id, assisting_participant_ids, position } =>
                GameEvent::ChampionKill { timestamp, victim_id, killer_id, assisting_participant_ids, position },
            Event::BuildingKill { timestamp, team_id, killer_id, building_type, assisting_participant_ids } =>
                GameEvent::BuildingKill { timestamp, team_id, killer_id, building_type, assisting_participant_ids },
            Event::EliteMonsterKill { timestamp, killer_id, monster_type, assisting_participant_ids } =>
                GameEvent::EliteMonsterKill { timestamp, killer_id, monster_type, assisting_participant_ids },
        }
    }
}

impl vstd::std_specs::convert::FromSpecImpl<Event> for GameEvent {
    open spec fn obeys_from_spec() -> bool {
        true
    }

    open spec fn from_spec(v: Event) -> GameEvent {
        game_event_of(v)
    }
}

/// The events of all frames, frame after frame, each in the order of its frame.
pub open spec fn all_events(frames: Seq<Frame>) -> Seq<Event>
    decreases frames.len(),
{
    if frames.len() == 0 {
        seq![]
    } else {
        all_events(frames.drop_last()) + frames.last().events@
    }
}

/// The stored events of a timeline: every event of every frame, in order.
pub fn collect_events(timeline: Timeline) -> (r: Vec<GameEvent>)
    ensures
        r@ == all_events(timeline.frames@).map_values(|e: Event| game_event_of(e)),
{
    let Timeline { frames } = timeline;
    let ghost all_frames = frames@;
    let frame_count = frames.len();
    let mut r: Vec<GameEvent> = Vec::new();
    let mut frames = frames;
    let mut rev_frames: Vec<Frame> = Vec::new();
    while frames.len() > 0
        invariant
            rev_frames@.len() + frames@.len() == all_frames.len(),
            frames@ == all_frames.subrange(0, frames@.len() as int),
            forall|i: int| 0 <= i < rev_frames@.len() ==> rev_frames@[i] == all_frames[all_frames.len() - 1 - i],
        decreases frames.len(),
    {
        let f = frames.pop().unwrap();
        rev_frames.push(f);
    }
    let mut done: usize = 0;
    while rev_frames.len() > 0
        invariant
            done + rev_frames@.len() == all_frames.len(),
            all_frames.len() == frame_count,
            forall|i: int| 0 <= i < rev_frames@.len() ==> rev_frames@[i] == all_frames[all_frames.len() - 1 - i],
            r@ == all_events(all_frames.subrange(0, done as int)).map_values(|e: Event| game_event_of(e)),
        decreases rev_frames.len(),
    {
        let frame = rev_frames.pop().unwrap();
        let ghost before = r@;
        let ghost frame_events = frame.events@;
        let event_count = frame.events.len();
        proof {
            assert(frame == all_frames[done as int]);
        }
        let Frame { events, participant_frames: _, timestamp: _ } = frame;
        let mut events = events;
        let mut rev_events: Vec<Event> = Vec::new();
        while events.len() > 0
            invariant
                rev_events@.len() + events@.len() == frame_events.len(),
                events@ == frame_events.subrange(0, events@.len() as int),
                forall|i: int| 0 <= i < rev_events@.len() ==> rev_events@[i] == frame_events[frame_events.len() - 1 - i],
            decreases events.len(),
        {
            let e = events.pop().unwrap();
            rev_events.push(e);
        }
        let mut taken: usize = 0;
        while rev_events.len() > 0
            invariant
                taken + rev_events@.len() == frame_events.len(),
                frame_events.len() == event_count,
                forall|i: int| 0 <= i < rev_events@.len() ==> rev_events@[i] == frame_events[frame_events.len() - 1 - i],
                r@ == before + frame_events.subrange(0, taken as int).map_values(|e: Event| game_event_of(e)),
            decreases rev_events.len(),
        {
            let e = rev_events.pop().unwrap();
            proof {
                assert(e == frame_events[taken as int]);
            }
            r.push(GameEvent::from(e));
            proof {
                assert(frame_events.subrange(0, taken + 1).map_values(|e: Event| game_event_of(e))
                    =~= frame_events.subrange(0, taken as int).map_values(|e: Event| game_event_of(e)).push(game_event_of(e)));
            }
            taken = taken + 1;
        }
        proof {
            let sub = all_frames.subrange(0, done + 1);
            assert(sub.drop_last() =~= all_frames.subrange(0, done as int));
            assert(sub.last() == all_frames[done as int]);
            assert(frame_events.subrange(0, taken as int) =~= frame_events);
            assert(all_events(sub) == all_events(all_frames.subrange(0, done as int)) + frame_events);
            assert((all_events(all_frames.subrange(0, done as int)) + frame_events).map_values(|e: Event| game_event_of(e))
                =~= all_events(all_frames.subrange(0, done as int)).map_values(|e: Event| game_event_of(e))
                + frame_events.map_values(|e: Event| game_event_of(e)));
        }
        done = done + 1;
    }
    assert(all_frames.subrange(0, done as int) =~= all_frames);
    r
}

/// The events of a timeline are those of its frames laid end to end: a
/// single frame gives its own events, and the events of two runs of frames
/// one after the other are the events of the first run followed by those of
/// the second.
pub proof fn lemma_all_events_along_frames(a: Seq<Frame>, b: Seq<Frame>, f: Frame)
    ensures
        all_events(seq![f]) == f.events@,
        all_events(a + b) == all_events(a) + all_events(b),
    decreases b.len(),
{
    assert(seq![f].drop_last() =~= Seq::<Frame>::empty());
    assert(seq![f].last() == f);
    assert(all_events(Seq::<Frame>::empty()).len() == 0);
    assert(all_events(seq![f]) =~= f.events@);
    if b.len() == 0 {
        assert(a + b =~= a);
        assert(all_events(a) + all_events(b) =~= all_events(a));
    } else {
        lemma_all_events_along_frames(a, b.drop_last(), f);
        assert((a + b).drop_last() =~= a + b.drop_last());
        assert((a + b).last() == b.last());
        assert(all_events(a + b) =~= all_events(a) + all_events(b));
    }
}

} // verus!
