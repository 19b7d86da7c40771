//! How a recording's metadata is put together from what the client's APIs
//! report about the finished game.
//!
//! The requests themselves are made by the caller, with retries while the
//! client has not published the game yet; this module says which requests
//! to make and what is built from their answers.

use vstd::prelude::*;

use super::game::{player_eq, Game, Participant, ParticipantIdentity, Player, Stats};
use super::objects::Queue;
use super::timeline::{all_events, collect_events, game_event_of, Event, GameEvent, Timeline};
use super::{ChampionId, GameId, ParticipantId};
use crate::riot_datatypes::F64Bits;
use crate::text::{push_decimal, signed_decimal};

verus! {

/// The metadata of a recorded game.
pub struct GameMetadata {
    /// Bit pattern of the in-game time (seconds) at which the recording started.
    pub ingame_time_rec_start_offset: F64Bits,
    pub queue: Queue,
    pub player: Player,
    pub champion_name: String,
    pub stats: Stats,
    pub participant_id: ParticipantId,
    pub events: Vec<GameEvent>,
    pub favorite: bool,
}

/// Why a game's metadata could not be put together.
#[derive(Debug, Clone, Copy, PartialEq, Eq, Structural)]
pub enum MetadataError {
    /// The player is not among the game's participant identities.
    PlayerNotFound,
    /// No participant has the player's participant id.
    ParticipantNotFound,
}

/// Position of the first identity that is `player`, if any.
pub open spec fn first_identity_of(ids: Seq<ParticipantIdentity>, player: Player) -> Option<int>
    decreases ids.len(),
{
    if ids.len() == 0 {
        None
    } else {
        match first_identity_of(ids.drop_last(), player) {
            Some(k) => Some(k),
            None => if player_eq(ids.last().player, player) { Some(ids.len() - 1) } else { None },
        }
    }
}

/// Position of the first participant with the id `id`, if any.
pub open spec fn first_participant_with(ps: Seq<Participant>, id: ParticipantId) -> Option<int>
    decreases ps.len(),
{
    if ps.len() == 0 {
        None
    } else {
        match first_participant_with(ps.drop_last(), id) {
            Some(k) => Some(k),
            None => if ps.last().participant_id == id { Some(ps.len() - 1) } else { None },
        }
    }
}

proof fn lemma_first_identity_bounds(ids: Seq<ParticipantIdentity>, player: Player)
    ensures
        first_identity_of(ids, player) matches Some(k) ==> 0 <= k < ids.len() && player_eq(ids[k].player, player),
    decreases ids.len(),
{
    if ids.len() > 0 {
        lemma_first_identity_bounds(ids.drop_last(), player);
    }
}

proof fn lemma_first_participant_bounds(ps: Seq<Participant>, id: ParticipantId)
    ensures
        first_participant_with(ps, id) matches Some(k) ==> 0 <= k < ps.len() && ps[k].participant_id == id,
    decreases ps.len(),
{
    if ps.len() > 0 {
        lemma_first_participant_bounds(ps.drop_last(), id);
    }
}

/// The participant id of the first identity in the game that is `player`.
pub fn find_participant_id(game: &Game, player: &Player) -> (r: Option<ParticipantId>)
    ensures
        r == (match first_identity_of(game.participant_identities@, *player) {
            Some(k) => Some(game.participant_identities@[k].participant_id),
            None => None,
        }),
{
    let ids = &game.participant_identities;
    let mut i: usize = 0;
    while i < ids.len()
        invariant
            i <= ids.len(),
            ids@ == game.participant_identities@,
            first_identity_of(ids@.subrange(0, i as int), *player) is None,
        decreases ids.len() - i,
    {
        proof {
            let sub = ids@.subrange(0, i + 1);
            assert(sub.drop_last() =~= ids@.subrange(0, i as int));
        }
        if ids[i].player == *player {
            proof {
                let sub = ids@.subrange(0, i + 1);
                assert(sub.last() == ids@[i as int]);
                assert(first_identity_of(sub, *player) == Some(i as int));
                lemma_first_identity_prefix(ids@, *player, i + 1);
            }
            return Some(ids[i].participant_id);
        }
        i = i + 1;
    }
    assert(ids@.subrange(0, ids.len() as int) =~= ids@);
    None
}

proof fn lemma_first_identity_prefix(ids: Seq<ParticipantIdentity>, player: Player, n: int)
    requires
        0 < n <= ids.len(),
        first_identity_of(ids.subrange(0, n), player) is Some,
    ensures
        first_identity_of(ids, player) == first_identity_of(ids.subrange(0, n), player),
    decreases ids.len(),
{
    if n < ids.len() {
        assert(ids.drop_last().subrange(0, n) =~= ids.subrange(0, n));
        lemma_first_identity_prefix(ids.drop_last(), player, n);
    } else {
        assert(ids.subrange(0, n) =~= ids);
    }
}

proof fn lemma_first_participant_prefix(ps: Seq<Participant>, id: ParticipantId, n: int)
    requires
        0 < n <= ps.len(),
        first_participant_with(ps.subrange(0, n), id) is Some,
    ensures
        first_participant_with(ps, id) == first_participant_with(ps.subrange(0, n), id),
    decreases ps.len(),
{
    if n < ps.len() {
        assert(ps.drop_last().subrange(0, n) =~= ps.subrange(0, n));
        lemma_first_participant_prefix(ps.drop_last(), id, n);
    } else {
        assert(ps.subrange(0, n) =~= ps);
    }
}

/// The position of the first participant with the id `id`.
pub fn find_participant(game: &Game, id: ParticipantId) -> (r: Option<usize>)
    ensures
        r matches Some(k) ==> first_participant_with(game.participants@, id) == Some(k as int),
        r is None ==> first_participant_with(game.participants@, id) is None,
{
    let ps = &game.participants;
    let mut i: usize = 0;
    while i < ps.len()
        invariant
            i <= ps.len(),
            ps@ == game.participants@,
            first_participant_with(ps@.subrange(0, i as int), id) is None,
        decreases ps.len() - i,
    {
        proof {
            let sub = ps@.subrange(0, i + 1);
            assert(sub.drop_last() =~= ps@.subrange(0, i as int));
        }
        if ps[i].participant_id == id {
            proof {
                let sub = ps@.subrange(0, i + 1);
                assert(sub.last() == ps@[i as int]);
                assert(first_participant_with(sub, id) == Some(i as int));
                lemma_first_participant_prefix(ps@, id, i + 1);
            }
            return Some(i);
        }
        i = i + 1;
    }
    assert(ps@.subrange(0, ps.len() as int) =~= ps@);
    None
}

/// The request path of the current summoner.
pub open spec fn current_summoner_path() -> Seq<char> {
    "/lol-summoner/v1/current-summoner"@
}

/// The request path of a game of the match history.
pub open spec fn game_path(game_id: GameId) -> Seq<char> {
    "/lol-match-history/v1/games/"@ + signed_decimal(game_id as int)
}

/// The request path of a game's timeline.
pub open spec fn timeline_path(game_id: GameId) -> Seq<char> {
    "/lol-match-history/v1/game-timelines/"@ + signed_decimal(game_id as int)
}

/// The request path of a queue.
pub open spec fn queue_path(queue_id: i64) -> Seq<char> {
    "/lol-game-queues/v1/queues/"@ + signed_decimal(queue_id as int)
}

/// The request path of a champion of a summoner's inventory.
pub open spec fn champion_path(summoner_id: i64, champion_id: ChampionId) -> Seq<char> {
    "/lol-champions/v1/inventories/"@ + signed_decimal(summoner_id as int) + "/champions/"@ + signed_decimal(
        champion_id as int,
    )
}

fn push_signed(s: &mut String, n: i64)
    ensures
        final(s)@ == old(s)@ + signed_decimal(n as int),
{
    if n < 0 {
        crate::text::push_char(s, '-');
        let m: u64 = ((-(n + 1)) as u64) + 1;
        push_decimal(s, m);
        assert(final(s)@ =~= old(s)@ + signed_decimal(n as int));
    } else {
        push_decimal(s, n as u64);
    }
}

fn path_with_id(prefix: &str, id: i64) -> (r: String)
    ensures
        r@ == prefix@ + signed_decimal(id as int),
{
    let mut s = String::from_str(prefix);
    push_signed(&mut s, id);
    s
}

/// The request path of the current summoner.
pub fn current_summoner_request() -> (r: String)
    ensures
        r@ == current_summoner_path(),
{
    String::from_str("/lol-summoner/v1/current-summoner")
}

/// The request path of the game `game_id` in the match history.
pub fn game_request(game_id: GameId) -> (r: String)
    ensures
        r@ == game_path(game_id),
{
    path_with_id("/lol-match-history/v1/games/", game_id)
}

/// The request path of the timeline of the game `game_id`.
pub fn timeline_request(game_id: GameId) -> (r: String)
    ensures
        r@ == timeline_path(game_id),
{
    path_with_id("/lol-match-history/v1/game-timelines/", game_id)
}

/// The request path of the queue `queue_id`.
pub fn queue_request(queue_id: i64) -> (r: String)
    ensures
        r@ == queue_path(queue_id),
{
    path_with_id("/lol-game-queues/v1/queues/", queue_id)
}

/// The request path of a champion of a summoner's inventory.
pub fn champion_request(summoner_id: i64, champion_id: ChampionId) -> (r: String)
    ensures
        r@ == champion_path(summoner_id, champion_id),
{
    let mut s = path_with_id("/lol-champions/v1/inventories/", summoner_id);
    let ghost first = s@;
    let tail = "/champions/";
    let mut i: usize = 0;
    let n = tail.unicode_len();
    while i < n
        invariant
            n == tail@.len(),
            i <= n,
            s@ == first + tail@.subrange(0, i as int),
        decreases n - i,
    {
        crate::text::push_char(&mut s, tail.get_char(i));
        i = i + 1;
    }
    assert(tail@.subrange(0, n as int) =~= tail@);
    push_signed(&mut s, champion_id);
    assert(s@ =~= champion_path(summoner_id, champion_id));
    s
}

/// Who the player was in a game: the participant id, the position of the
/// participant and the request path of the champion played.
pub struct ParticipantPlan {
    pub participant_id: ParticipantId,
    pub participant_index: usize,
    pub champion_path: String,
}

/// Finds the player in the game: the participant id of the first identity
/// that is the player, then the first participant with that id, and the
/// request of the champion that participant played.
pub fn plan_participant(game: &Game, player: &Player) -> (r: Result<ParticipantPlan, MetadataError>)
    requires
        (first_identity_of(game.participant_identities@, *player) matches Some(k)
            && first_participant_with(game.participants@, game.participant_identities@[k].participant_id) is Some)
            ==> player.summoner_id is Some,
    ensures
        r matches Ok(plan) ==> plan.participant_index < game.participants@.len(),
        first_identity_of(game.participant_identities@, *player) is None ==> r == Err::<ParticipantPlan, MetadataError>(
            MetadataError::PlayerNotFound,
        ),
        first_identity_of(game.participant_identities@, *player) matches Some(k) ==> {
            let id = game.participant_identities@[k].participant_id;
            match first_participant_with(game.participants@, id) {
                None => r == Err::<ParticipantPlan, MetadataError>(MetadataError::ParticipantNotFound),
                Some(j) => r matches Ok(plan) && plan.participant_id == id && plan.participant_index == j
                    && plan.champion_path@ == champion_path(
                    player.summoner_id->0,
                    game.participants@[j].champion_id,
                ),
            }
        },
{
    let id = match find_participant_id(game, player) {
        Some(id) => id,
        None => {
            return Err(MetadataError::PlayerNotFound);
        },
    };
    let idx = match find_participant(game, id) {
        Some(j) => j,
        None => {
            return Err(MetadataError::ParticipantNotFound);
        },
    };
    proof {
        lemma_first_participant_bounds(game.participants@, id);
    }
    let summoner = match player.summoner_id {
        Some(s) => s,
        None => {
            return Err(MetadataError::PlayerNotFound);
        },
    };
    let path = champion_request(summoner, game.participants[idx].champion_id);
    Ok(ParticipantPlan { participant_id: id, participant_index: idx, champion_path: path })
}

/// The metadata of a game: the participant's statistics and every event
/// of the timeline (none where no timeline could be had), not yet a
/// favorite.
pub fn assemble_metadata(
    ingame_time_rec_start_offset: F64Bits,
    queue: Queue,
    player: Player,
    champion_name: String,
    game: Game,
    plan: &ParticipantPlan,
    timeline: Option<Timeline>,
) -> (r: GameMetadata)
    requires
        plan.participant_index < game.participants@.len(),
    ensures
        r.ingame_time_rec_start_offset == ingame_time_rec_start_offset,
        r.queue == queue,
        r.player == player,
        r.champion_name == champion_name,
        r.stats == game.participants@[plan.participant_index as int].stats,
        r.participant_id == plan.participant_id,
        r.events@ == (match timeline {
            Some(t) => all_events(t.frames@).map_values(|e: Event| game_event_of(e)),
            None => Seq::<GameEvent>::empty(),
        }),
        !r.favorite,
{
    let Game { participants, .. } = game;
    let mut participants = participants;
    let participant = participants.remove(plan.participant_index);
    let events = match timeline {
        Some(t) => collect_events(t),
        None => Vec::new(),
    };
    GameMetadata {
        ingame_time_rec_start_offset,
        queue,
        player,
        champion_name,
        stats: participant.stats,
        participant_id: plan.participant_id,
        events,
        favorite: false,
    }
}

/// How many rounds of requests are made for a finished game's data.
pub const FETCH_ROUNDS: u32 = 60;

/// Where the collection of a game's data stands: the rounds of requests
/// made so far, and whether the last round got the player and the game.
#[derive(Debug, Clone, Copy, PartialEq, Eq, Structural)]
pub struct FetchState {
    pub rounds_done: u32,
    pub have_game: bool,
}

/// What happens during the collection: a round of requests came back
/// (with or without the player and game, with or without the timeline), or
/// the wait between rounds ended (cancelled or not).
#[derive(Debug, Clone, Copy, PartialEq, Eq, Structural)]
pub enum FetchEvent {
    Fetched { game: bool, timeline: bool },
    WaitEnded { cancelled: bool },
}

/// Why the collection gave up.
#[derive(Debug, Clone, Copy, PartialEq, Eq, Structural)]
pub enum FetchFailure {
    /// The collection was cancelled while waiting.
    Cancelled,
    /// No round got the player and the game.
    NoGameData,
}

/// What the collection does next: make a round of requests, wait a second,
/// go on with what the last round got, or give up.
#[derive(Debug, Clone, Copy, PartialEq, Eq, Structural)]
pub enum FetchAction {
    Fetch,
    Wait,
    Proceed,
    Fail(FetchFailure),
}

/// The collection before any request: it starts with a round of requests.
pub open spec fn fetch_start_state() -> FetchState {
    FetchState { rounds_done: 0, have_game: false }
}

/// One step of the collection: a round that got everything goes on at
/// once, otherwise it waits; after the wait a cancellation gives up, and
/// after the last round it goes on if that round got the player and the
/// game (without a timeline where it got none) and gives up otherwise; else
/// another round follows.
pub open spec fn fetch_step_of(s: FetchState, e: FetchEvent) -> (FetchState, FetchAction) {
    match e {
        FetchEvent::Fetched { game, timeline } => {
            let next = FetchState {
                rounds_done: if s.rounds_done < u32::MAX { (s.rounds_done + 1) as u32 } else { s.rounds_done },
                have_game: game,
            };
            if game && timeline {
                (next, FetchAction::Proceed)
            } else {
                (next, FetchAction::Wait)
            }
        },
        FetchEvent::WaitEnded { cancelled } => if cancelled {
            (s, FetchAction::Fail(FetchFailure::Cancelled))
        } else if s.rounds_done >= FETCH_ROUNDS {
            if s.have_game {
                (s, FetchAction::Proceed)
            } else {
                (s, FetchAction::Fail(FetchFailure::NoGameData))
            }
        } else {
            (s, FetchAction::Fetch)
        },
    }
}

/// The collection before any request, and its first action (a round of requests).
pub fn fetch_start() -> (r: (FetchState, FetchAction))
    ensures
        r == (fetch_start_state(), FetchAction::Fetch),
{
    (FetchState { rounds_done: 0, have_game: false }, FetchAction::Fetch)
}

/// Decides the next step of the collection of a game's data.
pub fn fetch_step(s: FetchState, e: FetchEvent) -> (r: (FetchState, FetchAction))
    ensures
        r == fetch_step_of(s, e),
{
    match e {
        FetchEvent::Fetched { game, timeline } => {
            let next = FetchState {
                rounds_done: if s.rounds_done < u32::MAX { s.rounds_done + 1 } else { s.rounds_done },
                have_game: game,
            };
            if game && timeline {
                (next, FetchAction::Proceed)
            } else {
                (next, FetchAction::Wait)
            }
        },
        FetchEvent::WaitEnded { cancelled } => {
            if cancelled {
                (s, FetchAction::Fail(FetchFailure::Cancelled))
            } else if s.rounds_done >= FETCH_ROUNDS {
                if s.have_game {
                    (s, FetchAction::Proceed)
                } else {
                    (s, FetchAction::Fail(FetchFailure::NoGameData))
                }
            } else {
                (s, FetchAction::Fetch)
            }
        },
    }
}

/// The collection after a run of events from its start, and the actions
/// it asked for after the first round.
pub open spec fn fetch_run(events: Seq<FetchEvent>) -> (FetchState, Seq<FetchAction>)
    decreases events.len(),
{
    if events.len() == 0 {
        (fetch_start_state(), seq![])
    } else {
        let (s, acts) = fetch_run(events.drop_last());
        let (s2, a) = fetch_step_of(s, events.last());
        (s2, acts.push(a))
    }
}

/// What the collection waits for after a run of events from its start:
/// the answer to a round of requests, the end of a wait, or nothing.
pub open spec fn awaited(events: Seq<FetchEvent>) -> FetchAction {
    if events.len() == 0 {
        FetchAction::Fetch
    } else {
        fetch_run(events).1.last()
    }
}

/// Each event answers what the collection asked for: a round's answer after
/// a request, the end of a wait after a wait.
pub open spec fn follows_requests(events: Seq<FetchEvent>) -> bool
    decreases events.len(),
{
    if events.len() == 0 {
        true
    } else {
        let before = events.drop_last();
        &&& follows_requests(before)
        &&& match events.last() {
            FetchEvent::Fetched { .. } => awaited(before) == FetchAction::Fetch,
            FetchEvent::WaitEnded { .. } => awaited(before) == FetchAction::Wait,
        }
    }
}

/// At most `FETCH_ROUNDS` rounds of requests are made: where every event
/// answers what was asked for, the rounds made never exceed the limit, and
/// no further round is asked for once it is reached.
pub proof fn lemma_fetch_rounds_bounded(events: Seq<FetchEvent>)
    requires
        follows_requests(events),
    ensures
        fetch_run(events).0.rounds_done <= FETCH_ROUNDS,
        awaited(events) == FetchAction::Fetch ==> fetch_run(events).0.rounds_done < FETCH_ROUNDS,
    decreases events.len(),
{
    if events.len() > 0 {
        lemma_fetch_rounds_bounded(events.drop_last());
    }
}

/// The player is found at the first identity that is the player: where one
/// is, the search gives its position, and no identity before it is the
/// player; where none is, the search finds nothing.
pub proof fn lemma_first_identity_is_first(ids: Seq<ParticipantIdentity>, player: Player, k: int)
    ensures
        0 <= k < ids.len() && player_eq(ids[k].player, player)
            && (forall|j: int| 0 <= j < k ==> !player_eq(#[trigger] ids[j].player, player))
            ==> first_identity_of(ids, player) == Some(k),
        (forall|j: int| 0 <= j < ids.len() ==> !player_eq(#[trigger] ids[j].player, player))
            ==> first_identity_of(ids, player) is None,
    decreases ids.len(),
{
    if ids.len() > 0 {
        let prev = ids.drop_last();
        lemma_first_identity_is_first(prev, player, k);
        lemma_first_identity_bounds(prev, player);
        if 0 <= k < ids.len() && player_eq(ids[k].player, player)
            && (forall|j: int| 0 <= j < k ==> !player_eq(#[trigger] ids[j].player, player)) {
            if k < prev.len() {
                assert(prev[k] == ids[k]);
                assert forall|j: int| 0 <= j < k implies !player_eq(#[trigger] prev[j].player, player) by {
                    assert(prev[j] == ids[j]);
                }
            } else {
                assert forall|j: int| 0 <= j < prev.len() implies !player_eq(#[trigger] prev[j].player, player) by {
                    assert(prev[j] == ids[j]);
                }
            }
        }
        if forall|j: int| 0 <= j < ids.len() ==> !player_eq(#[trigger] ids[j].player, player) {
            assert forall|j: int| 0 <= j < prev.len() implies !player_eq(#[trigger] prev[j].player, player) by {
                assert(prev[j] == ids[j]);
            }
            assert(!player_eq(ids[ids.len() - 1].player, player));
        }
    }
}

/// A participant is found at the first position that has the id: where
/// one has it, the search gives the first such position; where none has it,
/// the search finds nothing.
pub proof fn lemma_first_participant_is_first(ps: Seq<Participant>, id: ParticipantId, k: int)
    ensures
        0 <= k < ps.len() && ps[k].participant_id == id
            && (forall|j: int| 0 <= j < k ==> #[trigger] ps[j].participant_id != id)
            ==> first_participant_with(ps, id) == Some(k),
        (forall|j: int| 0 <= j < ps.len() ==> #[trigger] ps[j].participant_id != id)
            ==> first_participant_with(ps, id) is None,
    decreases ps.len(),
{
    if ps.len() > 0 {
        let prev = ps.drop_last();
        lemma_first_participant_is_first(prev, id, k);
        lemma_first_participant_bounds(prev, id);
        if 0 <= k < ps.len() && ps[k].participant_id == id
            && (forall|j: int| 0 <= j < k ==> #[trigger] ps[j].participant_id != id) {
            if k < prev.len() {
                assert(prev[k] == ps[k]);
                assert forall|j: int| 0 <= j < k implies #[trigger] prev[j].participant_id != id by {
                    assert(prev[j] == ps[j]);
                }
            } else {
                assert forall|j: int| 0 <= j < prev.len() implies #[trigger] prev[j].participant_id != id by {
                    assert(prev[j] == ps[j]);
                }
            }
        }
        if forall|j: int| 0 <= j < ps.len() ==> #[trigger] ps[j].participant_id != id {
            assert forall|j: int| 0 <= j < prev.len() implies #[trigger] prev[j].participant_id != id by {
                assert(prev[j] == ps[j]);
            }
            assert(ps[ps.len() - 1].participant_id != id);
        }
    }
}

/// The collection's decisions: a round that got the player, the game and
/// the timeline goes on at once, any other round is counted and followed by
/// a wait; a cancelled wait gives up; after a wait another round follows
/// while fewer than `FETCH_ROUNDS` were made, and after the last one the
/// collection goes on where that round got the player and the game, and
/// gives up for want of data where it did not.
pub proof fn lemma_fetch_decisions(s: FetchState, game: bool, timeline: bool)
    requires
        s.rounds_done < u32::MAX,
    ensures
        fetch_step_of(s, FetchEvent::Fetched { game: true, timeline: true }).1 == FetchAction::Proceed,
        !(game && timeline) ==> fetch_step_of(s, FetchEvent::Fetched { game, timeline }).1 == FetchAction::Wait,
        fetch_step_of(s, FetchEvent::Fetched { game, timeline }).0 == (FetchState {
            rounds_done: (s.rounds_done + 1) as u32,
            have_game: game,
        }),
        fetch_step_of(s, FetchEvent::WaitEnded { cancelled: true }) == (s, FetchAction::Fail(FetchFailure::Cancelled)),
        s.rounds_done < FETCH_ROUNDS ==> fetch_step_of(s, FetchEvent::WaitEnded { cancelled: false }) == (
            s,
            FetchAction::Fetch,
        ),
        s.rounds_done >= FETCH_ROUNDS && s.have_game ==> fetch_step_of(s, FetchEvent::WaitEnded { cancelled: false })
            == (s, FetchAction::Proceed),
        s.rounds_done >= FETCH_ROUNDS && !s.have_game ==> fetch_step_of(s, FetchEvent::WaitEnded { cancelled: false })
            == (s, FetchAction::Fail(FetchFailure::NoGameData)),
{
}

} // verus!
