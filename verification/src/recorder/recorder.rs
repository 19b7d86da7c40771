//! The earlier form of the game listener's decisions, kept by the standalone
//! recorder loop: it drops the recording's metadata when the game fails to
//! launch or reconnects, and collects a game's data at the end-of-game stats,
//! after an error, or at the end of a practice-tool game.

use vstd::prelude::*;

use crate::recorder::game_listener::{starts_recording, game_of, Action, ListenerEvent};
use crate::riot_datatypes::lcu::session::{GamePhase, SessionEventData, SubscriptionResponse};

verus! {

/// Where the recorder loop stands; a stop remembers whether the recording's
/// metadata is to be kept.
pub enum State<M> {
    Idle,
    Recording,
    Stopping { keep_metadata: bool },
    EndOfGame(M),
}

/// A session update that cancels a running recording and drops its metadata.
pub open spec fn cancels_recording(sub: SubscriptionResponse) -> bool {
    match sub {
        SubscriptionResponse::Session(d) => d.phase == GamePhase::FailedToLaunch || d.phase == GamePhase::Reconnect,
        SubscriptionResponse::EogStatsBlock {} => false,
    }
}

/// A session update that ends a running recording and keeps its metadata.
pub open spec fn finishes_recording(sub: SubscriptionResponse) -> bool {
    match sub {
        SubscriptionResponse::Session(d) => d.phase == GamePhase::WaitingForStats,
        SubscriptionResponse::EogStatsBlock {} => false,
    }
}

/// A message after which the finished game's data is collected: the
/// end-of-game stats, an error end, or the end of a practice-tool game
/// (queue id -1).
pub open spec fn triggers_collection(sub: SubscriptionResponse) -> bool {
    match sub {
        SubscriptionResponse::Session(d) => d.phase == GamePhase::TerminatedInError
            || (d.phase == GamePhase::EndOfGame && d.game_data.queue.id == -1),
        SubscriptionResponse::EogStatsBlock {} => true,
    }
}

/// One step of the recorder loop: the next state and the action to take.
pub open spec fn step<M>(s: State<M>, e: ListenerEvent<M>, only_record_ranked: bool) -> (State<M>, Action<M>) {
    match e {
        ListenerEvent::Subscription(sub) => match s {
            State::Idle => if starts_recording(sub, only_record_ranked) {
                (State::Recording, Action::StartRecording(game_of(sub)))
            } else {
                (State::Idle, Action::Nothing)
            },
            State::Recording => if cancels_recording(sub) {
                (State::Stopping { keep_metadata: false }, Action::StopRecording)
            } else if finishes_recording(sub) {
                (State::Stopping { keep_metadata: true }, Action::StopRecording)
            } else {
                (State::Recording, Action::Nothing)
            },
            State::Stopping { keep_metadata } => (State::Stopping { keep_metadata }, Action::Nothing),
            State::EndOfGame(m) => if triggers_collection(sub) {
                (State::Idle, Action::CollectGameData(m))
            } else {
                (State::EndOfGame(m), Action::Nothing)
            },
        },
        ListenerEvent::RecordingStopped(res) => match s {
            State::Stopping { keep_metadata } => match res {
                Some(m) => if keep_metadata {
                    (State::EndOfGame(m), Action::Nothing)
                } else {
                    (State::Idle, Action::Nothing)
                },
                None => (State::Idle, Action::Nothing),
            },
            _ => (s, Action::Nothing),
        },
    }
}

/// The recorder loop after a run of events from `s`, and the actions it asked for.
pub open spec fn run<M>(s: State<M>, events: Seq<ListenerEvent<M>>, only_record_ranked: bool) -> (State<M>, Seq<Action<M>>)
    decreases events.len(),
{
    if events.len() == 0 {
        (s, Seq::empty())
    } else {
        let (s1, acts) = run(s, events.drop_last(), only_record_ranked);
        let (s2, a) = step(s1, events.last(), only_record_ranked);
        (s2, acts.push(a))
    }
}

/// 1 in the state that holds a running recording, 0 elsewhere.
pub open spec fn running<M>(s: State<M>) -> int {
    match s {
        State::Recording => 1,
        _ => 0,
    }
}

fn check_starts(sub: &SubscriptionResponse, only_record_ranked: bool) -> (r: bool)
    ensures
        r == starts_recording(*sub, only_record_ranked),
{
    match sub {
        SubscriptionResponse::Session(d) => (d.phase == GamePhase::GameStart || d.phase == GamePhase::InProgress)
            && (d.game_data.queue.is_ranked || !only_record_ranked),
        SubscriptionResponse::EogStatsBlock {} => false,
    }
}

fn check_cancels(sub: &SubscriptionResponse) -> (r: bool)
    ensures
        r == cancels_recording(*sub),
{
    match sub {
        SubscriptionResponse::Session(d) => d.phase == GamePhase::FailedToLaunch || d.phase == GamePhase::Reconnect,
        SubscriptionResponse::EogStatsBlock {} => false,
    }
}

fn check_finishes(sub: &SubscriptionResponse) -> (r: bool)
    ensures
        r == finishes_recording(*sub),
{
    match sub {
        SubscriptionResponse::Session(d) => d.phase == GamePhase::WaitingForStats,
        SubscriptionResponse::EogStatsBlock {} => false,
    }
}

fn check_collection(sub: &SubscriptionResponse) -> (r: bool)
    ensures
        r == triggers_collection(*sub),
{
    match sub {
        SubscriptionResponse::Session(d) => d.phase == GamePhase::TerminatedInError
            || (d.phase == GamePhase::EndOfGame && d.game_data.queue.id == -1),
        SubscriptionResponse::EogStatsBlock {} => true,
    }
}

fn game_id(sub: &SubscriptionResponse) -> (r: i64)
    ensures
        r == game_of(*sub),
{
    match sub {
        SubscriptionResponse::Session(d) => d.game_data.game_id,
        SubscriptionResponse::EogStatsBlock {} => 0,
    }
}

/// One step of the recorder loop, computed.
pub fn state_transition<M>(s: State<M>, event: ListenerEvent<M>, only_record_ranked: bool) -> (r: (State<M>, Action<M>))
    ensures
        r == step(s, event, only_record_ranked),
{
    match event {
        ListenerEvent::Subscription(sub) => match s {
            State::Idle => if check_starts(&sub, only_record_ranked) {
                (State::Recording, Action::StartRecording(game_id(&sub)))
            } else {
                (State::Idle, Action::Nothing)
            },
            State::Recording => if check_cancels(&sub) {
                (State::Stopping { keep_metadata: false }, Action::StopRecording)
            } else if check_finishes(&sub) {
                (State::Stopping { keep_metadata: true }, Action::StopRecording)
            } else {
                (State::Recording, Action::Nothing)
            },
            State::Stopping { keep_metadata } => (State::Stopping { keep_metadata }, Action::Nothing),
            State::EndOfGame(m) => if check_collection(&sub) {
                (State::Idle, Action::CollectGameData(m))
            } else {
                (State::EndOfGame(m), Action::Nothing)
            },
        },
        ListenerEvent::RecordingStopped(res) => match s {
            State::Stopping { keep_metadata } => match res {
                Some(m) => if keep_metadata {
                    (State::EndOfGame(m), Action::Nothing)
                } else {
                    (State::Idle, Action::Nothing)
                },
                None => (State::Idle, Action::Nothing),
            },
            other => (other, Action::Nothing),
        },
    }
}

/// When the loop ends while recording, the recording is stopped.
pub fn finish<M>(s: State<M>) -> (r: (State<M>, Action<M>))
    ensures
        s is Recording ==> r == (State::<M>::Stopping { keep_metadata: false }, Action::<M>::StopRecording),
        !(s is Recording) ==> r == (s, Action::<M>::Nothing),
{
    match s {
        State::Recording => (State::Stopping { keep_metadata: false }, Action::StopRecording),
        other => (other, Action::Nothing),
    }
}

/// Recordings never overlap in this loop either: a recording is started only
/// when none runs and stopped only when one runs.
pub proof fn lemma_recordings_never_overlap<M>(events: Seq<ListenerEvent<M>>, only_record_ranked: bool)
    ensures
        ({
            let (s, acts) = run(State::<M>::Idle, events, only_record_ranked);
            &&& crate::recorder::game_listener::open_recordings(acts) == running(s)
            &&& forall|i: int| 0 <= i < acts.len() ==>
                (#[trigger] acts[i] is StartRecording ==> crate::recorder::game_listener::open_recordings(acts.take(i)) == 0)
                && (acts[i] is StopRecording ==> crate::recorder::game_listener::open_recordings(acts.take(i)) == 1)
        }),
    decreases events.len(),
{
    let (s, acts) = run(State::<M>::Idle, events, only_record_ranked);
    if events.len() > 0 {
        let prev = events.drop_last();
        lemma_recordings_never_overlap(prev, only_record_ranked);
        let (s1, acts1) = run(State::<M>::Idle, prev, only_record_ranked);
        let (s2, a) = step(s1, events.last(), only_record_ranked);
        assert(acts == acts1.push(a));
        assert(acts.drop_last() =~= acts1);
        assert forall|i: int| 0 <= i < acts.len() implies
            (#[trigger] acts[i] is StartRecording ==> crate::recorder::game_listener::open_recordings(acts.take(i)) == 0)
            && (acts[i] is StopRecording ==> crate::recorder::game_listener::open_recordings(acts.take(i)) == 1) by {
            if i < acts1.len() {
                assert(acts.take(i) =~= acts1.take(i));
                assert(acts[i] == acts1[i]);
            } else {
                assert(acts.take(i) =~= acts1);
            }
        }
    }
}

/// A recording cancelled because the game failed to launch or reconnected
/// leaves no game data to collect: after its stop the loop is idle.
pub proof fn lemma_cancelled_recording_not_collected<M>(sub: SubscriptionResponse, res: Option<M>, only_record_ranked: bool)
    requires
        cancels_recording(sub),
    ensures
        ({
            let (s1, a1) = step(State::<M>::Recording, ListenerEvent::Subscription(sub), only_record_ranked);
            let (s2, a2) = step(s1, ListenerEvent::RecordingStopped(res), only_record_ranked);
            a1 is StopRecording && s2 is Idle && a2 is Nothing
        }),
{
}

/// How the recorder loop ends a running recording: a game that fails to
/// launch or reconnects stops the recording and drops its metadata; the
/// client waiting for the game's statistics stops it and keeps the
/// metadata; every other phase lets the recording go on.
pub proof fn lemma_stop_phases<M>(d: SessionEventData, only_record_ranked: bool)
    ensures
        d.phase == GamePhase::FailedToLaunch || d.phase == GamePhase::Reconnect ==> step(
            State::<M>::Recording,
            ListenerEvent::Subscription(SubscriptionResponse::Session(d)),
            only_record_ranked,
        ) == (State::<M>::Stopping { keep_metadata: false }, Action::<M>::StopRecording),
        d.phase == GamePhase::WaitingForStats ==> step(
            State::<M>::Recording,
            ListenerEvent::Subscription(SubscriptionResponse::Session(d)),
            only_record_ranked,
        ) == (State::<M>::Stopping { keep_metadata: true }, Action::<M>::StopRecording),
        d.phase == GamePhase::NoPhase || d.phase == GamePhase::Lobby || d.phase == GamePhase::Matchmaking
            || d.phase == GamePhase::CheckedIntoTournament || d.phase == GamePhase::ReadyCheck
            || d.phase == GamePhase::ChampSelect || d.phase == GamePhase::GameStart
            || d.phase == GamePhase::InProgress || d.phase == GamePhase::PreEndOfGame
            || d.phase == GamePhase::EndOfGame || d.phase == GamePhase::TerminatedInError ==> step(
            State::<M>::Recording,
            ListenerEvent::Subscription(SubscriptionResponse::Session(d)),
            only_record_ranked,
        ) == (State::<M>::Recording, Action::<M>::Nothing),
{
}

/// When the recorder loop collects a stopped game's data: on the
/// end-of-game statistics block, when the game ended in an error, and at
/// the end-of-game screen of a practice-tool game (queue id -1); the data
/// goes to the collection and the loop is idle again. At the end-of-game
/// screen of any other game, and on every other phase, it keeps waiting.
pub proof fn lemma_collection_phases<M>(m: M, d: SessionEventData, only_record_ranked: bool)
    ensures
        step(State::EndOfGame(m), ListenerEvent::Subscription(SubscriptionResponse::EogStatsBlock {  }), only_record_ranked)
            == (State::<M>::Idle, Action::CollectGameData(m)),
        d.phase == GamePhase::TerminatedInError || (d.phase == GamePhase::EndOfGame && d.game_data.queue.id == -1)
            ==> step(State::EndOfGame(m), ListenerEvent::Subscription(SubscriptionResponse::Session(d)), only_record_ranked)
                == (State::<M>::Idle, Action::CollectGameData(m)),
        !(d.phase == GamePhase::TerminatedInError) && !(d.phase == GamePhase::EndOfGame && d.game_data.queue.id == -1)
            ==> step(State::EndOfGame(m), ListenerEvent::Subscription(SubscriptionResponse::Session(d)), only_record_ranked)
                == (State::EndOfGame(m), Action::<M>::Nothing),
{
}

/// A stop that keeps the metadata leads to the collection of the game's
/// data with what the recording left; a stop that drops it, or a failed
/// stop, leaves the loop idle.
pub proof fn lemma_stop_outcomes<M>(m: M, keep_metadata: bool, only_record_ranked: bool)
    ensures
        step(State::<M>::Stopping { keep_metadata: true }, ListenerEvent::RecordingStopped(Some(m)), only_record_ranked)
            == (State::EndOfGame(m), Action::<M>::Nothing),
        step(State::<M>::Stopping { keep_metadata: false }, ListenerEvent::RecordingStopped(Some(m)), only_record_ranked)
            == (State::<M>::Idle, Action::<M>::Nothing),
        step(State::<M>::Stopping { keep_metadata }, ListenerEvent::<M>::RecordingStopped(None), only_record_ranked)
            == (State::<M>::Idle, Action::<M>::Nothing),
{
}

} // verus!
