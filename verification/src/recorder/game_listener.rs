//! The game listener's decisions. The listener follows the client's gameflow
//! session: it starts a recording when a game starts, stops it when the game
//! ends and then has the game's data collected. Waiting for the client,
//! recording and collecting data happen outside; they are asked for by the
//! actions this state machine returns, and the end of a stop comes back as an
//! event.

use vstd::prelude::*;

use crate::riot_datatypes::common::GameId;
use crate::riot_datatypes::lcu::session::{GamePhase, SessionEventData, SubscriptionResponse};

verus! {

/// Where the listener stands. `M` is what a stopped recording leaves behind
/// (its metadata), kept until the game's data is collected.
pub enum State<M> {
    Idle,
    Recording,
    Stopping,
    EndOfGame(M),
}

/// What the listener reacts to: a message of the client, or the end of a
/// stop that it asked for (with what the recording left, or nothing when the
/// stop failed).
pub enum ListenerEvent<M> {
    Subscription(SubscriptionResponse),
    RecordingStopped(Option<M>),
}

/// What the listener asks to be done.
pub enum Action<M> {
    Nothing,
    StartRecording(GameId),
    StopRecording,
    CollectGameData(M),
}

/// A session update that starts a recording: the game is starting or running,
/// and its queue is ranked or every game is to be recorded.
pub open spec fn starts_recording(sub: SubscriptionResponse, only_record_ranked: bool) -> bool {
    match sub {
        SubscriptionResponse::Session(d) => (d.phase == GamePhase::GameStart || d.phase == GamePhase::InProgress)
            && (d.game_data.queue.is_ranked || !only_record_ranked),
        SubscriptionResponse::EogStatsBlock {} => false,
    }
}

/// A session update that ends a running recording.
pub open spec fn stops_recording(sub: SubscriptionResponse) -> bool {
    match sub {
        SubscriptionResponse::Session(d) => d.phase == GamePhase::FailedToLaunch || d.phase == GamePhase::Reconnect
            || d.phase == GamePhase::WaitingForStats || d.phase == GamePhase::PreEndOfGame,
        SubscriptionResponse::EogStatsBlock {} => false,
    }
}

/// A message after which the finished game's data can be collected.
pub open spec fn game_data_available(sub: SubscriptionResponse) -> bool {
    match sub {
        SubscriptionResponse::Session(d) => d.phase == GamePhase::EndOfGame || d.phase == GamePhase::TerminatedInError
            || d.phase == GamePhase::ChampSelect || d.phase == GamePhase::GameStart,
        SubscriptionResponse::EogStatsBlock {} => true,
    }
}

/// The game a message is about (meaningful for session updates).
pub open spec fn game_of(sub: SubscriptionResponse) -> GameId {
    match sub {
        SubscriptionResponse::Session(d) => d.game_data.game_id,
        SubscriptionResponse::EogStatsBlock {} => 0,
    }
}

/// One step of the listener: the next state and the action to take.
pub open spec fn step<M>(s: State<M>, e: ListenerEvent<M>, only_record_ranked: bool) -> (State<M>, Action<M>) {
    match e {
        ListenerEvent::Subscription(sub) => match s {
            State::Idle => if starts_recording(sub, only_record_ranked) {
                (State::Recording, Action::StartRecording(game_of(sub)))
            } else {
                (State::Idle, Action::Nothing)
            },
            State::Recording => if stops_recording(sub) {
                (State::Stopping, Action::StopRecording)
            } else {
                (State::Recording, Action::Nothing)
            },
            State::Stopping => (State::Stopping, Action::Nothing),
            State::EndOfGame(m) => if game_data_available(sub) {
                (State::Idle, Action::CollectGameData(m))
            } else {
                (State::EndOfGame(m), Action::Nothing)
            },
        },
        ListenerEvent::RecordingStopped(res) => match s {
            State::Stopping => match res {
                Some(m) => (State::EndOfGame(m), Action::Nothing),
                None => (State::Idle, Action::Nothing),
            },
            _ => (s, Action::Nothing),
        },
    }
}

/// The listener after a run of events from `s`, and the actions it asked for, in order.
pub open spec fn run<M>(s: State<M>, events: Seq<ListenerEvent<M>>, only_record_ranked: bool) -> (State<M>, Seq<Action<M>>)
    decreases events.len(),
{
    if events.len() == 0 {
        (s, Seq::empty())
    } else {
        let (s1, acts) = run(s, events.drop_last(), only_record_ranked);
        let (s2, a) = step(s1, events.last(), only_record_ranked);
        (s2, acts.push(a))
    }
}

/// Recordings started minus recordings stopped in a run of actions.
pub open spec fn open_recordings<M>(acts: Seq<Action<M>>) -> int
    decreases acts.len(),
{
    if acts.len() == 0 {
        0
    } else {
        open_recordings(acts.drop_last()) + match acts.last() {
            Action::StartRecording(_) => 1int,
            Action::StopRecording => -1int,
            _ => 0int,
        }
    }
}

/// 1 in the state that holds a running recording, 0 elsewhere.
pub open spec fn running<M>(s: State<M>) -> int {
    match s {
        State::Recording => 1,
        _ => 0,
    }
}

/// The listener of the gameflow session.
pub struct GameListener<M> {
    state: State<M>,
}

impl<M> GameListener<M> {
    pub closed spec fn state(&self) -> State<M> {
        self.state
    }

    /// A listener that waits for a game.
    pub fn new() -> (r: Self)
        ensures
            r.state() == State::<M>::Idle,
    {
        GameListener { state: State::Idle }
    }

    /// Whether the listener holds a running recording.
    pub fn is_recording(&self) -> (r: bool)
        ensures
            r == (self.state() is Recording),
    {
        match self.state {
            State::Recording => true,
            _ => false,
        }
    }

    /// Takes one event: moves to the next state and returns the action to take.
    pub fn state_transition(&mut self, event: ListenerEvent<M>, only_record_ranked: bool) -> (a: Action<M>)
        ensures
            (final(self).state(), a) == step(old(self).state(), event, only_record_ranked),
    {
        let mut s = State::Idle;
        std::mem::swap(&mut s, &mut self.state);
        let (next, a) = transition(s, event, only_record_ranked);
        self.state = next;
        a
    }

    /// When the session ends: a running recording is stopped (and the listener
    /// waits for that stop); in every other state nothing is to be done.
    pub fn finish(&mut self) -> (a: Action<M>)
        ensures
            old(self).state() is Recording ==> a is StopRecording && final(self).state() is Stopping,
            !(old(self).state() is Recording) ==> a is Nothing && final(self).state() == old(self).state(),
    {
        if self.is_recording() {
            self.state = State::Stopping;
            Action::StopRecording
        } else {
            Action::Nothing
        }
    }
}

fn phase_of(sub: &SubscriptionResponse) -> (r: Option<GamePhase>)
    ensures
        match *sub {
            SubscriptionResponse::Session(d) => r == Some(d.phase),
            SubscriptionResponse::EogStatsBlock {} => r is None,
        },
{
    match sub {
        SubscriptionResponse::Session(d) => Some(d.phase),
        SubscriptionResponse::EogStatsBlock {} => None,
    }
}

fn check_starts_recording(sub: &SubscriptionResponse, only_record_ranked: bool) -> (r: bool)
    ensures
        r == starts_recording(*sub, only_record_ranked),
{
    match sub {
        SubscriptionResponse::Session(SessionEventData { phase, game_data }) => {
            (*phase == GamePhase::GameStart || *phase == GamePhase::InProgress)
                && (game_data.queue.is_ranked || !only_record_ranked)
        },
        SubscriptionResponse::EogStatsBlock {} => false,
    }
}

fn check_stops_recording(sub: &SubscriptionResponse) -> (r: bool)
    ensures
        r == stops_recording(*sub),
{
    match phase_of(sub) {
        Some(p) => p == GamePhase::FailedToLaunch || p == GamePhase::Reconnect || p == GamePhase::WaitingForStats
            || p == GamePhase::PreEndOfGame,
        None => false,
    }
}

fn check_game_data_available(sub: &SubscriptionResponse) -> (r: bool)
    ensures
        r == game_data_available(*sub),
{
    match phase_of(sub) {
        Some(p) => p == GamePhase::EndOfGame || p == GamePhase::TerminatedInError || p == GamePhase::ChampSelect
            || p == GamePhase::GameStart,
        None => true,
    }
}

fn game_id_of(sub: &SubscriptionResponse) -> (r: GameId)
    ensures
        r == game_of(*sub),
{
    match sub {
        SubscriptionResponse::Session(d) => d.game_data.game_id,
        SubscriptionResponse::EogStatsBlock {} => 0,
    }
}

/// One step of the listener, computed: the next state and the action.
pub fn transition<M>(s: State<M>, event: ListenerEvent<M>, only_record_ranked: bool) -> (r: (State<M>, Action<M>))
    ensures
        r == step(s, event, only_record_ranked),
{
    match event {
        ListenerEvent::Subscription(sub) => match s {
            State::Idle => if check_starts_recording(&sub, only_record_ranked) {
                (State::Recording, Action::StartRecording(game_id_of(&sub)))
            } else {
                (State::Idle, Action::Nothing)
            },
            State::Recording => if check_stops_recording(&sub) {
                (State::Stopping, Action::StopRecording)
            } else {
                (State::Recording, Action::Nothing)
            },
            State::Stopping => (State::Stopping, Action::Nothing),
            State::EndOfGame(m) => if check_game_data_available(&sub) {
                (State::Idle, Action::CollectGameData(m))
            } else {
                (State::EndOfGame(m), Action::Nothing)
            },
        },
        ListenerEvent::RecordingStopped(res) => match s {
            State::Stopping => match res {
                Some(m) => (State::EndOfGame(m), Action::Nothing),
                None => (State::Idle, Action::Nothing),
            },
            other => (other, Action::Nothing),
        },
    }
}

/// Recordings never overlap: over any run of events from the idle listener,
/// a recording is started only when none runs and stopped only when one
/// runs, so that at every point at most one recording is open, and exactly
/// one while the listener is in its recording state.
pub proof fn lemma_recordings_never_overlap<M>(events: Seq<ListenerEvent<M>>, only_record_ranked: bool)
    ensures
        ({
            let (s, acts) = run(State::<M>::Idle, events, only_record_ranked);
            &&& open_recordings(acts) == running(s)
            &&& forall|i: int| 0 <= i < acts.len() ==>
                (#[trigger] acts[i] is StartRecording ==> open_recordings(acts.take(i)) == 0)
                && (acts[i] is StopRecording ==> open_recordings(acts.take(i)) == 1)
            &&& forall|i: int| 0 <= i <= acts.len() ==> 0 <= #[trigger] open_recordings(acts.take(i)) <= 1
        }),
    decreases events.len(),
{
    let (s, acts) = run(State::<M>::Idle, events, only_record_ranked);
    if events.len() == 0 {
        assert forall|i: int| 0 <= i <= acts.len() implies 0 <= #[trigger] open_recordings(acts.take(i)) <= 1 by {
            assert(acts.take(i).len() == 0);
        }
    } else {
        let prev = events.drop_last();
        lemma_recordings_never_overlap(prev, only_record_ranked);
        let (s1, acts1) = run(State::<M>::Idle, prev, only_record_ranked);
        let (s2, a) = step(s1, events.last(), only_record_ranked);
        assert(acts == acts1.push(a));
        assert(acts.drop_last() =~= acts1);
        assert forall|i: int| 0 <= i < acts.len() implies
            (#[trigger] acts[i] is StartRecording ==> open_recordings(acts.take(i)) == 0)
            && (acts[i] is StopRecording ==> open_recordings(acts.take(i)) == 1) by {
            if i < acts1.len() {
                assert(acts.take(i) =~= acts1.take(i));
                assert(acts[i] == acts1[i]);
            } else {
                assert(acts.take(i) =~= acts1);
            }
        }
        assert forall|i: int| 0 <= i <= acts.len() implies 0 <= #[trigger] open_recordings(acts.take(i)) <= 1 by {
            if i <= acts1.len() {
                assert(acts.take(i) =~= acts1.take(i));
            } else {
                assert(acts.take(i) =~= acts);
            }
        }
    }
}

/// With "only record ranked" set, a recording is started only for a game in
/// a ranked queue.
pub proof fn lemma_only_ranked_games_recorded<M>(s: State<M>, e: ListenerEvent<M>)
    requires
        step(s, e, true).1 is StartRecording,
    ensures
        e matches ListenerEvent::Subscription(SubscriptionResponse::Session(d)) && d.game_data.queue.is_ranked,
{
}

/// A stopped recording's data is collected exactly once: the metadata a
/// successful stop leaves is handed to the collection, after which the
/// listener is idle again; a failed stop leaves the listener idle.
pub proof fn lemma_stop_then_collect<M>(m: M, e: ListenerEvent<M>, only_record_ranked: bool)
    ensures
        step(State::<M>::Stopping, ListenerEvent::RecordingStopped(Some(m)), only_record_ranked)
            == (State::EndOfGame(m), Action::<M>::Nothing),
        step(State::<M>::Stopping, ListenerEvent::<M>::RecordingStopped(None), only_record_ranked)
            == (State::<M>::Idle, Action::<M>::Nothing),
        ({
            let (s2, a) = step(State::EndOfGame(m), e, only_record_ranked);
            (a is CollectGameData ==> a == Action::CollectGameData(m) && s2 is Idle)
            && (!(a is CollectGameData) ==> s2 == State::EndOfGame(m) && a is Nothing)
        }),
{
}

/// Collection of a stopped game's data: waiting with what a recording left,
/// the listener hands it to the collection and becomes idle as soon as the
/// client reaches its end-of-game screen, reports that the game ended in an
/// error, is back in champion select or starts the next game, or sends the
/// end-of-game statistics block; on every other phase it keeps waiting and
/// asks for nothing.
pub proof fn lemma_collection_phases<M>(m: M, d: SessionEventData, only_record_ranked: bool)
    ensures
        d.phase == GamePhase::EndOfGame || d.phase == GamePhase::TerminatedInError
            || d.phase == GamePhase::ChampSelect || d.phase == GamePhase::GameStart ==>
            step(State::EndOfGame(m), ListenerEvent::Subscription(SubscriptionResponse::Session(d)), only_record_ranked)
                == (State::<M>::Idle, Action::CollectGameData(m)),
        d.phase == GamePhase::NoPhase || d.phase == GamePhase::Lobby || d.phase == GamePhase::Matchmaking
            || d.phase == GamePhase::CheckedIntoTournament || d.phase == GamePhase::ReadyCheck
            || d.phase == GamePhase::FailedToLaunch || d.phase == GamePhase::InProgress
            || d.phase == GamePhase::Reconnect || d.phase == GamePhase::WaitingForStats
            || d.phase == GamePhase::PreEndOfGame ==>
            step(State::EndOfGame(m), ListenerEvent::Subscription(SubscriptionResponse::Session(d)), only_record_ranked)
                == (State::EndOfGame(m), Action::<M>::Nothing),
        step(State::EndOfGame(m), ListenerEvent::Subscription(SubscriptionResponse::EogStatsBlock {  }), only_record_ranked)
            == (State::<M>::Idle, Action::CollectGameData(m)),
{
}

/// Stopping a running recording: the recording is stopped, and the listener
/// waits for that stop, exactly when the game failed to launch, the client
/// reconnects, or the game is over and the client waits for or shows its
/// statistics; on every other phase the recording goes on.
pub proof fn lemma_stop_phases<M>(d: SessionEventData, only_record_ranked: bool)
    ensures
        d.phase == GamePhase::FailedToLaunch || d.phase == GamePhase::Reconnect
            || d.phase == GamePhase::WaitingForStats || d.phase == GamePhase::PreEndOfGame ==>
            step(State::<M>::Recording, ListenerEvent::Subscription(SubscriptionResponse::Session(d)), only_record_ranked)
                == (State::<M>::Stopping, Action::<M>::StopRecording),
        d.phase == GamePhase::NoPhase || d.phase == GamePhase::Lobby || d.phase == GamePhase::Matchmaking
            || d.phase == GamePhase::CheckedIntoTournament || d.phase == GamePhase::ReadyCheck
            || d.phase == GamePhase::ChampSelect || d.phase == GamePhase::GameStart
            || d.phase == GamePhase::InProgress || d.phase == GamePhase::EndOfGame
            || d.phase == GamePhase::TerminatedInError ==>
            step(State::<M>::Recording, ListenerEvent::Subscription(SubscriptionResponse::Session(d)), only_record_ranked)
                == (State::<M>::Recording, Action::<M>::Nothing),
        step(State::<M>::Recording, ListenerEvent::Subscription(SubscriptionResponse::EogStatsBlock {  }), only_record_ranked)
            == (State::<M>::Recording, Action::<M>::Nothing),
{
}

/// Starting a recording: the idle listener starts recording the game the
/// update is about exactly when the game is starting or running and either
/// every game is recorded or the game's queue is ranked.
pub proof fn lemma_start_phases<M>(d: SessionEventData, only_record_ranked: bool)
    ensures
        (d.phase == GamePhase::GameStart || d.phase == GamePhase::InProgress)
            && (!only_record_ranked || d.game_data.queue.is_ranked) ==>
            step(State::<M>::Idle, ListenerEvent::Subscription(SubscriptionResponse::Session(d)), only_record_ranked)
                == (State::<M>::Recording, Action::<M>::StartRecording(d.game_data.game_id)),
        !(d.phase == GamePhase::GameStart || d.phase == GamePhase::InProgress)
            || (only_record_ranked && !d.game_data.queue.is_ranked) ==>
            step(State::<M>::Idle, ListenerEvent::Subscription(SubscriptionResponse::Session(d)), only_record_ranked)
                == (State::<M>::Idle, Action::<M>::Nothing),
{
}

} // verus!
