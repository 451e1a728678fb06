//! The client's event loop: it dispatches requests in the order in which they
//! come, asks for the playback from time to time, and looks after the session.
//!
//! The loop waits, receives and sends in the caller; what follows from what has
//! happened is decided here, one event at a time.

use crate::handlers::PlayerEventHandlerState;
use crate::request::{ClientRequest, PlayerRequest};
use crate::time::{passed, read, read_clock, time_since, Elapsed};
use std::time::Instant;
use vstd::prelude::*;

verus! {

/// Time between checks of the session, in milliseconds.
pub const SESSION_CHECK_INTERVAL_MS: u64 = 1000;

/// Time between looks at the player, in milliseconds.
pub const EVENT_INTERVAL_MS: u64 = 100;

/// The shortest time between two periodic requests for the playback, in
/// milliseconds.
pub const MIN_PLAYBACK_REFRESH_MS: u64 = 1000;

/// The state of the event loop.
#[derive(Debug)]
pub struct RunLoop<P, R> {
    /// How often the playback is asked for, in milliseconds. Zero stands for
    /// never.
    pub playback_refresh_ms: u64,
    pub handler_state: PlayerEventHandlerState,
    /// A request that has been taken out of the queue ahead of its turn.
    pub deferred: Option<ClientRequest<P, R>>,
    /// The volume to set, while the queue is searched for a later one.
    pub volume: Option<u8>,
}

/// What has happened.
#[derive(Debug)]
pub enum RunEvent<P, R> {
    /// The last action has been carried out.
    Ready,
    /// A request has been received, or there will be none any more.
    Received(Option<ClientRequest<P, R>>),
    /// The queue has been looked into: its first request, which has been taken
    /// out, if there was one.
    Queued(Option<ClientRequest<P, R>>),
    /// It is time to check the session.
    SessionTick,
    /// It is time to look at the player.
    EventTick,
    /// The playback has been asked for, or that could not be done.
    RefreshSent(bool),
}

/// What the caller is to do next.
#[derive(Debug, PartialEq, Eq)]
pub enum RunAction<P, R> {
    /// Wait for a request, or for the next tick.
    Wait,
    /// Take the first request out of the queue, without waiting for one.
    TryReceive,
    /// Check the session.
    CheckSession,
    /// Ask for the playback.
    SendRefresh,
    /// Look at the player.
    LookAtPlayer,
    /// Carry out a command to the player, and wait until it is done.
    Command(PlayerRequest<P>),
    /// Work on a request, without waiting for it.
    Spawn(ClientRequest<P, R>),
    /// End the loop.
    Stop,
}

/// Whether the playback is to be asked for again, `elapsed` nanoseconds after
/// the last time, where it is asked for every `refresh_ms` milliseconds.
pub open spec fn refresh_is_due(refresh_ms: u64, elapsed: nat) -> bool {
    let interval = if refresh_ms < MIN_PLAYBACK_REFRESH_MS {
        MIN_PLAYBACK_REFRESH_MS
    } else {
        refresh_ms
    };
    refresh_ms > 0 && elapsed >= interval * 1_000_000
}

/// Whether a request asks for a volume.
pub open spec fn is_volume<P, R>(request: ClientRequest<P, R>) -> bool {
    request matches ClientRequest::Player(PlayerRequest::Volume(_))
}

impl<P, R> RunLoop<P, R> {
    /// The loop searches the queue for a later volume only while no request is
    /// deferred.
    pub open spec fn wf(self) -> bool {
        self.volume is Some ==> self.deferred is None
    }

    /// Whether the loop expects the event: while it searches the queue it
    /// expects what the queue holds, and before it receives anything else it
    /// dispatches what is deferred.
    pub open spec fn expects(self, event: RunEvent<P, R>) -> bool {
        match event {
            RunEvent::Queued(_) => self.volume is Some,
            RunEvent::Ready => self.volume is None,
            _ => self.volume is None && self.deferred is None,
        }
    }

    /// The next state and action where `request` is dispatched.
    pub open spec fn dispatched(self, request: ClientRequest<P, R>) -> (
        RunLoop<P, R>,
        RunAction<P, R>,
    ) {
        match request {
            ClientRequest::Player(PlayerRequest::Volume(v)) => (
                RunLoop { volume: Some(v), ..self },
                RunAction::TryReceive,
            ),
            ClientRequest::Player(command) => (self, RunAction::Command(command)),
            _ => (self, RunAction::Spawn(request)),
        }
    }

    /// The next state and action after `event`, where the playback was asked
    /// for `elapsed` nanoseconds ago and the clock reads `now`.
    pub open spec fn next(self, event: RunEvent<P, R>, elapsed: nat, now: Instant) -> (
        RunLoop<P, R>,
        RunAction<P, R>,
    ) {
        match event {
            RunEvent::Ready => match self.deferred {
                Some(request) => (RunLoop { deferred: None, ..self }).dispatched(request),
                None => (self, RunAction::Wait),
            },
            RunEvent::Received(Some(request)) => self.dispatched(request),
            RunEvent::Received(None) => (self, RunAction::Stop),
            RunEvent::Queued(Some(ClientRequest::Player(PlayerRequest::Volume(v)))) => (
                RunLoop { volume: Some(v), ..self },
                RunAction::TryReceive,
            ),
            RunEvent::Queued(next) => (
                RunLoop { volume: None, deferred: next, ..self },
                RunAction::Command(PlayerRequest::Volume(self.volume->0)),
            ),
            RunEvent::SessionTick => (self, RunAction::CheckSession),
            RunEvent::EventTick => (
                self,
                if refresh_is_due(self.playback_refresh_ms, elapsed) {
                    RunAction::SendRefresh
                } else {
                    RunAction::LookAtPlayer
                },
            ),
            RunEvent::RefreshSent(true) => (
                RunLoop {
                    handler_state: PlayerEventHandlerState {
                        last_playback_refresh: now,
                        ..self.handler_state
                    },
                    ..self
                },
                RunAction::LookAtPlayer,
            ),
            RunEvent::RefreshSent(false) => (self, RunAction::Stop),
        }
    }

    /// A loop that has not done anything yet, at the time `now`.
    pub fn new_at(playback_refresh_ms: u64, now: Instant) -> (l: RunLoop<P, R>)
        ensures
            l.wf(),
            l.expects(RunEvent::Ready),
            l.playback_refresh_ms == playback_refresh_ms,
            l.handler_state.ended_playable_uri is None,
            l.handler_state.last_get_context == now,
            l.handler_state.last_playback_refresh == now,
            l.handler_state.last_queue_refresh is None,
            l.deferred is None,
            l.volume is None,
    {
        RunLoop {
            playback_refresh_ms,
            handler_state: PlayerEventHandlerState {
                ended_playable_uri: None,
                last_get_context: now,
                last_playback_refresh: now,
                last_queue_refresh: None,
            },
            deferred: None,
            volume: None,
        }
    }

    /// Starts to work on a request.
    fn dispatch(&mut self, request: ClientRequest<P, R>) -> (action: RunAction<P, R>)
        ensures
            (*final(self), action) == old(self).dispatched(request),
    {
        match request {
            ClientRequest::Player(PlayerRequest::Volume(v)) => {
                self.volume = Some(v);
                RunAction::TryReceive
            },
            ClientRequest::Player(command) => RunAction::Command(command),
            request => RunAction::Spawn(request),
        }
    }

    /// Takes note of what has happened, and tells what to do next. `elapsed` is
    /// the time since the playback was asked for last, and `now` the current
    /// time.
    pub fn step_at(&mut self, event: RunEvent<P, R>, elapsed: Elapsed, now: Instant) -> (action:
        RunAction<P, R>)
        requires
            old(self).wf(),
            old(self).expects(event),
        ensures
            final(self).wf(),
            (*final(self), action) == old(self).next(event, elapsed@, now),
    {
        match event {
            RunEvent::Ready => match self.deferred.take() {
                Some(request) => self.dispatch(request),
                None => RunAction::Wait,
            },
            RunEvent::Received(Some(request)) => self.dispatch(request),
            RunEvent::Received(None) => RunAction::Stop,
            RunEvent::Queued(Some(ClientRequest::Player(PlayerRequest::Volume(v)))) => {
                self.volume = Some(v);
                RunAction::TryReceive
            },
            RunEvent::Queued(next) => {
                let volume: u8 = match self.volume {
                    Some(volume) => volume,
                    None => 0,
                };
                self.volume = None;
                self.deferred = next;
                RunAction::Command(PlayerRequest::Volume(volume))
            },
            RunEvent::SessionTick => RunAction::CheckSession,
            RunEvent::EventTick => {
                let interval: u64 = if self.playback_refresh_ms < MIN_PLAYBACK_REFRESH_MS {
                    MIN_PLAYBACK_REFRESH_MS
                } else {
                    self.playback_refresh_ms
                };
                if self.playback_refresh_ms > 0 && elapsed.at_least(
                    &Elapsed::from_millis(interval),
                ) {
                    RunAction::SendRefresh
                } else {
                    RunAction::LookAtPlayer
                }
            },
            RunEvent::RefreshSent(true) => {
                self.handler_state.last_playback_refresh = now;
                RunAction::LookAtPlayer
            },
            RunEvent::RefreshSent(false) => RunAction::Stop,
        }
    }

    /// A loop that has not done anything yet.
    pub fn new(playback_refresh_ms: u64) -> (l: RunLoop<P, R>)
        ensures
            l.wf(),
            l.expects(RunEvent::Ready),
            l.playback_refresh_ms == playback_refresh_ms,
            l.handler_state.ended_playable_uri is None,
            read(l.handler_state.last_get_context),
            read(l.handler_state.last_playback_refresh),
            l.handler_state.last_queue_refresh is None,
            l.deferred is None,
            l.volume is None,
    {
        RunLoop::new_at(playback_refresh_ms, read_clock())
    }

    /// Takes note of what has happened, and tells what to do next.
    pub fn step(&mut self, event: RunEvent<P, R>) -> (action: RunAction<P, R>)
        requires
            old(self).wf(),
            old(self).expects(event),
        ensures
            final(self).wf(),
            exists|elapsed: nat, now: Instant|
                passed(old(self).handler_state.last_playback_refresh, elapsed) && read(now) && (
                    *final(self),
                    action,
                ) == #[trigger] old(self).next(event, elapsed, now),
    {
        let elapsed = time_since(&self.handler_state.last_playback_refresh);
        self.step_at(event, elapsed, read_clock())
    }
}

} // verus!
