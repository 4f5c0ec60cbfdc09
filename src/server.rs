//! The decisions of the tunnel server: check the socket path, bind, accept
//! clients one at a time, dial the remote for each and hand the pair to a
//! relay, and on cancellation stop accepting and remove the socket file.
//! Whoever drives it performs each action and reports what came of it.
use vstd::prelude::*;

verus! {

/// Why a tunnel run failed.
#[derive(Clone, Copy, Debug, PartialEq, Eq, Structural)]
pub enum TunnelError {
    /// Something already exists at the socket path; nothing was bound.
    PathAlreadyExists,
    /// The listener could not be bound.
    BindFailed,
    /// Accepting a client failed.
    AcceptFailed,
}

/// Where the server stands.
#[derive(Clone, Copy, Debug, PartialEq, Eq, Structural)]
pub enum ServerPhase {
    /// The socket path is still to be checked.
    Binding,
    /// The listener is being bound.
    BindPending,
    /// Waiting for the next client.
    Listening,
    /// A client was accepted and the remote is being dialed for it.
    Dialing,
    /// No more clients are accepted; the socket file is being removed.
    Draining,
    /// The run is over.
    Terminated,
}

/// What the server is told.
#[derive(Clone, Copy, Debug, PartialEq, Eq, Structural)]
pub enum ServerEvent {
    /// The socket path was looked at: whether something exists there.
    PathChecked(bool),
    /// The bind finished: whether it succeeded.
    Bound(bool),
    /// An accept finished: whether a client came.
    Accepted(bool),
    /// The dial for the accepted client finished: whether it connected.
    Dialed(bool),
    /// The operator asked the tunnel to stop.
    Cancelled,
    /// The removal of the socket file finished: whether it succeeded.
    Removed(bool),
}

/// What the server asks for next.
#[derive(Clone, Copy, Debug, PartialEq, Eq)]
pub enum ServerAction {
    /// Bind the listener at the socket path.
    Bind,
    /// Wait for the next client (or a cancellation).
    Accept,
    /// Dial the remote endpoint for the client just accepted.
    Dial,
    /// Start a relay for the client and the dialed stream, then wait for the next client.
    Spawn,
    /// Drop the client whose dial failed, then wait for the next client.
    Discard,
    /// Remove the socket file.
    RemoveSocket,
    /// Return to the caller with this result.
    Finish(Result<(), TunnelError>),
    /// Nothing: the event does not apply where the server stands.
    Ignore,
}

/// The server's state in mathematical form.
pub struct ServerView {
    pub phase: ServerPhase,
    pub failure: Option<TunnelError>,
    pub removal_failed: bool,
}

/// The result a run ends with once the socket file is handled.
pub open spec fn outcome(failure: Option<TunnelError>) -> Result<(), TunnelError> {
    match failure {
        Some(e) => Err(e),
        None => Ok(()),
    }
}

/// One transition of the server.
pub open spec fn server_step(v: ServerView, e: ServerEvent) -> (ServerView, ServerAction) {
    let same = (v, ServerAction::Ignore);
    match (v.phase, e) {
        (ServerPhase::Binding, ServerEvent::PathChecked(exists)) => if exists {
            (
                ServerView {
                    phase: ServerPhase::Terminated,
                    failure: Some(TunnelError::PathAlreadyExists),
                    ..v
                },
                ServerAction::Finish(Err(TunnelError::PathAlreadyExists)),
            )
        } else {
            (ServerView { phase: ServerPhase::BindPending, ..v }, ServerAction::Bind)
        },
        (ServerPhase::BindPending, ServerEvent::Bound(ok)) => if ok {
            (ServerView { phase: ServerPhase::Listening, ..v }, ServerAction::Accept)
        } else {
            (
                ServerView {
                    phase: ServerPhase::Terminated,
                    failure: Some(TunnelError::BindFailed),
                    ..v
                },
                ServerAction::Finish(Err(TunnelError::BindFailed)),
            )
        },
        (ServerPhase::Listening, ServerEvent::Accepted(ok)) => if ok {
            (ServerView { phase: ServerPhase::Dialing, ..v }, ServerAction::Dial)
        } else {
            (
                ServerView {
                    phase: ServerPhase::Draining,
                    failure: Some(TunnelError::AcceptFailed),
                    ..v
                },
                ServerAction::RemoveSocket,
            )
        },
        (ServerPhase::Dialing, ServerEvent::Dialed(ok)) => (
            ServerView { phase: ServerPhase::Listening, ..v },
            if ok {
                ServerAction::Spawn
            } else {
                ServerAction::Discard
            },
        ),
        (ServerPhase::Listening, ServerEvent::Cancelled) => (
            ServerView { phase: ServerPhase::Draining, ..v },
            ServerAction::RemoveSocket,
        ),
        (ServerPhase::Dialing, ServerEvent::Cancelled) => (
            ServerView { phase: ServerPhase::Draining, ..v },
            ServerAction::RemoveSocket,
        ),
        (ServerPhase::Draining, ServerEvent::Removed(ok)) => (
            ServerView { phase: ServerPhase::Terminated, removal_failed: !ok, ..v },
            ServerAction::Finish(outcome(v.failure)),
        ),
        _ => same,
    }
}

/// A run of events, in order: the final state and every action.
pub open spec fn server_run(v: ServerView, events: Seq<ServerEvent>) -> (ServerView, Seq<
    ServerAction,
>)
    decreases events.len(),
{
    if events.len() == 0 {
        (v, Seq::empty())
    } else {
        let prev = server_run(v, events.drop_last());
        let next = server_step(prev.0, events.last());
        (next.0, prev.1.push(next.1))
    }
}

/// The state a server starts in.
pub open spec fn initial_view() -> ServerView {
    ServerView { phase: ServerPhase::Binding, failure: None, removal_failed: false }
}

/// An action that neither binds, accepts, dials nor starts a relay.
pub open spec fn is_quiet(a: ServerAction) -> bool {
    a is Finish || a is Ignore
}

/// The state machine of one tunnel run.
pub struct TunnelServer {
    phase: ServerPhase,
    failure: Option<TunnelError>,
    removal_failed: bool,
}

impl TunnelServer {
    pub closed spec fn view(&self) -> ServerView {
        ServerView {
            phase: self.phase,
            failure: self.failure,
            removal_failed: self.removal_failed,
        }
    }

    /// A server that has done nothing yet.
    pub fn new() -> (r: TunnelServer)
        ensures
            r.view() == initial_view(),
    {
        TunnelServer { phase: ServerPhase::Binding, failure: None, removal_failed: false }
    }

    /// Where the server stands.
    pub fn phase(&self) -> (r: ServerPhase)
        ensures
            r == self.view().phase,
    {
        self.phase
    }

    /// Whether the socket file could not be removed at shutdown. This is
    /// reported, and does not change the run's result.
    pub fn removal_failed(&self) -> (r: bool)
        ensures
            r == self.view().removal_failed,
    {
        self.removal_failed
    }

    /// Takes one event and says what to do next.
    pub fn step(&mut self, e: ServerEvent) -> (r: ServerAction)
        ensures
            (final(self).view(), r) == server_step(old(self).view(), e),
    {
        match (self.phase, e) {
            (ServerPhase::Binding, ServerEvent::PathChecked(exists)) => {
                if exists {
                    self.phase = ServerPhase::Terminated;
                    self.failure = Some(TunnelError::PathAlreadyExists);
                    ServerAction::Finish(Err(TunnelError::PathAlreadyExists))
                } else {
                    self.phase = ServerPhase::BindPending;
                    ServerAction::Bind
                }
            },
            (ServerPhase::BindPending, ServerEvent::Bound(ok)) => {
                if ok {
                    self.phase = ServerPhase::Listening;
                    ServerAction::Accept
                } else {
                    self.phase = ServerPhase::Terminated;
                    self.failure = Some(TunnelError::BindFailed);
                    ServerAction::Finish(Err(TunnelError::BindFailed))
                }
            },
            (ServerPhase::Listening, ServerEvent::Accepted(ok)) => {
                if ok {
                    self.phase = ServerPhase::Dialing;
                    ServerAction::Dial
                } else {
                    self.phase = ServerPhase::Draining;
                    self.failure = Some(TunnelError::AcceptFailed);
                    ServerAction::RemoveSocket
                }
            },
            (ServerPhase::Dialing, ServerEvent::Dialed(ok)) => {
                self.phase = ServerPhase::Listening;
                if ok {
                    ServerAction::Spawn
                } else {
                    ServerAction::Discard
                }
            },
            (ServerPhase::Listening, ServerEvent::Cancelled) | (
                ServerPhase::Dialing,
                ServerEvent::Cancelled,
            ) => {
                self.phase = ServerPhase::Draining;
                ServerAction::RemoveSocket
            },
            (ServerPhase::Draining, ServerEvent::Removed(ok)) => {
                self.phase = ServerPhase::Terminated;
                self.removal_failed = !ok;
                match self.failure {
                    Some(err) => ServerAction::Finish(Err(err)),
                    None => ServerAction::Finish(Ok(())),
                }
            },
            _ => ServerAction::Ignore,
        }
    }
}

proof fn lemma_run_len(v: ServerView, events: Seq<ServerEvent>)
    ensures
        server_run(v, events).1.len() == events.len(),
    decreases events.len(),
{
    if events.len() > 0 {
        lemma_run_len(v, events.drop_last());
    }
}

/// Once draining or terminated, a server binds, accepts, dials and spawns
/// nothing more, whatever it is told.
pub proof fn lemma_no_accept_after_drain(v: ServerView, events: Seq<ServerEvent>)
    requires
        v.phase == ServerPhase::Draining || v.phase == ServerPhase::Terminated,
    ensures
        server_run(v, events).0.phase == ServerPhase::Draining || server_run(v, events).0.phase
            == ServerPhase::Terminated,
        forall|i: int| 0 <= i < events.len() ==> is_quiet(#[trigger] server_run(v, events).1[i]),
    decreases events.len(),
{
    if events.len() > 0 {
        lemma_no_accept_after_drain(v, events.drop_last());
        lemma_run_len(v, events.drop_last());
        let prev = server_run(v, events.drop_last());
        let outs = server_run(v, events).1;
        assert forall|i: int| 0 <= i < events.len() implies is_quiet(#[trigger] outs[i]) by {
            if i < events.len() - 1 {
                assert(outs[i] == prev.1[i]);
            }
        }
    }
}

/// A cancellation while the server listens (or dials for a client) stops it
/// from taking any new client: the socket file is removed next, and the run
/// can only end.
pub proof fn lemma_cancel_stops_accepting(v: ServerView, events: Seq<ServerEvent>)
    requires
        v.phase == ServerPhase::Listening || v.phase == ServerPhase::Dialing,
    ensures
        server_step(v, ServerEvent::Cancelled).1 == ServerAction::RemoveSocket,
        forall|i: int|
            0 <= i < events.len() ==> is_quiet(
                #[trigger] server_run(server_step(v, ServerEvent::Cancelled).0, events).1[i],
            ),
        server_run(server_step(v, ServerEvent::Cancelled).0, events).0.phase
            == ServerPhase::Terminated ==> exists|i: int|
            0 <= i < events.len() && events[i] is Removed,
{
    lemma_no_accept_after_drain(server_step(v, ServerEvent::Cancelled).0, events);
    lemma_terminated_after_removal(server_step(v, ServerEvent::Cancelled).0, events);
}

/// A draining server reaches its end only through a removal of the socket file.
pub proof fn lemma_terminated_after_removal(v: ServerView, events: Seq<ServerEvent>)
    requires
        v.phase == ServerPhase::Draining,
    ensures
        server_run(v, events).0.phase == ServerPhase::Terminated ==> exists|i: int|
            0 <= i < events.len() && events[i] is Removed,
    decreases events.len(),
{
    if events.len() > 0 {
        lemma_terminated_after_removal(v, events.drop_last());
        lemma_no_accept_after_drain(v, events.drop_last());
        let prev = server_run(v, events.drop_last());
        if server_run(v, events).0.phase == ServerPhase::Terminated {
            if prev.0.phase == ServerPhase::Terminated {
                let i = choose|i: int|
                    0 <= i < events.drop_last().len() && events.drop_last()[i] is Removed;
                assert(events[i] == events.drop_last()[i]);
                assert(0 <= i < events.len() && events[i] is Removed);
            } else {
                let j = events.len() - 1;
                assert(events[j] == events.last());
                assert(0 <= j < events.len() && events[j] is Removed);
            }
        }
    }
}

/// A socket path that already exists ends the run at once with
/// `PathAlreadyExists`: nothing is bound, accepted or dialed, then or later.
pub proof fn lemma_existing_path_fails(events: Seq<ServerEvent>)
    ensures
        server_step(initial_view(), ServerEvent::PathChecked(true)) == (
        ServerView {
            phase: ServerPhase::Terminated,
            failure: Some(TunnelError::PathAlreadyExists),
            removal_failed: false,
        },
        ServerAction::Finish(Err(TunnelError::PathAlreadyExists)),
        ),
        forall|i: int|
            0 <= i < events.len() ==> is_quiet(
                #[trigger] server_run(
                    server_step(initial_view(), ServerEvent::PathChecked(true)).0,
                    events,
                ).1[i],
            ),
{
    lemma_no_accept_after_drain(
        server_step(initial_view(), ServerEvent::PathChecked(true)).0,
        events,
    );
}

} // verus!
