//! Life cycles: the shutdown signal, the phases of the control loop, the
//! listener and each connection of the network service, and how far each
//! kind of error reaches.
//!
//! Each machine is a function from a state and an event to the next state and
//! what to do. The owner of the sockets and threads reports the events and
//! performs the actions.

use crate::wire::{DecodeError, Inbound};
use crate::api::remote::Cmd;
use vstd::prelude::*;

verus! {

/// The signal to shut down: set at most once, and never cleared.
pub struct ShutdownSignal {
    set: bool,
}

impl ShutdownSignal {
    /// Whether the signal has been set.
    pub closed spec fn spec_is_set(&self) -> bool {
        self.set
    }

    /// A signal that has not been set.
    pub fn new() -> (r: Self)
        ensures
            !r.spec_is_set(),
    {
        ShutdownSignal { set: false }
    }

    /// Whether the signal has been set.
    pub fn is_set(&self) -> (r: bool)
        ensures
            r == self.spec_is_set(),
    {
        self.set
    }

    /// Sets the signal. Tells whether this call was the one that set it, and
    /// so the one after which the subscribers are to be told.
    pub fn set(&mut self) -> (first: bool)
        ensures
            final(self).spec_is_set(),
            first == !old(self).spec_is_set(),
    {
        let first = !self.set;
        self.set = true;
        first
    }
}

/// The phases of the control loop.
#[derive(Clone, Copy, Debug, PartialEq, Eq, Structural)]
pub enum Phase {
    /// The hardware is being opened and configured.
    Initializing,
    /// The loop ticks.
    Running,
    /// The shutdown signal was seen; the hardware handle is being released.
    Draining,
    /// The loop has ended.
    Terminated,
}

/// What the owner of the control loop reports.
#[derive(Clone, Copy, Debug, PartialEq, Eq, Structural)]
pub enum PhaseEvent {
    /// The hardware was opened and configured.
    Initialized,
    /// The hardware could not be opened or configured.
    InitializationFailed,
    /// A tick has ended.
    TickEnded,
    /// The hardware handle was released.
    Released,
}

/// The phase after an event, given whether the shutdown signal is set.
///
/// The signal is looked at between ticks only; a failed initialization ends
/// the loop before it has run.
pub open spec fn phase_after(phase: Phase, event: PhaseEvent, shutdown: bool) -> Phase {
    match (phase, event) {
        (Phase::Initializing, PhaseEvent::Initialized) => Phase::Running,
        (Phase::Initializing, PhaseEvent::InitializationFailed) => Phase::Terminated,
        (Phase::Running, PhaseEvent::TickEnded) => if shutdown {
            Phase::Draining
        } else {
            Phase::Running
        },
        (Phase::Draining, PhaseEvent::Released) => Phase::Terminated,
        _ => phase,
    }
}

impl Phase {
    /// The phase after an event.
    pub fn next(self, event: PhaseEvent, signal: &ShutdownSignal) -> (r: Phase)
        ensures
            r == phase_after(self, event, signal.spec_is_set()),
    {
        match (self, event) {
            (Phase::Initializing, PhaseEvent::Initialized) => Phase::Running,
            (Phase::Initializing, PhaseEvent::InitializationFailed) => Phase::Terminated,
            (Phase::Running, PhaseEvent::TickEnded) => if signal.is_set() {
                Phase::Draining
            } else {
                Phase::Running
            },
            (Phase::Draining, PhaseEvent::Released) => Phase::Terminated,
            _ => self,
        }
    }

    /// Whether the loop ticks in this phase.
    pub fn ticks(self) -> (r: bool)
        ensures
            r == (self == Phase::Running),
    {
        match self {
            Phase::Running => true,
            _ => false,
        }
    }
}

/// The states of the listener of the network service.
#[derive(Clone, Copy, Debug, PartialEq, Eq, Structural)]
pub enum ListenerState {
    /// The listener waits for a connection.
    Accepting,
    /// The listener has returned.
    Stopped,
}

/// What the listener's wait ends with.
#[derive(Clone, Copy, Debug, PartialEq, Eq, Structural)]
pub enum ListenerEvent {
    /// A client has connected.
    Connected,
    /// The listener itself has failed.
    Failed,
    /// The shutdown signal was set.
    Shutdown,
}

/// What the listener does after its wait.
#[derive(Clone, Copy, Debug, PartialEq, Eq, Structural)]
pub enum ListenerAction {
    /// Hand the connection to a detached task of its own, and wait again.
    Spawn,
    /// Return. Open connections are left to end by themselves.
    Stop,
}

/// The listener's next state and what it does.
pub open spec fn listener_after(state: ListenerState, event: ListenerEvent) -> (
    ListenerState,
    ListenerAction,
) {
    match (state, event) {
        (ListenerState::Accepting, ListenerEvent::Connected) => (
            ListenerState::Accepting,
            ListenerAction::Spawn,
        ),
        _ => (ListenerState::Stopped, ListenerAction::Stop),
    }
}

/// Decides what the listener does after its wait.
pub fn await_connection(state: ListenerState, event: ListenerEvent) -> (r: (
    ListenerState,
    ListenerAction,
))
    ensures
        r == listener_after(state, event),
{
    match (state, event) {
        (ListenerState::Accepting, ListenerEvent::Connected) => (
            ListenerState::Accepting,
            ListenerAction::Spawn,
        ),
        _ => (ListenerState::Stopped, ListenerAction::Stop),
    }
}

/// The shutdown signal stops the listener at once, whatever its state, and a
/// stopped listener accepts nothing more, whatever happens.
pub proof fn listener_stops_on_shutdown(state: ListenerState, later: ListenerEvent)
    ensures
        listener_after(state, ListenerEvent::Shutdown) == (
            ListenerState::Stopped,
            ListenerAction::Stop,
        ),
        listener_after(ListenerState::Stopped, later) == (
            ListenerState::Stopped,
            ListenerAction::Stop,
        ),
{
}

/// The states of one connection.
#[derive(Clone, Copy, Debug, PartialEq, Eq, Structural)]
pub enum ConnectionState {
    /// The stream was accepted; its peer is being asked for.
    Accepting,
    /// The stream is being promoted to a message-framed connection.
    Upgrading,
    /// Messages flow both ways.
    Open,
    /// The connection has ended.
    Closed,
}

/// What happens on one connection.
#[derive(Clone, Copy, Debug, PartialEq, Eq, Structural)]
pub enum ConnectionEvent {
    /// The peer's address is known.
    PeerKnown,
    /// The promotion has succeeded.
    Upgraded,
    /// A message has arrived; the read loop has decided what it is.
    Received(Inbound),
    /// A frame was sent to the client.
    Sent,
    /// The client has closed the connection, or the source of frames has ended.
    Ended,
    /// The transport has failed.
    TransportFailed,
}

/// What the connection's task does after an event.
#[derive(Clone, Copy, Debug, PartialEq, Eq, Structural)]
pub enum ConnectionAction {
    /// Go on.
    Continue,
    /// Pass the command on to the command channel.
    Forward(Cmd),
    /// Log that a message could not be decoded, and go on.
    LogDecodeError(DecodeError),
    /// Return; the listener and the other connections go on.
    Close,
}

/// The connection's next state and what its task does.
///
/// A message that cannot be decoded does not close the connection. Neither
/// does the shutdown signal: it is no event of a connection.
pub open spec fn connection_after(state: ConnectionState, event: ConnectionEvent) -> (
    ConnectionState,
    ConnectionAction,
) {
    match (state, event) {
        (ConnectionState::Accepting, ConnectionEvent::PeerKnown) => (
            ConnectionState::Upgrading,
            ConnectionAction::Continue,
        ),
        (ConnectionState::Upgrading, ConnectionEvent::Upgraded) => (
            ConnectionState::Open,
            ConnectionAction::Continue,
        ),
        (ConnectionState::Open, ConnectionEvent::Received(Inbound::Forward(cmd))) => (
            ConnectionState::Open,
            ConnectionAction::Forward(cmd),
        ),
        (ConnectionState::Open, ConnectionEvent::Received(Inbound::Rejected(e))) => (
            ConnectionState::Open,
            ConnectionAction::LogDecodeError(e),
        ),
        (ConnectionState::Open, ConnectionEvent::Received(Inbound::Ignored)) => (
            ConnectionState::Open,
            ConnectionAction::Continue,
        ),
        (ConnectionState::Open, ConnectionEvent::Sent) => (
            ConnectionState::Open,
            ConnectionAction::Continue,
        ),
        _ => (ConnectionState::Closed, ConnectionAction::Close),
    }
}

/// Decides what the task of a connection does after an event.
pub fn accept_connection(state: ConnectionState, event: ConnectionEvent) -> (r: (
    ConnectionState,
    ConnectionAction,
))
    ensures
        r == connection_after(state, event),
{
    match (state, event) {
        (ConnectionState::Accepting, ConnectionEvent::PeerKnown) => (
            ConnectionState::Upgrading,
            ConnectionAction::Continue,
        ),
        (ConnectionState::Upgrading, ConnectionEvent::Upgraded) => (
            ConnectionState::Open,
            ConnectionAction::Continue,
        ),
        (ConnectionState::Open, ConnectionEvent::Received(Inbound::Forward(cmd))) => (
            ConnectionState::Open,
            ConnectionAction::Forward(cmd),
        ),
        (ConnectionState::Open, ConnectionEvent::Received(Inbound::Rejected(e))) => (
            ConnectionState::Open,
            ConnectionAction::LogDecodeError(e),
        ),
        (ConnectionState::Open, ConnectionEvent::Received(Inbound::Ignored)) => (
            ConnectionState::Open,
            ConnectionAction::Continue,
        ),
        (ConnectionState::Open, ConnectionEvent::Sent) => (
            ConnectionState::Open,
            ConnectionAction::Continue,
        ),
        _ => (ConnectionState::Closed, ConnectionAction::Close),
    }
}

/// An open connection stays open whatever message arrives, and a closed one
/// stays closed.
pub proof fn connection_survives_messages(message: Inbound, later: ConnectionEvent)
    ensures
        connection_after(ConnectionState::Open, ConnectionEvent::Received(message)).0
            == ConnectionState::Open,
        connection_after(ConnectionState::Closed, later) == (
            ConnectionState::Closed,
            ConnectionAction::Close,
        ),
{
}

/// The kinds of error.
#[derive(Clone, Copy, Debug, PartialEq, Eq, Structural)]
pub enum Fault {
    /// A transfer on the hardware bus has failed.
    Transport,
    /// The device reports another configuration than the one written.
    ConfigMismatch,
    /// An inbound message could not be decoded.
    Decode,
    /// The transport of an open connection has failed.
    Connection,
    /// The listener cannot accept connections.
    Listener,
    /// A batch could not be written to the sink.
    SinkWrite,
    /// The hardware could not be opened or configured at startup.
    Initialization,
}

/// How far an error reaches.
#[derive(Clone, Copy, Debug, PartialEq, Eq, Structural)]
pub enum Reach {
    /// The error is logged where it arose, and the work goes on.
    Logged,
    /// The connection on which it arose closes.
    Connection,
    /// The network service ends; the other subsystems go on.
    NetworkService,
    /// The process cannot proceed.
    Process,
}

impl Fault {
    /// How far this kind of error reaches.
    pub open spec fn spec_reach(self) -> Reach {
        match self {
            Fault::Transport => Reach::Logged,
            Fault::ConfigMismatch => Reach::Logged,
            Fault::Decode => Reach::Logged,
            Fault::SinkWrite => Reach::Logged,
            Fault::Connection => Reach::Connection,
            Fault::Listener => Reach::NetworkService,
            Fault::Initialization => Reach::Process,
        }
    }

    /// How far this kind of error reaches.
    pub fn reach(self) -> (r: Reach)
        ensures
            r == self.spec_reach(),
    {
        match self {
            Fault::Transport => Reach::Logged,
            Fault::ConfigMismatch => Reach::Logged,
            Fault::Decode => Reach::Logged,
            Fault::SinkWrite => Reach::Logged,
            Fault::Connection => Reach::Connection,
            Fault::Listener => Reach::NetworkService,
            Fault::Initialization => Reach::Process,
        }
    }
}

} // verus!
