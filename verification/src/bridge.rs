//! The host's relay, one bridged connection at a time: what to do next, given
//! what has just happened on either stream. The relay is a pipe: it forwards
//! the bytes it is given as they are, and tears both streams down as soon as
//! either ends.

use vstd::prelude::*;
use crate::error::ConnectionError;

verus! {

/// One of the two streams of a bridged connection.
#[derive(Debug, Clone, Copy, PartialEq, Eq, Structural)]
pub enum Side {
    /// The stream to the external client.
    Client,
    /// The stream to the enclave's listening endpoint.
    Enclave,
}

/// The other stream of the pair.
pub open spec fn peer_of(side: Side) -> Side {
    match side {
        Side::Client => Side::Enclave,
        Side::Enclave => Side::Client,
    }
}

/// The error that a failure on `side` is reported as.
pub open spec fn failure_of(side: Side) -> ConnectionError {
    match side {
        Side::Client => ConnectionError::ClientFailed,
        Side::Enclave => ConnectionError::EnclaveFailed,
    }
}

impl Side {
    /// The other stream of the pair.
    pub fn peer(self) -> (other: Side)
        ensures
            other == peer_of(self),
    {
        match self {
            Side::Client => Side::Enclave,
            Side::Enclave => Side::Client,
        }
    }

    /// The error that a failure on this stream is reported as.
    pub fn failure(self) -> (e: ConnectionError)
        ensures
            e == failure_of(self),
    {
        match self {
            Side::Client => ConnectionError::ClientFailed,
            Side::Enclave => ConnectionError::EnclaveFailed,
        }
    }
}

/// Where a bridged connection stands.
#[derive(Debug, Clone, Copy, PartialEq, Eq, Structural)]
pub enum Phase {
    /// The client was accepted; the connection to the enclave is being opened.
    Connecting,
    /// Both streams are open and bytes are copied in both directions.
    Bridging,
    /// Both streams are closed; nothing more happens on this connection.
    Closed,
}

/// What has just happened on a bridged connection.
#[derive(Debug, Clone, PartialEq, Eq)]
pub enum Event {
    /// The connection to the enclave's endpoint is open.
    Connected,
    /// The connection to the enclave's endpoint could not be opened.
    ConnectFailed,
    /// Bytes were read from one stream.
    Data { from: Side, bytes: Vec<u8> },
    /// One stream reached its end.
    Eof { from: Side },
    /// Reading from or writing to one stream failed.
    Failed { from: Side },
}

/// An event as plain values.
pub enum EventView {
    Connected,
    ConnectFailed,
    Data { from: Side, bytes: Seq<u8> },
    Eof { from: Side },
    Failed { from: Side },
}

impl View for Event {
    type V = EventView;

    open spec fn view(&self) -> EventView {
        match *self {
            Event::Connected => EventView::Connected,
            Event::ConnectFailed => EventView::ConnectFailed,
            Event::Data { from, bytes } => EventView::Data { from, bytes: bytes@ },
            Event::Eof { from } => EventView::Eof { from },
            Event::Failed { from } => EventView::Failed { from },
        }
    }
}

/// What the driver of a bridged connection is to do next.
#[derive(Debug, Clone, PartialEq, Eq)]
pub enum Action {
    /// Open a connection to the enclave's endpoint.
    Connect,
    /// Wait for the next event.
    Idle,
    /// Write these bytes, as they are, to one stream.
    Forward { to: Side, bytes: Vec<u8> },
    /// Close both streams and end the task, reporting the error if there is one.
    Close { reason: Option<ConnectionError> },
}

/// An action as plain values.
pub enum ActionView {
    Connect,
    Idle,
    Forward { to: Side, bytes: Seq<u8> },
    Close { reason: Option<ConnectionError> },
}

impl View for Action {
    type V = ActionView;

    open spec fn view(&self) -> ActionView {
        match *self {
            Action::Connect => ActionView::Connect,
            Action::Idle => ActionView::Idle,
            Action::Forward { to, bytes } => ActionView::Forward { to, bytes: bytes@ },
            Action::Close { reason } => ActionView::Close { reason },
        }
    }
}

/// The step of a bridged connection: the phase it moves to and the action it
/// asks for, given the phase it is in and the event.
///
/// While connecting, only the outcome of the attempt is awaited: whatever
/// else happens ends the connection, and bytes that arrive before there is an
/// enclave stream to take them count as the enclave being unreachable. While
/// bridging, bytes go to the other stream unchanged, and the end or failure
/// of either stream closes both. A closed connection stays closed.
pub open spec fn transition(phase: Phase, event: EventView) -> (Phase, ActionView) {
    match phase {
        Phase::Connecting => match event {
            EventView::Connected => (Phase::Bridging, ActionView::Idle),
            EventView::ConnectFailed => (
                Phase::Closed,
                ActionView::Close { reason: Some(ConnectionError::EnclaveUnreachable) },
            ),
            EventView::Data { from, bytes } => (
                Phase::Closed,
                ActionView::Close { reason: Some(ConnectionError::EnclaveUnreachable) },
            ),
            EventView::Eof { from } => (Phase::Closed, ActionView::Close { reason: None }),
            EventView::Failed { from } => (
                Phase::Closed,
                ActionView::Close { reason: Some(failure_of(from)) },
            ),
        },
        Phase::Bridging => match event {
            EventView::Connected => (Phase::Bridging, ActionView::Idle),
            EventView::ConnectFailed => (Phase::Bridging, ActionView::Idle),
            EventView::Data { from, bytes } => (
                Phase::Bridging,
                ActionView::Forward { to: peer_of(from), bytes },
            ),
            EventView::Eof { from } => (Phase::Closed, ActionView::Close { reason: None }),
            EventView::Failed { from } => (
                Phase::Closed,
                ActionView::Close { reason: Some(failure_of(from)) },
            ),
        },
        Phase::Closed => (Phase::Closed, ActionView::Idle),
    }
}

/// One bridged connection. It shares nothing with any other connection.
#[derive(Debug)]
pub struct Connection {
    phase: Phase,
}

impl Connection {
    /// The phase the connection is in.
    pub closed spec fn phase(&self) -> Phase {
        self.phase
    }

    /// Starts the connection for a client that was just accepted: the first
    /// thing to do is to connect to the enclave.
    pub fn accept() -> (started: (Connection, Action))
        ensures
            started.0.phase() == Phase::Connecting,
            started.1@ == ActionView::Connect,
    {
        (Connection { phase: Phase::Connecting }, Action::Connect)
    }

    /// The phase the connection is in.
    pub fn current(&self) -> (phase: Phase)
        ensures
            phase == self.phase(),
    {
        self.phase
    }

    /// Whether both streams are closed.
    pub fn is_closed(&self) -> (closed: bool)
        ensures
            closed <==> self.phase() == Phase::Closed,
    {
        match self.phase {
            Phase::Closed => true,
            _ => false,
        }
    }

    /// Takes one event and says what to do next.
    pub fn on_event(&mut self, event: Event) -> (action: Action)
        ensures
            (final(self).phase(), action@) == transition(old(self).phase(), event@),
    {
        match self.phase {
            Phase::Connecting => match event {
                Event::Connected => {
                    self.phase = Phase::Bridging;
                    Action::Idle
                },
                Event::ConnectFailed => {
                    self.phase = Phase::Closed;
                    Action::Close { reason: Some(ConnectionError::EnclaveUnreachable) }
                },
                Event::Data { from, bytes } => {
                    self.phase = Phase::Closed;
                    Action::Close { reason: Some(ConnectionError::EnclaveUnreachable) }
                },
                Event::Eof { from } => {
                    self.phase = Phase::Closed;
                    Action::Close { reason: None }
                },
                Event::Failed { from } => {
                    self.phase = Phase::Closed;
                    Action::Close { reason: Some(from.failure()) }
                },
            },
            Phase::Bridging => match event {
                Event::Connected => Action::Idle,
                Event::ConnectFailed => Action::Idle,
                Event::Data { from, bytes } => Action::Forward { to: from.peer(), bytes },
                Event::Eof { from } => {
                    self.phase = Phase::Closed;
                    Action::Close { reason: None }
                },
                Event::Failed { from } => {
                    self.phase = Phase::Closed;
                    Action::Close { reason: Some(from.failure()) }
                },
            },
            Phase::Closed => Action::Idle,
        }
    }
}

} // verus!
