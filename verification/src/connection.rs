//! One relayed connection: the phases it goes through, and what its two
//! workers do with what they read.
//!
//! The connection itself is outside: whoever owns it reads frames, awaits the
//! room's channel and writes. After each such step it reports what happened and
//! gets back what to do next.
use vstd::prelude::*;
use crate::dto::MessageDto;
use crate::service::RelayError;

verus! {

/// The two workers of a connection.
#[derive(Debug, Clone, Copy, PartialEq, Eq, Structural)]
pub enum Worker {
    /// Reads frames from the connection and publishes them into the room.
    Inbound,
    /// Receives what the room publishes and writes it to the connection.
    Outbound,
}

impl Worker {
    /// The worker at the other end of the pair.
    pub open spec fn spec_other(self) -> Worker {
        match self {
            Worker::Inbound => Worker::Outbound,
            Worker::Outbound => Worker::Inbound,
        }
    }

    /// The worker at the other end of the pair.
    #[verifier::when_used_as_spec(spec_other)]
    pub fn other(self) -> (worker: Worker)
        ensures
            worker == self.spec_other(),
    {
        match self {
            Worker::Inbound => Worker::Outbound,
            Worker::Outbound => Worker::Inbound,
        }
    }
}

/// Where a connection stands.
#[derive(Debug, Clone, Copy, PartialEq, Eq, Structural)]
pub enum ConnectionState {
    /// The room is being looked up; no worker runs.
    Resolving,
    /// Both workers run.
    Active,
    /// The worker `ended` has stopped and the other is being cancelled.
    Closing { ended: Worker },
    /// No worker runs and the connection is released.
    Closed,
}

/// What the owner of a connection reports.
#[derive(Debug, Clone, Copy, PartialEq, Eq, Structural)]
pub enum ConnectionEvent {
    /// The room was resolved.
    RoomResolved,
    /// The connection could not be upgraded.
    UpgradeFailed,
    /// A worker has stopped, of itself or because it was cancelled.
    WorkerEnded(Worker),
}

/// What the owner of a connection has to do next.
#[derive(Debug, Clone, Copy, PartialEq, Eq, Structural)]
pub enum ConnectionCommand {
    /// Start both workers on the room's channel.
    StartWorkers,
    /// Cancel this worker at once; what is queued for it is discarded.
    Cancel(Worker),
    /// Release the connection. The room is not touched.
    Release,
    /// Nothing.
    Idle,
}

impl ConnectionState {
    /// Whether `worker` runs in this state.
    pub open spec fn runs(self, worker: Worker) -> bool {
        match self {
            ConnectionState::Active => true,
            ConnectionState::Closing { ended } => worker != ended,
            _ => false,
        }
    }

    /// How far along the connection is: a state is never followed by an
    /// earlier one.
    pub open spec fn rank(self) -> nat {
        match self {
            ConnectionState::Resolving => 0,
            ConnectionState::Active => 1,
            ConnectionState::Closing { .. } => 2,
            ConnectionState::Closed => 3,
        }
    }

    /// The state that follows on `event`, and what is to be done.
    pub open spec fn next(self, event: ConnectionEvent) -> (ConnectionState, ConnectionCommand) {
        match (self, event) {
            (ConnectionState::Resolving, ConnectionEvent::RoomResolved) => (
                ConnectionState::Active,
                ConnectionCommand::StartWorkers,
            ),
            (ConnectionState::Resolving, ConnectionEvent::UpgradeFailed) => (
                ConnectionState::Closed,
                ConnectionCommand::Release,
            ),
            (ConnectionState::Active, ConnectionEvent::WorkerEnded(worker)) => (
                ConnectionState::Closing { ended: worker },
                ConnectionCommand::Cancel(worker.spec_other()),
            ),
            (ConnectionState::Closing { ended }, ConnectionEvent::WorkerEnded(worker)) => if worker
                != ended {
                (ConnectionState::Closed, ConnectionCommand::Release)
            } else {
                (self, ConnectionCommand::Idle)
            },
            _ => (self, ConnectionCommand::Idle),
        }
    }

    /// The state of a connection that has just come in.
    pub fn new() -> (state: ConnectionState)
        ensures
            state == ConnectionState::Resolving,
    {
        ConnectionState::Resolving
    }

    /// Takes `event` in: the state that follows, and what is to be done.
    pub fn step(self, event: ConnectionEvent) -> (res: (ConnectionState, ConnectionCommand))
        ensures
            res == self.next(event),
    {
        match self {
            ConnectionState::Resolving => match event {
                ConnectionEvent::RoomResolved => (ConnectionState::Active, ConnectionCommand::StartWorkers),
                ConnectionEvent::UpgradeFailed => (ConnectionState::Closed, ConnectionCommand::Release),
                ConnectionEvent::WorkerEnded(_) => (self, ConnectionCommand::Idle),
            },
            ConnectionState::Active => match event {
                ConnectionEvent::WorkerEnded(worker) => (
                    ConnectionState::Closing { ended: worker },
                    ConnectionCommand::Cancel(worker.other()),
                ),
                _ => (self, ConnectionCommand::Idle),
            },
            ConnectionState::Closing { ended } => match event {
                ConnectionEvent::WorkerEnded(worker) => if worker != ended {
                    (ConnectionState::Closed, ConnectionCommand::Release)
                } else {
                    (self, ConnectionCommand::Idle)
                },
                _ => (self, ConnectionCommand::Idle),
            },
            ConnectionState::Closed => (self, ConnectionCommand::Idle),
        }
    }
}

/// A connection only moves forward, and a closed one stays closed.
pub proof fn law_connection_moves_forward(state: ConnectionState, event: ConnectionEvent)
    ensures
        state.rank() <= state.next(event).0.rank(),
        state == ConnectionState::Closed ==> state.next(event) == (state, ConnectionCommand::Idle),
{
}

/// The workers are started together when the room is resolved, and at no
/// other moment: a worker that did not run before an event runs after it only
/// if the event had both started. A failed upgrade starts none.
pub proof fn law_workers_start_together(state: ConnectionState, event: ConnectionEvent, worker: Worker)
    ensures
        state.next(event).1 == ConnectionCommand::StartWorkers <==> state == ConnectionState::Resolving
            && event == ConnectionEvent::RoomResolved,
        !state.runs(worker) && state.next(event).0.runs(worker) ==> state.next(event).1
            == ConnectionCommand::StartWorkers,
        ConnectionState::Resolving.next(ConnectionEvent::UpgradeFailed) == (
            ConnectionState::Closed,
            ConnectionCommand::Release,
        ),
{
}

/// The moment one worker of an active connection ends, the other is
/// cancelled; when that one has stopped too the connection is released.
pub proof fn law_workers_end_together(state: ConnectionState, first: Worker)
    requires
        state == ConnectionState::Active,
    ensures
        state.next(ConnectionEvent::WorkerEnded(first)).1 == ConnectionCommand::Cancel(first.spec_other()),
        !state.next(ConnectionEvent::WorkerEnded(first)).0.runs(first),
        state.next(ConnectionEvent::WorkerEnded(first)).0.next(
            ConnectionEvent::WorkerEnded(first.spec_other()),
        ) == (ConnectionState::Closed, ConnectionCommand::Release),
{
}

/// What the inbound worker read from the connection.
#[derive(Debug)]
pub enum Inbound {
    /// A text frame.
    Text(String),
    /// A frame of another kind.
    Other,
    /// The peer closed the connection.
    Closed,
    /// The read failed.
    Failed,
}

/// What the inbound worker does next.
#[derive(Debug)]
pub enum InboundAction {
    /// Publish this text into the room, then read on.
    Publish(String),
    /// Read on.
    ReadOn,
    /// Stop.
    Stop,
}

/// What the inbound worker does with what it read: a text frame is published
/// as it came, unchecked; another frame is passed over; the worker stops when
/// the connection is closed or fails.
pub open spec fn inbound_action(read: Inbound) -> InboundAction {
    match read {
        Inbound::Text(text) => InboundAction::Publish(text),
        Inbound::Other => InboundAction::ReadOn,
        Inbound::Closed => InboundAction::Stop,
        Inbound::Failed => InboundAction::Stop,
    }
}

/// What the inbound worker does with what it read.
pub fn on_inbound(read: Inbound) -> (action: InboundAction)
    ensures
        action == inbound_action(read),
{
    match read {
        Inbound::Text(text) => InboundAction::Publish(text),
        Inbound::Other => InboundAction::ReadOn,
        Inbound::Closed => InboundAction::Stop,
        Inbound::Failed => InboundAction::Stop,
    }
}

/// What happened to the outbound worker.
#[derive(Debug)]
pub enum Outbound {
    /// The room published `text`; `decoded` is the message it holds, if it
    /// holds one.
    Received { text: String, decoded: Option<MessageDto> },
    /// The worker fell too far behind the room.
    Lagged,
    /// The room's channel is closed.
    ChannelClosed,
    /// The last frame was written.
    Written,
    /// The last frame could not be written.
    WriteFailed,
}

/// What the outbound worker does next.
#[derive(Debug)]
pub enum OutboundAction {
    /// Write this text to the connection as a text frame.
    Write(String),
    /// Drop the payload for the given reason, then wait for the next one.
    Drop(RelayError),
    /// Wait for the room to publish.
    Wait,
    /// Stop.
    Stop,
}

/// What the outbound worker does: a valid message is written as it was
/// published; a message with a blank field and a payload that is no message
/// are dropped, and the worker goes on; a worker that lags, whose channel is
/// closed or whose write failed stops.
pub open spec fn outbound_action(event: Outbound) -> OutboundAction {
    match event {
        Outbound::Received { text, decoded: Some(message) } => if message.is_valid() {
            OutboundAction::Write(text)
        } else {
            OutboundAction::Drop(RelayError::ValidationFailed)
        },
        Outbound::Received { text, decoded: None } => OutboundAction::Drop(RelayError::MalformedMessage),
        Outbound::Lagged => OutboundAction::Stop,
        Outbound::ChannelClosed => OutboundAction::Stop,
        Outbound::Written => OutboundAction::Wait,
        Outbound::WriteFailed => OutboundAction::Stop,
    }
}

/// What the outbound worker does after `event`.
pub fn on_outbound(event: Outbound) -> (action: OutboundAction)
    ensures
        action == outbound_action(event),
{
    match event {
        Outbound::Received { text, decoded } => match decoded {
            Some(message) => if message.validate().is_ok() {
                OutboundAction::Write(text)
            } else {
                OutboundAction::Drop(RelayError::ValidationFailed)
            },
            None => OutboundAction::Drop(RelayError::MalformedMessage),
        },
        Outbound::Lagged => OutboundAction::Stop,
        Outbound::ChannelClosed => OutboundAction::Stop,
        Outbound::Written => OutboundAction::Wait,
        Outbound::WriteFailed => OutboundAction::Stop,
    }
}

} // verus!
