//! The client's state and the decisions of its lifecycle.
//!
//! A client is created unconnected, is connected by a sweep over the
//! candidate endpoints, and is closed once. Connecting and closing reach
//! outside the program, so each is given as a step function: the caller
//! reports what happened to the last thing it was asked to do, and is told
//! what to do next.

use crate::locator::CANDIDATE_COUNT;
use vstd::prelude::*;

verus! {

/// The stream of a client: which endpoint it was opened to.
#[derive(Clone, Copy, Debug, PartialEq, Eq, Structural)]
pub struct ConnectionHandle {
    /// Index of the endpoint among the candidates.
    pub endpoint: usize,
}

/// Where a client stands in its lifecycle. A sweep that is under way is not
/// a phase of its own: until an endpoint accepts, the client is as it was.
#[derive(Clone, Copy, Debug, PartialEq, Eq, Structural)]
pub enum Phase {
    /// No stream was ever opened.
    Uninitialized,
    /// A stream is open.
    Connected,
    /// The stream was shut down; the handle is kept.
    Closed,
}

/// The operation on the stream that failed.
#[derive(Clone, Copy, Debug, PartialEq, Eq, Structural)]
pub enum IoOp {
    Flush,
    Shutdown,
}

/// Why connecting or closing failed.
#[derive(Clone, Copy, Debug, PartialEq, Eq, Structural)]
pub enum IpcError {
    /// A full sweep found no endpoint that accepts a connection.
    DiscoveryExhausted,
    /// An operation on the open stream failed.
    Io(IoOp),
}

impl IpcError {
    /// A sentence that says what went wrong.
    pub open spec fn spec_message(self) -> Seq<char> {
        match self {
            IpcError::DiscoveryExhausted => "Couldn't connect to the Discord IPC socket"@,
            IpcError::Io(IoOp::Flush) => "Couldn't flush the Discord IPC socket"@,
            IpcError::Io(IoOp::Shutdown) => "Couldn't shut down the Discord IPC socket"@,
        }
    }

    /// A sentence that says what went wrong.
    pub fn message(&self) -> (text: &'static str)
        ensures
            text@ == self.spec_message(),
    {
        match self {
            IpcError::DiscoveryExhausted => "Couldn't connect to the Discord IPC socket",
            IpcError::Io(IoOp::Flush) => "Couldn't flush the Discord IPC socket",
            IpcError::Io(IoOp::Shutdown) => "Couldn't shut down the Discord IPC socket",
        }
    }
}

/// What the caller reports to a sweep.
#[derive(Clone, Copy, Debug, PartialEq, Eq, Structural)]
pub enum ConnectEvent {
    /// A sweep begins.
    Start,
    /// The endpoint with this index did not accept a connection.
    Refused(usize),
    /// The endpoint with this index accepted a connection.
    Accepted(usize),
}

/// What a sweep asks of the caller, or how it ended.
#[derive(Clone, Copy, Debug, PartialEq, Eq, Structural)]
pub enum ConnectStep {
    /// Try to connect to the endpoint with this index and report the outcome.
    Probe(usize),
    /// The sweep is over and the client is connected.
    Connected,
    /// The sweep is over and has failed.
    Failed(IpcError),
}

/// What the caller reports while closing.
#[derive(Clone, Copy, Debug, PartialEq, Eq, Structural)]
pub enum CloseEvent {
    /// Closing begins.
    Start,
    /// The close frame was written, or writing it failed.
    FrameSent { ok: bool },
    /// The stream was flushed, or flushing failed.
    Flushed { ok: bool },
    /// Both directions of the stream were shut down, or the shutdown failed.
    /// `flushed` says again whether the flush before it had worked.
    ShutDown { ok: bool, flushed: bool },
}

/// What closing asks of the caller, or how it ended.
#[derive(Clone, Copy, Debug, PartialEq, Eq, Structural)]
pub enum CloseStep {
    /// Write the close frame and report the outcome.
    SendCloseFrame,
    /// Flush the stream and report the outcome.
    Flush,
    /// Shut down both directions of the stream and report the outcome.
    Shutdown,
    /// Closing is over.
    Closed,
    /// Closing is over and has failed.
    Failed(IpcError),
}

/// A client of the IPC protocol: who it is and whether it has a stream.
#[derive(Debug, PartialEq, Eq)]
pub struct DiscordIpcClient {
    /// The application id that the handshake names.
    pub client_id: String,
    /// The token for calls that need authorization; empty where there are
    /// none. The transport carries it and never reads it.
    pub access_token: String,
    /// Whether a stream is open.
    pub connected: bool,
    /// The stream, once one was opened.
    pub socket: Option<ConnectionHandle>,
}

/// What a `DiscordIpcClient` stands for.
pub ghost struct ClientView {
    pub client_id: Seq<char>,
    pub access_token: Seq<char>,
    pub connected: bool,
    pub socket: Option<ConnectionHandle>,
}

impl View for DiscordIpcClient {
    type V = ClientView;

    open spec fn view(&self) -> ClientView {
        ClientView {
            client_id: self.client_id@,
            access_token: self.access_token@,
            connected: self.connected,
            socket: self.socket,
        }
    }
}

impl ClientView {
    /// A connected client has a stream, and a stream is bound to one of the
    /// candidate endpoints.
    pub open spec fn wf(self) -> bool {
        &&& self.connected ==> self.socket is Some
        &&& self.socket matches Some(handle) ==> handle.endpoint < CANDIDATE_COUNT
    }

    /// Where the client stands in its lifecycle.
    pub open spec fn phase(self) -> Phase {
        if self.socket is None {
            Phase::Uninitialized
        } else if self.connected {
            Phase::Connected
        } else {
            Phase::Closed
        }
    }

    /// This client with an open stream to the endpoint `index`.
    pub open spec fn attached(self, index: usize) -> ClientView {
        ClientView {
            connected: true,
            socket: Some(ConnectionHandle { endpoint: index }),
            ..self
        }
    }

    /// This client with its stream marked as shut down.
    pub open spec fn detached(self) -> ClientView {
        ClientView { connected: false, ..self }
    }
}

/// One decision of a sweep: the client after `event`, and what follows.
///
/// A sweep starts at the first endpoint. A refusal moves it to the next
/// endpoint, and past the last one it fails. The first acceptance binds the
/// client to that endpoint and ends the sweep.
pub open spec fn connect_step(client: ClientView, event: ConnectEvent) -> (ClientView, ConnectStep) {
    match event {
        ConnectEvent::Start => (client, ConnectStep::Probe(0)),
        ConnectEvent::Refused(index) => if index + 1 < CANDIDATE_COUNT {
            (client, ConnectStep::Probe((index + 1) as usize))
        } else {
            (client, ConnectStep::Failed(IpcError::DiscoveryExhausted))
        },
        ConnectEvent::Accepted(index) => (client.attached(index), ConnectStep::Connected),
    }
}

/// One decision of closing: the client after `event`, and what follows.
///
/// The close frame is sent first, and whether that worked is not looked at.
/// Then the stream is flushed, and whether or not that worked, the stream is
/// shut down. From that attempt on the client counts as disconnected, whether
/// or not the shutdown worked. Closing succeeds if both the flush and the
/// shutdown worked, and fails with the first of the two that did not.
pub open spec fn close_step(client: ClientView, event: CloseEvent) -> (ClientView, CloseStep) {
    match event {
        CloseEvent::Start => (client, CloseStep::SendCloseFrame),
        CloseEvent::FrameSent { ok } => (client, CloseStep::Flush),
        CloseEvent::Flushed { ok } => (client, CloseStep::Shutdown),
        CloseEvent::ShutDown { ok, flushed } => if !flushed {
            (client.detached(), CloseStep::Failed(IpcError::Io(IoOp::Flush)))
        } else if !ok {
            (client.detached(), CloseStep::Failed(IpcError::Io(IoOp::Shutdown)))
        } else {
            (client.detached(), CloseStep::Closed)
        },
    }
}

impl DiscordIpcClient {
    /// A client that has no stream yet.
    pub fn new(client_id: &str, access_token: &str) -> (client: Self)
        ensures
            client@ == (ClientView {
                client_id: client_id@,
                access_token: access_token@,
                connected: false,
                socket: None,
            }),
            client@.wf(),
            client@.phase() == Phase::Uninitialized,
    {
        DiscordIpcClient {
            client_id: client_id.to_owned(),
            access_token: access_token.to_owned(),
            connected: false,
            socket: None,
        }
    }

    /// Takes one step of a sweep over the candidate endpoints: takes in what
    /// happened to the last probe and says what to do next.
    pub fn connect_ipc(&mut self, event: ConnectEvent) -> (step: ConnectStep)
        requires
            event matches ConnectEvent::Refused(index) ==> index < CANDIDATE_COUNT,
            event matches ConnectEvent::Accepted(index) ==> index < CANDIDATE_COUNT,
        ensures
            (final(self)@, step) == connect_step(old(self)@, event),
            step matches ConnectStep::Probe(index) ==> index < CANDIDATE_COUNT,
            old(self)@.wf() ==> final(self)@.wf(),
    {
        match event {
            ConnectEvent::Start => ConnectStep::Probe(0),
            ConnectEvent::Refused(index) => {
                if index + 1 < CANDIDATE_COUNT {
                    ConnectStep::Probe(index + 1)
                } else {
                    ConnectStep::Failed(IpcError::DiscoveryExhausted)
                }
            },
            ConnectEvent::Accepted(index) => {
                self.socket = Some(ConnectionHandle { endpoint: index });
                self.connected = true;
                ConnectStep::Connected
            },
        }
    }

    /// Takes one step of closing the stream: takes in what happened to the
    /// last operation and says what to do next. The client must have a stream.
    pub fn close(&mut self, event: CloseEvent) -> (step: CloseStep)
        requires
            old(self).socket is Some,
        ensures
            (final(self)@, step) == close_step(old(self)@, event),
            final(self).socket is Some,
            old(self)@.wf() ==> final(self)@.wf(),
    {
        match event {
            CloseEvent::Start => CloseStep::SendCloseFrame,
            CloseEvent::FrameSent { ok: _ } => CloseStep::Flush,
            CloseEvent::Flushed { ok: _ } => CloseStep::Shutdown,
            CloseEvent::ShutDown { ok, flushed } => {
                self.connected = false;
                if !flushed {
                    CloseStep::Failed(IpcError::Io(IoOp::Flush))
                } else if !ok {
                    CloseStep::Failed(IpcError::Io(IoOp::Shutdown))
                } else {
                    CloseStep::Closed
                }
            },
        }
    }

    /// Where the client stands in its lifecycle.
    pub fn phase(&self) -> (phase: Phase)
        ensures
            phase == self@.phase(),
    {
        if self.socket.is_none() {
            Phase::Uninitialized
        } else if self.connected {
            Phase::Connected
        } else {
            Phase::Closed
        }
    }

    /// Whether bytes may be written: only a connected client writes.
    pub fn can_write(&self) -> (yes: bool)
        ensures
            yes == (self.connected && self.socket is Some),
    {
        self.connected && self.socket.is_some()
    }

    /// Whether bytes may be read: reading needs a stream.
    pub fn can_read(&self) -> (yes: bool)
        ensures
            yes == (self.socket is Some),
    {
        self.socket.is_some()
    }

    /// The application id of this client.
    pub fn get_client_id(&self) -> (id: String)
        ensures
            id@ == self.client_id@,
    {
        self.client_id.clone()
    }

    /// A second value for this same client. It names the same stream: the two
    /// are one connection, not two.
    pub fn get_client_instance(&self) -> (twin: DiscordIpcClient)
        ensures
            twin@ == self@,
    {
        self.clone()
    }
}

impl Clone for DiscordIpcClient {
    fn clone(&self) -> (twin: Self)
        ensures
            twin@ == self@,
    {
        DiscordIpcClient {
            client_id: self.client_id.clone(),
            access_token: self.access_token.clone(),
            connected: self.connected,
            socket: self.socket,
        }
    }
}

} // verus!
