//! The client's decisions: how the spawn response is judged, what each
//! message from the server causes, what the client sends, and which exit
//! code the client ends with.
use crate::protocol::{
    ClientMessage, Exit, OutputRequest, OutputResponse, ServerMessage, Signal, SpawnResponse,
};
use vstd::prelude::*;

verus! {

/// Exit code of the client when the command's own code cannot be reported.
pub const FAILURE_EXIT_CODE: u8 = 255;

/// The exit code the client ends with, given how the command ended
/// (`None` when the session failed before an exit was received).
pub open spec fn spec_exit_code(exit: Option<Exit>) -> u8 {
    match exit {
        Some(Exit::Code(code)) => if 0 <= code <= 255 {
            code as u8
        } else {
            255u8
        },
        Some(Exit::Signal(signal)) => if 0 <= 128 + signal <= 255 {
            (128 + signal) as u8
        } else {
            255u8
        },
        _ => 255u8,
    }
}

/// The exit code of the client: the command's exit code, or 128 plus the
/// number of the signal that ended it, where that fits in a byte; 255 otherwise.
pub fn exit_code(exit: &Option<Exit>) -> (code: u8)
    requires
        *exit matches Some(Exit::Signal(signal)) ==> signal <= i32::MAX - 128,
    ensures
        code == spec_exit_code(*exit),
{
    match exit {
        Some(Exit::Code(code)) => {
            if 0 <= *code && *code <= 255 {
                *code as u8
            } else {
                FAILURE_EXIT_CODE
            }
        },
        Some(Exit::Signal(signal)) => {
            let shifted = 128 + *signal;
            if 0 <= shifted && shifted <= 255 {
                shifted as u8
            } else {
                FAILURE_EXIT_CODE
            }
        },
        _ => FAILURE_EXIT_CODE,
    }
}

/// Why the server did not start the command.
#[derive(Debug)]
pub enum SpawnError {
    /// The server could not spawn the command, for the reason given.
    SpawnFailed(String),
    /// The server answered with another message than a spawn response.
    UnexpectedMessage(ServerMessage),
    /// The server closed the connection without answering.
    Disconnected,
}

/// Judges the server's answer to the spawn request.
pub fn check_spawn_response(response: Option<ServerMessage>) -> (res: Result<(), SpawnError>)
    ensures
        match response {
            Some(ServerMessage::SpawnResponse(SpawnResponse(Ok(())))) => res is Ok,
            Some(ServerMessage::SpawnResponse(SpawnResponse(Err(msg)))) => res == Err::<
                (),
                SpawnError,
            >(SpawnError::SpawnFailed(msg)),
            Some(msg) => res == Err::<(), SpawnError>(SpawnError::UnexpectedMessage(msg)),
            None => res == Err::<(), SpawnError>(SpawnError::Disconnected),
        },
{
    match response {
        Some(ServerMessage::SpawnResponse(SpawnResponse(Ok(())))) => Ok(()),
        Some(ServerMessage::SpawnResponse(SpawnResponse(Err(msg)))) => Err(
            SpawnError::SpawnFailed(msg),
        ),
        Some(msg) => Err(SpawnError::UnexpectedMessage(msg)),
        None => Err(SpawnError::Disconnected),
    }
}

/// Where a message receiver stands.
#[derive(Debug, Clone, Copy, PartialEq, Eq, Structural)]
pub enum ReceiverPhase {
    /// Messages are still read.
    Receiving,
    /// Reading ended; `shutdown` tells whether the peer announced its shutdown.
    Stopped { shutdown: bool },
    /// The connection failed while reading.
    Failed,
}

/// Why a message receiver ended with an error.
#[derive(Debug, Clone, Copy, PartialEq, Eq, Structural)]
pub enum ReceiveError {
    /// Reading a message from the connection failed.
    ReceiveFailed,
    /// The peer stopped before announcing its shutdown.
    TerminatedUnexpectedly,
}

/// What the client's receiver knows of the session.
#[derive(Debug, Clone, Copy, PartialEq, Eq, Structural)]
pub struct ServerReceiverState {
    /// The command's exit was handed on.
    pub exit_delivered: bool,
    /// Answers for the client's stdin chunks are still expected.
    pub stdin_acks_open: bool,
    /// Stdout chunks are still expected.
    pub stdout_open: bool,
    /// Stderr chunks are still expected.
    pub stderr_open: bool,
    pub phase: ReceiverPhase,
}

/// What the client does with one message from the server.
#[derive(Debug)]
pub enum ServerMessageAction {
    /// Stop reading messages.
    Stop,
    /// Close the stdin source, tell the session that the command exited, and
    /// hand on the exit.
    DeliverExit(Exit),
    /// Hand the server's answer for a stdin chunk to the stdin reader.
    ForwardStdinAck(Result<(), String>),
    /// No more answers for stdin chunks will come.
    CloseStdinAcks,
    /// Write a chunk to stdout.
    WriteStdout(Vec<u8>),
    /// No more stdout chunks will come.
    CloseStdout,
    /// Write a chunk to stderr.
    WriteStderr(Vec<u8>),
    /// No more stderr chunks will come.
    CloseStderr,
}

/// The messages the client's receiver can take in the given state; any other
/// message would find its destination already gone.
pub open spec fn server_message_allowed(s: ServerReceiverState, msg: ServerMessage) -> bool {
    &&& s.phase == ReceiverPhase::Receiving
    &&& match msg {
        ServerMessage::Exit(_) => !s.exit_delivered,
        ServerMessage::Stdin(OutputResponse::Output(_)) => s.stdin_acks_open,
        ServerMessage::Stdout(OutputRequest::Output(_)) => s.stdout_open,
        ServerMessage::Stderr(OutputRequest::Output(_)) => s.stderr_open,
        _ => true,
    }
}

/// The receiver's state after a message.
pub open spec fn server_receiver_next(
    s: ServerReceiverState,
    msg: ServerMessage,
) -> ServerReceiverState {
    match msg {
        ServerMessage::SpawnResponse(_) => ServerReceiverState {
            phase: ReceiverPhase::Stopped { shutdown: false },
            ..s
        },
        ServerMessage::Exit(_) => ServerReceiverState { exit_delivered: true, ..s },
        ServerMessage::Stdin(OutputResponse::Terminated) => ServerReceiverState {
            stdin_acks_open: false,
            ..s
        },
        ServerMessage::Stdout(OutputRequest::Terminated) => ServerReceiverState {
            stdout_open: false,
            ..s
        },
        ServerMessage::Stderr(OutputRequest::Terminated) => ServerReceiverState {
            stderr_open: false,
            ..s
        },
        ServerMessage::Shutdown => ServerReceiverState {
            phase: ReceiverPhase::Stopped { shutdown: true },
            ..s
        },
        _ => s,
    }
}

/// What the client does with a message.
pub open spec fn server_message_action(msg: ServerMessage) -> ServerMessageAction {
    match msg {
        ServerMessage::SpawnResponse(_) => ServerMessageAction::Stop,
        ServerMessage::Exit(exit) => ServerMessageAction::DeliverExit(exit),
        ServerMessage::Stdin(OutputResponse::Output(res)) => ServerMessageAction::ForwardStdinAck(
            res,
        ),
        ServerMessage::Stdin(OutputResponse::Terminated) => ServerMessageAction::CloseStdinAcks,
        ServerMessage::Stdout(OutputRequest::Output(bytes)) => ServerMessageAction::WriteStdout(
            bytes,
        ),
        ServerMessage::Stdout(OutputRequest::Terminated) => ServerMessageAction::CloseStdout,
        ServerMessage::Stderr(OutputRequest::Output(bytes)) => ServerMessageAction::WriteStderr(
            bytes,
        ),
        ServerMessage::Stderr(OutputRequest::Terminated) => ServerMessageAction::CloseStderr,
        ServerMessage::Shutdown => ServerMessageAction::Stop,
    }
}

/// The receiver's state at the start of a session: everything still expected.
pub open spec fn initial_server_receiver_state() -> ServerReceiverState {
    ServerReceiverState {
        exit_delivered: false,
        stdin_acks_open: true,
        stdout_open: true,
        stderr_open: true,
        phase: ReceiverPhase::Receiving,
    }
}

/// The client's reading side of a session: decides what each message from the
/// server causes, and how the reading ends.
pub struct ServerReceiver {
    state: ServerReceiverState,
}

impl View for ServerReceiver {
    type V = ServerReceiverState;

    closed spec fn view(&self) -> ServerReceiverState {
        self.state
    }
}

impl ServerReceiver {
    /// A receiver at the start of a session, after the spawn response.
    pub fn new() -> (r: Self)
        ensures
            r@ == initial_server_receiver_state(),
    {
        ServerReceiver {
            state: ServerReceiverState {
                exit_delivered: false,
                stdin_acks_open: true,
                stdout_open: true,
                stderr_open: true,
                phase: ReceiverPhase::Receiving,
            },
        }
    }

    pub fn is_receiving(&self) -> (b: bool)
        ensures
            b == (self@.phase == ReceiverPhase::Receiving),
    {
        match self.state.phase {
            ReceiverPhase::Receiving => true,
            _ => false,
        }
    }

    /// Whether the message can be taken now (see `server_message_allowed`).
    pub fn accepts(&self, msg: &ServerMessage) -> (b: bool)
        ensures
            b == server_message_allowed(self@, *msg),
    {
        if !self.is_receiving() {
            return false;
        }
        match msg {
            ServerMessage::Exit(_) => !self.state.exit_delivered,
            ServerMessage::Stdin(OutputResponse::Output(_)) => self.state.stdin_acks_open,
            ServerMessage::Stdout(OutputRequest::Output(_)) => self.state.stdout_open,
            ServerMessage::Stderr(OutputRequest::Output(_)) => self.state.stderr_open,
            _ => true,
        }
    }

    /// Takes one message from the server.
    pub fn receive(&mut self, msg: ServerMessage) -> (action: ServerMessageAction)
        requires
            server_message_allowed(old(self)@, msg),
        ensures
            final(self)@ == server_receiver_next(old(self)@, msg),
            action == server_message_action(msg),
    {
        match msg {
            ServerMessage::SpawnResponse(_) => {
                self.state.phase = ReceiverPhase::Stopped { shutdown: false };
                ServerMessageAction::Stop
            },
            ServerMessage::Exit(exit) => {
                self.state.exit_delivered = true;
                ServerMessageAction::DeliverExit(exit)
            },
            ServerMessage::Stdin(OutputResponse::Output(res)) => {
                ServerMessageAction::ForwardStdinAck(res)
            },
            ServerMessage::Stdin(OutputResponse::Terminated) => {
                self.state.stdin_acks_open = false;
                ServerMessageAction::CloseStdinAcks
            },
            ServerMessage::Stdout(OutputRequest::Output(bytes)) => {
                ServerMessageAction::WriteStdout(bytes)
            },
            ServerMessage::Stdout(OutputRequest::Terminated) => {
                self.state.stdout_open = false;
                ServerMessageAction::CloseStdout
            },
            ServerMessage::Stderr(OutputRequest::Output(bytes)) => {
                ServerMessageAction::WriteStderr(bytes)
            },
            ServerMessage::Stderr(OutputRequest::Terminated) => {
                self.state.stderr_open = false;
                ServerMessageAction::CloseStderr
            },
            ServerMessage::Shutdown => {
                self.state.phase = ReceiverPhase::Stopped { shutdown: true };
                ServerMessageAction::Stop
            },
        }
    }

    /// Handing on the last message failed: the rest of the session is going
    /// away, so reading stops.
    pub fn delivery_failed(&mut self)
        requires
            old(self)@.phase == ReceiverPhase::Receiving,
        ensures
            final(self)@ == (ServerReceiverState {
                phase: ReceiverPhase::Stopped { shutdown: false },
                ..old(self)@
            }),
    {
        self.state.phase = ReceiverPhase::Stopped { shutdown: false };
    }

    /// The server closed the connection.
    pub fn stream_ended(&mut self)
        requires
            old(self)@.phase == ReceiverPhase::Receiving,
        ensures
            final(self)@ == (ServerReceiverState {
                phase: ReceiverPhase::Stopped { shutdown: false },
                ..old(self)@
            }),
    {
        self.state.phase = ReceiverPhase::Stopped { shutdown: false };
    }

    /// Reading a message from the connection failed.
    pub fn stream_failed(&mut self)
        requires
            old(self)@.phase == ReceiverPhase::Receiving,
        ensures
            final(self)@ == (ServerReceiverState { phase: ReceiverPhase::Failed, ..old(self)@ }),
    {
        self.state.phase = ReceiverPhase::Failed;
    }

    /// How the reading side ended: successfully only when the server announced
    /// its shutdown.
    pub fn result(&self) -> (res: Result<(), ReceiveError>)
        requires
            self@.phase != ReceiverPhase::Receiving,
        ensures
            res == spec_receive_result(self@.phase),
    {
        match self.state.phase {
            ReceiverPhase::Stopped { shutdown: true } => Ok(()),
            ReceiverPhase::Failed => Err(ReceiveError::ReceiveFailed),
            _ => Err(ReceiveError::TerminatedUnexpectedly),
        }
    }
}

/// How a receiver that stopped in the given phase ends.
pub open spec fn spec_receive_result(phase: ReceiverPhase) -> Result<(), ReceiveError> {
    match phase {
        ReceiverPhase::Stopped { shutdown: true } => Ok(()),
        ReceiverPhase::Failed => Err(ReceiveError::ReceiveFailed),
        _ => Err(ReceiveError::TerminatedUnexpectedly),
    }
}

/// One event on the client's sending side: an item or the end of one of the
/// sources whose items are sent to the server, or the end of all of them.
#[derive(Debug)]
pub enum ClientSendEvent {
    /// A signal was caught (`None`: no more signals will be forwarded).
    Signal(Option<Signal>),
    /// A chunk was read from stdin (`None`: stdin ended).
    StdinChunk(Option<Vec<u8>>),
    /// A stdout chunk was written, with this outcome (`None`: no more answers).
    StdoutAck(Option<Result<(), String>>),
    /// A stderr chunk was written, with this outcome (`None`: no more answers).
    StderrAck(Option<Result<(), String>>),
    /// Every source has ended.
    AllEnded,
}

/// Which of the client's sources have ended, and whether the shutdown was sent.
#[derive(Debug, Clone, Copy, PartialEq, Eq, Structural)]
pub struct ClientSenderState {
    pub signals_ended: bool,
    pub stdin_ended: bool,
    pub stdout_acks_ended: bool,
    pub stderr_acks_ended: bool,
    pub shutdown_sent: bool,
}

pub open spec fn client_sources_ended(s: ClientSenderState) -> bool {
    s.signals_ended && s.stdin_ended && s.stdout_acks_ended && s.stderr_acks_ended
}

/// The events the sender can take in the given state: no event comes from a
/// source that has ended, and nothing comes after the shutdown.
pub open spec fn client_send_event_allowed(s: ClientSenderState, e: ClientSendEvent) -> bool {
    &&& !s.shutdown_sent
    &&& match e {
        ClientSendEvent::Signal(_) => !s.signals_ended,
        ClientSendEvent::StdinChunk(_) => !s.stdin_ended,
        ClientSendEvent::StdoutAck(_) => !s.stdout_acks_ended,
        ClientSendEvent::StderrAck(_) => !s.stderr_acks_ended,
        ClientSendEvent::AllEnded => client_sources_ended(s),
    }
}

pub open spec fn client_sender_next(s: ClientSenderState, e: ClientSendEvent) -> ClientSenderState {
    match e {
        ClientSendEvent::Signal(None) => ClientSenderState { signals_ended: true, ..s },
        ClientSendEvent::StdinChunk(None) => ClientSenderState { stdin_ended: true, ..s },
        ClientSendEvent::StdoutAck(None) => ClientSenderState { stdout_acks_ended: true, ..s },
        ClientSendEvent::StderrAck(None) => ClientSenderState { stderr_acks_ended: true, ..s },
        ClientSendEvent::AllEnded => ClientSenderState { shutdown_sent: true, ..s },
        _ => s,
    }
}

/// The message the client sends for an event, if any: each source's items in
/// turn, an end marker when a stream source ends, and the shutdown last.
pub open spec fn client_send_message(e: ClientSendEvent) -> Option<ClientMessage> {
    match e {
        ClientSendEvent::Signal(Some(signal)) => Some(ClientMessage::Signal(signal)),
        ClientSendEvent::Signal(None) => None,
        ClientSendEvent::StdinChunk(Some(bytes)) => Some(
            ClientMessage::Stdin(OutputRequest::Output(bytes)),
        ),
        ClientSendEvent::StdinChunk(None) => Some(ClientMessage::Stdin(OutputRequest::Terminated)),
        ClientSendEvent::StdoutAck(Some(res)) => Some(
            ClientMessage::Stdout(OutputResponse::Output(res)),
        ),
        ClientSendEvent::StdoutAck(None) => Some(
            ClientMessage::Stdout(OutputResponse::Terminated),
        ),
        ClientSendEvent::StderrAck(Some(res)) => Some(
            ClientMessage::Stderr(OutputResponse::Output(res)),
        ),
        ClientSendEvent::StderrAck(None) => Some(
            ClientMessage::Stderr(OutputResponse::Terminated),
        ),
        ClientSendEvent::AllEnded => Some(ClientMessage::Shutdown),
    }
}

/// The sender's state at the start of a session: no source has ended.
pub open spec fn initial_client_sender_state() -> ClientSenderState {
    ClientSenderState {
        signals_ended: false,
        stdin_ended: false,
        stdout_acks_ended: false,
        stderr_acks_ended: false,
        shutdown_sent: false,
    }
}

/// The client's sending side of a session: turns the items of its sources
/// into messages for the server.
pub struct ClientSender {
    state: ClientSenderState,
}

impl View for ClientSender {
    type V = ClientSenderState;

    closed spec fn view(&self) -> ClientSenderState {
        self.state
    }
}

impl ClientSender {
    pub fn new() -> (s: Self)
        ensures
            s@ == initial_client_sender_state(),
    {
        ClientSender {
            state: ClientSenderState {
                signals_ended: false,
                stdin_ended: false,
                stdout_acks_ended: false,
                stderr_acks_ended: false,
                shutdown_sent: false,
            },
        }
    }

    pub fn signals_ended(&self) -> (b: bool)
        ensures
            b == self@.signals_ended,
    {
        self.state.signals_ended
    }

    pub fn stdin_ended(&self) -> (b: bool)
        ensures
            b == self@.stdin_ended,
    {
        self.state.stdin_ended
    }

    pub fn stdout_acks_ended(&self) -> (b: bool)
        ensures
            b == self@.stdout_acks_ended,
    {
        self.state.stdout_acks_ended
    }

    pub fn stderr_acks_ended(&self) -> (b: bool)
        ensures
            b == self@.stderr_acks_ended,
    {
        self.state.stderr_acks_ended
    }

    pub fn all_ended(&self) -> (b: bool)
        ensures
            b == client_sources_ended(self@),
            b == (self@.signals_ended && self@.stdin_ended && self@.stdout_acks_ended
                && self@.stderr_acks_ended),
    {
        self.state.signals_ended && self.state.stdin_ended && self.state.stdout_acks_ended
            && self.state.stderr_acks_ended
    }

    pub fn shutdown_sent(&self) -> (b: bool)
        ensures
            b == self@.shutdown_sent,
    {
        self.state.shutdown_sent
    }

    /// Takes one event and gives the message to send for it, if any.
    pub fn on_event(&mut self, event: ClientSendEvent) -> (msg: Option<ClientMessage>)
        requires
            client_send_event_allowed(old(self)@, event),
        ensures
            final(self)@ == client_sender_next(old(self)@, event),
            msg == client_send_message(event),
    {
        match event {
            ClientSendEvent::Signal(Some(signal)) => Some(ClientMessage::Signal(signal)),
            ClientSendEvent::Signal(None) => {
                self.state.signals_ended = true;
                None
            },
            ClientSendEvent::StdinChunk(Some(bytes)) => Some(
                ClientMessage::Stdin(OutputRequest::Output(bytes)),
            ),
            ClientSendEvent::StdinChunk(None) => {
                self.state.stdin_ended = true;
                Some(ClientMessage::Stdin(OutputRequest::Terminated))
            },
            ClientSendEvent::StdoutAck(Some(res)) => Some(
                ClientMessage::Stdout(OutputResponse::Output(res)),
            ),
            ClientSendEvent::StdoutAck(None) => {
                self.state.stdout_acks_ended = true;
                Some(ClientMessage::Stdout(OutputResponse::Terminated))
            },
            ClientSendEvent::StderrAck(Some(res)) => Some(
                ClientMessage::Stderr(OutputResponse::Output(res)),
            ),
            ClientSendEvent::StderrAck(None) => {
                self.state.stderr_acks_ended = true;
                Some(ClientMessage::Stderr(OutputResponse::Terminated))
            },
            ClientSendEvent::AllEnded => {
                self.state.shutdown_sent = true;
                Some(ClientMessage::Shutdown)
            },
        }
    }
}

} // verus!
