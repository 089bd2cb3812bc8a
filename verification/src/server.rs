//! The server's decisions: how the first message is judged, how the spawn is
//! answered, how the command's exit status is reported, what each message
//! from the client causes, and what the server sends.
use crate::client::{ReceiveError, ReceiverPhase};
use crate::protocol::{
    ClientMessage, Exit, OsSignal, OutputRequest, OutputResponse, ServerMessage, Signal,
    SpawnRequest, SpawnResponse, spec_os_signal,
};
use vstd::prelude::*;

verus! {

/// Why a client's session did not get to a spawn request.
#[derive(Debug)]
pub enum RequestError {
    /// The first message was not a spawn request.
    UnexpectedMessage,
    /// The client closed the connection before sending a request.
    Disconnected,
}

/// Judges the first message of a session, which must be a spawn request.
pub fn expect_spawn_request(msg: Option<ClientMessage>) -> (res: Result<SpawnRequest, RequestError>)
    ensures
        match msg {
            Some(ClientMessage::SpawnRequest(req)) => res == Ok::<SpawnRequest, RequestError>(req),
            Some(_) => res == Err::<SpawnRequest, RequestError>(RequestError::UnexpectedMessage),
            None => res == Err::<SpawnRequest, RequestError>(RequestError::Disconnected),
        },
{
    match msg {
        Some(ClientMessage::SpawnRequest(req)) => Ok(req),
        Some(_) => Err(RequestError::UnexpectedMessage),
        None => Err(RequestError::Disconnected),
    }
}

/// The answer to a spawn request, given whether spawning succeeded (or the
/// description of the failure); the session goes on only after a success.
pub fn spawn_response(spawned: Result<(), String>) -> (res: (ServerMessage, bool))
    ensures
        res.0 == ServerMessage::SpawnResponse(SpawnResponse(spawned)),
        res.1 == spawned is Ok,
{
    let go_on = spawned.is_ok();
    (ServerMessage::SpawnResponse(SpawnResponse(spawned)), go_on)
}

/// The command ended in a way that is neither an exit code nor a signal.
#[derive(Debug, Clone, Copy, PartialEq, Eq, Structural)]
pub struct UnknownExitStatus;

/// How the command ended, given its exit code (if it exited) and the signal
/// that ended it (if a signal did): the code wins over the signal.
pub open spec fn spec_exit_from_status(code: Option<i32>, signal: Option<i32>) -> Result<
    Exit,
    UnknownExitStatus,
> {
    match (code, signal) {
        (Some(c), _) => Ok(Exit::Code(c)),
        (None, Some(s)) => Ok(Exit::Signal(s)),
        (None, None) => Err(UnknownExitStatus),
    }
}

/// How the command ended (see `spec_exit_from_status`).
pub fn exit_from_status(code: Option<i32>, signal: Option<i32>) -> (res: Result<
    Exit,
    UnknownExitStatus,
>)
    ensures
        res == spec_exit_from_status(code, signal),
{
    if let Some(c) = code {
        Ok(Exit::Code(c))
    } else if let Some(s) = signal {
        Ok(Exit::Signal(s))
    } else {
        Err(UnknownExitStatus)
    }
}

/// The process to signal and the signal to deliver, when a forwarded signal
/// arrives for a command that still has a process id.
pub fn kill_request(pid: Option<u32>, signal: Option<Signal>) -> (res: Option<(i32, OsSignal)>)
    ensures
        match (pid, signal) {
            (Some(p), Some(s)) => res == Some((p as i32, spec_os_signal(s))),
            _ => res is None,
        },
{
    match (pid, signal) {
        (Some(p), Some(s)) => Some((p as i32, s.os_signal())),
        _ => None,
    }
}

/// What the server's receiver knows of the session.
#[derive(Debug, Clone, Copy, PartialEq, Eq, Structural)]
pub struct ClientReceiverState {
    /// Stdin chunks for the command are still expected.
    pub stdin_open: bool,
    /// Answers for the command's stdout chunks are still expected.
    pub stdout_acks_open: bool,
    /// Answers for the command's stderr chunks are still expected.
    pub stderr_acks_open: bool,
    pub phase: ReceiverPhase,
}

/// What the server does with one message from the client.
#[derive(Debug)]
pub enum ClientMessageAction {
    /// Stop reading messages.
    Stop,
    /// Deliver the signal to the command (a failure is ignored).
    ForwardSignal(Signal),
    /// Write the chunk to the command's stdin (a failure is ignored).
    WriteStdin(Vec<u8>),
    /// No more stdin chunks will come.
    CloseStdin,
    /// Hand the client's answer for a stdout chunk to the stdout reader.
    ForwardStdoutAck(Result<(), String>),
    /// No more answers for stdout chunks will come.
    CloseStdoutAcks,
    /// Hand the client's answer for a stderr chunk to the stderr reader.
    ForwardStderrAck(Result<(), String>),
    /// No more answers for stderr chunks will come.
    CloseStderrAcks,
}

/// The messages the server's receiver can take in the given state; any other
/// message would find its destination already gone.
pub open spec fn client_message_allowed(s: ClientReceiverState, msg: ClientMessage) -> bool {
    &&& s.phase == ReceiverPhase::Receiving
    &&& match msg {
        ClientMessage::Stdin(OutputRequest::Output(_)) => s.stdin_open,
        ClientMessage::Stdout(OutputResponse::Output(_)) => s.stdout_acks_open,
        ClientMessage::Stderr(OutputResponse::Output(_)) => s.stderr_acks_open,
        _ => true,
    }
}

pub open spec fn client_receiver_next(
    s: ClientReceiverState,
    msg: ClientMessage,
) -> ClientReceiverState {
    match msg {
        ClientMessage::SpawnRequest(_) => ClientReceiverState {
            phase: ReceiverPhase::Stopped { shutdown: false },
            ..s
        },
        ClientMessage::Stdin(OutputRequest::Terminated) => ClientReceiverState {
            stdin_open: false,
            ..s
        },
        ClientMessage::Stdout(OutputResponse::Terminated) => ClientReceiverState {
            stdout_acks_open: false,
            ..s
        },
        ClientMessage::Stderr(OutputResponse::Terminated) => ClientReceiverState {
            stderr_acks_open: false,
            ..s
        },
        ClientMessage::Shutdown => ClientReceiverState {
            phase: ReceiverPhase::Stopped { shutdown: true },
            ..s
        },
        _ => s,
    }
}

pub open spec fn client_message_action(msg: ClientMessage) -> ClientMessageAction {
    match msg {
        ClientMessage::SpawnRequest(_) => ClientMessageAction::Stop,
        ClientMessage::Signal(signal) => ClientMessageAction::ForwardSignal(signal),
        ClientMessage::Stdin(OutputRequest::Output(bytes)) => ClientMessageAction::WriteStdin(bytes),
        ClientMessage::Stdin(OutputRequest::Terminated) => ClientMessageAction::CloseStdin,
        ClientMessage::Stdout(OutputResponse::Output(res)) => ClientMessageAction::ForwardStdoutAck(
            res,
        ),
        ClientMessage::Stdout(OutputResponse::Terminated) => ClientMessageAction::CloseStdoutAcks,
        ClientMessage::Stderr(OutputResponse::Output(res)) => ClientMessageAction::ForwardStderrAck(
            res,
        ),
        ClientMessage::Stderr(OutputResponse::Terminated) => ClientMessageAction::CloseStderrAcks,
        ClientMessage::Shutdown => ClientMessageAction::Stop,
    }
}

/// The receiver's state at the start of a session: everything still expected.
pub open spec fn initial_client_receiver_state() -> ClientReceiverState {
    ClientReceiverState {
        stdin_open: true,
        stdout_acks_open: true,
        stderr_acks_open: true,
        phase: ReceiverPhase::Receiving,
    }
}

/// The server's reading side of a session.
pub struct ClientReceiver {
    state: ClientReceiverState,
}

impl View for ClientReceiver {
    type V = ClientReceiverState;

    closed spec fn view(&self) -> ClientReceiverState {
        self.state
    }
}

impl ClientReceiver {
    /// A receiver at the start of a session, after the spawn response.
    pub fn new() -> (r: Self)
        ensures
            r@ == initial_client_receiver_state(),
    {
        ClientReceiver {
            state: ClientReceiverState {
                stdin_open: true,
                stdout_acks_open: true,
                stderr_acks_open: true,
                phase: ReceiverPhase::Receiving,
            },
        }
    }

    pub fn is_receiving(&self) -> (b: bool)
        ensures
            b == (self@.phase == ReceiverPhase::Receiving),
    {
        match self.state.phase {
            ReceiverPhase::Receiving => true,
            _ => false,
        }
    }

    /// Whether the message can be taken now (see `client_message_allowed`).
    pub fn accepts(&self, msg: &ClientMessage) -> (b: bool)
        ensures
            b == client_message_allowed(self@, *msg),
    {
        if !self.is_receiving() {
            return false;
        }
        match msg {
            ClientMessage::Stdin(OutputRequest::Output(_)) => self.state.stdin_open,
            ClientMessage::Stdout(OutputResponse::Output(_)) => self.state.stdout_acks_open,
            ClientMessage::Stderr(OutputResponse::Output(_)) => self.state.stderr_acks_open,
            _ => true,
        }
    }

    /// Takes one message from the client.
    pub fn receive(&mut self, msg: ClientMessage) -> (action: ClientMessageAction)
        requires
            client_message_allowed(old(self)@, msg),
        ensures
            final(self)@ == client_receiver_next(old(self)@, msg),
            action == client_message_action(msg),
    {
        match msg {
            ClientMessage::SpawnRequest(_) => {
                self.state.phase = ReceiverPhase::Stopped { shutdown: false };
                ClientMessageAction::Stop
            },
            ClientMessage::Signal(signal) => ClientMessageAction::ForwardSignal(signal),
            ClientMessage::Stdin(OutputRequest::Output(bytes)) => {
                ClientMessageAction::WriteStdin(bytes)
            },
            ClientMessage::Stdin(OutputRequest::Terminated) => {
                self.state.stdin_open = false;
                ClientMessageAction::CloseStdin
            },
            ClientMessage::Stdout(OutputResponse::Output(res)) => {
                ClientMessageAction::ForwardStdoutAck(res)
            },
            ClientMessage::Stdout(OutputResponse::Terminated) => {
                self.state.stdout_acks_open = false;
                ClientMessageAction::CloseStdoutAcks
            },
            ClientMessage::Stderr(OutputResponse::Output(res)) => {
                ClientMessageAction::ForwardStderrAck(res)
            },
            ClientMessage::Stderr(OutputResponse::Terminated) => {
                self.state.stderr_acks_open = false;
                ClientMessageAction::CloseStderrAcks
            },
            ClientMessage::Shutdown => {
                self.state.phase = ReceiverPhase::Stopped { shutdown: true };
                ClientMessageAction::Stop
            },
        }
    }

    /// Handing an answer on to a reader failed: reading stops.
    pub fn delivery_failed(&mut self)
        requires
            old(self)@.phase == ReceiverPhase::Receiving,
        ensures
            final(self)@ == (ClientReceiverState {
                phase: ReceiverPhase::Stopped { shutdown: false },
                ..old(self)@
            }),
    {
        self.state.phase = ReceiverPhase::Stopped { shutdown: false };
    }

    /// The client closed the connection.
    pub fn stream_ended(&mut self)
        requires
            old(self)@.phase == ReceiverPhase::Receiving,
        ensures
            final(self)@ == (ClientReceiverState {
                phase: ReceiverPhase::Stopped { shutdown: false },
                ..old(self)@
            }),
    {
        self.state.phase = ReceiverPhase::Stopped { shutdown: false };
    }

    /// Reading a message from the connection failed.
    pub fn stream_failed(&mut self)
        requires
            old(self)@.phase == ReceiverPhase::Receiving,
        ensures
            final(self)@ == (ClientReceiverState { phase: ReceiverPhase::Failed, ..old(self)@ }),
    {
        self.state.phase = ReceiverPhase::Failed;
    }

    /// The signal to deliver to the command once reading has stopped: the
    /// command is killed, unless reading ended with a connection failure.
    pub fn final_signal(&self) -> (signal: Option<Signal>)
        requires
            self@.phase != ReceiverPhase::Receiving,
        ensures
            signal == (if self@.phase == ReceiverPhase::Failed {
                None
            } else {
                Some(Signal::Kill)
            }),
    {
        match self.state.phase {
            ReceiverPhase::Failed => None,
            _ => Some(Signal::Kill),
        }
    }

    /// How the reading side ended: successfully only when the client
    /// announced its shutdown.
    pub fn result(&self) -> (res: Result<(), ReceiveError>)
        requires
            self@.phase != ReceiverPhase::Receiving,
        ensures
            res == crate::client::spec_receive_result(self@.phase),
    {
        match self.state.phase {
            ReceiverPhase::Stopped { shutdown: true } => Ok(()),
            ReceiverPhase::Failed => Err(ReceiveError::ReceiveFailed),
            _ => Err(ReceiveError::TerminatedUnexpectedly),
        }
    }
}

/// One event on the server's sending side.
#[derive(Debug)]
pub enum ServerSendEvent {
    /// The command's exit (`None`: the exit can no longer arrive).
    Exit(Option<Exit>),
    /// A stdin chunk was written, with this outcome (`None`: no more answers).
    StdinAck(Option<Result<(), String>>),
    /// A chunk was read from the command's stdout (`None`: stdout ended).
    StdoutChunk(Option<Vec<u8>>),
    /// A chunk was read from the command's stderr (`None`: stderr ended).
    StderrChunk(Option<Vec<u8>>),
    /// Every source has ended.
    AllEnded,
}

/// Where the server's sending side stands.
#[derive(Debug, Clone, Copy, PartialEq, Eq, Structural)]
pub enum SenderPhase {
    Sending,
    /// The shutdown was sent; nothing more follows.
    ShutdownSent,
    /// The exit could not arrive; sending stops without a shutdown.
    Aborted,
}

#[derive(Debug, Clone, Copy, PartialEq, Eq, Structural)]
pub struct ServerSenderState {
    pub exit_ended: bool,
    pub stdin_acks_ended: bool,
    pub stdout_ended: bool,
    pub stderr_ended: bool,
    pub phase: SenderPhase,
}

pub open spec fn server_sources_ended(s: ServerSenderState) -> bool {
    s.exit_ended && s.stdin_acks_ended && s.stdout_ended && s.stderr_ended
}

pub open spec fn server_send_event_allowed(s: ServerSenderState, e: ServerSendEvent) -> bool {
    &&& s.phase == SenderPhase::Sending
    &&& match e {
        ServerSendEvent::Exit(_) => !s.exit_ended,
        ServerSendEvent::StdinAck(_) => !s.stdin_acks_ended,
        ServerSendEvent::StdoutChunk(_) => !s.stdout_ended,
        ServerSendEvent::StderrChunk(_) => !s.stderr_ended,
        ServerSendEvent::AllEnded => server_sources_ended(s),
    }
}

pub open spec fn server_sender_next(s: ServerSenderState, e: ServerSendEvent) -> ServerSenderState {
    match e {
        ServerSendEvent::Exit(Some(_)) => ServerSenderState { exit_ended: true, ..s },
        ServerSendEvent::Exit(None) => ServerSenderState {
            exit_ended: true,
            phase: SenderPhase::Aborted,
            ..s
        },
        ServerSendEvent::StdinAck(None) => ServerSenderState { stdin_acks_ended: true, ..s },
        ServerSendEvent::StdoutChunk(None) => ServerSenderState { stdout_ended: true, ..s },
        ServerSendEvent::StderrChunk(None) => ServerSenderState { stderr_ended: true, ..s },
        ServerSendEvent::AllEnded => ServerSenderState { phase: SenderPhase::ShutdownSent, ..s },
        _ => s,
    }
}

/// The message the server sends for an event, if any.
pub open spec fn server_send_message(e: ServerSendEvent) -> Option<ServerMessage> {
    match e {
        ServerSendEvent::Exit(Some(exit)) => Some(ServerMessage::Exit(exit)),
        ServerSendEvent::Exit(None) => None,
        ServerSendEvent::StdinAck(Some(res)) => Some(
            ServerMessage::Stdin(OutputResponse::Output(res)),
        ),
        ServerSendEvent::StdinAck(None) => Some(ServerMessage::Stdin(OutputResponse::Terminated)),
        ServerSendEvent::StdoutChunk(Some(bytes)) => Some(
            ServerMessage::Stdout(OutputRequest::Output(bytes)),
        ),
        ServerSendEvent::StdoutChunk(None) => Some(ServerMessage::Stdout(OutputRequest::Terminated)),
        ServerSendEvent::StderrChunk(Some(bytes)) => Some(
            ServerMessage::Stderr(OutputRequest::Output(bytes)),
        ),
        ServerSendEvent::StderrChunk(None) => Some(ServerMessage::Stderr(OutputRequest::Terminated)),
        ServerSendEvent::AllEnded => Some(ServerMessage::Shutdown),
    }
}

/// The sender's state at the start of a session: no source has ended.
pub open spec fn initial_server_sender_state() -> ServerSenderState {
    ServerSenderState {
        exit_ended: false,
        stdin_acks_ended: false,
        stdout_ended: false,
        stderr_ended: false,
        phase: SenderPhase::Sending,
    }
}

/// The server's sending side of a session.
pub struct ServerSender {
    state: ServerSenderState,
}

impl View for ServerSender {
    type V = ServerSenderState;

    closed spec fn view(&self) -> ServerSenderState {
        self.state
    }
}

impl ServerSender {
    pub fn new() -> (s: Self)
        ensures
            s@ == initial_server_sender_state(),
    {
        ServerSender {
            state: ServerSenderState {
                exit_ended: false,
                stdin_acks_ended: false,
                stdout_ended: false,
                stderr_ended: false,
                phase: SenderPhase::Sending,
            },
        }
    }

    pub fn is_sending(&self) -> (b: bool)
        ensures
            b == (self@.phase == SenderPhase::Sending),
    {
        match self.state.phase {
            SenderPhase::Sending => true,
            _ => false,
        }
    }

    pub fn exit_ended(&self) -> (b: bool)
        ensures
            b == self@.exit_ended,
    {
        self.state.exit_ended
    }

    pub fn stdin_acks_ended(&self) -> (b: bool)
        ensures
            b == self@.stdin_acks_ended,
    {
        self.state.stdin_acks_ended
    }

    pub fn stdout_ended(&self) -> (b: bool)
        ensures
            b == self@.stdout_ended,
    {
        self.state.stdout_ended
    }

    pub fn stderr_ended(&self) -> (b: bool)
        ensures
            b == self@.stderr_ended,
    {
        self.state.stderr_ended
    }

    pub fn all_ended(&self) -> (b: bool)
        ensures
            b == server_sources_ended(self@),
            b == (self@.exit_ended && self@.stdin_acks_ended && self@.stdout_ended
                && self@.stderr_ended),
    {
        self.state.exit_ended && self.state.stdin_acks_ended && self.state.stdout_ended
            && self.state.stderr_ended
    }

    /// Takes one event and gives the message to send for it, if any.
    pub fn on_event(&mut self, event: ServerSendEvent) -> (msg: Option<ServerMessage>)
        requires
            server_send_event_allowed(old(self)@, event),
        ensures
            final(self)@ == server_sender_next(old(self)@, event),
            msg == server_send_message(event),
    {
        match event {
            ServerSendEvent::Exit(Some(exit)) => {
                self.state.exit_ended = true;
                Some(ServerMessage::Exit(exit))
            },
            ServerSendEvent::Exit(None) => {
                self.state.exit_ended = true;
                self.state.phase = SenderPhase::Aborted;
                None
            },
            ServerSendEvent::StdinAck(Some(res)) => Some(
                ServerMessage::Stdin(OutputResponse::Output(res)),
            ),
            ServerSendEvent::StdinAck(None) => {
                self.state.stdin_acks_ended = true;
                Some(ServerMessage::Stdin(OutputResponse::Terminated))
            },
            ServerSendEvent::StdoutChunk(Some(bytes)) => Some(
                ServerMessage::Stdout(OutputRequest::Output(bytes)),
            ),
            ServerSendEvent::StdoutChunk(None) => {
                self.state.stdout_ended = true;
                Some(ServerMessage::Stdout(OutputRequest::Terminated))
            },
            ServerSendEvent::StderrChunk(Some(bytes)) => Some(
                ServerMessage::Stderr(OutputRequest::Output(bytes)),
            ),
            ServerSendEvent::StderrChunk(None) => {
                self.state.stderr_ended = true;
                Some(ServerMessage::Stderr(OutputRequest::Terminated))
            },
            ServerSendEvent::AllEnded => {
                self.state.phase = SenderPhase::ShutdownSent;
                Some(ServerMessage::Shutdown)
            },
        }
    }
}

} // verus!
