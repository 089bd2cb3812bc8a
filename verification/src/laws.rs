//! Properties of the library that span several functions.
use crate::args::ListenAddress;
use crate::client::{
    ClientSendEvent, ClientSenderState, ReceiverPhase, ServerReceiverState, client_send_event_allowed,
    client_send_message, client_sender_next, client_sources_ended, initial_client_sender_state,
    initial_server_receiver_state, server_message_allowed, server_receiver_next, spec_exit_code,
    spec_receive_result,
};
use crate::protocol::{
    ClientMessage, Exit, OsSignal, OutputRequest, OutputResponse, ServerMessage, Signal, spec_os_signal,
};
use crate::server::{
    ClientReceiverState, SenderPhase, ServerSendEvent, ServerSenderState, client_message_allowed,
    client_receiver_next, initial_client_receiver_state, initial_server_sender_state,
    server_send_event_allowed, server_send_message, server_sender_next, server_sources_ended,
    spec_exit_from_status,
};
use crate::pump::{
    PumpError, PumpKind, ReadOutcome, ReaderAction, ReaderPhase, WriteOutcome, WriterAction,
    reader_on_ack, reader_on_read, reader_on_sent, reader_phase_of, writer_on_received,
    writer_on_result_sent, writer_on_written,
};
use crate::client::{ServerMessageAction, server_message_action};
use crate::server::{ClientMessageAction, client_message_action};
use crate::socket::{SocketTargetView, has_prefix, inet_scheme, spec_socket_target, unix_scheme};
use vstd::prelude::*;

verus! {

// ----- sessions: what one side sends, the other side takes -----
/// The messages the server sends for a run of events.
pub open spec fn server_sent(s: ServerSenderState, events: Seq<ServerSendEvent>) -> Seq<
    ServerMessage,
>
    decreases events.len(),
{
    if events.len() == 0 {
        Seq::empty()
    } else {
        let rest = server_sent(server_sender_next(s, events[0]), events.drop_first());
        match server_send_message(events[0]) {
            Some(m) => seq![m] + rest,
            None => rest,
        }
    }
}

/// The server sender's state after a run of events.
pub open spec fn server_sender_after(s: ServerSenderState, events: Seq<ServerSendEvent>) -> ServerSenderState
    decreases events.len(),
{
    if events.len() == 0 {
        s
    } else {
        server_sender_after(server_sender_next(s, events[0]), events.drop_first())
    }
}

/// Every event of the run is one the server's sender can take when it comes.
pub open spec fn server_events_allowed(s: ServerSenderState, events: Seq<ServerSendEvent>) -> bool
    decreases events.len(),
{
    events.len() == 0 || (server_send_event_allowed(s, events[0]) && server_events_allowed(
        server_sender_next(s, events[0]),
        events.drop_first(),
    ))
}

/// The client receiver's state after the messages, or `None` when one of them
/// is not one it can take.
pub open spec fn client_receives(r: ServerReceiverState, msgs: Seq<ServerMessage>) -> Option<
    ServerReceiverState,
>
    decreases msgs.len(),
{
    if msgs.len() == 0 {
        Some(r)
    } else if server_message_allowed(r, msgs[0]) {
        client_receives(server_receiver_next(r, msgs[0]), msgs.drop_first())
    } else {
        None
    }
}

/// The server's sender and the client's receiver agree on what is still to come.
pub open spec fn server_to_client_in_step(s: ServerSenderState, r: ServerReceiverState) -> bool {
    &&& s.phase == SenderPhase::Sending
    &&& r.phase == ReceiverPhase::Receiving
    &&& r.exit_delivered == s.exit_ended
    &&& r.stdin_acks_open == !s.stdin_acks_ended
    &&& r.stdout_open == !s.stdout_ended
    &&& r.stderr_open == !s.stderr_ended
}

/// A session starts with the server's sender and the client's receiver in step.
pub proof fn law_server_to_client_start_in_step()
    ensures
        server_to_client_in_step(initial_server_sender_state(), initial_server_receiver_state()),
{
}

proof fn lemma_client_receives_cons(r: ServerReceiverState, m: ServerMessage, rest: Seq<ServerMessage>)
    requires
        server_message_allowed(r, m),
    ensures
        client_receives(r, seq![m] + rest) == client_receives(server_receiver_next(r, m), rest),
{
    let msgs = seq![m] + rest;
    assert(msgs[0] == m);
    assert(msgs.drop_first() =~= rest);
}

/// Whatever the server sends in a session, the client can take, in order:
/// no message finds its destination gone. When the server has sent its
/// shutdown, the client's receiver has stopped and ends successfully; while
/// the server is still sending, the two stay in step.
pub proof fn law_client_takes_what_server_sends(
    s: ServerSenderState,
    r: ServerReceiverState,
    events: Seq<ServerSendEvent>,
)
    requires
        server_to_client_in_step(s, r),
        server_events_allowed(s, events),
    ensures
        client_receives(r, server_sent(s, events)) is Some,
        server_sender_after(s, events).phase == SenderPhase::ShutdownSent ==> {
            &&& client_receives(r, server_sent(s, events))->Some_0.phase == (ReceiverPhase::Stopped {
                shutdown: true,
            })
            &&& client_receives(r, server_sent(s, events))->Some_0.exit_delivered
            &&& !client_receives(r, server_sent(s, events))->Some_0.stdin_acks_open
            &&& !client_receives(r, server_sent(s, events))->Some_0.stdout_open
            &&& !client_receives(r, server_sent(s, events))->Some_0.stderr_open
            &&& spec_receive_result(client_receives(r, server_sent(s, events))->Some_0.phase)
                is Ok
        },
        server_sender_after(s, events).phase == SenderPhase::Sending ==> server_to_client_in_step(
            server_sender_after(s, events),
            client_receives(r, server_sent(s, events))->Some_0,
        ),
    decreases events.len(),
{
    if events.len() == 0 {
        return ;
    }
    let e = events[0];
    let rest = events.drop_first();
    let s1 = server_sender_next(s, e);
    assert(server_events_allowed(s1, rest));
    if s1.phase != SenderPhase::Sending && rest.len() > 0 {
        assert(!server_send_event_allowed(s1, rest[0]));
        assert(false);
    }
    if rest.len() == 0 {
        assert(server_sent(s1, rest) =~= Seq::<ServerMessage>::empty());
        assert(server_sender_after(s1, rest) == s1);
    }
    match server_send_message(e) {
        Some(m) => {
            lemma_client_receives_cons(r, m, server_sent(s1, rest));
            let r1 = server_receiver_next(r, m);
            if m is Shutdown {
                assert(rest.len() == 0);
            } else {
                assert(server_to_client_in_step(s1, r1));
                law_client_takes_what_server_sends(s1, r1, rest);
            }
        },
        None => {
            assert(rest.len() == 0);
        },
    }
}

/// The messages the client sends for a run of events.
pub open spec fn client_sent(s: ClientSenderState, events: Seq<ClientSendEvent>) -> Seq<
    ClientMessage,
>
    decreases events.len(),
{
    if events.len() == 0 {
        Seq::empty()
    } else {
        let rest = client_sent(client_sender_next(s, events[0]), events.drop_first());
        match client_send_message(events[0]) {
            Some(m) => seq![m] + rest,
            None => rest,
        }
    }
}

/// The client sender's state after a run of events.
pub open spec fn client_sender_after(s: ClientSenderState, events: Seq<ClientSendEvent>) -> ClientSenderState
    decreases events.len(),
{
    if events.len() == 0 {
        s
    } else {
        client_sender_after(client_sender_next(s, events[0]), events.drop_first())
    }
}

/// Every event of the run is one the client's sender can take when it comes.
pub open spec fn client_events_allowed(s: ClientSenderState, events: Seq<ClientSendEvent>) -> bool
    decreases events.len(),
{
    events.len() == 0 || (client_send_event_allowed(s, events[0]) && client_events_allowed(
        client_sender_next(s, events[0]),
        events.drop_first(),
    ))
}

/// The server receiver's state after the messages, or `None` when one of them
/// is not one it can take.
pub open spec fn server_receives(r: ClientReceiverState, msgs: Seq<ClientMessage>) -> Option<
    ClientReceiverState,
>
    decreases msgs.len(),
{
    if msgs.len() == 0 {
        Some(r)
    } else if client_message_allowed(r, msgs[0]) {
        server_receives(client_receiver_next(r, msgs[0]), msgs.drop_first())
    } else {
        None
    }
}

/// The client's sender and the server's receiver agree on what is still to come.
pub open spec fn client_to_server_in_step(s: ClientSenderState, r: ClientReceiverState) -> bool {
    &&& !s.shutdown_sent
    &&& r.phase == ReceiverPhase::Receiving
    &&& r.stdin_open == !s.stdin_ended
    &&& r.stdout_acks_open == !s.stdout_acks_ended
    &&& r.stderr_acks_open == !s.stderr_acks_ended
}

/// A session starts with the client's sender and the server's receiver in step.
pub proof fn law_client_to_server_start_in_step()
    ensures
        client_to_server_in_step(initial_client_sender_state(), initial_client_receiver_state()),
{
}

proof fn lemma_server_receives_cons(r: ClientReceiverState, m: ClientMessage, rest: Seq<ClientMessage>)
    requires
        client_message_allowed(r, m),
    ensures
        server_receives(r, seq![m] + rest) == server_receives(client_receiver_next(r, m), rest),
{
    let msgs = seq![m] + rest;
    assert(msgs[0] == m);
    assert(msgs.drop_first() =~= rest);
}

/// Whatever the client sends in a session, the server can take, in order.
/// When the client has sent its shutdown, the server's receiver has stopped,
/// ends successfully, and has the command killed; before that the two stay
/// in step.
pub proof fn law_server_takes_what_client_sends(
    s: ClientSenderState,
    r: ClientReceiverState,
    events: Seq<ClientSendEvent>,
)
    requires
        client_to_server_in_step(s, r),
        client_events_allowed(s, events),
    ensures
        server_receives(r, client_sent(s, events)) is Some,
        client_sender_after(s, events).shutdown_sent ==> {
            &&& server_receives(r, client_sent(s, events))->Some_0.phase == (ReceiverPhase::Stopped {
                shutdown: true,
            })
            &&& !server_receives(r, client_sent(s, events))->Some_0.stdin_open
            &&& !server_receives(r, client_sent(s, events))->Some_0.stdout_acks_open
            &&& !server_receives(r, client_sent(s, events))->Some_0.stderr_acks_open
            &&& spec_receive_result(server_receives(r, client_sent(s, events))->Some_0.phase)
                is Ok
        },
        !client_sender_after(s, events).shutdown_sent ==> client_to_server_in_step(
            client_sender_after(s, events),
            server_receives(r, client_sent(s, events))->Some_0,
        ),
    decreases events.len(),
{
    if events.len() == 0 {
        return ;
    }
    let e = events[0];
    let rest = events.drop_first();
    let s1 = client_sender_next(s, e);
    assert(client_events_allowed(s1, rest));
    if s1.shutdown_sent && rest.len() > 0 {
        assert(!client_send_event_allowed(s1, rest[0]));
        assert(false);
    }
    if rest.len() == 0 {
        assert(client_sent(s1, rest) =~= Seq::<ClientMessage>::empty());
        assert(client_sender_after(s1, rest) == s1);
    }
    match client_send_message(e) {
        Some(m) => {
            lemma_server_receives_cons(r, m, client_sent(s1, rest));
            let r1 = client_receiver_next(r, m);
            if m is Shutdown {
                assert(rest.len() == 0);
            } else {
                assert(client_to_server_in_step(s1, r1));
                law_server_takes_what_client_sends(s1, r1, rest);
            }
        },
        None => {
            assert(client_to_server_in_step(s1, r));
            law_server_takes_what_client_sends(s1, r, rest);
        },
    }
}

/// A sender whose sources have all ended can always send its shutdown.
pub proof fn law_shutdown_follows_all_sources(s: ServerSenderState, c: ClientSenderState)
    ensures
        s.phase == SenderPhase::Sending && server_sources_ended(s) ==> server_send_event_allowed(
            s,
            ServerSendEvent::AllEnded,
        ),
        !c.shutdown_sent && client_sources_ended(c) ==> client_send_event_allowed(
            c,
            ClientSendEvent::AllEnded,
        ),
{
}

/// Nothing is sent after the shutdown, and the shutdown is sent only once
/// every source has ended.
pub proof fn law_shutdown_is_last(
    s: ServerSenderState,
    se: ServerSendEvent,
    c: ClientSenderState,
    ce: ClientSendEvent,
)
    ensures
        s.phase == SenderPhase::ShutdownSent ==> !server_send_event_allowed(s, se),
        c.shutdown_sent ==> !client_send_event_allowed(c, ce),
        server_send_event_allowed(s, se) && server_send_message(se) == Some(ServerMessage::Shutdown)
            ==> server_sources_ended(s),
        client_send_event_allowed(c, ce) && client_send_message(ce) == Some(ClientMessage::Shutdown)
            ==> client_sources_ended(c),
{
}

// ----- output pumps -----
/// A reader hands on exactly the bytes it read, and reads again only after
/// the answer for that chunk came back as a success.
pub proof fn law_one_chunk_in_flight(kind: PumpKind, bytes: Vec<u8>)
    ensures
        reader_on_read(ReadOutcome::Data(bytes)) == ReaderAction::Send(bytes),
        reader_phase_of(reader_on_sent(kind, true)) == ReaderPhase::AwaitingAck,
        reader_on_ack(kind, Some(Ok(()))) == ReaderAction::Read,
{
}

/// A writer answers every chunk exactly once: with success once it is
/// written, with the error when writing failed; an interrupted write is tried
/// again before any answer.
pub proof fn law_every_chunk_answered(kind: PumpKind, error: String)
    ensures
        writer_on_written(WriteOutcome::Written) == WriterAction::SendResult(Ok(())),
        writer_on_written(WriteOutcome::Failed(error)) == WriterAction::SendResult(Err(error)),
        writer_on_written(WriteOutcome::Interrupted) == WriterAction::RetryWrite,
        writer_on_result_sent(kind, true) == WriterAction::Receive,
{
}

/// A chunk of the command's output that the client fails to write comes back
/// to the server's reader as that error, and stops the reader with it.
pub proof fn law_remote_write_failure_stops_reader(error: String)
    ensures
        writer_on_written(WriteOutcome::Failed(error)) == WriterAction::SendResult(Err(error)),
        client_send_message(ClientSendEvent::StdoutAck(Some(Err(error)))) == Some(
            ClientMessage::Stdout(crate::protocol::OutputResponse::Output(Err(error))),
        ),
        client_message_action(ClientMessage::Stdout(crate::protocol::OutputResponse::Output(Err(error))))
            == ClientMessageAction::ForwardStdoutAck(Err(error)),
        reader_on_ack(PumpKind::Async, Some(Err(error))) == ReaderAction::Finish(
            Err(PumpError::WriteFailed(error)),
        ),
{
}

/// The command's exit, sent by the server, is what the client hands on.
pub proof fn law_exit_reaches_client(exit: Exit)
    ensures
        server_send_message(ServerSendEvent::Exit(Some(exit))) == Some(ServerMessage::Exit(exit)),
        server_message_action(ServerMessage::Exit(exit)) == ServerMessageAction::DeliverExit(exit),
{
}

/// A chunk the command writes to stdout reaches the client's stdout intact,
/// and a chunk read from the client's stdin reaches the command's stdin intact.
pub proof fn law_output_reaches_other_side(bytes: Vec<u8>)
    ensures
        server_send_message(ServerSendEvent::StdoutChunk(Some(bytes))) == Some(
            ServerMessage::Stdout(crate::protocol::OutputRequest::Output(bytes)),
        ),
        server_message_action(ServerMessage::Stdout(crate::protocol::OutputRequest::Output(bytes)))
            == ServerMessageAction::WriteStdout(bytes),
        client_send_message(ClientSendEvent::StdinChunk(Some(bytes))) == Some(
            ClientMessage::Stdin(crate::protocol::OutputRequest::Output(bytes)),
        ),
        client_message_action(ClientMessage::Stdin(crate::protocol::OutputRequest::Output(bytes)))
            == ClientMessageAction::WriteStdin(bytes),
{
}

// ----- exit codes -----
/// An exit code that fits in a byte is the client's exit code.
pub proof fn law_exit_code_passes_through(code: i32)
    requires
        0 <= code <= 255,
    ensures
        spec_exit_code(Some(Exit::Code(code))) == code,
        spec_exit_code(spec_exit_from_status(Some(code), None).ok()) == code,
{
}

/// A command ended by signal `n` (a signal number up to 127) makes the client
/// exit with `128 + n`.
pub proof fn law_signal_exit_code(signal: i32)
    requires
        0 <= signal <= 127,
    ensures
        spec_exit_code(Some(Exit::Signal(signal))) == 128 + signal,
        spec_exit_code(spec_exit_from_status(None, Some(signal)).ok()) == 128 + signal,
{
}

/// A session that failed, or a command that ended in another way, makes the
/// client exit with 255.
pub proof fn law_failure_exit_code(error: String)
    ensures
        spec_exit_code(None) == 255,
        spec_exit_code(Some(Exit::OtherError(error))) == 255,
{
}

// ----- addresses -----
/// `inet:` names an internet address, whatever follows it.
pub proof fn law_inet_scheme(rest: Seq<char>)
    ensures
        spec_socket_target(inet_scheme() + rest) == SocketTargetView::Inet(rest),
{
    let s = inet_scheme() + rest;
    assert(s.subrange(0, 5) =~= inet_scheme());
    assert(s.skip(5) =~= rest);
}

/// `unix:` names a socket path, whatever follows it.
pub proof fn law_unix_scheme(rest: Seq<char>)
    ensures
        spec_socket_target(unix_scheme() + rest) == SocketTargetView::Unix(rest),
{
    let s = unix_scheme() + rest;
    assert(s.subrange(0, 5) =~= unix_scheme());
    assert(s.skip(5) =~= rest);
    assert(s.subrange(0, 5)[0] == 'u');
}

/// Without a scheme, an address with a `/` is a socket path and any other is
/// an internet address; either way the address is kept whole.
pub proof fn law_address_without_scheme(s: Seq<char>)
    requires
        !has_prefix(s, inet_scheme()),
        !has_prefix(s, unix_scheme()),
    ensures
        s.contains('/') ==> spec_socket_target(s) == SocketTargetView::Unix(s),
        !s.contains('/') ==> spec_socket_target(s) == SocketTargetView::Inet(s),
{
}

/// A listen address keeps the text it was made from.
pub proof fn law_listen_address_keeps_text(value: String)
    ensures
        <ListenAddress as vstd::std_specs::convert::FromSpec<String>>::from_spec(value)@ == value@,
{
    crate::args::lemma_from_spec_view(value);
}

// ----- signals -----
/// Every forwarded signal is delivered as an operating-system signal; `Io`
/// is delivered as `SIGINT`, and only `Kill` as `SIGKILL`.
pub proof fn law_signal_delivery(signal: Signal)
    ensures
        <Option<OsSignal> as vstd::std_specs::convert::FromSpec<Signal>>::from_spec(signal) == Some(
            spec_os_signal(signal),
        ),
        spec_os_signal(Signal::Io) == OsSignal::SigInt,
        spec_os_signal(signal) == OsSignal::SigKill <==> signal == Signal::Kill,
{
}


// ----- each stream keeps to its own channel -----
/// On the client, each message from the server goes to the stream it names:
/// stdout chunks to stdout, stderr chunks to stderr, stdin answers to the
/// stdin reader, and each end marker closes that stream alone.
pub proof fn law_client_keeps_streams_apart(
    s: ServerReceiverState,
    bytes: Vec<u8>,
    res: Result<(), String>,
)
    ensures
        server_message_action(ServerMessage::Stdout(OutputRequest::Output(bytes)))
            == ServerMessageAction::WriteStdout(bytes),
        server_message_action(ServerMessage::Stderr(OutputRequest::Output(bytes)))
            == ServerMessageAction::WriteStderr(bytes),
        server_message_action(ServerMessage::Stdin(OutputResponse::Output(res)))
            == ServerMessageAction::ForwardStdinAck(res),
        server_message_action(ServerMessage::Stdout(OutputRequest::Terminated))
            == ServerMessageAction::CloseStdout,
        server_message_action(ServerMessage::Stderr(OutputRequest::Terminated))
            == ServerMessageAction::CloseStderr,
        server_message_action(ServerMessage::Stdin(OutputResponse::Terminated))
            == ServerMessageAction::CloseStdinAcks,
        server_message_action(ServerMessage::Shutdown) == ServerMessageAction::Stop,
        // a chunk is taken exactly while its own stream is open
        server_message_allowed(s, ServerMessage::Stdout(OutputRequest::Output(bytes))) == (s.phase
            == ReceiverPhase::Receiving && s.stdout_open),
        server_message_allowed(s, ServerMessage::Stderr(OutputRequest::Output(bytes))) == (s.phase
            == ReceiverPhase::Receiving && s.stderr_open),
        server_message_allowed(s, ServerMessage::Stdin(OutputResponse::Output(res))) == (s.phase
            == ReceiverPhase::Receiving && s.stdin_acks_open),
        // chunks change nothing; an end marker closes its own stream and no other
        server_receiver_next(s, ServerMessage::Stdout(OutputRequest::Output(bytes))) == s,
        server_receiver_next(s, ServerMessage::Stderr(OutputRequest::Output(bytes))) == s,
        server_receiver_next(s, ServerMessage::Stdin(OutputResponse::Output(res))) == s,
        ({
            let t = server_receiver_next(s, ServerMessage::Stdout(OutputRequest::Terminated));
            !t.stdout_open && t.stderr_open == s.stderr_open && t.stdin_acks_open
                == s.stdin_acks_open && t.exit_delivered == s.exit_delivered && t.phase == s.phase
        }),
        ({
            let t = server_receiver_next(s, ServerMessage::Stderr(OutputRequest::Terminated));
            !t.stderr_open && t.stdout_open == s.stdout_open && t.stdin_acks_open
                == s.stdin_acks_open && t.exit_delivered == s.exit_delivered && t.phase == s.phase
        }),
        ({
            let t = server_receiver_next(s, ServerMessage::Stdin(OutputResponse::Terminated));
            !t.stdin_acks_open && t.stdout_open == s.stdout_open && t.stderr_open == s.stderr_open
                && t.exit_delivered == s.exit_delivered && t.phase == s.phase
        }),
{
}

/// On the server, each message from the client goes to the stream it names:
/// stdin chunks to the command's stdin, answers for stdout chunks to the
/// stdout reader, answers for stderr chunks to the stderr reader, signals to
/// the command; each end marker closes that stream alone.
pub proof fn law_server_keeps_streams_apart(
    s: ClientReceiverState,
    bytes: Vec<u8>,
    res: Result<(), String>,
    signal: Signal,
)
    ensures
        client_message_action(ClientMessage::Stdin(OutputRequest::Output(bytes)))
            == ClientMessageAction::WriteStdin(bytes),
        client_message_action(ClientMessage::Stdout(OutputResponse::Output(res)))
            == ClientMessageAction::ForwardStdoutAck(res),
        client_message_action(ClientMessage::Stderr(OutputResponse::Output(res)))
            == ClientMessageAction::ForwardStderrAck(res),
        client_message_action(ClientMessage::Signal(signal)) == ClientMessageAction::ForwardSignal(
            signal,
        ),
        client_message_action(ClientMessage::Stdin(OutputRequest::Terminated))
            == ClientMessageAction::CloseStdin,
        client_message_action(ClientMessage::Stdout(OutputResponse::Terminated))
            == ClientMessageAction::CloseStdoutAcks,
        client_message_action(ClientMessage::Stderr(OutputResponse::Terminated))
            == ClientMessageAction::CloseStderrAcks,
        client_message_action(ClientMessage::Shutdown) == ClientMessageAction::Stop,
        client_message_allowed(s, ClientMessage::Stdin(OutputRequest::Output(bytes))) == (s.phase
            == ReceiverPhase::Receiving && s.stdin_open),
        client_message_allowed(s, ClientMessage::Stdout(OutputResponse::Output(res))) == (s.phase
            == ReceiverPhase::Receiving && s.stdout_acks_open),
        client_message_allowed(s, ClientMessage::Stderr(OutputResponse::Output(res))) == (s.phase
            == ReceiverPhase::Receiving && s.stderr_acks_open),
        client_receiver_next(s, ClientMessage::Stdin(OutputRequest::Output(bytes))) == s,
        client_receiver_next(s, ClientMessage::Stdout(OutputResponse::Output(res))) == s,
        client_receiver_next(s, ClientMessage::Stderr(OutputResponse::Output(res))) == s,
        client_receiver_next(s, ClientMessage::Signal(signal)) == s,
        ({
            let t = client_receiver_next(s, ClientMessage::Stdin(OutputRequest::Terminated));
            !t.stdin_open && t.stdout_acks_open == s.stdout_acks_open && t.stderr_acks_open
                == s.stderr_acks_open && t.phase == s.phase
        }),
        ({
            let t = client_receiver_next(s, ClientMessage::Stdout(OutputResponse::Terminated));
            !t.stdout_acks_open && t.stdin_open == s.stdin_open && t.stderr_acks_open
                == s.stderr_acks_open && t.phase == s.phase
        }),
        ({
            let t = client_receiver_next(s, ClientMessage::Stderr(OutputResponse::Terminated));
            !t.stderr_acks_open && t.stdin_open == s.stdin_open && t.stdout_acks_open
                == s.stdout_acks_open && t.phase == s.phase
        }),
{
}

/// Each sender tags every item with the stream it came from, ends each
/// stream with that stream's own end marker, and marks only that stream as
/// ended.
pub proof fn law_senders_tag_each_source(
    s: ServerSenderState,
    c: ClientSenderState,
    bytes: Vec<u8>,
    res: Result<(), String>,
    signal: Signal,
)
    ensures
        server_send_message(ServerSendEvent::StdoutChunk(Some(bytes))) == Some(
            ServerMessage::Stdout(OutputRequest::Output(bytes)),
        ),
        server_send_message(ServerSendEvent::StderrChunk(Some(bytes))) == Some(
            ServerMessage::Stderr(OutputRequest::Output(bytes)),
        ),
        server_send_message(ServerSendEvent::StdinAck(Some(res))) == Some(
            ServerMessage::Stdin(OutputResponse::Output(res)),
        ),
        server_send_message(ServerSendEvent::StdoutChunk(None)) == Some(
            ServerMessage::Stdout(OutputRequest::Terminated),
        ),
        server_send_message(ServerSendEvent::StderrChunk(None)) == Some(
            ServerMessage::Stderr(OutputRequest::Terminated),
        ),
        server_send_message(ServerSendEvent::StdinAck(None)) == Some(
            ServerMessage::Stdin(OutputResponse::Terminated),
        ),
        server_send_message(ServerSendEvent::AllEnded) == Some(ServerMessage::Shutdown),
        client_send_message(ClientSendEvent::StdinChunk(Some(bytes))) == Some(
            ClientMessage::Stdin(OutputRequest::Output(bytes)),
        ),
        client_send_message(ClientSendEvent::StdoutAck(Some(res))) == Some(
            ClientMessage::Stdout(OutputResponse::Output(res)),
        ),
        client_send_message(ClientSendEvent::StderrAck(Some(res))) == Some(
            ClientMessage::Stderr(OutputResponse::Output(res)),
        ),
        client_send_message(ClientSendEvent::Signal(Some(signal))) == Some(
            ClientMessage::Signal(signal),
        ),
        client_send_message(ClientSendEvent::StdinChunk(None)) == Some(
            ClientMessage::Stdin(OutputRequest::Terminated),
        ),
        client_send_message(ClientSendEvent::StdoutAck(None)) == Some(
            ClientMessage::Stdout(OutputResponse::Terminated),
        ),
        client_send_message(ClientSendEvent::StderrAck(None)) == Some(
            ClientMessage::Stderr(OutputResponse::Terminated),
        ),
        client_send_message(ClientSendEvent::Signal(None)) == None::<ClientMessage>,
        client_send_message(ClientSendEvent::AllEnded) == Some(ClientMessage::Shutdown),
        ({
            let t = server_sender_next(s, ServerSendEvent::StdoutChunk(None));
            t.stdout_ended && t.stderr_ended == s.stderr_ended && t.stdin_acks_ended
                == s.stdin_acks_ended && t.exit_ended == s.exit_ended && t.phase == s.phase
        }),
        ({
            let t = server_sender_next(s, ServerSendEvent::StderrChunk(None));
            t.stderr_ended && t.stdout_ended == s.stdout_ended && t.stdin_acks_ended
                == s.stdin_acks_ended && t.exit_ended == s.exit_ended && t.phase == s.phase
        }),
        server_sender_next(s, ServerSendEvent::StdoutChunk(Some(bytes))) == s,
        server_sender_next(s, ServerSendEvent::StderrChunk(Some(bytes))) == s,
        ({
            let t = client_sender_next(c, ClientSendEvent::StdoutAck(None));
            t.stdout_acks_ended && t.stderr_acks_ended == c.stderr_acks_ended && t.stdin_ended
                == c.stdin_ended && t.signals_ended == c.signals_ended && t.shutdown_sent
                == c.shutdown_sent
        }),
        ({
            let t = client_sender_next(c, ClientSendEvent::StderrAck(None));
            t.stderr_acks_ended && t.stdout_acks_ended == c.stdout_acks_ended && t.stdin_ended
                == c.stdin_ended && t.signals_ended == c.signals_ended && t.shutdown_sent
                == c.shutdown_sent
        }),
{
}

/// The server sends its shutdown only once the exit has been sent and stdin
/// answers, stdout and stderr have all ended; the client, only once signals,
/// stdin, and the answers for stdout and stderr have all ended.
pub proof fn law_shutdown_waits_for_every_stream(s: ServerSenderState, c: ClientSenderState)
    ensures
        server_send_event_allowed(s, ServerSendEvent::AllEnded) <==> (s.phase == SenderPhase::Sending
            && s.exit_ended && s.stdin_acks_ended && s.stdout_ended && s.stderr_ended),
        client_send_event_allowed(c, ClientSendEvent::AllEnded) <==> (!c.shutdown_sent
            && c.signals_ended && c.stdin_ended && c.stdout_acks_ended && c.stderr_acks_ended),
{
}

/// Every forwarded signal is delivered as the operating-system signal of the
/// same name, except `Io`, which is delivered as `SIGINT`; no two other
/// signals are delivered alike.
pub proof fn law_signals_keep_their_names(a: Signal, b: Signal)
    ensures
        spec_os_signal(Signal::Alarm) == OsSignal::SigAlrm,
        spec_os_signal(Signal::Child) == OsSignal::SigChld,
        spec_os_signal(Signal::Hangup) == OsSignal::SigHup,
        spec_os_signal(Signal::Interrupt) == OsSignal::SigInt,
        spec_os_signal(Signal::Io) == OsSignal::SigInt,
        spec_os_signal(Signal::Pipe) == OsSignal::SigPipe,
        spec_os_signal(Signal::Quit) == OsSignal::SigQuit,
        spec_os_signal(Signal::Terminate) == OsSignal::SigTerm,
        spec_os_signal(Signal::UserDefined1) == OsSignal::SigUsr1,
        spec_os_signal(Signal::UserDefined2) == OsSignal::SigUsr2,
        spec_os_signal(Signal::WindowChange) == OsSignal::SigWinch,
        spec_os_signal(Signal::Kill) == OsSignal::SigKill,
        a != b && a != Signal::Io && b != Signal::Io ==> spec_os_signal(a) != spec_os_signal(b),
{
}

/// The end of the chunks ends a writer successfully, with an output or
/// without; a chunk is written when there is an output and answered as
/// written when there is none. An async pump ends with an error only when a
/// read failed or the other end could not write a chunk.
pub proof fn law_pump_ends(has_output: bool, bytes: Vec<u8>, ack: Option<Result<(), String>>, sent: bool, outcome: ReadOutcome)
    ensures
        writer_on_received(has_output, None) == WriterAction::Finish(Ok(())),
        has_output ==> writer_on_received(has_output, Some(bytes)) == WriterAction::Write(bytes),
        !has_output ==> writer_on_received(has_output, Some(bytes)) == WriterAction::SendResult(
            Ok(()),
        ),
        !(writer_on_result_sent(PumpKind::Async, sent) is Finish) || writer_on_result_sent(
            PumpKind::Async,
            sent,
        ) == WriterAction::Finish(Ok(())),
        reader_on_read(ReadOutcome::Eof) == ReaderAction::Finish(Ok(())),
        reader_on_ack(PumpKind::Async, ack) matches ReaderAction::Finish(Err(e)) ==> (ack matches Some(
            Err(m),
        ) && e == PumpError::WriteFailed(m)),
        reader_on_sent(PumpKind::Async, sent) matches ReaderAction::Finish(r) ==> r is Ok,
        reader_on_read(outcome) matches ReaderAction::Finish(Err(e)) ==> (outcome matches ReadOutcome::Failed(
            m,
        ) && e == PumpError::ReadFailed(m)),
{
}

} // verus!
