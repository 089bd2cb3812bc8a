use ssh_local_exec::client::{
    check_spawn_response, exit_code, ClientSendEvent, ClientSender, ReceiveError, ServerMessageAction,
    ServerReceiver, SpawnError,
};
use ssh_local_exec::protocol::{
    ClientMessage, Exit, OutputRequest, OutputResponse, ServerMessage, Signal, SpawnRequest,
    SpawnResponse,
};
use ssh_local_exec::server::{
    exit_from_status, expect_spawn_request, kill_request, spawn_response, ClientMessageAction,
    ClientReceiver, RequestError, ServerSendEvent, ServerSender, UnknownExitStatus,
};
use ssh_local_exec::protocol::OsSignal;

#[test]
fn exit_code_of_command_code() {
    assert_eq!(exit_code(&Some(Exit::Code(0))), 0);
    assert_eq!(exit_code(&Some(Exit::Code(33))), 33);
    assert_eq!(exit_code(&Some(Exit::Code(255))), 255);
    assert_eq!(exit_code(&Some(Exit::Code(256))), 255);
    assert_eq!(exit_code(&Some(Exit::Code(-1))), 255);
}

#[test]
fn exit_code_of_signal() {
    assert_eq!(exit_code(&Some(Exit::Signal(15))), 128 + 15);
    assert_eq!(exit_code(&Some(Exit::Signal(9))), 137);
    assert_eq!(exit_code(&Some(Exit::Signal(127))), 255);
    assert_eq!(exit_code(&Some(Exit::Signal(128))), 255);
    assert_eq!(exit_code(&Some(Exit::Signal(-128))), 0);
}

#[test]
fn exit_code_of_failure() {
    assert_eq!(exit_code(&None), 255);
    assert_eq!(exit_code(&Some(Exit::OtherError("boom".to_string()))), 255);
}

#[test]
fn status_to_client_exit_code() {
    let exit = exit_from_status(Some(33), None).unwrap();
    assert_eq!(exit_code(&Some(exit)), 33);
    let exit = exit_from_status(None, Some(15)).unwrap();
    assert_eq!(exit_code(&Some(exit)), 143);
    assert!(matches!(exit_from_status(Some(1), Some(9)), Ok(Exit::Code(1))));
    assert_eq!(exit_from_status(None, None).unwrap_err(), UnknownExitStatus);
}

#[test]
fn spawn_response_judged() {
    assert!(check_spawn_response(Some(ServerMessage::SpawnResponse(SpawnResponse(Ok(()))))).is_ok());
    match check_spawn_response(Some(ServerMessage::SpawnResponse(SpawnResponse(Err(
        "No such file or directory".to_string(),
    ))))) {
        Err(SpawnError::SpawnFailed(msg)) => assert_eq!(msg, "No such file or directory"),
        other => panic!("unexpected: {other:?}"),
    }
    assert!(matches!(
        check_spawn_response(Some(ServerMessage::Shutdown)),
        Err(SpawnError::UnexpectedMessage(ServerMessage::Shutdown))
    ));
    assert!(matches!(check_spawn_response(None), Err(SpawnError::Disconnected)));
}

#[test]
fn spawn_failure_ends_client_with_255() {
    let (msg, go_on) = spawn_response(Err("No such file or directory".to_string()));
    assert!(!go_on);
    let judged = check_spawn_response(Some(msg));
    assert!(judged.is_err());
    assert_eq!(exit_code(&None), 255);
}

#[test]
fn first_message_judged() {
    let req = SpawnRequest { command: "cat".to_string(), args: vec!["/etc/hostname".to_string()] };
    let got = expect_spawn_request(Some(ClientMessage::SpawnRequest(req))).unwrap();
    assert_eq!(got.command, "cat");
    assert_eq!(got.args, vec!["/etc/hostname".to_string()]);
    assert!(matches!(
        expect_spawn_request(Some(ClientMessage::Shutdown)),
        Err(RequestError::UnexpectedMessage)
    ));
    assert!(matches!(expect_spawn_request(None), Err(RequestError::Disconnected)));
    let (msg, go_on) = spawn_response(Ok(()));
    assert!(go_on);
    assert!(matches!(msg, ServerMessage::SpawnResponse(SpawnResponse(Ok(())))));
}

#[test]
fn kill_request_needs_pid_and_signal() {
    assert_eq!(kill_request(Some(42), Some(Signal::Kill)), Some((42, OsSignal::SigKill)));
    assert_eq!(kill_request(Some(42), Some(Signal::Io)), Some((42, OsSignal::SigInt)));
    assert_eq!(kill_request(None, Some(Signal::Kill)), None);
    assert_eq!(kill_request(Some(42), None), None);
}

#[test]
fn client_receiver_full_session() {
    let mut r = ServerReceiver::new();
    let msg = ServerMessage::Stdout(OutputRequest::Output(b"server\n".to_vec()));
    assert!(r.accepts(&msg));
    match r.receive(msg) {
        ServerMessageAction::WriteStdout(bytes) => assert_eq!(bytes, b"server\n".to_vec()),
        other => panic!("unexpected: {other:?}"),
    }
    assert!(matches!(
        r.receive(ServerMessage::Stdin(OutputResponse::Output(Ok(())))),
        ServerMessageAction::ForwardStdinAck(Ok(()))
    ));
    assert!(matches!(r.receive(ServerMessage::Stdout(OutputRequest::Terminated)), ServerMessageAction::CloseStdout));
    assert!(!r.accepts(&ServerMessage::Stdout(OutputRequest::Output(vec![1]))));
    assert!(matches!(r.receive(ServerMessage::Stderr(OutputRequest::Terminated)), ServerMessageAction::CloseStderr));
    assert!(matches!(r.receive(ServerMessage::Stdin(OutputResponse::Terminated)), ServerMessageAction::CloseStdinAcks));
    assert!(matches!(r.receive(ServerMessage::Exit(Exit::Code(0))), ServerMessageAction::DeliverExit(Exit::Code(0))));
    assert!(!r.accepts(&ServerMessage::Exit(Exit::Code(0))));
    assert!(r.is_receiving());
    assert!(matches!(r.receive(ServerMessage::Shutdown), ServerMessageAction::Stop));
    assert!(!r.is_receiving());
    assert_eq!(r.result(), Ok(()));
}

#[test]
fn client_receiver_unexpected_end() {
    let mut r = ServerReceiver::new();
    r.stream_ended();
    assert_eq!(r.result(), Err(ReceiveError::TerminatedUnexpectedly));

    let mut r = ServerReceiver::new();
    assert!(matches!(
        r.receive(ServerMessage::SpawnResponse(SpawnResponse(Ok(())))),
        ServerMessageAction::Stop
    ));
    assert_eq!(r.result(), Err(ReceiveError::TerminatedUnexpectedly));

    let mut r = ServerReceiver::new();
    r.stream_failed();
    assert_eq!(r.result(), Err(ReceiveError::ReceiveFailed));

    let mut r = ServerReceiver::new();
    r.delivery_failed();
    assert_eq!(r.result(), Err(ReceiveError::TerminatedUnexpectedly));
}

#[test]
fn server_receiver_full_session() {
    let mut r = ClientReceiver::new();
    assert!(matches!(r.receive(ClientMessage::Signal(Signal::Interrupt)), ClientMessageAction::ForwardSignal(Signal::Interrupt)));
    match r.receive(ClientMessage::Stdin(OutputRequest::Output(b"input".to_vec()))) {
        ClientMessageAction::WriteStdin(bytes) => assert_eq!(bytes, b"input".to_vec()),
        other => panic!("unexpected: {other:?}"),
    }
    assert!(matches!(r.receive(ClientMessage::Stdin(OutputRequest::Terminated)), ClientMessageAction::CloseStdin));
    assert!(!r.accepts(&ClientMessage::Stdin(OutputRequest::Output(vec![1]))));
    assert!(matches!(
        r.receive(ClientMessage::Stdout(OutputResponse::Output(Err("broken pipe".to_string())))),
        ClientMessageAction::ForwardStdoutAck(Err(_))
    ));
    assert!(matches!(r.receive(ClientMessage::Stdout(OutputResponse::Terminated)), ClientMessageAction::CloseStdoutAcks));
    assert!(matches!(r.receive(ClientMessage::Stderr(OutputResponse::Terminated)), ClientMessageAction::CloseStderrAcks));
    assert!(matches!(r.receive(ClientMessage::Shutdown), ClientMessageAction::Stop));
    assert_eq!(r.final_signal(), Some(Signal::Kill));
    assert_eq!(r.result(), Ok(()));
}

#[test]
fn server_receiver_disconnect_kills_command() {
    let mut r = ClientReceiver::new();
    r.stream_ended();
    assert_eq!(r.final_signal(), Some(Signal::Kill));
    assert_eq!(r.result(), Err(ReceiveError::TerminatedUnexpectedly));

    let mut r = ClientReceiver::new();
    r.stream_failed();
    assert_eq!(r.final_signal(), None);
    assert_eq!(r.result(), Err(ReceiveError::ReceiveFailed));
}

#[test]
fn server_sender_ends_with_shutdown() {
    let mut s = ServerSender::new();
    let m = s.on_event(ServerSendEvent::StdoutChunk(Some(b"out".to_vec())));
    assert!(matches!(m, Some(ServerMessage::Stdout(OutputRequest::Output(ref b))) if b == b"out"));
    assert!(matches!(s.on_event(ServerSendEvent::StdoutChunk(None)), Some(ServerMessage::Stdout(OutputRequest::Terminated))));
    assert!(matches!(s.on_event(ServerSendEvent::StderrChunk(None)), Some(ServerMessage::Stderr(OutputRequest::Terminated))));
    assert!(matches!(s.on_event(ServerSendEvent::StdinAck(Some(Ok(())))), Some(ServerMessage::Stdin(OutputResponse::Output(Ok(()))))));
    assert!(matches!(s.on_event(ServerSendEvent::StdinAck(None)), Some(ServerMessage::Stdin(OutputResponse::Terminated))));
    assert!(!s.all_ended());
    assert!(matches!(s.on_event(ServerSendEvent::Exit(Some(Exit::Code(0)))), Some(ServerMessage::Exit(Exit::Code(0)))));
    assert!(s.all_ended());
    assert!(matches!(s.on_event(ServerSendEvent::AllEnded), Some(ServerMessage::Shutdown)));
    assert!(!s.is_sending());
}

#[test]
fn server_sender_aborts_without_exit() {
    let mut s = ServerSender::new();
    assert!(s.on_event(ServerSendEvent::Exit(None)).is_none());
    assert!(!s.is_sending());
    assert!(s.exit_ended());
}

#[test]
fn client_sender_ends_with_shutdown() {
    let mut s = ClientSender::new();
    assert!(matches!(s.on_event(ClientSendEvent::Signal(Some(Signal::WindowChange))), Some(ClientMessage::Signal(Signal::WindowChange))));
    assert!(s.on_event(ClientSendEvent::Signal(None)).is_none());
    assert!(s.signals_ended());
    assert!(matches!(s.on_event(ClientSendEvent::StdinChunk(Some(vec![1, 2]))), Some(ClientMessage::Stdin(OutputRequest::Output(_)))));
    assert!(matches!(s.on_event(ClientSendEvent::StdinChunk(None)), Some(ClientMessage::Stdin(OutputRequest::Terminated))));
    assert!(matches!(s.on_event(ClientSendEvent::StdoutAck(None)), Some(ClientMessage::Stdout(OutputResponse::Terminated))));
    assert!(matches!(s.on_event(ClientSendEvent::StderrAck(Some(Ok(())))), Some(ClientMessage::Stderr(OutputResponse::Output(Ok(()))))));
    assert!(matches!(s.on_event(ClientSendEvent::StderrAck(None)), Some(ClientMessage::Stderr(OutputResponse::Terminated))));
    assert!(s.all_ended());
    assert!(matches!(s.on_event(ClientSendEvent::AllEnded), Some(ClientMessage::Shutdown)));
    assert!(s.shutdown_sent());
}

#[test]
fn messages_sent_by_server_are_taken_by_client() {
    let mut s = ServerSender::new();
    let mut r = ServerReceiver::new();
    let events = vec![
        ServerSendEvent::StdoutChunk(Some(b"a".to_vec())),
        ServerSendEvent::StdinAck(None),
        ServerSendEvent::StdoutChunk(None),
        ServerSendEvent::Exit(Some(Exit::Signal(15))),
        ServerSendEvent::StderrChunk(None),
        ServerSendEvent::AllEnded,
    ];
    let mut exit = None;
    for e in events {
        if let Some(m) = s.on_event(e) {
            assert!(r.accepts(&m));
            if let ServerMessageAction::DeliverExit(x) = r.receive(m) {
                exit = Some(x);
            }
        }
    }
    assert_eq!(r.result(), Ok(()));
    assert_eq!(exit_code(&exit), 143);
}
