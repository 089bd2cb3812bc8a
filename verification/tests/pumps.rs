use ssh_local_exec::pump::{
    PumpError, PumpKind, ReadOutcome, Reader, ReaderAction, ReaderPhase, WriteOutcome, Writer,
    WriterAction, WriterPhase,
};
use ssh_local_exec::BUFFER_SIZE;

#[test]
fn reader_moves_chunks_one_at_a_time() {
    let (mut r, a) = Reader::new(PumpKind::Async, true);
    assert!(matches!(a, ReaderAction::Read));
    match r.on_read(ReadOutcome::Data(vec![7; 10])) {
        ReaderAction::Send(bytes) => assert_eq!(bytes, vec![7; 10]),
        other => panic!("unexpected: {other:?}"),
    }
    assert_eq!(r.phase(), ReaderPhase::Sending);
    assert!(matches!(r.on_sent(true), ReaderAction::AwaitAck));
    assert!(matches!(r.on_ack(Some(Ok(()))), ReaderAction::Read));
    assert!(matches!(r.on_read(ReadOutcome::Interrupted), ReaderAction::Read));
    assert!(matches!(r.on_read(ReadOutcome::Data(vec![0; BUFFER_SIZE])), ReaderAction::Send(_)));
    assert!(matches!(r.on_sent(true), ReaderAction::AwaitAck));
    assert!(matches!(r.on_ack(Some(Ok(()))), ReaderAction::Read));
    assert!(matches!(r.on_read(ReadOutcome::Eof), ReaderAction::Finish(Ok(()))));
    assert_eq!(r.phase(), ReaderPhase::Done);
}

#[test]
fn reader_without_input_is_done() {
    let (r, a) = Reader::new(PumpKind::Async, false);
    assert!(matches!(a, ReaderAction::Finish(Ok(()))));
    assert_eq!(r.phase(), ReaderPhase::Done);
}

#[test]
fn async_reader_errors() {
    let (mut r, _) = Reader::new(PumpKind::Async, true);
    match r.on_read(ReadOutcome::Failed("io".to_string())) {
        ReaderAction::Finish(Err(e)) => assert_eq!(e, PumpError::ReadFailed("io".to_string())),
        other => panic!("unexpected: {other:?}"),
    }
    let (mut r, _) = Reader::new(PumpKind::Async, true);
    r.on_read(ReadOutcome::Data(vec![1]));
    assert!(matches!(r.on_sent(false), ReaderAction::Finish(Ok(()))));
    let (mut r, _) = Reader::new(PumpKind::Async, true);
    r.on_read(ReadOutcome::Data(vec![1]));
    r.on_sent(true);
    match r.on_ack(Some(Err("EPIPE".to_string()))) {
        ReaderAction::Finish(Err(e)) => assert_eq!(e, PumpError::WriteFailed("EPIPE".to_string())),
        other => panic!("unexpected: {other:?}"),
    }
    let (mut r, _) = Reader::new(PumpKind::Async, true);
    r.on_read(ReadOutcome::Data(vec![1]));
    r.on_sent(true);
    assert!(matches!(r.on_ack(None), ReaderAction::Finish(Ok(()))));
}

#[test]
fn thread_reader_errors() {
    let (mut r, _) = Reader::new(PumpKind::Thread, true);
    r.on_read(ReadOutcome::Data(vec![1]));
    match r.on_sent(false) {
        ReaderAction::Finish(Err(e)) => assert_eq!(e, PumpError::SendFailed),
        other => panic!("unexpected: {other:?}"),
    }
    let (mut r, _) = Reader::new(PumpKind::Thread, true);
    r.on_read(ReadOutcome::Data(vec![1]));
    r.on_sent(true);
    match r.on_ack(None) {
        ReaderAction::Finish(Err(e)) => assert_eq!(e, PumpError::AckMissing),
        other => panic!("unexpected: {other:?}"),
    }
    let (mut r, _) = Reader::new(PumpKind::Thread, true);
    r.on_read(ReadOutcome::Data(vec![1]));
    r.on_sent(true);
    match r.on_ack(Some(Err("EPIPE".to_string()))) {
        ReaderAction::Finish(Err(e)) => assert_eq!(e, PumpError::AckError("EPIPE".to_string())),
        other => panic!("unexpected: {other:?}"),
    }
}

#[test]
fn writer_answers_each_chunk() {
    let (mut w, a) = Writer::new(PumpKind::Async, true);
    assert!(matches!(a, WriterAction::Receive));
    match w.on_received(Some(b"hi".to_vec())) {
        WriterAction::Write(bytes) => assert_eq!(bytes, b"hi".to_vec()),
        other => panic!("unexpected: {other:?}"),
    }
    assert!(matches!(w.on_written(WriteOutcome::Interrupted), WriterAction::RetryWrite));
    assert!(matches!(w.on_written(WriteOutcome::Written), WriterAction::SendResult(Ok(()))));
    assert!(matches!(w.on_result_sent(true), WriterAction::Receive));
    w.on_received(Some(vec![1]));
    match w.on_written(WriteOutcome::Failed("disk full".to_string())) {
        WriterAction::SendResult(Err(e)) => assert_eq!(e, "disk full"),
        other => panic!("unexpected: {other:?}"),
    }
    assert!(matches!(w.on_result_sent(false), WriterAction::Finish(Ok(()))));
    assert_eq!(w.phase(), WriterPhase::Done);
}

#[test]
fn writer_without_output_discards() {
    let (mut w, _) = Writer::new(PumpKind::Async, false);
    assert!(matches!(w.on_received(Some(vec![1, 2, 3])), WriterAction::SendResult(Ok(()))));
    assert!(matches!(w.on_result_sent(true), WriterAction::Receive));
    assert!(matches!(w.on_received(None), WriterAction::Finish(Ok(()))));
}

#[test]
fn thread_writer_lost_reader_is_error() {
    let (mut w, _) = Writer::new(PumpKind::Thread, true);
    w.on_received(Some(vec![1]));
    w.on_written(WriteOutcome::Written);
    match w.on_result_sent(false) {
        WriterAction::Finish(Err(e)) => assert_eq!(e, PumpError::SendFailed),
        other => panic!("unexpected: {other:?}"),
    }
}
