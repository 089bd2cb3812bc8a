//! The output pumps: a reader moves chunks from an input to the other end and
//! waits for each chunk's answer before reading again; a writer writes the
//! chunks it receives and answers each one.
use crate::BUFFER_SIZE;
use vstd::prelude::*;

verus! {

/// Which flavour of pump runs: one on the async runtime, or one on a
/// dedicated thread of the client (which turns lost channels into errors).
#[derive(Debug, Clone, Copy, PartialEq, Eq, Structural)]
pub enum PumpKind {
    Async,
    Thread,
}

/// Why a pump ended with an error.
#[derive(Debug, PartialEq, Eq)]
pub enum PumpError {
    /// Reading the input failed, for the reason given.
    ReadFailed(String),
    /// The other end could not write a chunk, for the reason given.
    WriteFailed(String),
    /// The other end answered a chunk with this error.
    AckError(String),
    /// Handing a chunk or an answer on failed.
    SendFailed,
    /// The answer for a chunk did not come.
    AckMissing,
}

/// The outcome of one read of the input.
#[derive(Debug)]
pub enum ReadOutcome {
    /// These bytes were read.
    Data(Vec<u8>),
    /// The input ended.
    Eof,
    /// The read was interrupted and can be tried again.
    Interrupted,
    /// The read failed, for the reason given.
    Failed(String),
}

#[derive(Debug, Clone, Copy, PartialEq, Eq, Structural)]
pub enum ReaderPhase {
    /// Waiting for the outcome of a read.
    Reading,
    /// Waiting to learn whether the chunk was handed on.
    Sending,
    /// Waiting for the answer for the chunk.
    AwaitingAck,
    Done,
}

/// What the reader asks its runner to do next.
#[derive(Debug)]
pub enum ReaderAction {
    /// Read from the input into a buffer of `BUFFER_SIZE` bytes.
    Read,
    /// Hand this chunk on to the other end.
    Send(Vec<u8>),
    /// Wait for the answer for the chunk that was handed on.
    AwaitAck,
    /// Stop, with this result.
    Finish(Result<(), PumpError>),
}

#[derive(Debug, Clone, Copy, PartialEq, Eq, Structural)]
pub struct ReaderState {
    pub kind: PumpKind,
    pub phase: ReaderPhase,
}

/// The phase that goes with an action: the reader only waits for what it
/// asked for.
pub open spec fn reader_phase_of(action: ReaderAction) -> ReaderPhase {
    match action {
        ReaderAction::Read => ReaderPhase::Reading,
        ReaderAction::Send(_) => ReaderPhase::Sending,
        ReaderAction::AwaitAck => ReaderPhase::AwaitingAck,
        ReaderAction::Finish(_) => ReaderPhase::Done,
    }
}

/// The reader's answer to the outcome of a read.
pub open spec fn reader_on_read(outcome: ReadOutcome) -> ReaderAction {
    match outcome {
        ReadOutcome::Data(bytes) => ReaderAction::Send(bytes),
        ReadOutcome::Eof => ReaderAction::Finish(Ok(())),
        ReadOutcome::Interrupted => ReaderAction::Read,
        ReadOutcome::Failed(e) => ReaderAction::Finish(Err(PumpError::ReadFailed(e))),
    }
}

/// The reader's answer to whether the chunk was handed on: a lost other end
/// ends an async reader quietly and a thread reader with an error.
pub open spec fn reader_on_sent(kind: PumpKind, sent: bool) -> ReaderAction {
    if sent {
        ReaderAction::AwaitAck
    } else if kind == PumpKind::Async {
        ReaderAction::Finish(Ok(()))
    } else {
        ReaderAction::Finish(Err(PumpError::SendFailed))
    }
}

/// The reader's answer to the answer for a chunk (`None`: no answer will come).
pub open spec fn reader_on_ack(kind: PumpKind, ack: Option<Result<(), String>>) -> ReaderAction {
    match ack {
        Some(Ok(())) => ReaderAction::Read,
        Some(Err(e)) => if kind == PumpKind::Async {
            ReaderAction::Finish(Err(PumpError::WriteFailed(e)))
        } else {
            ReaderAction::Finish(Err(PumpError::AckError(e)))
        },
        None => if kind == PumpKind::Async {
            ReaderAction::Finish(Ok(()))
        } else {
            ReaderAction::Finish(Err(PumpError::AckMissing))
        },
    }
}

/// Moves chunks from an input to the other end, one unanswered chunk at a time.
pub struct Reader {
    state: ReaderState,
}

impl View for Reader {
    type V = ReaderState;

    closed spec fn view(&self) -> ReaderState {
        self.state
    }
}

impl Reader {
    /// A reader of the given kind; without an input it is done at once.
    pub fn new(kind: PumpKind, has_input: bool) -> (res: (Self, ReaderAction))
        ensures
            res.0@.kind == kind,
            res.1 == (if has_input {
                ReaderAction::Read
            } else {
                ReaderAction::Finish(Ok(()))
            }),
            res.0@.phase == reader_phase_of(res.1),
    {
        if has_input {
            (Reader { state: ReaderState { kind, phase: ReaderPhase::Reading } }, ReaderAction::Read)
        } else {
            (
                Reader { state: ReaderState { kind, phase: ReaderPhase::Done } },
                ReaderAction::Finish(Ok(())),
            )
        }
    }

    pub fn phase(&self) -> (p: ReaderPhase)
        ensures
            p == self@.phase,
    {
        self.state.phase
    }

    /// Takes the outcome of a read; a chunk holds between one and
    /// `BUFFER_SIZE` bytes.
    pub fn on_read(&mut self, outcome: ReadOutcome) -> (action: ReaderAction)
        requires
            old(self)@.phase == ReaderPhase::Reading,
            outcome matches ReadOutcome::Data(bytes) ==> 0 < bytes.len() <= BUFFER_SIZE,
        ensures
            action == reader_on_read(outcome),
            final(self)@ == (ReaderState { phase: reader_phase_of(action), ..old(self)@ }),
    {
        let action = match outcome {
            ReadOutcome::Data(bytes) => ReaderAction::Send(bytes),
            ReadOutcome::Eof => ReaderAction::Finish(Ok(())),
            ReadOutcome::Interrupted => ReaderAction::Read,
            ReadOutcome::Failed(e) => ReaderAction::Finish(Err(PumpError::ReadFailed(e))),
        };
        self.state.phase = Self::phase_of(&action);
        action
    }

    /// Takes whether the chunk was handed on.
    pub fn on_sent(&mut self, sent: bool) -> (action: ReaderAction)
        requires
            old(self)@.phase == ReaderPhase::Sending,
        ensures
            action == reader_on_sent(old(self)@.kind, sent),
            final(self)@ == (ReaderState { phase: reader_phase_of(action), ..old(self)@ }),
    {
        let action = if sent {
            ReaderAction::AwaitAck
        } else {
            match self.state.kind {
                PumpKind::Async => ReaderAction::Finish(Ok(())),
                PumpKind::Thread => ReaderAction::Finish(Err(PumpError::SendFailed)),
            }
        };
        self.state.phase = Self::phase_of(&action);
        action
    }

    /// Takes the answer for the chunk (`None`: no answer will come).
    pub fn on_ack(&mut self, ack: Option<Result<(), String>>) -> (action: ReaderAction)
        requires
            old(self)@.phase == ReaderPhase::AwaitingAck,
        ensures
            action == reader_on_ack(old(self)@.kind, ack),
            final(self)@ == (ReaderState { phase: reader_phase_of(action), ..old(self)@ }),
    {
        let action = match ack {
            Some(Ok(())) => ReaderAction::Read,
            Some(Err(e)) => match self.state.kind {
                PumpKind::Async => ReaderAction::Finish(Err(PumpError::WriteFailed(e))),
                PumpKind::Thread => ReaderAction::Finish(Err(PumpError::AckError(e))),
            },
            None => match self.state.kind {
                PumpKind::Async => ReaderAction::Finish(Ok(())),
                PumpKind::Thread => ReaderAction::Finish(Err(PumpError::AckMissing)),
            },
        };
        self.state.phase = Self::phase_of(&action);
        action
    }

    fn phase_of(action: &ReaderAction) -> (p: ReaderPhase)
        ensures
            p == reader_phase_of(*action),
    {
        match action {
            ReaderAction::Read => ReaderPhase::Reading,
            ReaderAction::Send(_) => ReaderPhase::Sending,
            ReaderAction::AwaitAck => ReaderPhase::AwaitingAck,
            ReaderAction::Finish(_) => ReaderPhase::Done,
        }
    }
}

/// The outcome of writing one chunk to the output.
#[derive(Debug)]
pub enum WriteOutcome {
    Written,
    /// The write was interrupted and can be tried again.
    Interrupted,
    /// The write failed, for the reason given.
    Failed(String),
}

#[derive(Debug, Clone, Copy, PartialEq, Eq, Structural)]
pub enum WriterPhase {
    /// Waiting for the next chunk.
    Receiving,
    /// Waiting for the outcome of writing the chunk.
    Writing,
    /// Waiting to learn whether the answer was handed on.
    SendingResult,
    Done,
}

/// What the writer asks its runner to do next.
#[derive(Debug)]
pub enum WriterAction {
    /// Wait for the next chunk.
    Receive,
    /// Write this chunk to the output.
    Write(Vec<u8>),
    /// Write the same chunk again.
    RetryWrite,
    /// Hand this answer for the chunk back to the reader.
    SendResult(Result<(), String>),
    /// Stop, with this result.
    Finish(Result<(), PumpError>),
}

#[derive(Debug, Clone, Copy, PartialEq, Eq, Structural)]
pub struct WriterState {
    pub kind: PumpKind,
    /// Whether there is an output; without one, chunks are dropped and
    /// answered as written.
    pub has_output: bool,
    pub phase: WriterPhase,
}

pub open spec fn writer_phase_of(action: WriterAction) -> WriterPhase {
    match action {
        WriterAction::Receive => WriterPhase::Receiving,
        WriterAction::Write(_) => WriterPhase::Writing,
        WriterAction::RetryWrite => WriterPhase::Writing,
        WriterAction::SendResult(_) => WriterPhase::SendingResult,
        WriterAction::Finish(_) => WriterPhase::Done,
    }
}

/// The writer's answer to the next chunk (`None`: no more chunks).
pub open spec fn writer_on_received(has_output: bool, chunk: Option<Vec<u8>>) -> WriterAction {
    match chunk {
        None => WriterAction::Finish(Ok(())),
        Some(bytes) => if has_output {
            WriterAction::Write(bytes)
        } else {
            WriterAction::SendResult(Ok(()))
        },
    }
}

/// The writer's answer to the outcome of a write.
pub open spec fn writer_on_written(outcome: WriteOutcome) -> WriterAction {
    match outcome {
        WriteOutcome::Written => WriterAction::SendResult(Ok(())),
        WriteOutcome::Interrupted => WriterAction::RetryWrite,
        WriteOutcome::Failed(e) => WriterAction::SendResult(Err(e)),
    }
}

/// The writer's answer to whether the answer was handed on.
pub open spec fn writer_on_result_sent(kind: PumpKind, sent: bool) -> WriterAction {
    if sent {
        WriterAction::Receive
    } else if kind == PumpKind::Async {
        WriterAction::Finish(Ok(()))
    } else {
        WriterAction::Finish(Err(PumpError::SendFailed))
    }
}

/// Writes the chunks it receives to an output and answers each one.
pub struct Writer {
    state: WriterState,
}

impl View for Writer {
    type V = WriterState;

    closed spec fn view(&self) -> WriterState {
        self.state
    }
}

impl Writer {
    pub fn new(kind: PumpKind, has_output: bool) -> (res: (Self, WriterAction))
        ensures
            res.0@ == (WriterState { kind, has_output, phase: WriterPhase::Receiving }),
            res.1 == WriterAction::Receive,
    {
        (
            Writer { state: WriterState { kind, has_output, phase: WriterPhase::Receiving } },
            WriterAction::Receive,
        )
    }

    pub fn phase(&self) -> (p: WriterPhase)
        ensures
            p == self@.phase,
    {
        self.state.phase
    }

    /// Takes the next chunk (`None`: no more chunks).
    pub fn on_received(&mut self, chunk: Option<Vec<u8>>) -> (action: WriterAction)
        requires
            old(self)@.phase == WriterPhase::Receiving,
        ensures
            action == writer_on_received(old(self)@.has_output, chunk),
            final(self)@ == (WriterState { phase: writer_phase_of(action), ..old(self)@ }),
    {
        let action = match chunk {
            None => WriterAction::Finish(Ok(())),
            Some(bytes) => if self.state.has_output {
                WriterAction::Write(bytes)
            } else {
                WriterAction::SendResult(Ok(()))
            },
        };
        self.state.phase = Self::phase_of(&action);
        action
    }

    /// Takes the outcome of writing the chunk. A thread writer's writes are
    /// never reported as interrupted: the blocking write retries by itself.
    pub fn on_written(&mut self, outcome: WriteOutcome) -> (action: WriterAction)
        requires
            old(self)@.phase == WriterPhase::Writing,
            outcome is Interrupted ==> old(self)@.kind == PumpKind::Async,
        ensures
            action == writer_on_written(outcome),
            final(self)@ == (WriterState { phase: writer_phase_of(action), ..old(self)@ }),
    {
        let action = match outcome {
            WriteOutcome::Written => WriterAction::SendResult(Ok(())),
            WriteOutcome::Interrupted => WriterAction::RetryWrite,
            WriteOutcome::Failed(e) => WriterAction::SendResult(Err(e)),
        };
        self.state.phase = Self::phase_of(&action);
        action
    }

    /// Takes whether the answer was handed on.
    pub fn on_result_sent(&mut self, sent: bool) -> (action: WriterAction)
        requires
            old(self)@.phase == WriterPhase::SendingResult,
        ensures
            action == writer_on_result_sent(old(self)@.kind, sent),
            final(self)@ == (WriterState { phase: writer_phase_of(action), ..old(self)@ }),
    {
        let action = if sent {
            WriterAction::Receive
        } else {
            match self.state.kind {
                PumpKind::Async => WriterAction::Finish(Ok(())),
                PumpKind::Thread => WriterAction::Finish(Err(PumpError::SendFailed)),
            }
        };
        self.state.phase = Self::phase_of(&action);
        action
    }

    fn phase_of(action: &WriterAction) -> (p: WriterPhase)
        ensures
            p == writer_phase_of(*action),
    {
        match action {
            WriterAction::Receive => WriterPhase::Receiving,
            WriterAction::Write(_) => WriterPhase::Writing,
            WriterAction::RetryWrite => WriterPhase::Writing,
            WriterAction::SendResult(_) => WriterPhase::SendingResult,
            WriterAction::Finish(_) => WriterPhase::Done,
        }
    }
}

} // verus!
