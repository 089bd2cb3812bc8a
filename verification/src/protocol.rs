//! Messages exchanged between the client and the server, and the codec
//! wrappers that carry them over a framed byte stream.
use core::marker::PhantomData;
use vstd::prelude::*;

verus! {

/// Decodes one item from each frame that the inner frame decoder yields.
#[derive(Debug)]
pub struct CborDecoder<Item, D> {
    inner: D,
    _item: PhantomData<Item>,
}

impl<Item, D> CborDecoder<Item, D> {
    /// The frame decoder that this decoder reads frames from.
    pub closed spec fn spec_inner(&self) -> D {
        self.inner
    }

    pub fn new(inner: D) -> (decoder: Self)
        ensures
            decoder.spec_inner() == inner,
    {
        Self { inner, _item: PhantomData }
    }

    pub fn inner_mut(&mut self) -> (inner: &mut D)
        ensures
            *inner == old(self).spec_inner(),
            final(self).spec_inner() == *final(inner),
    {
        &mut self.inner
    }
}

/// Encodes each item into one frame of the inner frame encoder.
#[derive(Debug)]
pub struct CborEncoder<E> {
    inner: E,
}

impl<E> CborEncoder<E> {
    /// The frame encoder that this encoder writes frames to.
    pub closed spec fn spec_inner(&self) -> E {
        self.inner
    }

    pub fn new(inner: E) -> (encoder: Self)
        ensures
            encoder.spec_inner() == inner,
    {
        Self { inner }
    }

    pub fn inner_mut(&mut self) -> (inner: &mut E)
        ensures
            *inner == old(self).spec_inner(),
            final(self).spec_inner() == *final(inner),
    {
        &mut self.inner
    }
}

/// The command that the client asks the server to run.
#[derive(Debug, Clone)]
pub struct SpawnRequest {
    pub command: String,
    pub args: Vec<String>,
}

/// Whether the server could start the requested command.
#[derive(Debug)]
pub struct SpawnResponse(pub Result<(), String>);

/// A signal that the client forwards to the command.
#[derive(Debug, Clone, Copy, PartialEq, Eq, Structural)]
pub enum Signal {
    Alarm,
    Child,
    Hangup,
    Interrupt,
    Io,
    Pipe,
    Quit,
    Terminate,
    UserDefined1,
    UserDefined2,
    WindowChange,
    Kill,
}

/// An operating-system signal that can be delivered to a process.
#[derive(Debug, Clone, Copy, PartialEq, Eq, Structural)]
pub enum OsSignal {
    SigAlrm,
    SigChld,
    SigHup,
    SigInt,
    SigPipe,
    SigQuit,
    SigTerm,
    SigUsr1,
    SigUsr2,
    SigWinch,
    SigKill,
}

/// The operating-system signal that a forwarded signal is delivered as.
/// `Io` is delivered as `SIGINT`.
pub open spec fn spec_os_signal(signal: Signal) -> OsSignal {
    match signal {
        Signal::Alarm => OsSignal::SigAlrm,
        Signal::Child => OsSignal::SigChld,
        Signal::Hangup => OsSignal::SigHup,
        Signal::Interrupt => OsSignal::SigInt,
        Signal::Io => OsSignal::SigInt,
        Signal::Pipe => OsSignal::SigPipe,
        Signal::Quit => OsSignal::SigQuit,
        Signal::Terminate => OsSignal::SigTerm,
        Signal::UserDefined1 => OsSignal::SigUsr1,
        Signal::UserDefined2 => OsSignal::SigUsr2,
        Signal::WindowChange => OsSignal::SigWinch,
        Signal::Kill => OsSignal::SigKill,
    }
}

impl Signal {
    /// The operating-system signal this signal is delivered as.
    pub fn os_signal(self) -> (os: OsSignal)
        ensures
            os == spec_os_signal(self),
    {
        match self {
            Signal::Alarm => OsSignal::SigAlrm,
            Signal::Child => OsSignal::SigChld,
            Signal::Hangup => OsSignal::SigHup,
            Signal::Interrupt => OsSignal::SigInt,
            Signal::Io => OsSignal::SigInt,
            Signal::Pipe => OsSignal::SigPipe,
            Signal::Quit => OsSignal::SigQuit,
            Signal::Terminate => OsSignal::SigTerm,
            Signal::UserDefined1 => OsSignal::SigUsr1,
            Signal::UserDefined2 => OsSignal::SigUsr2,
            Signal::WindowChange => OsSignal::SigWinch,
            Signal::Kill => OsSignal::SigKill,
        }
    }
}

/// The signals the client catches and forwards to the command: every signal
/// but `Kill`, which cannot be caught.
pub open spec fn spec_forwarded_signals() -> Seq<Signal> {
    seq![
        Signal::Alarm,
        Signal::Child,
        Signal::Hangup,
        Signal::Interrupt,
        Signal::Io,
        Signal::Pipe,
        Signal::Quit,
        Signal::Terminate,
        Signal::UserDefined1,
        Signal::UserDefined2,
        Signal::WindowChange,
    ]
}

/// The signals the client catches and forwards (see `spec_forwarded_signals`).
pub fn forwarded_signals() -> (signals: Vec<Signal>)
    ensures
        signals@ == spec_forwarded_signals(),
{
    let mut signals: Vec<Signal> = Vec::new();
    signals.push(Signal::Alarm);
    signals.push(Signal::Child);
    signals.push(Signal::Hangup);
    signals.push(Signal::Interrupt);
    signals.push(Signal::Io);
    signals.push(Signal::Pipe);
    signals.push(Signal::Quit);
    signals.push(Signal::Terminate);
    signals.push(Signal::UserDefined1);
    signals.push(Signal::UserDefined2);
    signals.push(Signal::WindowChange);
    assert(signals@ =~= spec_forwarded_signals());
    signals
}

impl From<Signal> for Option<OsSignal> {
    fn from(signal: Signal) -> (os: Option<OsSignal>) {
        Some(signal.os_signal())
    }
}

impl vstd::std_specs::convert::FromSpecImpl<Signal> for Option<OsSignal> {
    open spec fn obeys_from_spec() -> bool {
        true
    }

    open spec fn from_spec(signal: Signal) -> Option<OsSignal> {
        Some(spec_os_signal(signal))
    }
}

/// How the command ended.
#[derive(Debug, Clone)]
pub enum Exit {
    Code(i32),
    Signal(i32),
    OtherError(String),
}

/// The answer of an output end to one chunk, or the end of the answers.
#[derive(Debug)]
pub enum OutputResponse {
    Output(Result<(), String>),
    Terminated,
}

/// One chunk of output, or the end of the output.
#[derive(Debug, Clone)]
pub enum OutputRequest {
    Output(Vec<u8>),
    Terminated,
}

/// A message from the server to the client.
#[derive(Debug)]
pub enum ServerMessage {
    SpawnResponse(SpawnResponse),
    Exit(Exit),
    Stdin(OutputResponse),
    Stdout(OutputRequest),
    Stderr(OutputRequest),
    Shutdown,
}

/// A message from the client to the server.
#[derive(Debug)]
pub enum ClientMessage {
    SpawnRequest(SpawnRequest),
    Signal(Signal),
    Stdin(OutputRequest),
    Stdout(OutputResponse),
    Stderr(OutputResponse),
    Shutdown,
}

} // verus!
