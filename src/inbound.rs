//! The inbound relay: moves chunks from the stream's receive half to local
//! output, in stream order, until the peer finishes its send half.
use vstd::prelude::*;
use crate::error::RelayError;

verus! {

/// The largest chunk asked of the receive half in one read.
pub const MAX_CHUNK: usize = 1048576;

/// The largest stream offset a chunk may reach.
pub const MAX_OFFSET: u64 = 0xffff_ffff_ffff_ffff;

/// What the driver of the inbound loop observed.
#[derive(Clone, Debug, PartialEq, Eq)]
pub enum InboundEvent {
    /// A chunk arrived; `offset` is the stream offset of its first byte.
    Chunk { offset: u64, bytes: Vec<u8> },
    /// The peer finished its send half and every byte has been read.
    EndOfStream,
    /// The receive half or its connection failed.
    StreamFailed,
    /// The last chunk handed out was written to local output.
    OutputWritten,
    /// Local output refused the last chunk.
    OutputFailed,
}

/// What the driver of the inbound loop is to do next.
#[derive(Debug, PartialEq, Eq)]
pub enum InboundAction {
    /// Read the next chunk, in order, of at most `max_len` bytes.
    Read { max_len: usize },
    /// Write these bytes to local output.
    Write(Vec<u8>),
    /// The loop is over, with this outcome.
    Stop(Result<(), RelayError>),
}

/// An inbound event as a mathematical value.
pub ghost enum InEvent {
    Chunk(u64, Seq<u8>),
    EndOfStream,
    StreamFailed,
    OutputWritten,
    OutputFailed,
}

/// An inbound action as a mathematical value.
pub ghost enum InAction {
    Read(nat),
    Write(Seq<u8>),
    Stop(Result<(), RelayError>),
}

impl View for InboundEvent {
    type V = InEvent;

    open spec fn view(&self) -> InEvent {
        match self {
            InboundEvent::Chunk { offset, bytes } => InEvent::Chunk(*offset, bytes@),
            InboundEvent::EndOfStream => InEvent::EndOfStream,
            InboundEvent::StreamFailed => InEvent::StreamFailed,
            InboundEvent::OutputWritten => InEvent::OutputWritten,
            InboundEvent::OutputFailed => InEvent::OutputFailed,
        }
    }
}

impl View for InboundAction {
    type V = InAction;

    open spec fn view(&self) -> InAction {
        match self {
            InboundAction::Read { max_len } => InAction::Read(*max_len as nat),
            InboundAction::Write(bytes) => InAction::Write(bytes@),
            InboundAction::Stop(outcome) => InAction::Stop(*outcome),
        }
    }
}

/// Where the inbound loop stands.
#[derive(Clone, Copy, Debug, PartialEq, Eq, Structural)]
pub enum InboundPhase {
    /// Waiting for the next chunk.
    Receiving,
    /// Waiting for local output to take the last chunk.
    Writing,
    /// The peer finished its send half; every received byte was written.
    Ended,
    /// The loop stopped abnormally.
    Failed(RelayError),
}

/// The inbound loop as a mathematical value: the bytes accepted from the
/// stream, in stream order, and the bytes written to local output.
pub ghost struct InboundView {
    pub phase: InboundPhase,
    pub received: Seq<u8>,
    pub written: Seq<u8>,
}

impl InboundView {
    /// The state of a loop that has seen nothing yet.
    pub open spec fn initial() -> InboundView {
        InboundView { phase: InboundPhase::Receiving, received: Seq::empty(), written: Seq::empty() }
    }

    /// Local output lags the stream by at most the chunk being written.
    pub open spec fn valid(self) -> bool {
        &&& self.received.len() <= MAX_OFFSET
        &&& self.written.is_prefix_of(self.received)
        &&& (self.phase != InboundPhase::Writing ==> self.written.len() == self.received.len()
            || self.phase is Failed)
    }

    /// The outcome reported once the loop is over.
    pub open spec fn outcome(self) -> Result<(), RelayError> {
        match self.phase {
            InboundPhase::Failed(e) => Err(e),
            _ => Ok(()),
        }
    }

    pub open spec fn fail(self, e: RelayError) -> (InboundView, InAction) {
        (InboundView { phase: InboundPhase::Failed(e), ..self }, InAction::Stop(Err(e)))
    }
}

/// Whether a chunk at `offset` of `bytes` is well formed: no larger than a read
/// asks for, and within the range of stream offsets.
pub open spec fn chunk_well_formed(offset: u64, bytes: Seq<u8>) -> bool {
    bytes.len() <= MAX_CHUNK && offset + bytes.len() <= MAX_OFFSET
}

/// One step of the inbound loop: the state after `e`, and what to do next.
pub open spec fn inbound_next(v: InboundView, e: InEvent) -> (InboundView, InAction) {
    match v.phase {
        InboundPhase::Receiving => match e {
            InEvent::Chunk(offset, bytes) => {
                if !chunk_well_formed(offset, bytes) {
                    v.fail(RelayError::MalformedChunk)
                } else if offset != v.received.len() {
                    v.fail(RelayError::OutOfOrder)
                } else if bytes.len() == 0 {
                    (v, InAction::Read(MAX_CHUNK as nat))
                } else {
                    (
                        InboundView {
                            phase: InboundPhase::Writing,
                            received: v.received + bytes,
                            ..v
                        },
                        InAction::Write(bytes),
                    )
                }
            },
            InEvent::EndOfStream => (
                InboundView { phase: InboundPhase::Ended, ..v },
                InAction::Stop(Ok(())),
            ),
            InEvent::StreamFailed => v.fail(RelayError::Stream),
            _ => v.fail(RelayError::UnexpectedEvent),
        },
        InboundPhase::Writing => match e {
            InEvent::OutputWritten => (
                InboundView { phase: InboundPhase::Receiving, written: v.received, ..v },
                InAction::Read(MAX_CHUNK as nat),
            ),
            InEvent::OutputFailed => v.fail(RelayError::LocalOutput),
            _ => v.fail(RelayError::UnexpectedEvent),
        },
        _ => (v, InAction::Stop(v.outcome())),
    }
}

/// The inbound loop. It owns no I/O handle: its driver performs each action
/// and reports what came of it.
pub struct InboundRelay {
    phase: InboundPhase,
    received_len: u64,
    received: Ghost<Seq<u8>>,
    written: Ghost<Seq<u8>>,
}

impl View for InboundRelay {
    type V = InboundView;

    closed spec fn view(&self) -> InboundView {
        InboundView { phase: self.phase, received: self.received@, written: self.written@ }
    }
}

impl InboundRelay {
    pub closed spec fn wf(&self) -> bool {
        &&& self@.valid()
        &&& self.received_len == self.received@.len()
    }

    /// A loop that has seen nothing yet, and its first action: a read.
    pub fn new() -> (r: (InboundRelay, InboundAction))
        ensures
            r.0.wf(),
            r.0@ == InboundView::initial(),
            r.1@ == InAction::Read(MAX_CHUNK as nat),
    {
        let relay = InboundRelay {
            phase: InboundPhase::Receiving,
            received_len: 0,
            received: Ghost(Seq::empty()),
            written: Ghost(Seq::empty()),
        };
        (relay, InboundAction::Read { max_len: MAX_CHUNK })
    }

    pub fn phase(&self) -> (p: InboundPhase)
        ensures
            p == self@.phase,
    {
        self.phase
    }

    /// The number of bytes accepted from the stream so far.
    pub fn received_len(&self) -> (n: u64)
        requires
            self.wf(),
        ensures
            n == self@.received.len(),
    {
        self.received_len
    }

    fn fail(&mut self, e: RelayError) -> (a: InboundAction)
        requires
            old(self).wf(),
        ensures
            (final(self)@, a@) == old(self)@.fail(e),
            final(self).wf(),
    {
        self.phase = InboundPhase::Failed(e);
        InboundAction::Stop(Err(e))
    }

    /// Takes what the driver observed and returns the next action.
    pub fn step(&mut self, e: InboundEvent) -> (a: InboundAction)
        requires
            old(self).wf(),
        ensures
            final(self).wf(),
            (final(self)@, a@) == inbound_next(old(self)@, e@),
    {
        match self.phase {
            InboundPhase::Receiving => match e {
                InboundEvent::Chunk { offset, bytes } => {
                    let len = bytes.len();
                    if len > MAX_CHUNK || offset > MAX_OFFSET - len as u64 {
                        self.fail(RelayError::MalformedChunk)
                    } else if offset != self.received_len {
                        self.fail(RelayError::OutOfOrder)
                    } else if len == 0 {
                        InboundAction::Read { max_len: MAX_CHUNK }
                    } else {
                        self.phase = InboundPhase::Writing;
                        self.received_len = offset + len as u64;
                        self.received = Ghost(self.received@ + bytes@);
                        proof {
                            assert(self.written@.is_prefix_of(self.received@));
                        }
                        InboundAction::Write(bytes)
                    }
                },
                InboundEvent::EndOfStream => {
                    self.phase = InboundPhase::Ended;
                    InboundAction::Stop(Ok(()))
                },
                InboundEvent::StreamFailed => self.fail(RelayError::Stream),
                _ => self.fail(RelayError::UnexpectedEvent),
            },
            InboundPhase::Writing => match e {
                InboundEvent::OutputWritten => {
                    self.phase = InboundPhase::Receiving;
                    self.written = Ghost(self.received@);
                    InboundAction::Read { max_len: MAX_CHUNK }
                },
                InboundEvent::OutputFailed => self.fail(RelayError::LocalOutput),
                _ => self.fail(RelayError::UnexpectedEvent),
            },
            InboundPhase::Ended => InboundAction::Stop(Ok(())),
            InboundPhase::Failed(err) => InboundAction::Stop(Err(err)),
        }
    }
}

} // verus!
