//! The outbound relay: moves whatever local input yields to the stream's send
//! half, and finishes the send half once local input is exhausted.
use vstd::prelude::*;
use crate::error::RelayError;

verus! {

/// What the driver of the outbound loop observed.
#[derive(Clone, Debug, PartialEq, Eq)]
pub enum OutboundEvent {
    /// Local input yielded these bytes; none means end of input.
    Input(Vec<u8>),
    /// Local input could not be read.
    InputFailed,
    /// The send half took the last buffer handed out.
    Written,
    /// The send half refused the last buffer.
    WriteFailed,
    /// The send half was finished: the peer will see end of stream.
    Finished,
    /// The transport refused to finish the send half.
    FinishFailed,
}

/// What the driver of the outbound loop is to do next.
#[derive(Debug, PartialEq, Eq)]
pub enum OutboundAction {
    /// Read whatever local input has available.
    ReadInput,
    /// Write these bytes, all of them, to the send half.
    Write(Vec<u8>),
    /// Finish the send half.
    FinishStream,
    /// The loop is over, with this outcome.
    Stop(Result<(), RelayError>),
}

/// An outbound event as a mathematical value.
pub ghost enum OutEvent {
    Input(Seq<u8>),
    InputFailed,
    Written,
    WriteFailed,
    Finished,
    FinishFailed,
}

/// An outbound action as a mathematical value.
pub ghost enum OutAction {
    ReadInput,
    Write(Seq<u8>),
    FinishStream,
    Stop(Result<(), RelayError>),
}

impl View for OutboundEvent {
    type V = OutEvent;

    open spec fn view(&self) -> OutEvent {
        match self {
            OutboundEvent::Input(bytes) => OutEvent::Input(bytes@),
            OutboundEvent::InputFailed => OutEvent::InputFailed,
            OutboundEvent::Written => OutEvent::Written,
            OutboundEvent::WriteFailed => OutEvent::WriteFailed,
            OutboundEvent::Finished => OutEvent::Finished,
            OutboundEvent::FinishFailed => OutEvent::FinishFailed,
        }
    }
}

impl View for OutboundAction {
    type V = OutAction;

    open spec fn view(&self) -> OutAction {
        match self {
            OutboundAction::ReadInput => OutAction::ReadInput,
            OutboundAction::Write(bytes) => OutAction::Write(bytes@),
            OutboundAction::FinishStream => OutAction::FinishStream,
            OutboundAction::Stop(outcome) => OutAction::Stop(*outcome),
        }
    }
}

/// Where the outbound loop stands.
#[derive(Clone, Copy, Debug, PartialEq, Eq, Structural)]
pub enum OutboundPhase {
    /// Waiting for local input.
    Reading,
    /// Waiting for the send half to take the last buffer.
    Writing,
    /// Local input is exhausted; waiting for the send half to finish.
    Finishing,
    /// Every byte of local input was sent and the send half is finished.
    Finished,
    /// The loop stopped abnormally.
    Failed(RelayError),
}

/// The outbound loop as a mathematical value: the bytes read from local input
/// and the bytes the send half has taken.
pub ghost struct OutboundView {
    pub phase: OutboundPhase,
    pub input: Seq<u8>,
    pub sent: Seq<u8>,
}

impl OutboundView {
    /// The state of a loop that has seen nothing yet.
    pub open spec fn initial() -> OutboundView {
        OutboundView { phase: OutboundPhase::Reading, input: Seq::empty(), sent: Seq::empty() }
    }

    /// The send half lags local input by at most the buffer being written.
    pub open spec fn valid(self) -> bool {
        &&& self.sent.is_prefix_of(self.input)
        &&& (self.phase != OutboundPhase::Writing ==> self.sent.len() == self.input.len()
            || self.phase is Failed)
    }

    /// The outcome reported once the loop is over.
    pub open spec fn outcome(self) -> Result<(), RelayError> {
        match self.phase {
            OutboundPhase::Failed(e) => Err(e),
            _ => Ok(()),
        }
    }

    pub open spec fn fail(self, e: RelayError) -> (OutboundView, OutAction) {
        (OutboundView { phase: OutboundPhase::Failed(e), ..self }, OutAction::Stop(Err(e)))
    }
}

/// One step of the outbound loop: the state after `e`, and what to do next.
pub open spec fn outbound_next(v: OutboundView, e: OutEvent) -> (OutboundView, OutAction) {
    match v.phase {
        OutboundPhase::Reading => match e {
            OutEvent::Input(bytes) => {
                if bytes.len() == 0 {
                    (OutboundView { phase: OutboundPhase::Finishing, ..v }, OutAction::FinishStream)
                } else {
                    (
                        OutboundView { phase: OutboundPhase::Writing, input: v.input + bytes, ..v },
                        OutAction::Write(bytes),
                    )
                }
            },
            OutEvent::InputFailed => v.fail(RelayError::LocalInput),
            _ => v.fail(RelayError::UnexpectedEvent),
        },
        OutboundPhase::Writing => match e {
            OutEvent::Written => (
                OutboundView { phase: OutboundPhase::Reading, sent: v.input, ..v },
                OutAction::ReadInput,
            ),
            OutEvent::WriteFailed => v.fail(RelayError::Stream),
            _ => v.fail(RelayError::UnexpectedEvent),
        },
        OutboundPhase::Finishing => match e {
            OutEvent::Finished => (
                OutboundView { phase: OutboundPhase::Finished, ..v },
                OutAction::Stop(Ok(())),
            ),
            OutEvent::FinishFailed => v.fail(RelayError::Finish),
            _ => v.fail(RelayError::UnexpectedEvent),
        },
        _ => (v, OutAction::Stop(v.outcome())),
    }
}

/// The outbound loop. It owns no I/O handle: its driver performs each action
/// and reports what came of it.
pub struct OutboundRelay {
    phase: OutboundPhase,
    input: Ghost<Seq<u8>>,
    sent: Ghost<Seq<u8>>,
}

impl View for OutboundRelay {
    type V = OutboundView;

    closed spec fn view(&self) -> OutboundView {
        OutboundView { phase: self.phase, input: self.input@, sent: self.sent@ }
    }
}

impl OutboundRelay {
    pub closed spec fn wf(&self) -> bool {
        self@.valid()
    }

    /// A loop that has seen nothing yet, and its first action: read local input.
    pub fn new() -> (r: (OutboundRelay, OutboundAction))
        ensures
            r.0.wf(),
            r.0@ == OutboundView::initial(),
            r.1@ == OutAction::ReadInput,
    {
        let relay = OutboundRelay {
            phase: OutboundPhase::Reading,
            input: Ghost(Seq::empty()),
            sent: Ghost(Seq::empty()),
        };
        (relay, OutboundAction::ReadInput)
    }

    pub fn phase(&self) -> (p: OutboundPhase)
        ensures
            p == self@.phase,
    {
        self.phase
    }

    fn fail(&mut self, e: RelayError) -> (a: OutboundAction)
        requires
            old(self).wf(),
        ensures
            (final(self)@, a@) == old(self)@.fail(e),
            final(self).wf(),
    {
        self.phase = OutboundPhase::Failed(e);
        OutboundAction::Stop(Err(e))
    }

    /// Takes what the driver observed and returns the next action.
    pub fn step(&mut self, e: OutboundEvent) -> (a: OutboundAction)
        requires
            old(self).wf(),
        ensures
            final(self).wf(),
            (final(self)@, a@) == outbound_next(old(self)@, e@),
    {
        match self.phase {
            OutboundPhase::Reading => match e {
                OutboundEvent::Input(bytes) => {
                    if bytes.len() == 0 {
                        self.phase = OutboundPhase::Finishing;
                        OutboundAction::FinishStream
                    } else {
                        self.phase = OutboundPhase::Writing;
                        self.input = Ghost(self.input@ + bytes@);
                        proof {
                            assert(self.sent@.is_prefix_of(self.input@));
                        }
                        OutboundAction::Write(bytes)
                    }
                },
                OutboundEvent::InputFailed => self.fail(RelayError::LocalInput),
                _ => self.fail(RelayError::UnexpectedEvent),
            },
            OutboundPhase::Writing => match e {
                OutboundEvent::Written => {
                    self.phase = OutboundPhase::Reading;
                    self.sent = Ghost(self.input@);
                    OutboundAction::ReadInput
                },
                OutboundEvent::WriteFailed => self.fail(RelayError::Stream),
                _ => self.fail(RelayError::UnexpectedEvent),
            },
            OutboundPhase::Finishing => match e {
                OutboundEvent::Finished => {
                    self.phase = OutboundPhase::Finished;
                    OutboundAction::Stop(Ok(()))
                },
                OutboundEvent::FinishFailed => self.fail(RelayError::Finish),
                _ => self.fail(RelayError::UnexpectedEvent),
            },
            OutboundPhase::Finished => OutboundAction::Stop(Ok(())),
            OutboundPhase::Failed(err) => OutboundAction::Stop(Err(err)),
        }
    }
}

} // verus!
