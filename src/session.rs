//! The session coordinator: establishes one stream, runs both relay loops,
//! and closes the session when the first of them ends.
use vstd::prelude::*;
use crate::error::{RelayError, SessionError, SetupError};

verus! {

/// Which side of the connection this process plays.
#[derive(Clone, Copy, Debug, PartialEq, Eq, Structural)]
pub enum Role {
    /// Waits for one peer and for the stream that peer opens.
    Listener,
    /// Connects to a peer and opens the stream.
    Initiator,
}

/// Which relay loop a closing session still waits on, or gives up.
#[derive(Clone, Copy, Debug, PartialEq, Eq, Structural)]
pub enum Direction {
    Inbound,
    Outbound,
}

/// Where the session stands.
#[derive(Clone, Copy, Debug, PartialEq, Eq)]
pub enum SessionPhase {
    Idle,
    /// The endpoint is made; the connection and its stream are under way.
    Connecting,
    /// The stream's two halves are at hand.
    Established,
    /// Both relay loops run.
    Relaying,
    /// One loop ended with `first`; the `remaining` one is drained (inbound)
    /// or abandoned (outbound).
    Closing { remaining: Direction, first: Result<(), SessionError> },
    /// The session is over; the connection is dropped.
    Closed(Result<(), SessionError>),
}

/// What the driver of the session observed.
#[derive(Clone, Copy, Debug, PartialEq, Eq)]
pub enum SessionEvent {
    /// The driver is ready to set the session up.
    Begin,
    /// The connection is established and its one stream is open.
    StreamReady,
    /// The endpoint, the connection or the stream could not be had.
    SetupFailed(SetupError),
    /// Both relay loops are running.
    Launched,
    /// The inbound loop stopped with this outcome.
    InboundEnded(Result<(), RelayError>),
    /// The outbound loop stopped with this outcome.
    OutboundEnded(Result<(), RelayError>),
    /// The outbound loop was given up.
    OutboundAbandoned,
}

/// What the driver of the session is to do next.
#[derive(Clone, Copy, Debug, PartialEq, Eq)]
pub enum SessionAction {
    /// Make the endpoint for this role, then accept or connect, and get the stream.
    Establish(Role),
    /// Start both relay loops on the stream's halves.
    Launch,
    /// Wait for the first relay loop to stop.
    AwaitEither,
    /// Let the inbound loop run on until it stops.
    DrainInbound,
    /// Give up the outbound loop.
    AbandonOutbound,
    /// Drop the connection and report this outcome.
    End(Result<(), SessionError>),
}

/// The outcome of a relay loop, as the session reports it.
pub open spec fn lift(d: Direction, r: Result<(), RelayError>) -> Result<(), SessionError> {
    match r {
        Ok(()) => Ok(()),
        Err(e) => match d {
            Direction::Inbound => Err(SessionError::Inbound(e)),
            Direction::Outbound => Err(SessionError::Outbound(e)),
        },
    }
}

/// The outcome of a session whose loops ended with `first`, then `second`:
/// the first failure, if any.
pub open spec fn combine(
    first: Result<(), SessionError>,
    second: Result<(), SessionError>,
) -> Result<(), SessionError> {
    if first is Err {
        first
    } else {
        second
    }
}

/// The phases in the order a session passes through them.
pub open spec fn rank(p: SessionPhase) -> nat {
    match p {
        SessionPhase::Idle => 0,
        SessionPhase::Connecting => 1,
        SessionPhase::Established => 2,
        SessionPhase::Relaying => 3,
        SessionPhase::Closing { .. } => 4,
        SessionPhase::Closed(_) => 5,
    }
}

pub open spec fn end_with(o: Result<(), SessionError>) -> (SessionPhase, SessionAction) {
    (SessionPhase::Closed(o), SessionAction::End(o))
}

/// One step of the session of `role`: the phase after `e`, and what to do next.
pub open spec fn session_next(role: Role, p: SessionPhase, e: SessionEvent) -> (
    SessionPhase,
    SessionAction,
) {
    let unexpected = end_with(Err(SessionError::UnexpectedEvent));
    match p {
        SessionPhase::Idle => match e {
            SessionEvent::Begin => (SessionPhase::Connecting, SessionAction::Establish(role)),
            _ => unexpected,
        },
        SessionPhase::Connecting => match e {
            SessionEvent::StreamReady => (SessionPhase::Established, SessionAction::Launch),
            SessionEvent::SetupFailed(s) => end_with(Err(SessionError::Setup(s))),
            _ => unexpected,
        },
        SessionPhase::Established => match e {
            SessionEvent::Launched => (SessionPhase::Relaying, SessionAction::AwaitEither),
            _ => unexpected,
        },
        SessionPhase::Relaying => match e {
            SessionEvent::InboundEnded(r) => (
                SessionPhase::Closing {
                    remaining: Direction::Outbound,
                    first: lift(Direction::Inbound, r),
                },
                SessionAction::AbandonOutbound,
            ),
            SessionEvent::OutboundEnded(r) => (
                SessionPhase::Closing {
                    remaining: Direction::Inbound,
                    first: lift(Direction::Outbound, r),
                },
                SessionAction::DrainInbound,
            ),
            _ => unexpected,
        },
        SessionPhase::Closing { remaining, first } => match (remaining, e) {
            (Direction::Inbound, SessionEvent::InboundEnded(r)) => end_with(
                combine(first, lift(Direction::Inbound, r)),
            ),
            (Direction::Outbound, SessionEvent::OutboundAbandoned) => end_with(first),
            _ => unexpected,
        },
        SessionPhase::Closed(o) => end_with(o),
    }
}

/// One relay session of one process run.
pub struct Session {
    role: Role,
    phase: SessionPhase,
}

impl Session {
    pub closed spec fn spec_role(&self) -> Role {
        self.role
    }

    pub closed spec fn spec_phase(&self) -> SessionPhase {
        self.phase
    }

    /// A session of `role` that has not started.
    pub fn new(role: Role) -> (s: Session)
        ensures
            s.spec_role() == role,
            s.spec_phase() == SessionPhase::Idle,
    {
        Session { role, phase: SessionPhase::Idle }
    }

    pub fn role(&self) -> (r: Role)
        ensures
            r == self.spec_role(),
    {
        self.role
    }

    pub fn phase(&self) -> (p: SessionPhase)
        ensures
            p == self.spec_phase(),
    {
        self.phase
    }

    /// Whether the session is over.
    pub fn is_closed(&self) -> (b: bool)
        ensures
            b == self.spec_phase() is Closed,
    {
        match self.phase {
            SessionPhase::Closed(_) => true,
            _ => false,
        }
    }

    fn end(&mut self, o: Result<(), SessionError>) -> (a: SessionAction)
        ensures
            final(self).spec_role() == old(self).spec_role(),
            (final(self).spec_phase(), a) == end_with(o),
    {
        self.phase = SessionPhase::Closed(o);
        SessionAction::End(o)
    }

    /// Takes what the driver observed and returns the next action.
    pub fn step(&mut self, e: SessionEvent) -> (a: SessionAction)
        ensures
            final(self).spec_role() == old(self).spec_role(),
            (final(self).spec_phase(), a) == session_next(
                old(self).spec_role(),
                old(self).spec_phase(),
                e,
            ),
    {
        match self.phase {
            SessionPhase::Idle => match e {
                SessionEvent::Begin => {
                    self.phase = SessionPhase::Connecting;
                    SessionAction::Establish(self.role)
                },
                _ => self.end(Err(SessionError::UnexpectedEvent)),
            },
            SessionPhase::Connecting => match e {
                SessionEvent::StreamReady => {
                    self.phase = SessionPhase::Established;
                    SessionAction::Launch
                },
                SessionEvent::SetupFailed(s) => self.end(Err(SessionError::Setup(s))),
                _ => self.end(Err(SessionError::UnexpectedEvent)),
            },
            SessionPhase::Established => match e {
                SessionEvent::Launched => {
                    self.phase = SessionPhase::Relaying;
                    SessionAction::AwaitEither
                },
                _ => self.end(Err(SessionError::UnexpectedEvent)),
            },
            SessionPhase::Relaying => match e {
                SessionEvent::InboundEnded(r) => {
                    self.phase = SessionPhase::Closing {
                        remaining: Direction::Outbound,
                        first: lift_outcome(Direction::Inbound, r),
                    };
                    SessionAction::AbandonOutbound
                },
                SessionEvent::OutboundEnded(r) => {
                    self.phase = SessionPhase::Closing {
                        remaining: Direction::Inbound,
                        first: lift_outcome(Direction::Outbound, r),
                    };
                    SessionAction::DrainInbound
                },
                _ => self.end(Err(SessionError::UnexpectedEvent)),
            },
            SessionPhase::Closing { remaining, first } => match (remaining, e) {
                (Direction::Inbound, SessionEvent::InboundEnded(r)) => {
                    let second = lift_outcome(Direction::Inbound, r);
                    let o = if first.is_err() {
                        first
                    } else {
                        second
                    };
                    self.end(o)
                },
                (Direction::Outbound, SessionEvent::OutboundAbandoned) => self.end(first),
                _ => self.end(Err(SessionError::UnexpectedEvent)),
            },
            SessionPhase::Closed(o) => SessionAction::End(o),
        }
    }
}

/// The outcome of a relay loop of direction `d`, as the session reports it.
pub fn lift_outcome(d: Direction, r: Result<(), RelayError>) -> (o: Result<(), SessionError>)
    ensures
        o == lift(d, r),
{
    match r {
        Ok(()) => Ok(()),
        Err(e) => match d {
            Direction::Inbound => Err(SessionError::Inbound(e)),
            Direction::Outbound => Err(SessionError::Outbound(e)),
        },
    }
}

/// The process exit status for a session's outcome: zero exactly on success.
pub fn exit_status(o: Result<(), SessionError>) -> (c: u8)
    ensures
        c == 0 <==> o is Ok,
        o is Err ==> c == 1,
{
    match o {
        Ok(()) => 0,
        Err(_) => 1,
    }
}

} // verus!
