//! What holds of whole runs of the relay loops and of the session.
use vstd::prelude::*;
use crate::error::{RelayError, SessionError, SetupError};
use crate::inbound::{
    chunk_well_formed, inbound_next, InAction, InEvent, InboundPhase, InboundView, MAX_CHUNK,
    MAX_OFFSET,
};
use crate::outbound::{outbound_next, OutAction, OutEvent, OutboundPhase, OutboundView};
use crate::session::{
    lift, rank, session_next, Direction, Role, SessionAction, SessionEvent, SessionPhase,
};

verus! {

/// The buffers of `bufs` one after another.
pub open spec fn concat_all(bufs: Seq<Seq<u8>>) -> Seq<u8>
    decreases bufs.len(),
{
    if bufs.len() == 0 {
        Seq::empty()
    } else {
        concat_all(bufs.drop_last()) + bufs.last()
    }
}

/// Every buffer of `bufs` holds at least one byte.
pub open spec fn all_nonempty(bufs: Seq<Seq<u8>>) -> bool {
    forall|i: int| 0 <= i < bufs.len() ==> 0 < #[trigger] bufs[i].len()
}

/// Every buffer of `bufs` holds at most `max` bytes.
pub open spec fn all_at_most(bufs: Seq<Seq<u8>>, max: nat) -> bool {
    forall|i: int| 0 <= i < bufs.len() ==> #[trigger] bufs[i].len() <= max
}

/// The state of the inbound loop after the events `evs`, from `v`.
pub open spec fn inbound_run(v: InboundView, evs: Seq<InEvent>) -> InboundView
    decreases evs.len(),
{
    if evs.len() == 0 {
        v
    } else {
        inbound_next(inbound_run(v, evs.drop_last()), evs.last()).0
    }
}

/// The state of the outbound loop after the events `evs`, from `v`.
pub open spec fn outbound_run(v: OutboundView, evs: Seq<OutEvent>) -> OutboundView
    decreases evs.len(),
{
    if evs.len() == 0 {
        v
    } else {
        outbound_next(outbound_run(v, evs.drop_last()), evs.last()).0
    }
}

/// The bytes that the inbound loop hands to local output, in `Write`
/// actions, over the events `evs` from `v`.
pub open spec fn inbound_writes(v: InboundView, evs: Seq<InEvent>) -> Seq<u8>
    decreases evs.len(),
{
    if evs.len() == 0 {
        Seq::empty()
    } else {
        let before = inbound_run(v, evs.drop_last());
        inbound_writes(v, evs.drop_last()) + match inbound_next(before, evs.last()).1 {
            InAction::Write(bytes) => bytes,
            _ => Seq::empty(),
        }
    }
}

/// The bytes that the outbound loop hands to the send half, in `Write`
/// actions, over the events `evs` from `v`.
pub open spec fn outbound_writes(v: OutboundView, evs: Seq<OutEvent>) -> Seq<u8>
    decreases evs.len(),
{
    if evs.len() == 0 {
        Seq::empty()
    } else {
        let before = outbound_run(v, evs.drop_last());
        outbound_writes(v, evs.drop_last()) + match outbound_next(before, evs.last()).1 {
            OutAction::Write(bytes) => bytes,
            _ => Seq::empty(),
        }
    }
}

/// The phase of a session of `role` after the events `evs`, from `p`.
pub open spec fn session_run(role: Role, p: SessionPhase, evs: Seq<SessionEvent>) -> SessionPhase
    decreases evs.len(),
{
    if evs.len() == 0 {
        p
    } else {
        session_next(role, session_run(role, p, evs.drop_last()), evs.last()).0
    }
}

/// What the receive half reports when it delivers `chunks` in order, each
/// written out before the next is read.
pub open spec fn delivery_events(chunks: Seq<Seq<u8>>) -> Seq<InEvent>
    decreases chunks.len(),
{
    if chunks.len() == 0 {
        Seq::empty()
    } else {
        delivery_events(chunks.drop_last()) + seq![
            InEvent::Chunk(concat_all(chunks.drop_last()).len() as u64, chunks.last()),
            InEvent::OutputWritten,
        ]
    }
}

/// What the outbound loop observes when local input yields `bufs`, each
/// taken by the send half before the next is read.
pub open spec fn input_events(bufs: Seq<Seq<u8>>) -> Seq<OutEvent>
    decreases bufs.len(),
{
    if bufs.len() == 0 {
        Seq::empty()
    } else {
        input_events(bufs.drop_last()) + seq![OutEvent::Input(bufs.last()), OutEvent::Written]
    }
}

/// The events that end the outbound loop cleanly: end of input, then the finish.
pub open spec fn closing_events() -> Seq<OutEvent> {
    seq![OutEvent::Input(Seq::empty()), OutEvent::Finished]
}

/// A chunk event carries bytes of `stream` at their own offsets.
pub open spec fn faithful(stream: Seq<u8>, e: InEvent) -> bool {
    match e {
        InEvent::Chunk(offset, bytes) => offset + bytes.len() <= stream.len() && bytes
            == stream.subrange(offset as int, offset + bytes.len()),
        _ => true,
    }
}

proof fn lemma_inbound_run_two(v: InboundView, evs: Seq<InEvent>, a: InEvent, b: InEvent)
    ensures
        inbound_run(v, evs + seq![a, b]) == inbound_next(
            inbound_next(inbound_run(v, evs), a).0,
            b,
        ).0,
{
    let all = evs + seq![a, b];
    assert(all.drop_last() =~= evs.push(a));
    assert(evs.push(a).drop_last() =~= evs);
    assert(all.last() == b);
    assert(evs.push(a).last() == a);
    assert(inbound_run(v, evs.push(a)) == inbound_next(inbound_run(v, evs), a).0);
    assert(inbound_run(v, all) == inbound_next(inbound_run(v, all.drop_last()), b).0);
}

proof fn lemma_outbound_run_two(v: OutboundView, evs: Seq<OutEvent>, a: OutEvent, b: OutEvent)
    ensures
        outbound_run(v, evs + seq![a, b]) == outbound_next(
            outbound_next(outbound_run(v, evs), a).0,
            b,
        ).0,
{
    let all = evs + seq![a, b];
    assert(all.drop_last() =~= evs.push(a));
    assert(evs.push(a).drop_last() =~= evs);
    assert(all.last() == b);
    assert(evs.push(a).last() == a);
    assert(outbound_run(v, evs.push(a)) == outbound_next(outbound_run(v, evs), a).0);
    assert(outbound_run(v, all) == outbound_next(outbound_run(v, all.drop_last()), b).0);
}

proof fn lemma_concat_all_len_prefix(bufs: Seq<Seq<u8>>)
    requires
        bufs.len() > 0,
    ensures
        concat_all(bufs.drop_last()).len() <= concat_all(bufs).len(),
{
}

/// Every step of the inbound loop keeps its state valid: local output is
/// always a prefix of the bytes accepted from the stream.
pub proof fn law_inbound_step_valid(v: InboundView, e: InEvent)
    requires
        v.valid(),
    ensures
        inbound_next(v, e).0.valid(),
{
    if let InEvent::Chunk(offset, bytes) = e {
        if v.phase == InboundPhase::Receiving && chunk_well_formed(offset, bytes) && offset
            == v.received.len() {
            assert(v.written.is_prefix_of(v.received + bytes));
        }
    }
}

/// Every step of the outbound loop keeps its state valid: the bytes the send
/// half took are always a prefix of the bytes read from local input.
pub proof fn law_outbound_step_valid(v: OutboundView, e: OutEvent)
    requires
        v.valid(),
    ensures
        outbound_next(v, e).0.valid(),
{
    if let OutEvent::Input(bytes) = e {
        if v.phase == OutboundPhase::Reading {
            assert(v.sent.is_prefix_of(v.input + bytes));
        }
    }
}

/// No insertion, loss or reordering: when every chunk the receive half hands
/// over holds the bytes of `stream` at its offset, then whatever the events,
/// the bytes accepted and the bytes written out are a prefix of `stream`.
pub proof fn law_inbound_output_is_prefix(stream: Seq<u8>, evs: Seq<InEvent>)
    requires
        forall|i: int| 0 <= i < evs.len() ==> faithful(stream, #[trigger] evs[i]),
    ensures
        inbound_run(InboundView::initial(), evs).received.is_prefix_of(stream),
        inbound_run(InboundView::initial(), evs).written.is_prefix_of(stream),
        inbound_run(InboundView::initial(), evs).valid(),
        inbound_writes(InboundView::initial(), evs).is_prefix_of(stream),
    decreases evs.len(),
{
    law_inbound_writes_received(evs);
    let init = InboundView::initial();
    if evs.len() == 0 {
        assert(init.received.is_prefix_of(stream));
        assert(init.written.is_prefix_of(stream));
    } else {
        let prev = evs.drop_last();
        assert forall|i: int| 0 <= i < prev.len() implies faithful(stream, #[trigger] prev[i]) by {
            assert(prev[i] == evs[i]);
        }
        law_inbound_output_is_prefix(stream, prev);
        let v = inbound_run(init, prev);
        law_inbound_step_valid(v, evs.last());
        assert(faithful(stream, evs[evs.len() - 1]));
        if let InEvent::Chunk(offset, bytes) = evs.last() {
            if v.phase == InboundPhase::Receiving && chunk_well_formed(offset, bytes) && offset
                == v.received.len() && bytes.len() > 0 {
                let n = inbound_next(v, evs.last()).0;
                assert(n.received =~= stream.subrange(0, offset + bytes.len()));
            }
        }
    }
}

/// Every byte the inbound loop accepts from the stream is handed to local
/// output exactly once, in stream order.
pub proof fn law_inbound_writes_received(evs: Seq<InEvent>)
    ensures
        inbound_writes(InboundView::initial(), evs) == inbound_run(
            InboundView::initial(),
            evs,
        ).received,
    decreases evs.len(),
{
    if evs.len() > 0 {
        law_inbound_writes_received(evs.drop_last());
        let v = inbound_run(InboundView::initial(), evs.drop_last());
        let n = inbound_next(v, evs.last());
        if n.1 is Write {
            assert(inbound_writes(InboundView::initial(), evs) =~= n.0.received);
        } else {
            assert(inbound_writes(InboundView::initial(), evs) =~= n.0.received);
        }
    }
}

/// Every byte the outbound loop reads from local input is handed to the send
/// half exactly once, in input order.
pub proof fn law_outbound_writes_input(evs: Seq<OutEvent>)
    ensures
        outbound_writes(OutboundView::initial(), evs) == outbound_run(
            OutboundView::initial(),
            evs,
        ).input,
    decreases evs.len(),
{
    if evs.len() > 0 {
        law_outbound_writes_input(evs.drop_last());
        let v = outbound_run(OutboundView::initial(), evs.drop_last());
        let n = outbound_next(v, evs.last());
        if n.1 is Write {
            assert(outbound_writes(OutboundView::initial(), evs) =~= n.0.input);
        } else {
            assert(outbound_writes(OutboundView::initial(), evs) =~= n.0.input);
        }
    }
}

/// Chunked delivery: when the receive half hands over `chunks` in order, at
/// their offsets, each no larger than a read asks for, the inbound loop hands
/// exactly their concatenation to local output, however many chunks there
/// are; at end of stream it then ends cleanly.
pub proof fn law_chunked_delivery(chunks: Seq<Seq<u8>>)
    requires
        all_nonempty(chunks),
        all_at_most(chunks, MAX_CHUNK as nat),
        concat_all(chunks).len() <= MAX_OFFSET,
    ensures
        inbound_run(InboundView::initial(), delivery_events(chunks)) == (InboundView {
            phase: InboundPhase::Receiving,
            received: concat_all(chunks),
            written: concat_all(chunks),
        }),
        inbound_writes(InboundView::initial(), delivery_events(chunks)) == concat_all(chunks),
        inbound_run(
            InboundView::initial(),
            delivery_events(chunks).push(InEvent::EndOfStream),
        ) == (InboundView {
            phase: InboundPhase::Ended,
            received: concat_all(chunks),
            written: concat_all(chunks),
        }),
        inbound_writes(
            InboundView::initial(),
            delivery_events(chunks).push(InEvent::EndOfStream),
        ) == concat_all(chunks),
    decreases chunks.len(),
{
    let init = InboundView::initial();
    let evs = delivery_events(chunks);
    if chunks.len() > 0 {
        let prev = chunks.drop_last();
        assert(all_nonempty(prev)) by {
            assert forall|i: int| 0 <= i < prev.len() implies 0 < #[trigger] prev[i].len() by {
                assert(prev[i] == chunks[i]);
            }
        }
        assert(all_at_most(prev, MAX_CHUNK as nat)) by {
            assert forall|i: int| 0 <= i < prev.len() implies #[trigger] prev[i].len()
                <= MAX_CHUNK as nat by {
                assert(prev[i] == chunks[i]);
            }
        }
        lemma_concat_all_len_prefix(chunks);
        law_chunked_delivery(prev);
        let last = chunks.last();
        assert(0 < chunks[chunks.len() - 1].len() <= MAX_CHUNK);
        let c = InEvent::Chunk(concat_all(prev).len() as u64, last);
        lemma_inbound_run_two(init, delivery_events(prev), c, InEvent::OutputWritten);
        assert(inbound_run(init, evs).received =~= concat_all(chunks));
    } else {
        assert(evs =~= Seq::<InEvent>::empty());
    }
    law_inbound_writes_received(evs);
    law_inbound_writes_received(evs.push(InEvent::EndOfStream));
    assert(evs.push(InEvent::EndOfStream).drop_last() =~= evs);
}

/// Input to stream: when local input yields `bufs` and then ends, the
/// outbound loop hands exactly their concatenation to the send half, asks for
/// the send half to be finished, and ends cleanly once it is.
pub proof fn law_input_sent(bufs: Seq<Seq<u8>>)
    requires
        all_nonempty(bufs),
    ensures
        outbound_run(OutboundView::initial(), input_events(bufs)) == (OutboundView {
            phase: OutboundPhase::Reading,
            input: concat_all(bufs),
            sent: concat_all(bufs),
        }),
        outbound_writes(OutboundView::initial(), input_events(bufs)) == concat_all(bufs),
        outbound_next(
            outbound_run(OutboundView::initial(), input_events(bufs)),
            OutEvent::Input(Seq::empty()),
        ).1 == OutAction::FinishStream,
        outbound_run(OutboundView::initial(), input_events(bufs) + closing_events()) == (
        OutboundView {
            phase: OutboundPhase::Finished,
            input: concat_all(bufs),
            sent: concat_all(bufs),
        }),
        outbound_writes(OutboundView::initial(), input_events(bufs) + closing_events())
            == concat_all(bufs),
    decreases bufs.len(),
{
    let init = OutboundView::initial();
    let evs = input_events(bufs);
    if bufs.len() > 0 {
        let prev = bufs.drop_last();
        assert(all_nonempty(prev)) by {
            assert forall|i: int| 0 <= i < prev.len() implies 0 < #[trigger] prev[i].len() by {
                assert(prev[i] == bufs[i]);
            }
        }
        law_input_sent(prev);
        assert(0 < bufs[bufs.len() - 1].len());
        lemma_outbound_run_two(
            init,
            input_events(prev),
            OutEvent::Input(bufs.last()),
            OutEvent::Written,
        );
    } else {
        assert(evs =~= Seq::<OutEvent>::empty());
    }
    lemma_outbound_run_two(init, evs, OutEvent::Input(Seq::empty()), OutEvent::Finished);
    law_outbound_writes_input(evs);
    law_outbound_writes_input(evs + closing_events());
}

/// Round trip: whatever local input yields on one side, and however the
/// transport cuts the same bytes into chunks for the other side, the bytes
/// that the inbound loop hands to local output are exactly the bytes of that
/// input, in order; both loops end cleanly.
pub proof fn law_round_trip(bufs: Seq<Seq<u8>>, chunks: Seq<Seq<u8>>)
    requires
        all_nonempty(bufs),
        all_nonempty(chunks),
        all_at_most(chunks, MAX_CHUNK as nat),
        concat_all(chunks) == outbound_writes(
            OutboundView::initial(),
            input_events(bufs) + closing_events(),
        ),
        concat_all(bufs).len() <= MAX_OFFSET,
    ensures
        outbound_run(OutboundView::initial(), input_events(bufs) + closing_events()).phase
            == OutboundPhase::Finished,
        inbound_run(
            InboundView::initial(),
            delivery_events(chunks).push(InEvent::EndOfStream),
        ).phase == InboundPhase::Ended,
        inbound_writes(
            InboundView::initial(),
            delivery_events(chunks).push(InEvent::EndOfStream),
        ) == concat_all(bufs),
{
    law_input_sent(bufs);
    law_chunked_delivery(chunks);
}

/// A clean end of stream is no failure: a waiting inbound loop ends with
/// success as soon as the peer finishes its send half.
pub proof fn law_end_of_stream_is_clean(v: InboundView)
    requires
        v.phase == InboundPhase::Receiving,
    ensures
        inbound_next(v, InEvent::EndOfStream) == (
            InboundView { phase: InboundPhase::Ended, ..v },
            InAction::Stop(Ok(())),
        ),
{
}

/// End of local input always finishes the send half: a reading outbound loop
/// that meets end of input asks for the finish, never for another read.
pub proof fn law_end_of_input_finishes(v: OutboundView)
    requires
        v.phase == OutboundPhase::Reading,
    ensures
        outbound_next(v, OutEvent::Input(Seq::empty())) == (
            OutboundView { phase: OutboundPhase::Finishing, ..v },
            OutAction::FinishStream,
        ),
{
}

/// A relay loop that stopped stays stopped, and reports the same outcome to
/// whatever event reaches it late.
pub proof fn law_stopped_loops_stay_stopped(i: InboundView, ie: InEvent, o: OutboundView, oe: OutEvent)
    requires
        i.phase is Ended || i.phase is Failed,
        o.phase is Finished || o.phase is Failed,
    ensures
        inbound_next(i, ie) == (i, InAction::Stop(i.outcome())),
        outbound_next(o, oe) == (o, OutAction::Stop(o.outcome())),
{
}

/// A session never goes back: every event moves an open session to a later
/// phase.
pub proof fn law_session_moves_forward(role: Role, p: SessionPhase, e: SessionEvent)
    requires
        !(p is Closed),
    ensures
        rank(session_next(role, p, e).0) > rank(p),
{
}

/// A closed session stays closed with its outcome, whatever events reach it
/// late.
pub proof fn law_closed_session_ignores_events(role: Role, p: SessionPhase, e: SessionEvent)
    requires
        p is Closed,
    ensures
        session_next(role, p, e).0 == p,
{
}

/// A setup failure ends the session at once, with that failure as outcome.
pub proof fn law_setup_failure_ends_session(role: Role, s: SetupError)
    ensures
        session_run(
            role,
            SessionPhase::Idle,
            seq![SessionEvent::Begin, SessionEvent::SetupFailed(s)],
        ) == SessionPhase::Closed(Err(SessionError::Setup(s))),
{
    reveal_with_fuel(session_run, 3);
}

/// When the peer finishes its send half, the session closes without waiting
/// for local input: it gives up the outbound loop and ends with success.
pub proof fn law_peer_end_closes_session(role: Role)
    ensures
        session_run(
            role,
            SessionPhase::Idle,
            seq![
                SessionEvent::Begin,
                SessionEvent::StreamReady,
                SessionEvent::Launched,
                SessionEvent::InboundEnded(Ok(())),
                SessionEvent::OutboundAbandoned,
            ],
        ) == SessionPhase::Closed(Ok(())),
{
    reveal_with_fuel(session_run, 6);
}

/// Finishing the send half leaves the receive half at work: once the
/// outbound loop ends, the session drains the inbound loop and ends with the
/// outcome of both.
pub proof fn law_half_close_drains_inbound(
    role: Role,
    out: Result<(), RelayError>,
    inb: Result<(), RelayError>,
)
    ensures
        session_next(role, SessionPhase::Relaying, SessionEvent::OutboundEnded(out)).1
            == SessionAction::DrainInbound,
        session_run(
            role,
            SessionPhase::Relaying,
            seq![SessionEvent::OutboundEnded(out), SessionEvent::InboundEnded(inb)],
        ) == SessionPhase::Closed(
            if out is Err {
                lift(Direction::Outbound, out)
            } else {
                lift(Direction::Inbound, inb)
            },
        ),
{
    reveal_with_fuel(session_run, 3);
}

} // verus!
