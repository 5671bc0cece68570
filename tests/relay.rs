use quic_relay::error::RelayError;
use quic_relay::inbound::{InboundAction, InboundEvent, InboundPhase, InboundRelay, MAX_CHUNK};
use quic_relay::outbound::{OutboundAction, OutboundEvent, OutboundPhase, OutboundRelay};

const MIB: usize = 1024 * 1024;

/// Bytes from a small xorshift generator, so that payloads are not uniform.
fn pseudo_random(len: usize, seed: u64) -> Vec<u8> {
    let mut x = seed | 1;
    let mut out = Vec::with_capacity(len);
    for _ in 0..len {
        x ^= x << 13;
        x ^= x >> 7;
        x ^= x << 17;
        out.push((x >> 24) as u8);
    }
    out
}

/// Runs the outbound loop over local input that yields `bufs`, then ends;
/// returns what reached the send half and the loop's outcome.
fn send_all(bufs: &[Vec<u8>]) -> (Vec<u8>, Result<(), RelayError>, bool) {
    let (mut relay, mut action) = OutboundRelay::new();
    let mut wire = Vec::new();
    let mut next = 0;
    let mut finished = false;
    loop {
        action = match action {
            OutboundAction::ReadInput => {
                let ev = if next < bufs.len() {
                    next += 1;
                    OutboundEvent::Input(bufs[next - 1].clone())
                } else {
                    OutboundEvent::Input(Vec::new())
                };
                relay.step(ev)
            }
            OutboundAction::Write(b) => {
                wire.extend_from_slice(&b);
                relay.step(OutboundEvent::Written)
            }
            OutboundAction::FinishStream => {
                finished = true;
                relay.step(OutboundEvent::Finished)
            }
            OutboundAction::Stop(r) => return (wire, r, finished),
        }
    }
}

/// Runs the inbound loop over a receive half that hands out `wire` in chunks
/// of at most `chunk` bytes, then ends; returns what reached local output.
fn receive_all(wire: &[u8], chunk: usize) -> (Vec<u8>, Result<(), RelayError>, usize) {
    let (mut relay, mut action) = InboundRelay::new();
    let mut out = Vec::new();
    let mut pos = 0;
    let mut reads = 0;
    loop {
        action = match action {
            InboundAction::Read { max_len } => {
                if pos < wire.len() {
                    let end = std::cmp::min(pos + std::cmp::min(chunk, max_len), wire.len());
                    let ev = InboundEvent::Chunk { offset: pos as u64, bytes: wire[pos..end].to_vec() };
                    pos = end;
                    reads += 1;
                    relay.step(ev)
                } else {
                    relay.step(InboundEvent::EndOfStream)
                }
            }
            InboundAction::Write(b) => {
                out.extend_from_slice(&b);
                relay.step(InboundEvent::OutputWritten)
            }
            InboundAction::Stop(r) => return (out, r, reads),
        }
    }
}

#[test]
fn round_trip_ten_mib() {
    let payload = pseudo_random(10 * MIB, 0x9e37_79b9);
    let bufs: Vec<Vec<u8>> = payload.chunks(64 * 1024).map(|c| c.to_vec()).collect();
    let (wire, sent, finished) = send_all(&bufs);
    assert_eq!(sent, Ok(()));
    assert!(finished);
    assert_eq!(wire.len(), payload.len());
    let (out, got, _) = receive_all(&wire, 700_000);
    assert_eq!(got, Ok(()));
    assert!(out == payload);
}

#[test]
fn three_mib_crosses_chunk_boundary() {
    let payload = pseudo_random(3 * MIB, 7);
    let (out, got, reads) = receive_all(&payload, usize::MAX);
    assert_eq!(got, Ok(()));
    assert_eq!(reads, 3);
    assert!(out == payload);
}

#[test]
fn read_asks_for_one_mib() {
    let (_, action) = InboundRelay::new();
    assert_eq!(action, InboundAction::Read { max_len: 1048576 });
    assert_eq!(MAX_CHUNK, 1048576);
}

#[test]
fn end_of_stream_is_clean() {
    let (mut relay, _) = InboundRelay::new();
    assert_eq!(relay.step(InboundEvent::EndOfStream), InboundAction::Stop(Ok(())));
    assert_eq!(relay.phase(), InboundPhase::Ended);
    assert_eq!(relay.step(InboundEvent::OutputWritten), InboundAction::Stop(Ok(())));
}

#[test]
fn empty_input_finishes_send_half() {
    let (wire, sent, finished) = send_all(&[]);
    assert!(wire.is_empty());
    assert_eq!(sent, Ok(()));
    assert!(finished);
}

#[test]
fn end_of_input_asks_for_finish() {
    let (mut relay, action) = OutboundRelay::new();
    assert_eq!(action, OutboundAction::ReadInput);
    assert_eq!(relay.step(OutboundEvent::Input(vec![1, 2])), OutboundAction::Write(vec![1, 2]));
    assert_eq!(relay.phase(), OutboundPhase::Writing);
    assert_eq!(relay.step(OutboundEvent::Written), OutboundAction::ReadInput);
    assert_eq!(relay.step(OutboundEvent::Input(Vec::new())), OutboundAction::FinishStream);
    assert_eq!(relay.phase(), OutboundPhase::Finishing);
    assert_eq!(relay.step(OutboundEvent::Finished), OutboundAction::Stop(Ok(())));
    assert_eq!(relay.phase(), OutboundPhase::Finished);
}

#[test]
fn bytes_after_peer_finish_still_arrive() {
    // The peer wrote N bytes and finished its send half before any was read.
    let n = 5000;
    let payload = pseudo_random(n, 11);
    let (out, got, _) = receive_all(&payload, 1000);
    assert_eq!(got, Ok(()));
    assert_eq!(out.len(), n);
    assert!(out == payload);
}

#[test]
fn chunk_in_order_is_written_out() {
    let (mut relay, _) = InboundRelay::new();
    let a = relay.step(InboundEvent::Chunk { offset: 0, bytes: vec![1, 2, 3] });
    assert_eq!(a, InboundAction::Write(vec![1, 2, 3]));
    assert_eq!(relay.received_len(), 3);
    assert_eq!(relay.phase(), InboundPhase::Writing);
    let a = relay.step(InboundEvent::OutputWritten);
    assert_eq!(a, InboundAction::Read { max_len: MAX_CHUNK });
    let a = relay.step(InboundEvent::Chunk { offset: 3, bytes: vec![4] });
    assert_eq!(a, InboundAction::Write(vec![4]));
    assert_eq!(relay.received_len(), 4);
}

#[test]
fn empty_chunk_reads_again() {
    let (mut relay, _) = InboundRelay::new();
    let a = relay.step(InboundEvent::Chunk { offset: 0, bytes: Vec::new() });
    assert_eq!(a, InboundAction::Read { max_len: MAX_CHUNK });
    assert_eq!(relay.phase(), InboundPhase::Receiving);
}

#[test]
fn chunk_out_of_order_fails() {
    let (mut relay, _) = InboundRelay::new();
    let a = relay.step(InboundEvent::Chunk { offset: 4, bytes: vec![1] });
    assert_eq!(a, InboundAction::Stop(Err(RelayError::OutOfOrder)));
    assert_eq!(relay.phase(), InboundPhase::Failed(RelayError::OutOfOrder));
    // a failed loop stays failed
    let a = relay.step(InboundEvent::EndOfStream);
    assert_eq!(a, InboundAction::Stop(Err(RelayError::OutOfOrder)));
}

#[test]
fn oversized_chunk_is_malformed() {
    let (mut relay, _) = InboundRelay::new();
    let a = relay.step(InboundEvent::Chunk { offset: 0, bytes: vec![0; MAX_CHUNK + 1] });
    assert_eq!(a, InboundAction::Stop(Err(RelayError::MalformedChunk)));
}

#[test]
fn largest_chunk_is_accepted() {
    let (mut relay, _) = InboundRelay::new();
    let a = relay.step(InboundEvent::Chunk { offset: 0, bytes: vec![5; MAX_CHUNK] });
    assert_eq!(a, InboundAction::Write(vec![5; MAX_CHUNK]));
}

#[test]
fn chunk_past_largest_offset_is_malformed() {
    let (mut relay, _) = InboundRelay::new();
    let a = relay.step(InboundEvent::Chunk { offset: u64::MAX, bytes: vec![1] });
    assert_eq!(a, InboundAction::Stop(Err(RelayError::MalformedChunk)));
}

#[test]
fn stream_failure_stops_inbound() {
    let (mut relay, _) = InboundRelay::new();
    assert_eq!(relay.step(InboundEvent::StreamFailed), InboundAction::Stop(Err(RelayError::Stream)));
}

#[test]
fn output_failure_stops_inbound() {
    let (mut relay, _) = InboundRelay::new();
    relay.step(InboundEvent::Chunk { offset: 0, bytes: vec![1] });
    assert_eq!(
        relay.step(InboundEvent::OutputFailed),
        InboundAction::Stop(Err(RelayError::LocalOutput))
    );
}

#[test]
fn unexpected_inbound_event_fails() {
    let (mut relay, _) = InboundRelay::new();
    assert_eq!(
        relay.step(InboundEvent::OutputWritten),
        InboundAction::Stop(Err(RelayError::UnexpectedEvent))
    );
}

#[test]
fn input_failure_stops_outbound() {
    let (mut relay, _) = OutboundRelay::new();
    assert_eq!(
        relay.step(OutboundEvent::InputFailed),
        OutboundAction::Stop(Err(RelayError::LocalInput))
    );
}

#[test]
fn write_failure_stops_outbound() {
    let (mut relay, _) = OutboundRelay::new();
    relay.step(OutboundEvent::Input(vec![9]));
    assert_eq!(
        relay.step(OutboundEvent::WriteFailed),
        OutboundAction::Stop(Err(RelayError::Stream))
    );
    assert_eq!(relay.phase(), OutboundPhase::Failed(RelayError::Stream));
}

#[test]
fn finish_failure_stops_outbound() {
    let (mut relay, _) = OutboundRelay::new();
    relay.step(OutboundEvent::Input(Vec::new()));
    assert_eq!(
        relay.step(OutboundEvent::FinishFailed),
        OutboundAction::Stop(Err(RelayError::Finish))
    );
}

#[test]
fn unexpected_outbound_event_fails() {
    let (mut relay, _) = OutboundRelay::new();
    assert_eq!(
        relay.step(OutboundEvent::Finished),
        OutboundAction::Stop(Err(RelayError::UnexpectedEvent))
    );
    assert_eq!(relay.step(OutboundEvent::Written), OutboundAction::Stop(Err(RelayError::UnexpectedEvent)));
}
