use switchbot::clock::Clock;
use switchbot::command::Command;
use switchbot::decode::{classify, deliver, DecodeOutcome, EdgeSampler};
use switchbot::mailbox::Mailbox;
use infrared::protocol::nec::NecCommand;
use infrared::receiver::DecodingError;

// Timestamps in ticks of 50 microseconds. A mark starts when the sensed
// level goes low (edge true) and ends when it goes high (edge false).
const HEADER_MARK: u32 = 180;
const HEADER_PERIOD: u32 = 270;
const BIT_MARK: u32 = 11;
const ZERO_PERIOD: u32 = 22;
const ONE_PERIOD: u32 = 45;

fn nec_edges(start: u32, addr: u8, cmd: u8) -> Vec<(u32, bool)> {
    let bits: u32 = u32::from(addr)
        | (u32::from(!addr) << 8)
        | (u32::from(cmd) << 16)
        | (u32::from(!cmd) << 24);
    let mut edges = Vec::new();
    let mut t = start;
    edges.push((t, true));
    edges.push((t + HEADER_MARK, false));
    t += HEADER_PERIOD;
    for i in 0..32 {
        edges.push((t, true));
        edges.push((t + BIT_MARK, false));
        t += if (bits >> i) & 1 == 1 { ONE_PERIOD } else { ZERO_PERIOD };
    }
    edges.push((t, true));
    edges
}

fn feed(sampler: &mut EdgeSampler, m: &mut Mailbox<Command>, edges: &[(u32, bool)]) -> Vec<DecodeOutcome> {
    edges
        .iter()
        .map(|&(t, e)| sampler.on_edge(e, &Clock::from_count(t), m))
        .collect()
}

#[test]
fn full_frame_is_published() {
    let mut sampler = EdgeSampler::new();
    let mut m = Mailbox::new();
    let edges = nec_edges(1000, 0, 1);
    let outcomes = feed(&mut sampler, &mut m, &edges);
    let last = *outcomes.last().unwrap();
    assert_eq!(last, DecodeOutcome::Complete(Command::new(0, 1, false)));
    assert!(outcomes[..outcomes.len() - 1].iter().all(|o| *o == DecodeOutcome::Partial));
    assert_eq!(m.take(), Some(Command::new(0, 1, false)));
    assert_eq!(m.take(), None);
}

#[test]
fn second_frame_overwrites_first() {
    let mut sampler = EdgeSampler::new();
    let mut m = Mailbox::new();
    let first = nec_edges(1000, 0x20, 0x45);
    feed(&mut sampler, &mut m, &first);
    let second = nec_edges(5000, 0x20, 0x46);
    feed(&mut sampler, &mut m, &second);
    assert_eq!(m.take(), Some(Command::new(0x20, 0x46, false)));
    assert_eq!(m.take(), None);
}

#[test]
fn partial_frame_publishes_nothing() {
    let mut sampler = EdgeSampler::new();
    let mut m = Mailbox::new();
    let edges = nec_edges(1000, 7, 9);
    let outcomes = feed(&mut sampler, &mut m, &edges[..20]);
    assert!(outcomes.iter().all(|o| *o == DecodeOutcome::Partial));
    assert!(!m.is_pending());
}

#[test]
fn malformed_timing_is_dropped() {
    let mut sampler = EdgeSampler::new();
    let mut m = Mailbox::new();
    let mut edges = nec_edges(1000, 7, 9);
    edges.truncate(10);
    let t = edges.last().unwrap().0;
    edges.push((t + 100, true));
    let outcomes = feed(&mut sampler, &mut m, &edges);
    assert_eq!(*outcomes.last().unwrap(), DecodeOutcome::Error);
    assert!(!m.is_pending());
}

#[test]
fn classify_maps_each_result() {
    let c = NecCommand { addr: 3, cmd: 4, repeat: true };
    assert_eq!(classify(Ok(Some(c))), DecodeOutcome::Complete(Command::new(3, 4, true)));
    assert_eq!(classify(Ok(None)), DecodeOutcome::Partial);
    assert_eq!(classify(Err(DecodingError::Data)), DecodeOutcome::Error);
}

#[test]
fn deliver_publishes_only_complete() {
    let mut m = Mailbox::new();
    let a = Command::new(1, 2, false);
    deliver(DecodeOutcome::Complete(a), &mut m);
    deliver(DecodeOutcome::Partial, &mut m);
    deliver(DecodeOutcome::Error, &mut m);
    assert_eq!(m.take(), Some(a));
    deliver(DecodeOutcome::Error, &mut m);
    assert_eq!(m.take(), None);
}
