use vstd::prelude::*;
use crate::clock::Clock;
use crate::command::Command;
use crate::mailbox::{after_publish, Mailbox};
use infrared::protocol::nec::NecCommand;
use infrared::protocol::Nec;
use infrared::receiver::DecodingError;
use infrared::Receiver;

verus! {

/// infrared's decoded NEC frame: public `addr`, `cmd` and `repeat` fields,
/// read directly by `classify`.
#[verifier::external_type_specification]
pub struct ExNecCommand(NecCommand);

/// infrared's decoding error; its variants are never inspected here.
#[verifier::external_type_specification]
pub struct ExDecodingError(DecodingError);

/// What the pulse decoder made of one edge.
#[derive(Clone, Copy, Debug, PartialEq, Eq, Structural)]
pub enum DecodeOutcome {
    /// A full frame was decoded.
    Complete(Command),
    /// More edges are needed.
    Partial,
    /// The timing did not match the protocol; the frame was dropped.
    Error,
}

/// The library's record of a decoded NEC frame.
pub open spec fn command_of(c: NecCommand) -> Command {
    Command { address: c.addr, command: c.cmd, is_repeat: c.repeat }
}

/// The outcome that a decoder result stands for.
pub open spec fn outcome_of(r: Result<Option<NecCommand>, DecodingError>) -> DecodeOutcome {
    match r {
        Ok(Some(c)) => DecodeOutcome::Complete(command_of(c)),
        Ok(None) => DecodeOutcome::Partial,
        Err(_) => DecodeOutcome::Error,
    }
}

/// The mailbox contents after an edge with outcome `o`: only a complete
/// command is published, partial frames and errors leave it as it was.
pub open spec fn after_outcome(slot: Option<Command>, o: DecodeOutcome) -> Option<Command> {
    match o {
        DecodeOutcome::Complete(c) => after_publish(slot, c),
        _ => slot,
    }
}

/// Converts a decoder result into the library's outcome.
pub fn classify(r: Result<Option<NecCommand>, DecodingError>) -> (o: DecodeOutcome)
    ensures
        o == outcome_of(r),
{
    match r {
        Ok(Some(c)) => DecodeOutcome::Complete(Command::new(c.addr, c.cmd, c.repeat)),
        Ok(None) => DecodeOutcome::Partial,
        Err(_) => DecodeOutcome::Error,
    }
}

/// Hands the outcome of one edge to the command mailbox.
pub fn deliver(o: DecodeOutcome, mailbox: &mut Mailbox<Command>)
    ensures
        final(mailbox)@ == after_outcome(old(mailbox)@, o),
{
    match o {
        DecodeOutcome::Complete(c) => mailbox.publish(c),
        DecodeOutcome::Partial => {},
        DecodeOutcome::Error => {},
    }
}

/// Stateful NEC pulse decoder fed with timestamped edges. Its frame state is
/// owned by the infrared crate and is not visible here.
#[verifier::external_body]
struct NecReceiver {
    inner: Receiver<Nec>,
}

impl NecReceiver {
    /// Relies on infrared's `Receiver::new`: a pin-less NEC decoder whose
    /// timestamps count at `freq` hertz.
    #[verifier::external_body]
    fn new(freq: u32) -> (r: NecReceiver) {
        NecReceiver { inner: Receiver::new(freq) }
    }

    /// Relies on infrared's `Receiver::event_instant`: feeds one edge
    /// (`edge` is the sensed level, true for low) seen at tick `t`, and
    /// returns a command, nothing yet, or a decoding error.
    #[verifier::external_body]
    fn event_instant(&mut self, t: u32, edge: bool) -> (r: Result<Option<NecCommand>, DecodingError>) {
        self.inner.event_instant(t, edge)
    }
}

/// The pin-change handler's logic: owns the decoder, and on each edge reads
/// the clock, feeds the decoder, and publishes a complete command.
pub struct EdgeSampler {
    receiver: NecReceiver,
}

impl EdgeSampler {
    /// A sampler whose decoder counts time at the clock's tick rate.
    pub fn new() -> (r: EdgeSampler) {
        EdgeSampler { receiver: NecReceiver::new(Clock::FREQ) }
    }

    /// Handles one edge: timestamps it with `clock`, decodes, and publishes a
    /// complete command into `mailbox`; partial frames and errors are dropped.
    pub fn on_edge(&mut self, edge: bool, clock: &Clock, mailbox: &mut Mailbox<Command>) -> (o: DecodeOutcome)
        ensures
            final(mailbox)@ == after_outcome(old(mailbox)@, o),
            o is Complete ==> final(mailbox)@ == Some(o->Complete_0),
            !(o is Complete) ==> final(mailbox)@ == old(mailbox)@,
    {
        let now = clock.now();
        let r = self.receiver.event_instant(now, edge);
        let o = classify(r);
        deliver(o, mailbox);
        o
    }
}

} // verus!
