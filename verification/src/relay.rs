//! One direction of a forwarded connection: bytes are read from a source and
//! written to a destination until the source ends, then the destination's
//! write side is shut down.
//!
//! A [`Pump`] performs no I/O. It issues a [`Command`], the driver carries it
//! out on the real streams and reports the outcome as a [`Signal`], and the
//! pump answers with the next command. What the pump does is given by
//! [`pump_step`] on its model, a [`PumpModel`] that also records every byte
//! taken from the source and every byte known to have reached the destination.

use vstd::prelude::*;

verus! {

/// Where one direction stands.
#[derive(Clone, Copy, Debug, PartialEq, Eq, Structural)]
pub enum Stage {
    /// A read from the source is outstanding.
    Reading,
    /// A chunk was read and its write to the destination is outstanding.
    Writing,
    /// The source ended and the half-close of the destination is outstanding.
    Closing,
    /// The destination was half-closed after everything read was written.
    Finished,
    /// An operation failed; nothing more is done in this direction.
    Failed,
}

/// What the driver reports back after carrying out a command. `E` is the
/// driver's own error type; the pump never looks inside it.
#[derive(Debug, PartialEq)]
pub enum Signal<E> {
    /// The read returned these bytes. An empty chunk means end of stream.
    Data(Vec<u8>),
    /// The read found the end of the stream.
    Eof,
    /// The chunk was written in full.
    Written,
    /// The destination's write side was shut down.
    Closed,
    /// The outstanding operation failed.
    Failed(E),
}

/// What the driver has to do next.
#[derive(Debug, PartialEq)]
pub enum Command<E> {
    /// Read from the source.
    Read,
    /// Write these bytes, all of them, to the destination.
    Write(Vec<u8>),
    /// Shut down the destination's write side.
    Shutdown,
    /// The direction ended cleanly; stop driving it.
    Finish,
    /// The direction failed with this error; stop driving it.
    Fail(E),
    /// The signal did not answer the outstanding command and was dropped.
    Nothing,
}

/// A [`Signal`] with its chunk as a sequence.
pub enum SignalView<E> {
    Data(Seq<u8>),
    Eof,
    Written,
    Closed,
    Failed(E),
}

/// A [`Command`] with its chunk as a sequence.
pub enum CommandView<E> {
    Read,
    Write(Seq<u8>),
    Shutdown,
    Finish,
    Fail(E),
    Nothing,
}

impl<E> View for Signal<E> {
    type V = SignalView<E>;

    open spec fn view(&self) -> SignalView<E> {
        match *self {
            Signal::Data(chunk) => SignalView::Data(chunk@),
            Signal::Eof => SignalView::Eof,
            Signal::Written => SignalView::Written,
            Signal::Closed => SignalView::Closed,
            Signal::Failed(e) => SignalView::Failed(e),
        }
    }
}

impl<E> View for Command<E> {
    type V = CommandView<E>;

    open spec fn view(&self) -> CommandView<E> {
        match *self {
            Command::Read => CommandView::Read,
            Command::Write(chunk) => CommandView::Write(chunk@),
            Command::Shutdown => CommandView::Shutdown,
            Command::Finish => CommandView::Finish,
            Command::Fail(e) => CommandView::Fail(e),
            Command::Nothing => CommandView::Nothing,
        }
    }
}

/// The mathematical state of one direction.
pub struct PumpModel {
    pub stage: Stage,
    /// Every byte read from the source so far, in order.
    pub taken: Seq<u8>,
    /// Every byte whose write to the destination has completed, in order.
    pub given: Seq<u8>,
    /// The chunk handed out for writing and not yet confirmed.
    pub pending: Seq<u8>,
}

impl PumpModel {
    /// A direction that has not moved a byte and is about to read.
    pub open spec fn start() -> PumpModel {
        PumpModel {
            stage: Stage::Reading,
            taken: Seq::empty(),
            given: Seq::empty(),
            pending: Seq::empty(),
        }
    }

    /// Whether the direction has ended, cleanly or not.
    pub open spec fn over(self) -> bool {
        self.stage == Stage::Finished || self.stage == Stage::Failed
    }

    /// What holds of every state a pump can reach: nothing read is lost or
    /// reordered, and a chunk is in flight exactly while a write is
    /// outstanding or has failed.
    pub open spec fn wf(self) -> bool {
        &&& self.taken == self.given + self.pending
        &&& self.stage == Stage::Writing ==> self.pending.len() > 0
        &&& (self.stage == Stage::Reading || self.stage == Stage::Closing || self.stage
            == Stage::Finished) ==> self.pending.len() == 0
    }
}

/// One transition of a direction: the state after `signal`, and the command
/// issued in answer to it.
pub open spec fn pump_step<E>(m: PumpModel, signal: SignalView<E>) -> (PumpModel, CommandView<E>) {
    match (m.stage, signal) {
        (Stage::Reading, SignalView::Data(chunk)) => if chunk.len() > 0 {
            (
                PumpModel { stage: Stage::Writing, taken: m.taken + chunk, pending: chunk, ..m },
                CommandView::Write(chunk),
            )
        } else {
            (PumpModel { stage: Stage::Closing, ..m }, CommandView::Shutdown)
        },
        (Stage::Reading, SignalView::Eof) => (
            PumpModel { stage: Stage::Closing, ..m },
            CommandView::Shutdown,
        ),
        (Stage::Writing, SignalView::Written) => (
            PumpModel {
                stage: Stage::Reading,
                given: m.given + m.pending,
                pending: Seq::empty(),
                ..m
            },
            CommandView::Read,
        ),
        (Stage::Closing, SignalView::Closed) => (
            PumpModel { stage: Stage::Finished, ..m },
            CommandView::Finish,
        ),
        (Stage::Reading, SignalView::Failed(e)) => (
            PumpModel { stage: Stage::Failed, ..m },
            CommandView::Fail(e),
        ),
        (Stage::Writing, SignalView::Failed(e)) => (
            PumpModel { stage: Stage::Failed, ..m },
            CommandView::Fail(e),
        ),
        (Stage::Closing, SignalView::Failed(e)) => (
            PumpModel { stage: Stage::Failed, ..m },
            CommandView::Fail(e),
        ),
        _ => (m, CommandView::Nothing),
    }
}

/// A byte count as a `u64` holds it: exact up to `u64::MAX`, which it never
/// passes.
pub open spec fn saturated(n: nat) -> u64 {
    if n > u64::MAX {
        u64::MAX
    } else {
        n as u64
    }
}

/// One direction of a connection.
pub struct Pump {
    stage: Stage,
    pending_len: usize,
    moved: u64,
    taken: Ghost<Seq<u8>>,
    given: Ghost<Seq<u8>>,
    pending: Ghost<Seq<u8>>,
}

impl View for Pump {
    type V = PumpModel;

    closed spec fn view(&self) -> PumpModel {
        PumpModel {
            stage: self.stage,
            taken: self.taken@,
            given: self.given@,
            pending: self.pending@,
        }
    }
}

impl Pump {
    /// The pump's invariant: its model is well-formed and its counters agree
    /// with the model.
    pub closed spec fn wf(&self) -> bool {
        &&& self@.wf()
        &&& self.pending_len == self.pending@.len()
        &&& self.moved == saturated(self.given@.len())
    }

    /// A pump whose first command is [`Command::Read`].
    pub fn new() -> (pump: Pump)
        ensures
            pump.wf(),
            pump@ == PumpModel::start(),
    {
        Pump {
            stage: Stage::Reading,
            pending_len: 0,
            moved: 0,
            taken: Ghost(Seq::empty()),
            given: Ghost(Seq::empty()),
            pending: Ghost(Seq::empty()),
        }
    }

    /// Where the direction stands.
    pub fn stage(&self) -> (stage: Stage)
        ensures
            stage == self@.stage,
    {
        self.stage
    }

    /// Whether the direction has ended, cleanly or not.
    pub fn is_over(&self) -> (over: bool)
        ensures
            over == self@.over(),
    {
        match self.stage {
            Stage::Finished => true,
            Stage::Failed => true,
            _ => false,
        }
    }

    /// How many bytes are known to have reached the destination, saturating at
    /// `u64::MAX`.
    pub fn forwarded(&self) -> (count: u64)
        requires
            self.wf(),
        ensures
            count == saturated(self@.given.len()),
    {
        self.moved
    }

    /// Takes the driver's report and answers with the next command, as
    /// [`pump_step`] says.
    pub fn step<E>(&mut self, signal: Signal<E>) -> (command: Command<E>)
        requires
            old(self).wf(),
        ensures
            final(self).wf(),
            final(self)@ == pump_step(old(self)@, signal@).0,
            command@ == pump_step(old(self)@, signal@).1,
    {
        match self.stage {
            Stage::Reading => match signal {
                Signal::Data(chunk) => {
                    if chunk.len() > 0 {
                        self.stage = Stage::Writing;
                        self.pending_len = chunk.len();
                        self.taken = Ghost(self.taken@ + chunk@);
                        self.pending = Ghost(chunk@);
                        Command::Write(chunk)
                    } else {
                        self.stage = Stage::Closing;
                        Command::Shutdown
                    }
                },
                Signal::Eof => {
                    self.stage = Stage::Closing;
                    Command::Shutdown
                },
                Signal::Failed(e) => {
                    self.stage = Stage::Failed;
                    Command::Fail(e)
                },
                _ => Command::Nothing,
            },
            Stage::Writing => match signal {
                Signal::Written => {
                    self.stage = Stage::Reading;
                    self.moved = self.moved.saturating_add(self.pending_len as u64);
                    self.given = Ghost(self.given@ + self.pending@);
                    self.pending = Ghost(Seq::empty());
                    self.pending_len = 0;
                    Command::Read
                },
                Signal::Failed(e) => {
                    self.stage = Stage::Failed;
                    Command::Fail(e)
                },
                _ => Command::Nothing,
            },
            Stage::Closing => match signal {
                Signal::Closed => {
                    self.stage = Stage::Finished;
                    Command::Finish
                },
                Signal::Failed(e) => {
                    self.stage = Stage::Failed;
                    Command::Fail(e)
                },
                _ => Command::Nothing,
            },
            _ => Command::Nothing,
        }
    }
}

/// The state of a direction after a whole sequence of signals.
pub open spec fn pump_run<E>(m: PumpModel, signals: Seq<SignalView<E>>) -> PumpModel
    decreases signals.len(),
{
    if signals.len() == 0 {
        m
    } else {
        pump_step(pump_run(m, signals.drop_last()), signals.last()).0
    }
}

/// The bytes of every [`Command::Write`] issued along a sequence of signals,
/// in the order of issue: what the driver was told to send to the destination.
pub open spec fn pump_issued<E>(m: PumpModel, signals: Seq<SignalView<E>>) -> Seq<u8>
    decreases signals.len(),
{
    if signals.len() == 0 {
        Seq::empty()
    } else {
        let earlier = pump_issued(m, signals.drop_last());
        match pump_step(pump_run(m, signals.drop_last()), signals.last()).1 {
            CommandView::Write(chunk) => earlier + chunk,
            _ => earlier,
        }
    }
}

/// The bytes of every chunk that the driver reported while a read was
/// outstanding, in the order of the reports: what came from the source.
pub open spec fn pump_offered<E>(m: PumpModel, signals: Seq<SignalView<E>>) -> Seq<u8>
    decreases signals.len(),
{
    if signals.len() == 0 {
        Seq::empty()
    } else {
        let earlier = pump_offered(m, signals.drop_last());
        match (pump_run(m, signals.drop_last()).stage, signals.last()) {
            (Stage::Reading, SignalView::Data(chunk)) => earlier + chunk,
            _ => earlier,
        }
    }
}

/// A transition never breaks the invariant, never rewrites what was read or
/// delivered before it, and a write command carries exactly the chunk that
/// the signal brought.
pub proof fn lemma_pump_step<E>(m: PumpModel, signal: SignalView<E>)
    requires
        m.wf(),
    ensures
        pump_step(m, signal).0.wf(),
        m.taken.is_prefix_of(pump_step(m, signal).0.taken),
        m.given.is_prefix_of(pump_step(m, signal).0.given),
        pump_step(m, signal).1 matches CommandView::Write(chunk) ==> signal == SignalView::<
            E,
        >::Data(chunk) && chunk.len() > 0 && pump_step(m, signal).0.taken == m.taken + chunk,
        !(pump_step(m, signal).1 is Write) ==> pump_step(m, signal).0.taken == m.taken,
        m.over() ==> pump_step(m, signal).0 == m && pump_step(m, signal).1 is Nothing,
{
}

/// Byte-exactness of one direction. However the driver's reports run, from a
/// fresh pump: what it is told to write is, byte for byte and in order, what
/// the source gave; what has reached the destination is a prefix of that,
/// short of it by at most the chunk in flight; and once the source has ended
/// and the half-close is under way or done, everything has reached it.
pub proof fn lemma_relay_is_exact<E>(signals: Seq<SignalView<E>>)
    ensures
        pump_run(PumpModel::start(), signals).wf(),
        pump_issued(PumpModel::start(), signals) == pump_offered(PumpModel::start(), signals),
        pump_run(PumpModel::start(), signals).taken == pump_offered(PumpModel::start(), signals),
        pump_run(PumpModel::start(), signals).given.is_prefix_of(
            pump_offered(PumpModel::start(), signals),
        ),
        pump_run(PumpModel::start(), signals).given + pump_run(
            PumpModel::start(),
            signals,
        ).pending == pump_offered(PumpModel::start(), signals),
        ({
            let end = pump_run(PumpModel::start(), signals);
            end.stage == Stage::Reading || end.stage == Stage::Closing || end.stage
                == Stage::Finished
        }) ==> pump_run(PumpModel::start(), signals).given == pump_offered(
            PumpModel::start(),
            signals,
        ),
    decreases signals.len(),
{
    if signals.len() > 0 {
        lemma_relay_is_exact(signals.drop_last());
        lemma_pump_step(pump_run(PumpModel::start(), signals.drop_last()), signals.last());
    }
}

} // verus!
