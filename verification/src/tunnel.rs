//! The forwarding engine: what one connection does from its acceptance to
//! the release of its streams, and what the accept loop does with each
//! arrival.
//!
//! A [`Connection`] passes through an optional TLS handshake, the dialing of
//! the target, and the forwarding proper, in which its two directions run as
//! independent [`Pump`]s. It ends when both directions have ended, and its
//! result is the first failure that was reported, if there was one.

use crate::relay::{Command, CommandView, Pump, PumpModel, Signal, SignalView, Stage, pump_step};
use crate::relay::lemma_pump_step;
use vstd::prelude::*;

verus! {

/// One of the two directions of a connection.
#[derive(Clone, Copy, Debug, PartialEq, Eq, Structural)]
pub enum Direction {
    /// Read from the client, write to the target.
    ClientToTarget,
    /// Read from the target, write to the client.
    TargetToClient,
}

/// The lifecycle of a connection. It only ever advances.
#[derive(Clone, Copy, Debug, PartialEq, Eq, Structural)]
pub enum Phase {
    /// The server-side TLS handshake on the inbound stream is outstanding.
    Handshaking,
    /// The outbound connection to the target is being opened.
    Dialing,
    /// Both streams are open and at least one direction is still running.
    Forwarding,
    /// Nothing more happens; both streams are to be released.
    Closed,
}

/// Why a connection failed. `E` is the driver's own error type.
#[derive(Debug, PartialEq)]
pub enum Failure<E> {
    /// The TLS handshake with the client failed.
    Handshake(E),
    /// The target could not be reached.
    Connect(E),
    /// Reading, writing or half-closing failed in this direction.
    Copy(Direction, E),
}

/// What the driver reports to a connection.
#[derive(Debug, PartialEq)]
pub enum Event<E> {
    /// The handshake succeeded; the inbound stream is now the decrypted one.
    HandshakeDone,
    /// The handshake failed.
    HandshakeFailed(E),
    /// The target was reached.
    Dialed,
    /// The target was not reached.
    DialFailed(E),
    /// A report for one of the two directions.
    Flow(Direction, Signal<E>),
}

/// What the driver has to do for a connection.
#[derive(Debug, PartialEq)]
pub enum Action {
    /// Perform the server-side TLS handshake on the inbound stream.
    Handshake,
    /// Open a connection to the target address.
    Dial,
    /// Start both directions, each with a read from its source.
    Forward,
    /// Read from the source of this direction.
    Read(Direction),
    /// Write these bytes, all of them, to the destination of this direction.
    Write(Direction, Vec<u8>),
    /// Shut down the write side of the destination of this direction.
    Shutdown(Direction),
    /// This direction has ended; the other one goes on.
    Halt(Direction),
    /// The connection has ended; release both streams.
    Close,
    /// The event did not answer anything outstanding and was dropped.
    Nothing,
}

/// An [`Event`] with its chunk as a sequence.
pub enum EventView<E> {
    HandshakeDone,
    HandshakeFailed(E),
    Dialed,
    DialFailed(E),
    Flow(Direction, SignalView<E>),
}

/// An [`Action`] with its chunk as a sequence.
pub enum ActionView {
    Handshake,
    Dial,
    Forward,
    Read(Direction),
    Write(Direction, Seq<u8>),
    Shutdown(Direction),
    Halt(Direction),
    Close,
    Nothing,
}

impl<E> View for Event<E> {
    type V = EventView<E>;

    open spec fn view(&self) -> EventView<E> {
        match *self {
            Event::HandshakeDone => EventView::HandshakeDone,
            Event::HandshakeFailed(e) => EventView::HandshakeFailed(e),
            Event::Dialed => EventView::Dialed,
            Event::DialFailed(e) => EventView::DialFailed(e),
            Event::Flow(direction, signal) => EventView::Flow(direction, signal@),
        }
    }
}

impl View for Action {
    type V = ActionView;

    open spec fn view(&self) -> ActionView {
        match *self {
            Action::Handshake => ActionView::Handshake,
            Action::Dial => ActionView::Dial,
            Action::Forward => ActionView::Forward,
            Action::Read(direction) => ActionView::Read(direction),
            Action::Write(direction, chunk) => ActionView::Write(direction, chunk@),
            Action::Shutdown(direction) => ActionView::Shutdown(direction),
            Action::Halt(direction) => ActionView::Halt(direction),
            Action::Close => ActionView::Close,
            Action::Nothing => ActionView::Nothing,
        }
    }
}

/// The mathematical state of one connection.
pub struct ConnectionModel<E> {
    pub phase: Phase,
    /// The address that is dialed, the same for the connection's whole life.
    pub target: Seq<char>,
    /// The direction from the client to the target.
    pub upstream: PumpModel,
    /// The direction from the target to the client.
    pub downstream: PumpModel,
    /// The first failure reported, if any.
    pub failure: Option<Failure<E>>,
}

impl<E> ConnectionModel<E> {
    /// A connection that was just accepted: it handshakes first where TLS is
    /// terminated, and dials at once where it is not.
    pub open spec fn fresh(target: Seq<char>, secure: bool) -> ConnectionModel<E> {
        ConnectionModel {
            phase: if secure {
                Phase::Handshaking
            } else {
                Phase::Dialing
            },
            target,
            upstream: PumpModel::start(),
            downstream: PumpModel::start(),
            failure: None,
        }
    }

    /// The state of one direction.
    pub open spec fn pump(self, direction: Direction) -> PumpModel {
        match direction {
            Direction::ClientToTarget => self.upstream,
            Direction::TargetToClient => self.downstream,
        }
    }

    /// This connection with one direction's state replaced.
    pub open spec fn with_pump(self, direction: Direction, pump: PumpModel) -> ConnectionModel<E> {
        match direction {
            Direction::ClientToTarget => ConnectionModel { upstream: pump, ..self },
            Direction::TargetToClient => ConnectionModel { downstream: pump, ..self },
        }
    }

    /// The result of the connection: none while it is open, then success or
    /// the first failure.
    pub open spec fn outcome(self) -> Option<Result<(), Failure<E>>> {
        if self.phase == Phase::Closed {
            match self.failure {
                None => Some(Ok(())),
                Some(failure) => Some(Err(failure)),
            }
        } else {
            None
        }
    }

    /// What holds of every state a connection can reach.
    pub open spec fn wf(self) -> bool {
        &&& self.upstream.wf()
        &&& self.downstream.wf()
        &&& match self.phase {
            Phase::Handshaking | Phase::Dialing => {
                &&& self.failure is None
                &&& self.upstream == PumpModel::start()
                &&& self.downstream == PumpModel::start()
            },
            Phase::Forwarding => {
                &&& !(self.upstream.over() && self.downstream.over())
                &&& self.forwarding_failure()
            },
            Phase::Closed => {
                ||| {
                    &&& self.failure matches Some(failure)
                    &&& failure is Handshake || failure is Connect
                    &&& self.upstream == PumpModel::start()
                    &&& self.downstream == PumpModel::start()
                }
                ||| {
                    &&& self.upstream.over()
                    &&& self.downstream.over()
                    &&& self.forwarding_failure()
                }
            },
        }
    }

    /// During and after forwarding, a failure is on record exactly when a
    /// direction has failed, and it names a direction that did.
    pub open spec fn forwarding_failure(self) -> bool {
        match self.failure {
            None => self.upstream.stage != Stage::Failed && self.downstream.stage != Stage::Failed,
            Some(Failure::Copy(direction, _)) => self.pump(direction).stage == Stage::Failed,
            Some(_) => false,
        }
    }
}

/// The order of the lifecycle.
pub open spec fn phase_rank(phase: Phase) -> nat {
    match phase {
        Phase::Handshaking => 0,
        Phase::Dialing => 1,
        Phase::Forwarding => 2,
        Phase::Closed => 3,
    }
}

/// The other direction.
pub open spec fn opposite(direction: Direction) -> Direction {
    match direction {
        Direction::ClientToTarget => Direction::TargetToClient,
        Direction::TargetToClient => Direction::ClientToTarget,
    }
}

/// One transition of a connection: the state after `event`, and the action
/// issued in answer to it.
pub open spec fn conn_step<E>(c: ConnectionModel<E>, event: EventView<E>) -> (
    ConnectionModel<E>,
    ActionView,
) {
    match (c.phase, event) {
        (Phase::Handshaking, EventView::HandshakeDone) => (
            ConnectionModel { phase: Phase::Dialing, ..c },
            ActionView::Dial,
        ),
        (Phase::Handshaking, EventView::HandshakeFailed(e)) => (
            ConnectionModel { phase: Phase::Closed, failure: Some(Failure::Handshake(e)), ..c },
            ActionView::Close,
        ),
        (Phase::Dialing, EventView::Dialed) => (
            ConnectionModel { phase: Phase::Forwarding, ..c },
            ActionView::Forward,
        ),
        (Phase::Dialing, EventView::DialFailed(e)) => (
            ConnectionModel { phase: Phase::Closed, failure: Some(Failure::Connect(e)), ..c },
            ActionView::Close,
        ),
        (Phase::Forwarding, EventView::Flow(direction, signal)) => {
            let (pump, command) = pump_step(c.pump(direction), signal);
            let moved = c.with_pump(direction, pump);
            let done = moved.upstream.over() && moved.downstream.over();
            let failure = match (c.failure, command) {
                (None, CommandView::Fail(e)) => Some(Failure::Copy(direction, e)),
                _ => c.failure,
            };
            let phase = if done {
                Phase::Closed
            } else {
                Phase::Forwarding
            };
            let action = match command {
                CommandView::Read => ActionView::Read(direction),
                CommandView::Write(chunk) => ActionView::Write(direction, chunk),
                CommandView::Shutdown => ActionView::Shutdown(direction),
                CommandView::Finish | CommandView::Fail(_) => if done {
                    ActionView::Close
                } else {
                    ActionView::Halt(direction)
                },
                CommandView::Nothing => ActionView::Nothing,
            };
            (ConnectionModel { phase, failure, ..moved }, action)
        },
        _ => (c, ActionView::Nothing),
    }
}

/// One accepted connection.
pub struct Connection<E> {
    phase: Phase,
    target: String,
    upstream: Pump,
    downstream: Pump,
    failure: Option<Failure<E>>,
}

impl<E> View for Connection<E> {
    type V = ConnectionModel<E>;

    closed spec fn view(&self) -> ConnectionModel<E> {
        ConnectionModel {
            phase: self.phase,
            target: self.target@,
            upstream: self.upstream@,
            downstream: self.downstream@,
            failure: self.failure,
        }
    }
}

impl<E> Connection<E> {
    /// The connection's invariant.
    pub closed spec fn wf(&self) -> bool {
        &&& self@.wf()
        &&& self.upstream.wf()
        &&& self.downstream.wf()
    }

    /// A connection that was just accepted, for the given target address.
    /// With `secure` it starts with the TLS handshake, without it with the
    /// dialing.
    pub fn new(target: String, secure: bool) -> (conn: Connection<E>)
        ensures
            conn.wf(),
            conn@ == ConnectionModel::<E>::fresh(target@, secure),
    {
        Connection {
            phase: if secure {
                Phase::Handshaking
            } else {
                Phase::Dialing
            },
            target,
            upstream: Pump::new(),
            downstream: Pump::new(),
            failure: None,
        }
    }

    /// The first thing to do for a connection that has not received any
    /// event yet.
    pub fn first_action(&self) -> (action: Action)
        ensures
            action@ == match self@.phase {
                Phase::Handshaking => ActionView::Handshake,
                Phase::Dialing => ActionView::Dial,
                _ => ActionView::Nothing,
            },
    {
        match self.phase {
            Phase::Handshaking => Action::Handshake,
            Phase::Dialing => Action::Dial,
            _ => Action::Nothing,
        }
    }

    /// Where the connection stands.
    pub fn phase(&self) -> (phase: Phase)
        ensures
            phase == self@.phase,
    {
        self.phase
    }

    /// The address to dial.
    pub fn target(&self) -> (target: &str)
        ensures
            target@ == self@.target,
    {
        self.target.as_str()
    }

    /// Where one direction stands.
    pub fn stage(&self, direction: Direction) -> (stage: Stage)
        ensures
            stage == self@.pump(direction).stage,
    {
        match direction {
            Direction::ClientToTarget => self.upstream.stage(),
            Direction::TargetToClient => self.downstream.stage(),
        }
    }

    /// How many bytes are known to have reached the destination of one
    /// direction, saturating at `u64::MAX`.
    pub fn forwarded(&self, direction: Direction) -> (count: u64)
        requires
            self.wf(),
        ensures
            count == crate::relay::saturated(self@.pump(direction).given.len()),
    {
        match direction {
            Direction::ClientToTarget => self.upstream.forwarded(),
            Direction::TargetToClient => self.downstream.forwarded(),
        }
    }

    /// The result of the connection: `None` while it is open, then `Ok` or
    /// the first failure that was reported.
    pub fn outcome(self) -> (outcome: Option<Result<(), Failure<E>>>)
        ensures
            outcome == self@.outcome(),
    {
        match self.phase {
            Phase::Closed => match self.failure {
                None => Some(Ok(())),
                Some(failure) => Some(Err(failure)),
            },
            _ => None,
        }
    }

    /// Takes the driver's report and answers with the next action, as
    /// [`conn_step`] says.
    pub fn step(&mut self, event: Event<E>) -> (action: Action)
        requires
            old(self).wf(),
        ensures
            final(self).wf(),
            final(self)@ == conn_step(old(self)@, event@).0,
            action@ == conn_step(old(self)@, event@).1,
    {
        proof {
            lemma_conn_step(self@, event@);
        }
        match self.phase {
            Phase::Handshaking => match event {
                Event::HandshakeDone => {
                    self.phase = Phase::Dialing;
                    Action::Dial
                },
                Event::HandshakeFailed(e) => {
                    self.phase = Phase::Closed;
                    self.failure = Some(Failure::Handshake(e));
                    Action::Close
                },
                _ => Action::Nothing,
            },
            Phase::Dialing => match event {
                Event::Dialed => {
                    self.phase = Phase::Forwarding;
                    Action::Forward
                },
                Event::DialFailed(e) => {
                    self.phase = Phase::Closed;
                    self.failure = Some(Failure::Connect(e));
                    Action::Close
                },
                _ => Action::Nothing,
            },
            Phase::Forwarding => match event {
                Event::Flow(direction, signal) => {
                    let command = match direction {
                        Direction::ClientToTarget => self.upstream.step(signal),
                        Direction::TargetToClient => self.downstream.step(signal),
                    };
                    let done = self.upstream.is_over() && self.downstream.is_over();
                    if done {
                        self.phase = Phase::Closed;
                    }
                    match command {
                        Command::Read => Action::Read(direction),
                        Command::Write(chunk) => Action::Write(direction, chunk),
                        Command::Shutdown => Action::Shutdown(direction),
                        Command::Finish => if done {
                            Action::Close
                        } else {
                            Action::Halt(direction)
                        },
                        Command::Fail(e) => {
                            if self.failure.is_none() {
                                self.failure = Some(Failure::Copy(direction, e));
                            }
                            if done {
                                Action::Close
                            } else {
                                Action::Halt(direction)
                            }
                        },
                        Command::Nothing => Action::Nothing,
                    }
                },
                _ => Action::Nothing,
            },
            Phase::Closed => Action::Nothing,
        }
    }
}

/// A transition of a connection never breaks its invariant, never changes
/// the target, never moves the lifecycle backwards, and leaves a closed
/// connection as it is. The streams are released exactly once, by the
/// transition that closes the connection. A report for one direction leaves
/// the other direction untouched.
pub proof fn lemma_conn_step<E>(c: ConnectionModel<E>, event: EventView<E>)
    requires
        c.wf(),
    ensures
        conn_step(c, event).0.wf(),
        conn_step(c, event).0.target == c.target,
        phase_rank(c.phase) <= phase_rank(conn_step(c, event).0.phase),
        c.phase == Phase::Closed ==> conn_step(c, event).0 == c && conn_step(c, event).1
            is Nothing,
        conn_step(c, event).1 is Close <==> c.phase != Phase::Closed && conn_step(c, event).0.phase
            == Phase::Closed,
        event matches EventView::Flow(direction, _) ==> conn_step(c, event).0.pump(
            opposite(direction),
        ) == c.pump(opposite(direction)),
{
    match (c.phase, event) {
        (Phase::Forwarding, EventView::Flow(direction, signal)) => {
            lemma_pump_step(c.pump(direction), signal);
        },
        _ => {},
    }
}

/// The state of a connection after a whole sequence of events.
pub open spec fn conn_run<E>(c: ConnectionModel<E>, events: Seq<EventView<E>>) -> ConnectionModel<
    E,
>
    decreases events.len(),
{
    if events.len() == 0 {
        c
    } else {
        conn_step(conn_run(c, events.drop_last()), events.last()).0
    }
}

/// The actions issued in answer to a sequence of events, one for each.
pub open spec fn conn_actions<E>(c: ConnectionModel<E>, events: Seq<EventView<E>>) -> Seq<
    ActionView,
>
    decreases events.len(),
{
    if events.len() == 0 {
        Seq::empty()
    } else {
        conn_actions(c, events.drop_last()).push(
            conn_step(conn_run(c, events.drop_last()), events.last()).1,
        )
    }
}

/// The bytes that a sequence of actions sends to the destination of one
/// direction, in order.
pub open spec fn written_to(actions: Seq<ActionView>, direction: Direction) -> Seq<u8>
    decreases actions.len(),
{
    if actions.len() == 0 {
        Seq::empty()
    } else {
        let earlier = written_to(actions.drop_last(), direction);
        match actions.last() {
            ActionView::Write(d, chunk) => if d == direction {
                earlier + chunk
            } else {
                earlier
            },
            _ => earlier,
        }
    }
}

/// The bytes that the driver reported from the source of one direction while
/// a read was outstanding there, in the order of the reports.
pub open spec fn read_from<E>(
    c: ConnectionModel<E>,
    events: Seq<EventView<E>>,
    direction: Direction,
) -> Seq<u8>
    decreases events.len(),
{
    if events.len() == 0 {
        Seq::empty()
    } else {
        let earlier = read_from(c, events.drop_last(), direction);
        let before = conn_run(c, events.drop_last());
        match events.last() {
            EventView::Flow(d, SignalView::Data(chunk)) => if d == direction && before.phase
                == Phase::Forwarding && before.pump(d).stage == Stage::Reading {
                earlier + chunk
            } else {
                earlier
            },
            _ => earlier,
        }
    }
}

/// The events of a recorded run, each by its view.
pub open spec fn event_views<E>(events: Seq<Event<E>>) -> Seq<EventView<E>> {
    events.map_values(|event: Event<E>| event@)
}

/// The actions of a recorded run, each by its view.
pub open spec fn action_views(actions: Seq<Action>) -> Seq<ActionView> {
    actions.map_values(|action: Action| action@)
}

/// Runs one connection over a recorded sequence of events, from the dialing
/// of `target` on: the inbound stream is taken as ready. Returns every action
/// issued, the first being [`Action::Dial`] and then one in answer to each
/// event, and the connection as the events left it.
pub fn handle_connection<E>(target: String, events: Vec<Event<E>>) -> (r: (
    Vec<Action>,
    Connection<E>,
))
    ensures
        r.1.wf(),
        r.1@ == conn_run(ConnectionModel::<E>::fresh(target@, false), event_views(events@)),
        action_views(r.0@) == seq![ActionView::Dial] + conn_actions(
            ConnectionModel::<E>::fresh(target@, false),
            event_views(events@),
        ),
{
    let ghost start = ConnectionModel::<E>::fresh(target@, false);
    let ghost all = event_views(events@);
    let mut conn: Connection<E> = Connection::new(target, false);
    let mut actions: Vec<Action> = Vec::new();
    actions.push(conn.first_action());
    for event in it: events.into_iter()
        invariant
            conn.wf(),
            all == event_views(events@),
            it.seq() == events@,
            conn@ == conn_run(start, all.take(it.index() as int)),
            action_views(actions@) == seq![ActionView::Dial] + conn_actions(
                start,
                all.take(it.index() as int),
            ),
    {
        let ghost i = it.index() as int;
        let ghost before = actions@;
        assert(all.take(i + 1).drop_last() =~= all.take(i));
        let action = conn.step(event);
        actions.push(action);
        assert(action_views(actions@) =~= action_views(before).push(action@));
    }
    assert(all.take(events@.len() as int) =~= all);
    (actions, conn)
}

/// Byte-exactness of a connection, in each direction on its own. However the
/// driver's reports run, from the acceptance on: what it is told to write to
/// the destination of a direction is, byte for byte and in order, what it
/// reported from that direction's source; what is known to have arrived is a
/// prefix of that, short of it by at most the chunk in flight; and where the
/// direction is between chunks, half-closing or finished, all of it has
/// arrived.
pub proof fn lemma_forwarding_is_exact<E>(
    target: Seq<char>,
    secure: bool,
    events: Seq<EventView<E>>,
    direction: Direction,
)
    ensures
        ({
            let start = ConnectionModel::<E>::fresh(target, secure);
            let end = conn_run(start, events).pump(direction);
            let source = read_from(start, events, direction);
            &&& conn_run(start, events).wf()
            &&& written_to(conn_actions(start, events), direction) == source
            &&& end.taken == source
            &&& end.given.is_prefix_of(source)
            &&& end.given + end.pending == source
            &&& (end.stage == Stage::Reading || end.stage == Stage::Closing || end.stage
                == Stage::Finished) ==> end.given == source
        }),
    decreases events.len(),
{
    let start = ConnectionModel::<E>::fresh(target, secure);
    if events.len() > 0 {
        lemma_forwarding_is_exact(target, secure, events.drop_last(), direction);
        let before = conn_run(start, events.drop_last());
        lemma_conn_step(before, events.last());
        match events.last() {
            EventView::Flow(d, signal) => {
                lemma_pump_step(before.pump(d), signal);
            },
            _ => {},
        }
        assert(conn_actions(start, events).drop_last() =~= conn_actions(
            start,
            events.drop_last(),
        ));
    }
}

/// Half-close. When the source of a direction ends while that direction is
/// between chunks, the answer is the shutdown of its destination; everything
/// read before has arrived there; the connection stays open; and the other
/// direction is exactly where it was. Once the shutdown is confirmed the
/// direction is finished, and the connection closes only if the other
/// direction had ended already.
pub proof fn lemma_half_close<E>(c: ConnectionModel<E>, direction: Direction)
    requires
        c.wf(),
        c.phase == Phase::Forwarding,
        c.pump(direction).stage == Stage::Reading,
    ensures
        ({
            let eof = EventView::<E>::Flow(direction, SignalView::Eof);
            let closed = EventView::<E>::Flow(direction, SignalView::Closed);
            let other = opposite(direction);
            let (half, first) = conn_step(c, eof);
            let (end, second) = conn_step(half, closed);
            &&& first == ActionView::Shutdown(direction)
            &&& half.phase == Phase::Forwarding
            &&& half.pump(direction).stage == Stage::Closing
            &&& half.pump(direction).taken == c.pump(direction).taken
            &&& half.pump(direction).given == c.pump(direction).taken
            &&& half.pump(other) == c.pump(other)
            &&& half.failure == c.failure
            &&& end.pump(direction).stage == Stage::Finished
            &&& end.pump(direction).given == c.pump(direction).taken
            &&& end.pump(other) == c.pump(other)
            &&& end.failure == c.failure
            &&& c.pump(other).over() ==> end.phase == Phase::Closed && second
                == ActionView::Close
            &&& !c.pump(other).over() ==> end.phase == Phase::Forwarding && second
                == ActionView::Halt(direction)
        }),
{
}

/// While a connection forwards, a report for one direction moves that
/// direction exactly as a pump on its own would move, whatever the other
/// direction has done or suffered.
pub proof fn lemma_directions_are_independent<E>(
    c: ConnectionModel<E>,
    direction: Direction,
    signal: SignalView<E>,
)
    requires
        c.phase == Phase::Forwarding,
    ensures
        conn_step(c, EventView::Flow(direction, signal)).0.pump(direction) == pump_step(
            c.pump(direction),
            signal,
        ).0,
        conn_step(c, EventView::Flow(direction, signal)).0.pump(opposite(direction)) == c.pump(
            opposite(direction),
        ),
{
}

/// The result of a connection. The first failure on record is never replaced
/// by a later one; a connection that closed reports success exactly when both
/// directions finished cleanly; and a connection that failed before
/// forwarding never moved a byte.
pub proof fn lemma_first_failure_decides<E>(c: ConnectionModel<E>, event: EventView<E>)
    requires
        c.wf(),
    ensures
        c.failure is Some ==> conn_step(c, event).0.failure == c.failure,
        c.phase == Phase::Closed ==> (c.outcome() == Some(Ok::<(), Failure<E>>(())) <==> (
        c.upstream.stage == Stage::Finished && c.downstream.stage == Stage::Finished)),
        c.phase != Phase::Closed <==> c.outcome() is None,
        (c.failure matches Some(failure) && !(failure is Copy)) ==> c.phase == Phase::Closed
            && c.upstream.taken.len() == 0 && c.downstream.taken.len() == 0,
{
}

/// The accept loop's state: where it sends connections, and whether it still
/// accepts.
pub struct ListenerModel {
    pub target: Seq<char>,
    pub secure: bool,
    pub accepting: bool,
}

impl ListenerModel {
    /// The loop after one outcome of `accept`: a failure ends it for good, a
    /// success changes nothing.
    pub open spec fn after(self, accepted: bool) -> ListenerModel {
        ListenerModel { accepting: self.accepting && accepted, ..self }
    }
}

/// What the accept loop does with one outcome of `accept`.
pub enum Dispatch<E> {
    /// Run this new connection on its own, concurrently, and accept again.
    Serve(Connection<E>),
    /// The accept failed: leave the loop with this error.
    Stop(E),
    /// The loop had ended before; the outcome was dropped.
    Nothing,
}

/// The accept loop.
pub struct Listener {
    target: String,
    secure: bool,
    accepting: bool,
}

impl View for Listener {
    type V = ListenerModel;

    closed spec fn view(&self) -> ListenerModel {
        ListenerModel { target: self.target@, secure: self.secure, accepting: self.accepting }
    }
}

impl Listener {
    /// An accept loop for a socket that is bound already. Every connection it
    /// serves goes to `target`, after a TLS handshake where `secure` is set.
    pub fn new(target: String, secure: bool) -> (listener: Listener)
        ensures
            listener@ == (ListenerModel { target: target@, secure, accepting: true }),
    {
        Listener { target, secure, accepting: true }
    }

    /// Whether the loop is still running.
    pub fn is_accepting(&self) -> (accepting: bool)
        ensures
            accepting == self@.accepting,
    {
        self.accepting
    }

    /// Takes one outcome of `accept`. A client is served by a fresh
    /// connection and the loop goes on; a failure ends the loop and is handed
    /// back; after that every outcome is dropped.
    pub fn accept<E>(&mut self, arrival: Result<(), E>) -> (dispatch: Dispatch<E>)
        ensures
            final(self)@ == old(self)@.after(arrival is Ok),
            match dispatch {
                Dispatch::Serve(conn) => {
                    &&& old(self)@.accepting
                    &&& arrival is Ok
                    &&& conn.wf()
                    &&& conn@ == ConnectionModel::<E>::fresh(old(self)@.target, old(self)@.secure)
                },
                Dispatch::Stop(e) => old(self)@.accepting && arrival == Err::<(), E>(e),
                Dispatch::Nothing => !old(self)@.accepting,
            },
    {
        if !self.accepting {
            return Dispatch::Nothing;
        }
        match arrival {
            Ok(()) => Dispatch::Serve(Connection::new(self.target.clone(), self.secure)),
            Err(e) => {
                self.accepting = false;
                Dispatch::Stop(e)
            },
        }
    }
}

/// How many connections an accept loop serves over a sequence of outcomes:
/// one for every success before the first failure.
pub open spec fn served<E>(arrivals: Seq<Result<(), E>>) -> nat
    decreases arrivals.len(),
{
    if arrivals.len() == 0 || arrivals[0] is Err {
        0
    } else {
        1 + served(arrivals.skip(1))
    }
}

/// The error that ends an accept loop over a sequence of outcomes: that of
/// the first failure, if there is one.
pub open spec fn fatal<E>(arrivals: Seq<Result<(), E>>) -> Option<E> {
    if served(arrivals) < arrivals.len() {
        match arrivals[served(arrivals) as int] {
            Err(e) => Some(e),
            Ok(_) => None,
        }
    } else {
        None
    }
}

/// The number of served connections is the position of the first failure, or
/// the number of outcomes where none failed.
pub proof fn lemma_served<E>(arrivals: Seq<Result<(), E>>, n: nat)
    requires
        n <= arrivals.len(),
        forall|i: int| 0 <= i < n ==> arrivals[i] is Ok,
        n < arrivals.len() ==> arrivals[n as int] is Err,
    ensures
        served(arrivals) == n,
    decreases n,
{
    if n > 0 {
        lemma_served(arrivals.skip(1), (n - 1) as nat);
    }
}

/// Runs the accept loop over a recorded sequence of outcomes of `accept`, for
/// a socket that is bound already. Returns the connections it dispatched, one
/// for each client accepted before the first failure and each fresh, and the
/// error of that failure, which ended the loop.
pub fn start<E>(target: String, secure: bool, arrivals: Vec<Result<(), E>>) -> (r: (
    Vec<Connection<E>>,
    Option<E>,
))
    ensures
        r.0@.len() == served(arrivals@),
        forall|i: int|
            0 <= i < r.0@.len() ==> (#[trigger] r.0@[i]).wf() && r.0@[i]@ == ConnectionModel::<
                E,
            >::fresh(target@, secure),
        r.1 == fatal(arrivals@),
{
    let mut listener = Listener::new(target, secure);
    let mut dispatched: Vec<Connection<E>> = Vec::new();
    let mut failure: Option<E> = None;
    let ghost all = arrivals@;
    for arrival in it: arrivals.into_iter()
        invariant
            it.seq() == all,
            listener@.target == target@,
            listener@.secure == secure,
            listener@.accepting == (failure is None),
            dispatched@.len() <= it.index(),
            forall|i: int| 0 <= i < dispatched@.len() ==> all[i] is Ok,
            forall|i: int|
                0 <= i < dispatched@.len() ==> (#[trigger] dispatched@[i]).wf() && dispatched@[i]@
                    == ConnectionModel::<E>::fresh(target@, secure),
            failure is None ==> dispatched@.len() == it.index(),
            failure matches Some(e) ==> dispatched@.len() < it.index() && all[dispatched@.len() as int]
                == Err::<(), E>(e),
    {
        match listener.accept(arrival) {
            Dispatch::Serve(conn) => {
                dispatched.push(conn);
            },
            Dispatch::Stop(e) => {
                failure = Some(e);
            },
            Dispatch::Nothing => {},
        }
    }
    proof {
        lemma_served(all, dispatched@.len());
    }
    (dispatched, failure)
}

} // verus!
