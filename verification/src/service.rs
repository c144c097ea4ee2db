//! The service as a whole: one accept loop and every connection it has
//! dispatched, each driven by its own reports.
//!
//! Nothing here runs. The accept loop and the connections are separate values
//! in a running service, owned by separate tasks; this module puts their
//! models side by side so that what holds between them can be stated and
//! proved: that connections do not touch one another, and that a connection's
//! failure stays its own.

use crate::tunnel::{
    ConnectionModel, EventView, Failure, ListenerModel, Phase, conn_run, conn_step,
    lemma_conn_step,
};
use vstd::prelude::*;

verus! {

/// The accept loop together with the connections it has dispatched, in the
/// order of their acceptance.
pub struct ServiceModel<E> {
    pub listener: ListenerModel,
    pub connections: Seq<ConnectionModel<E>>,
}

/// Anything that can happen to a service.
pub enum ServiceEvent<E> {
    /// `accept` returned, with a client or with an error.
    Arrival(Result<(), E>),
    /// The driver of the connection with this number reports an event.
    Report(int, EventView<E>),
}

impl<E> ServiceModel<E> {
    /// A service whose socket was just bound.
    pub open spec fn opened(target: Seq<char>, secure: bool) -> ServiceModel<E> {
        ServiceModel {
            listener: ListenerModel { target, secure, accepting: true },
            connections: Seq::empty(),
        }
    }

    /// Every connection is in a state that a connection can reach, and dials
    /// the service's target.
    pub open spec fn wf(self) -> bool {
        forall|i: int|
            0 <= i < self.connections.len() ==> (#[trigger] self.connections[i]).wf()
                && self.connections[i].target == self.listener.target
    }
}

/// One transition of the service. A client is given a fresh connection; a
/// failed accept ends the service, after which nothing happens any more; a
/// report moves the connection it is addressed to and nothing else.
pub open spec fn service_step<E>(s: ServiceModel<E>, event: ServiceEvent<E>) -> ServiceModel<E> {
    if !s.listener.accepting {
        s
    } else {
        match event {
            ServiceEvent::Arrival(Ok(_)) => ServiceModel {
                connections: s.connections.push(
                    ConnectionModel::fresh(s.listener.target, s.listener.secure),
                ),
                ..s
            },
            ServiceEvent::Arrival(Err(_)) => ServiceModel {
                listener: s.listener.after(false),
                ..s
            },
            ServiceEvent::Report(id, event) => if 0 <= id < s.connections.len() {
                ServiceModel {
                    connections: s.connections.update(id, conn_step(s.connections[id], event).0),
                    ..s
                }
            } else {
                s
            },
        }
    }
}

/// The service after a whole sequence of events.
pub open spec fn service_run<E>(s: ServiceModel<E>, events: Seq<ServiceEvent<E>>) -> ServiceModel<
    E,
>
    decreases events.len(),
{
    if events.len() == 0 {
        s
    } else {
        service_step(service_run(s, events.drop_last()), events.last())
    }
}

/// The reports addressed to one connection, in their order.
pub open spec fn reports_for<E>(events: Seq<ServiceEvent<E>>, id: int) -> Seq<EventView<E>>
    decreases events.len(),
{
    if events.len() == 0 {
        Seq::empty()
    } else {
        let earlier = reports_for(events.drop_last(), id);
        match events.last() {
            ServiceEvent::Report(to, event) => if to == id {
                earlier.push(event)
            } else {
                earlier
            },
            _ => earlier,
        }
    }
}

/// A transition keeps the service well-formed, never forgets a connection,
/// never restarts an accept loop that ended, and never changes the target.
pub proof fn lemma_service_step<E>(s: ServiceModel<E>, event: ServiceEvent<E>)
    requires
        s.wf(),
    ensures
        service_step(s, event).wf(),
        service_step(s, event).connections.len() >= s.connections.len(),
        service_step(s, event).listener.accepting ==> s.listener.accepting,
        service_step(s, event).listener.target == s.listener.target,
        service_step(s, event).listener.secure == s.listener.secure,
{
    let after = service_step(s, event);
    assert forall|i: int| 0 <= i < after.connections.len() implies (
    #[trigger] after.connections[i]).wf() && after.connections[i].target
        == after.listener.target by {
        match event {
            ServiceEvent::Report(id, report) => {
                if 0 <= id < s.connections.len() {
                    lemma_conn_step(s.connections[id], report);
                }
            },
            _ => {},
        }
    }
}

/// Whatever happens to a service from the binding of its socket on, every
/// connection it holds is in a state that a connection can reach, and dials
/// the target the service was started with.
pub proof fn lemma_service_stays_well_formed<E>(
    target: Seq<char>,
    secure: bool,
    events: Seq<ServiceEvent<E>>,
)
    ensures
        service_run(ServiceModel::<E>::opened(target, secure), events).wf(),
        service_run(ServiceModel::<E>::opened(target, secure), events).listener.target == target,
        service_run(ServiceModel::<E>::opened(target, secure), events).listener.secure == secure,
    decreases events.len(),
{
    if events.len() > 0 {
        lemma_service_stays_well_formed::<E>(target, secure, events.drop_last());
        lemma_service_step(
            service_run(ServiceModel::<E>::opened(target, secure), events.drop_last()),
            events.last(),
        );
    }
}

/// Isolation, one event at a time. Whatever happens to a service, a
/// connection is left exactly as it was unless the event is a report
/// addressed to it; and then its new state is what that report makes of its
/// old one, whatever the other connections hold.
pub proof fn lemma_event_touches_one_connection<E>(
    s: ServiceModel<E>,
    event: ServiceEvent<E>,
    id: int,
)
    requires
        0 <= id < s.connections.len(),
    ensures
        id < service_step(s, event).connections.len(),
        !(event matches ServiceEvent::Report(to, _) && to == id) ==> service_step(
            s,
            event,
        ).connections[id] == s.connections[id],
        s.listener.accepting ==> (event matches ServiceEvent::Report(to, report) ==> to == id
            ==> service_step(s, event).connections[id] == conn_step(s.connections[id], report).0),
{
}

/// Isolation, over a whole run. While the service runs, however the events
/// of its connections are interleaved with each other and with arrivals, a
/// connection ends up where its own reports alone would have taken it: no
/// byte and no failure of any other connection shows in its state.
pub proof fn lemma_connections_are_isolated<E>(
    s: ServiceModel<E>,
    events: Seq<ServiceEvent<E>>,
    id: int,
)
    requires
        0 <= id < s.connections.len(),
        service_run(s, events).listener.accepting,
    ensures
        id < service_run(s, events).connections.len(),
        service_run(s, events).connections[id] == conn_run(
            s.connections[id],
            reports_for(events, id),
        ),
    decreases events.len(),
{
    if events.len() > 0 {
        let before = service_run(s, events.drop_last());
        lemma_connections_are_isolated(s, events.drop_last(), id);
        lemma_event_touches_one_connection(before, events.last(), id);
        match events.last() {
            ServiceEvent::Report(to, report) => {
                if to == id {
                    assert(reports_for(events, id).drop_last() =~= reports_for(
                        events.drop_last(),
                        id,
                    ));
                }
            },
            _ => {},
        }
    }
}

/// An unreachable target fails one connection and nothing else. The
/// connection closes with a connect failure that carries the driver's error;
/// every other connection is as it was; the accept loop still runs, and the
/// next client is given a fresh connection.
pub proof fn lemma_connect_failure_is_contained<E>(s: ServiceModel<E>, id: int, error: E)
    requires
        s.listener.accepting,
        0 <= id < s.connections.len(),
        s.connections[id].phase == Phase::Dialing,
    ensures
        ({
            let after = service_step(s, ServiceEvent::Report(id, EventView::DialFailed(error)));
            let next = service_step(after, ServiceEvent::Arrival(Ok(())));
            &&& after.connections[id].outcome() == Some(
                Err::<(), Failure<E>>(Failure::Connect(error)),
            )
            &&& after.listener == s.listener
            &&& after.connections.len() == s.connections.len()
            &&& forall|other: int|
                0 <= other < s.connections.len() && other != id ==> after.connections[other]
                    == s.connections[other]
            &&& next.listener.accepting
            &&& next.connections == after.connections.push(
                ConnectionModel::fresh(s.listener.target, s.listener.secure),
            )
        }),
{
}

/// A failed handshake fails one connection and nothing else. The connection
/// closes with a handshake failure that carries the driver's error, without
/// dialing; every other connection is as it was; the accept loop still runs;
/// and the next client is given a fresh connection whose handshake, where it
/// succeeds, takes it on to the dialing.
pub proof fn lemma_handshake_failure_is_contained<E>(s: ServiceModel<E>, id: int, error: E)
    requires
        s.listener.accepting,
        0 <= id < s.connections.len(),
        s.connections[id].phase == Phase::Handshaking,
    ensures
        ({
            let after = service_step(
                s,
                ServiceEvent::Report(id, EventView::HandshakeFailed(error)),
            );
            let next = service_step(after, ServiceEvent::Arrival(Ok(())));
            let newest = s.connections.len() as int;
            let served = service_step(next, ServiceEvent::Report(newest, EventView::HandshakeDone));
            &&& after.connections[id].outcome() == Some(
                Err::<(), Failure<E>>(Failure::Handshake(error)),
            )
            &&& after.listener == s.listener
            &&& after.connections.len() == s.connections.len()
            &&& forall|other: int|
                0 <= other < s.connections.len() && other != id ==> after.connections[other]
                    == s.connections[other]
            &&& next.listener.accepting
            &&& next.connections == after.connections.push(
                ConnectionModel::fresh(s.listener.target, s.listener.secure),
            )
            &&& s.listener.secure ==> served.connections[newest].phase == Phase::Dialing
                && served.connections[newest].failure is None
        }),
{
}

} // verus!
