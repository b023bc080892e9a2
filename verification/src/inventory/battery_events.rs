//! Forwarding of battery broadcasts.

use vstd::prelude::*;

use super::battery::{BatteryEventContext, BatteryUpdate};
use crate::device::BatteryInfo;
use crate::route::DeviceRoute;

verus! {

/// Hands the battery broadcasts of one device on, with the device's route.
#[derive(Debug)]
pub struct EventForwarder {
    /// Route of the device.
    pub route: DeviceRoute,
}

/// What happened to a forwarder.
#[derive(Clone, Copy, Debug, PartialEq, Eq)]
pub enum ForwarderEvent {
    /// The device sent a broadcast, which shows this battery state, if any.
    Broadcast(Option<BatteryInfo>),
    /// The device sends no more broadcasts.
    Ended,
    /// The update was delivered.
    Delivered,
    /// The update could not be delivered: nobody listens any more.
    Undeliverable,
}

/// What a forwarder does next.
#[derive(Debug, PartialEq, Eq)]
pub enum ForwarderAction {
    /// Wait for the next broadcast.
    Receive,
    /// Deliver the update.
    Send(BatteryUpdate),
    /// Stop for good.
    Stop,
}

/// What a forwarder of the device on `route` does about `event`.
pub open spec fn reaction(route: DeviceRoute, event: ForwarderEvent) -> ForwarderAction {
    match event {
        ForwarderEvent::Broadcast(Some(battery)) => ForwarderAction::Send(
            BatteryUpdate { route, battery },
        ),
        ForwarderEvent::Broadcast(None) => ForwarderAction::Receive,
        ForwarderEvent::Ended => ForwarderAction::Stop,
        ForwarderEvent::Delivered => ForwarderAction::Receive,
        ForwarderEvent::Undeliverable => ForwarderAction::Stop,
    }
}

impl EventForwarder {
    /// A forwarder for the device of `context`. There is none without a route to
    /// name or without anybody who listens.
    pub fn spawn(context: BatteryEventContext<'_>) -> (forwarder: Option<EventForwarder>)
        ensures
            match forwarder {
                Some(f) => context.listening && context.route == Some(&f.route),
                None => !context.listening || context.route is None,
            },
    {
        match context.route {
            Some(route) => {
                if context.listening {
                    Some(EventForwarder { route: route.clone() })
                } else {
                    None
                }
            },
            None => None,
        }
    }

    /// Takes the next event, and says what to do about it.
    pub fn forward(&self, event: ForwarderEvent) -> (action: ForwarderAction)
        ensures
            action == reaction(self.route, event),
    {
        match event {
            ForwarderEvent::Broadcast(Some(battery)) => ForwarderAction::Send(
                BatteryUpdate { route: self.route.clone(), battery },
            ),
            ForwarderEvent::Broadcast(None) => ForwarderAction::Receive,
            ForwarderEvent::Ended => ForwarderAction::Stop,
            ForwarderEvent::Delivered => ForwarderAction::Receive,
            ForwarderEvent::Undeliverable => ForwarderAction::Stop,
        }
    }
}

/// A broadcast that reaches a forwarder: the battery state it shows, if any, and
/// whether an update about it can be delivered.
pub struct Arrival {
    /// The battery state.
    pub reading: Option<BatteryInfo>,
    /// Somebody still listens.
    pub deliverable: bool,
}

impl Arrival {
    /// An update is sent, and cannot be delivered.
    pub open spec fn fails(self) -> bool {
        self.reading is Some && !self.deliverable
    }
}

/// What a forwarder has done.
pub struct Forwarding {
    /// The updates that it sent, in order.
    pub sent: Seq<BatteryUpdate>,
    /// It has stopped for good.
    pub stopped: bool,
}

/// What a forwarder has done about a series of broadcasts.
pub open spec fn forwarding(route: DeviceRoute, arrivals: Seq<Arrival>) -> Forwarding
    decreases arrivals.len(),
{
    if arrivals.len() == 0 {
        Forwarding { sent: seq![], stopped: false }
    } else {
        let before = forwarding(route, arrivals.drop_last());
        let arrival = arrivals.last();
        if before.stopped {
            before
        } else {
            match reaction(route, ForwarderEvent::Broadcast(arrival.reading)) {
                ForwarderAction::Send(update) => {
                    let outcome = if arrival.deliverable {
                        ForwarderEvent::Delivered
                    } else {
                        ForwarderEvent::Undeliverable
                    };
                    Forwarding {
                        sent: before.sent.push(update),
                        stopped: reaction(route, outcome) is Stop,
                    }
                },
                ForwarderAction::Receive => before,
                ForwarderAction::Stop => Forwarding { stopped: true, ..before },
            }
        }
    }
}

/// Every battery state that a device broadcasts is sent on, once, in order and
/// with the device's route, and nothing else is, up to and including the first
/// update that cannot be delivered: then the forwarder stops. `heard` is the
/// number of broadcasts up to there, or of all if every update is delivered.
pub proof fn broadcasts_are_forwarded_with_the_route(
    route: DeviceRoute,
    arrivals: Seq<Arrival>,
    heard: int,
)
    requires
        0 <= heard <= arrivals.len(),
        forall|i: int| 0 <= i < heard - 1 ==> !(#[trigger] arrivals[i]).fails(),
        heard < arrivals.len() ==> heard > 0 && arrivals[heard - 1].fails(),
    ensures
        forwarding(route, arrivals).sent == arrivals.take(heard).filter(
            |arrival: Arrival| arrival.reading is Some,
        ).map_values(
            |arrival: Arrival| BatteryUpdate { route, battery: arrival.reading->0 },
        ),
        forwarding(route, arrivals).stopped <==> heard > 0 && arrivals[heard - 1].fails(),
    decreases arrivals.len(),
{
    reveal(Seq::filter);
    let shown = |arrival: Arrival| arrival.reading is Some;
    let update = |arrival: Arrival| BatteryUpdate { route, battery: arrival.reading->0 };
    let forwarded = arrivals.take(heard).filter(shown).map_values(update);
    if arrivals.len() == 0 {
        assert(forwarding(route, arrivals).sent =~= forwarded);
    } else {
        let earlier = arrivals.drop_last();
        assert forall|i: int| 0 <= i < earlier.len() implies #[trigger] earlier[i]
            == arrivals[i] by {}
        if heard == arrivals.len() {
            broadcasts_are_forwarded_with_the_route(route, earlier, heard - 1);
            assert(arrivals.take(heard) =~= arrivals);
            assert(earlier.take(heard - 1) =~= earlier);
            if heard > 1 {
                assert(!arrivals[heard - 2].fails());
            }
        } else {
            broadcasts_are_forwarded_with_the_route(route, earlier, heard);
            assert(earlier.take(heard) =~= arrivals.take(heard));
        }
        assert(forwarding(route, arrivals).sent =~= forwarded);
    }
}

/// A forwarder only ever sends what a broadcast showed, with its own route, and
/// stops exactly when the broadcasts end or nobody listens any more.
pub proof fn forwarder_reacts_to_what_happened(route: DeviceRoute, event: ForwarderEvent)
    ensures
        reaction(route, event) is Stop <==> event is Ended || event is Undeliverable,
        reaction(route, event) is Send <==> (event matches ForwarderEvent::Broadcast(reading)
            && reading is Some),
        reaction(route, event) matches ForwarderAction::Send(update) ==> update.route == route
            && event == ForwarderEvent::Broadcast(Some(update.battery)),
{
}

} // verus!
