//! The mix sender: every packet that the other tasks produce leaves
//! through here, in the order in which it arrived.
use vstd::prelude::*;
use crate::message::MixMessage;

verus! {

/// What the mix sender has just seen.
#[derive(Debug, PartialEq, Eq)]
pub enum MixTrafficEvent {
    /// The task has started.
    Started,
    /// A packet arrived on the mix channel.
    Received(MixMessage),
    /// The mix channel has ended: every producer is gone.
    Closed,
    /// The last packet went out.
    Sent,
    /// The last packet could not be sent.
    SendFailed,
}

/// What the mix sender has to do next.
#[derive(Debug, PartialEq, Eq)]
pub enum MixTrafficAction {
    /// Wait for the next packet on the mix channel.
    Receive,
    /// Send this packet to its first hop.
    Transmit(MixMessage),
    /// Nothing is left to do.
    Finish,
}

/// The mix sender's rule. A packet that arrives is sent, as it is, to the
/// address it names. A send that fails is passed over: the sender waits
/// for the next packet as after one that succeeded. Only the end of the
/// mix channel ends the task.
pub open spec fn mix_traffic_next(event: MixTrafficEvent) -> MixTrafficAction {
    match event {
        MixTrafficEvent::Started | MixTrafficEvent::Sent | MixTrafficEvent::SendFailed =>
            MixTrafficAction::Receive,
        MixTrafficEvent::Received(message) => MixTrafficAction::Transmit(message),
        MixTrafficEvent::Closed => MixTrafficAction::Finish,
    }
}

/// The task that drains the mix channel onto the wire.
pub struct MixTrafficController;

impl MixTrafficController {
    /// One step of the mix sender.
    pub fn step(event: MixTrafficEvent) -> (action: MixTrafficAction)
        ensures
            action == mix_traffic_next(event),
    {
        match event {
            MixTrafficEvent::Started => MixTrafficAction::Receive,
            MixTrafficEvent::Sent => MixTrafficAction::Receive,
            MixTrafficEvent::SendFailed => MixTrafficAction::Receive,
            MixTrafficEvent::Received(message) => MixTrafficAction::Transmit(message),
            MixTrafficEvent::Closed => MixTrafficAction::Finish,
        }
    }
}

/// The packets that arrived during `events`, in order.
pub open spec fn arrivals(events: Seq<MixTrafficEvent>) -> Seq<MixMessage>
    decreases events.len(),
{
    if events.len() == 0 {
        Seq::empty()
    } else {
        match events.last() {
            MixTrafficEvent::Received(message) => arrivals(events.drop_last()).push(message),
            _ => arrivals(events.drop_last()),
        }
    }
}

/// The packets that the sender was told to send while it stepped through
/// `events`, in order.
pub open spec fn transmissions(events: Seq<MixTrafficEvent>) -> Seq<MixMessage>
    decreases events.len(),
{
    if events.len() == 0 {
        Seq::empty()
    } else {
        match mix_traffic_next(events.last()) {
            MixTrafficAction::Transmit(message) => transmissions(events.drop_last()).push(message),
            _ => transmissions(events.drop_last()),
        }
    }
}

/// Whatever happens on the wire, the sender sends each packet that
/// arrives exactly once, unchanged and in the order of arrival: failed
/// sends neither stop it nor make it skip or repeat a packet.
pub proof fn lemma_transmits_arrivals_in_order(events: Seq<MixTrafficEvent>)
    ensures
        transmissions(events) == arrivals(events),
    decreases events.len(),
{
    if events.len() > 0 {
        lemma_transmits_arrivals_in_order(events.drop_last());
    }
}

/// The sender stops for one reason only: its channel has ended.
pub proof fn lemma_only_closure_finishes(event: MixTrafficEvent)
    ensures
        mix_traffic_next(event) == MixTrafficAction::Finish <==> event == MixTrafficEvent::Closed,
{
}

} // verus!
