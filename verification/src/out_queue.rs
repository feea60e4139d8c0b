//! The out queue: one packet per tick of a random clock, real when the
//! application has a message waiting, cover when it has not.
//!
//! The clock never waits for the application. Each tick looks at the input
//! channel once, takes what is there or finds nothing, and emits either
//! way, so that an observer of the packets cannot tell a busy client from
//! an idle one.
use vstd::prelude::*;
use crate::channel::{send_unbounded, try_receive, Polled};
use crate::message::{Destination, InputMessage, MixMessage, PacketRequest};
use crate::timing::{Delay, MESSAGE_SENDING_AVERAGE_DELAY};

verus! {

/// What the out queue has just seen.
#[derive(Debug, PartialEq, Eq)]
pub enum OutQueueEvent {
    /// The task has started.
    Started,
    /// The wait between two ticks is over.
    Waited,
    /// The input channel was looked at, once and without waiting.
    Polled(Polled<InputMessage>),
    /// The packet that was asked for has been built.
    Built(MixMessage),
    /// The packet is on the mix channel.
    Pushed,
    /// The mix channel has no receiver any more.
    PushFailed,
}

/// What the out queue has to do next.
#[derive(Debug, PartialEq, Eq)]
pub enum OutQueueAction {
    Poll,
    Build(PacketRequest),
    Push(MixMessage),
    Wait(Delay),
    Abort,
}

/// The packet that a tick asks for, given what the look at the input
/// channel found: the waiting message wrapped for its destination, or a
/// loop-cover packet of this client when nothing waits. A closed input
/// channel means that the client is being torn down, and nothing is asked
/// for.
pub open spec fn selection(found: Polled<InputMessage>, our_info: Destination) -> Option<
    PacketRequest,
> {
    match found {
        Polled::Ready(message) => Some(
            PacketRequest::Forward { destination: message.0, payload: message.1 },
        ),
        Polled::Empty => Some(PacketRequest::LoopCover { origin: our_info }),
        Polled::Closed => None,
    }
}

/// What a tick does once it has looked at the input channel: it asks for
/// the packet selected, or gives up when the channel is closed.
pub open spec fn after_poll(found: Polled<InputMessage>, our_info: Destination) -> OutQueueAction {
    match selection(found, our_info) {
        Some(request) => OutQueueAction::Build(request),
        None => OutQueueAction::Abort,
    }
}

/// The out queue's rule, for a client known as `our_info`. A tick polls,
/// asks for the packet that the poll selects, pushes it to the mix sender
/// and waits a random time around the configured mean. A closed input
/// channel, or a mix sender that is gone, ends the session.
pub open spec fn out_queue_next(event: OutQueueEvent, our_info: Destination) -> OutQueueAction {
    match event {
        OutQueueEvent::Started | OutQueueEvent::Waited => OutQueueAction::Poll,
        OutQueueEvent::Polled(found) => after_poll(found, our_info),
        OutQueueEvent::Built(message) => OutQueueAction::Push(message),
        OutQueueEvent::Pushed => OutQueueAction::Wait(
            Delay::Exponential { mean: MESSAGE_SENDING_AVERAGE_DELAY },
        ),
        OutQueueEvent::PushFailed => OutQueueAction::Abort,
    }
}

/// The task that shapes outgoing traffic.
#[derive(Clone, Copy, Debug, PartialEq, Eq)]
pub struct OutQueueController {
    pub our_info: Destination,
}

impl OutQueueController {
    pub fn new(our_info: Destination) -> (controller: Self)
        ensures
            controller.our_info == our_info,
    {
        OutQueueController { our_info }
    }

    /// Chooses between real traffic and cover.
    pub fn select(&self, found: Polled<InputMessage>) -> (request: Option<PacketRequest>)
        ensures
            request == selection(found, self.our_info),
    {
        match found {
            Polled::Ready(message) => Some(
                PacketRequest::Forward { destination: message.0, payload: message.1 },
            ),
            Polled::Empty => Some(PacketRequest::LoopCover { origin: self.our_info }),
            Polled::Closed => None,
        }
    }

    /// One step of the out queue.
    pub fn step(&self, event: OutQueueEvent) -> (action: OutQueueAction)
        ensures
            action == out_queue_next(event, self.our_info),
    {
        match event {
            OutQueueEvent::Started => OutQueueAction::Poll,
            OutQueueEvent::Waited => OutQueueAction::Poll,
            OutQueueEvent::Polled(found) => match self.select(found) {
                Some(request) => OutQueueAction::Build(request),
                None => OutQueueAction::Abort,
            },
            OutQueueEvent::Built(message) => OutQueueAction::Push(message),
            OutQueueEvent::Pushed => OutQueueAction::Wait(
                Delay::Exponential { mean: MESSAGE_SENDING_AVERAGE_DELAY },
            ),
            OutQueueEvent::PushFailed => OutQueueAction::Abort,
        }
    }

    /// Looks at the input channel once, without waiting, and makes the
    /// step that follows from what was found there.
    pub fn poll(
        &self,
        input_rx: &mut futures::channel::mpsc::UnboundedReceiver<InputMessage>,
    ) -> (action: OutQueueAction)
        ensures
            exists|found: Polled<InputMessage>| action == #[trigger] after_poll(found, self.our_info),
            action matches OutQueueAction::Build(PacketRequest::LoopCover { origin }) ==> origin
                == self.our_info,
            action is Build || action is Abort,
    {
        let found = try_receive(input_rx);
        let ghost seen = found;
        let action = self.step(OutQueueEvent::Polled(found));
        assert(action == after_poll(seen, self.our_info));
        action
    }

    /// The step that follows an attempt to queue a packet, given how the
    /// attempt ended: the out queue waits for its next tick when the
    /// packet was queued, and gives up when the packet came back because
    /// the mix sender is gone.
    pub fn after_push(&self, sent: Result<(), MixMessage>) -> (action: OutQueueAction)
        ensures
            action == out_queue_next(
                if sent is Ok {
                    OutQueueEvent::Pushed
                } else {
                    OutQueueEvent::PushFailed
                },
                self.our_info,
            ),
    {
        match sent {
            Ok(()) => self.step(OutQueueEvent::Pushed),
            Err(_) => self.step(OutQueueEvent::PushFailed),
        }
    }

    /// Puts a packet on the mix channel and makes the step that follows:
    /// the wait until the next tick when the packet was queued, the end
    /// of the session when the mix sender is gone. Which of the two it is
    /// lies with the mix sender alone.
    pub fn push(
        &self,
        mix_tx: &futures::channel::mpsc::UnboundedSender<MixMessage>,
        message: MixMessage,
    ) -> (action: OutQueueAction)
        ensures
            action == out_queue_next(OutQueueEvent::Pushed, self.our_info) || action
                == out_queue_next(OutQueueEvent::PushFailed, self.our_info),
    {
        self.after_push(send_unbounded(mix_tx, message))
    }
}

/// The packets asked for while the out queue stepped through `events`, in
/// order.
pub open spec fn emissions(events: Seq<OutQueueEvent>, our_info: Destination) -> Seq<
    PacketRequest,
>
    decreases events.len(),
{
    if events.len() == 0 {
        Seq::empty()
    } else {
        match out_queue_next(events.last(), our_info) {
            OutQueueAction::Build(request) => emissions(events.drop_last(), our_info).push(
                request,
            ),
            _ => emissions(events.drop_last(), our_info),
        }
    }
}

/// The messages that the polls among `events` took from the input
/// channel, in order.
pub open spec fn inputs_taken(events: Seq<OutQueueEvent>) -> Seq<InputMessage>
    decreases events.len(),
{
    if events.len() == 0 {
        Seq::empty()
    } else {
        match events.last() {
            OutQueueEvent::Polled(Polled::Ready(message)) => inputs_taken(
                events.drop_last(),
            ).push(message),
            _ => inputs_taken(events.drop_last()),
        }
    }
}

/// How many polls among `events` found the input channel empty.
pub open spec fn idle_ticks(events: Seq<OutQueueEvent>) -> nat
    decreases events.len(),
{
    if events.len() == 0 {
        0
    } else {
        match events.last() {
            OutQueueEvent::Polled(Polled::Empty) => idle_ticks(events.drop_last()) + 1,
            _ => idle_ticks(events.drop_last()),
        }
    }
}

/// The real messages among the packets asked for, in order.
pub open spec fn forwarded(requests: Seq<PacketRequest>) -> Seq<InputMessage>
    decreases requests.len(),
{
    if requests.len() == 0 {
        Seq::empty()
    } else {
        match requests.last() {
            PacketRequest::Forward { destination, payload } => forwarded(
                requests.drop_last(),
            ).push(InputMessage(destination, payload)),
            PacketRequest::LoopCover { .. } => forwarded(requests.drop_last()),
        }
    }
}

/// How many of the packets asked for are cover.
pub open spec fn cover_count(requests: Seq<PacketRequest>) -> nat
    decreases requests.len(),
{
    if requests.len() == 0 {
        0
    } else if requests.last().is_cover() {
        cover_count(requests.drop_last()) + 1
    } else {
        cover_count(requests.drop_last())
    }
}

/// A tick that finds the input channel empty does not wait: it asks for
/// exactly one packet, and that packet is a loop-cover packet of this
/// client.
pub proof fn lemma_idle_tick_emits_cover(our_info: Destination)
    ensures
        out_queue_next(OutQueueEvent::Polled(Polled::Empty), our_info) == OutQueueAction::Build(
            PacketRequest::LoopCover { origin: our_info },
        ),
        emissions(seq![OutQueueEvent::Polled(Polled::Empty)], our_info) == seq![
            PacketRequest::LoopCover { origin: our_info },
        ],
{
    let tick = seq![OutQueueEvent::Polled(Polled::<InputMessage>::Empty)];
    assert(tick.drop_last() =~= Seq::<OutQueueEvent>::empty());
    assert(emissions(tick.drop_last(), our_info) =~= Seq::<PacketRequest>::empty());
    assert(emissions(tick, our_info) =~= seq![PacketRequest::LoopCover { origin: our_info }]);
}

/// A tick that finds a message waiting asks for exactly one packet, and
/// that packet carries the message to the destination it names.
pub proof fn lemma_busy_tick_emits_real(message: InputMessage, our_info: Destination)
    ensures
        out_queue_next(OutQueueEvent::Polled(Polled::Ready(message)), our_info)
            == OutQueueAction::Build(
            PacketRequest::Forward { destination: message.0, payload: message.1 },
        ),
        emissions(seq![OutQueueEvent::Polled(Polled::Ready(message))], our_info) == seq![
            PacketRequest::Forward { destination: message.0, payload: message.1 },
        ],
{
    let tick = seq![OutQueueEvent::Polled(Polled::Ready(message))];
    assert(tick.drop_last() =~= Seq::<OutQueueEvent>::empty());
    assert(emissions(tick.drop_last(), our_info) =~= Seq::<PacketRequest>::empty());
    assert(emissions(tick, our_info) =~= seq![
        PacketRequest::Forward { destination: message.0, payload: message.1 },
    ]);
}

/// Over any run of the out queue: each message taken from the input
/// channel is asked for exactly once, unchanged and in the order taken,
/// and nothing else is sent as real; each tick that found the channel
/// empty is filled with one cover packet; and there are no other packets.
pub proof fn lemma_one_emission_per_tick(events: Seq<OutQueueEvent>, our_info: Destination)
    ensures
        forwarded(emissions(events, our_info)) == inputs_taken(events),
        cover_count(emissions(events, our_info)) == idle_ticks(events),
        emissions(events, our_info).len() == inputs_taken(events).len() + idle_ticks(events),
        forall|i: int|
            0 <= i < emissions(events, our_info).len() && (#[trigger] emissions(
                events,
                our_info,
            )[i]).is_cover() ==> emissions(events, our_info)[i] == (PacketRequest::LoopCover {
                origin: our_info,
            }),
    decreases events.len(),
{
    if events.len() > 0 {
        let before = events.drop_last();
        lemma_one_emission_per_tick(before, our_info);
        let earlier = emissions(before, our_info);
        match out_queue_next(events.last(), our_info) {
            OutQueueAction::Build(request) => {
                assert(earlier.push(request).drop_last() =~= earlier);
            },
            _ => {},
        }
    }
}

/// A push that fails is the end: the out queue gives up at that push,
/// and asks for nothing more on its account. The message that the packet
/// carried was taken from the input channel once and is not taken, nor
/// asked for, again.
pub proof fn lemma_failed_push_is_fatal(events: Seq<OutQueueEvent>, our_info: Destination)
    ensures
        out_queue_next(OutQueueEvent::PushFailed, our_info) == OutQueueAction::Abort,
        emissions(events.push(OutQueueEvent::PushFailed), our_info) == emissions(events, our_info),
        inputs_taken(events.push(OutQueueEvent::PushFailed)) == inputs_taken(events),
{
    let after = events.push(OutQueueEvent::PushFailed);
    assert(after.drop_last() =~= events);
    assert(after.last() == OutQueueEvent::PushFailed);
}

} // verus!
