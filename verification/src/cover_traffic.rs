//! The loop-cover stream: cover packets on a random clock of their own,
//! whether or not the client has anything to say.
use vstd::prelude::*;
use crate::channel::send_unbounded;
use crate::message::{Destination, MixMessage, PacketRequest};
use crate::timing::{Delay, LOOP_COVER_AVERAGE_DELAY};

verus! {

/// What the cover stream has just seen.
#[derive(Debug, PartialEq, Eq)]
pub enum CoverEvent {
    /// The task has started.
    Started,
    /// The wait before the next cover packet is over.
    Waited,
    /// The packet that was asked for has been built.
    Built(MixMessage),
    /// The packet is on the mix channel.
    Pushed,
    /// The mix channel has no receiver any more.
    PushFailed,
}

/// What the cover stream has to do next.
#[derive(Debug, PartialEq, Eq)]
pub enum CoverAction {
    Wait(Delay),
    Build(PacketRequest),
    Push(MixMessage),
    Abort,
}

/// The cover stream's rule, for a client known as `our_info`. It waits a
/// random time around the configured mean, asks for a cover packet that
/// loops back to the client, pushes it to the mix sender, and starts over.
/// A mix sender that is gone ends the session.
pub open spec fn cover_next(event: CoverEvent, our_info: Destination) -> CoverAction {
    match event {
        CoverEvent::Started | CoverEvent::Pushed => CoverAction::Wait(
            Delay::Exponential { mean: LOOP_COVER_AVERAGE_DELAY },
        ),
        CoverEvent::Waited => CoverAction::Build(PacketRequest::LoopCover { origin: our_info }),
        CoverEvent::Built(message) => CoverAction::Push(message),
        CoverEvent::PushFailed => CoverAction::Abort,
    }
}

/// The task that emits loop-cover packets.
#[derive(Clone, Copy, Debug, PartialEq, Eq)]
pub struct LoopCoverStream {
    pub our_info: Destination,
}

impl LoopCoverStream {
    pub fn new(our_info: Destination) -> (stream: Self)
        ensures
            stream.our_info == our_info,
    {
        LoopCoverStream { our_info }
    }

    /// One step of the cover stream.
    pub fn step(&self, event: CoverEvent) -> (action: CoverAction)
        ensures
            action == cover_next(event, self.our_info),
    {
        match event {
            CoverEvent::Started => CoverAction::Wait(
                Delay::Exponential { mean: LOOP_COVER_AVERAGE_DELAY },
            ),
            CoverEvent::Pushed => CoverAction::Wait(
                Delay::Exponential { mean: LOOP_COVER_AVERAGE_DELAY },
            ),
            CoverEvent::Waited => CoverAction::Build(
                PacketRequest::LoopCover { origin: self.our_info },
            ),
            CoverEvent::Built(message) => CoverAction::Push(message),
            CoverEvent::PushFailed => CoverAction::Abort,
        }
    }

    /// The step that follows an attempt to queue a packet, given how the
    /// attempt ended: the stream goes on to its next wait when the packet
    /// was queued, and gives up when the packet came back because the mix
    /// sender is gone.
    pub fn after_push(&self, sent: Result<(), MixMessage>) -> (action: CoverAction)
        ensures
            action == cover_next(
                if sent is Ok {
                    CoverEvent::Pushed
                } else {
                    CoverEvent::PushFailed
                },
                self.our_info,
            ),
    {
        match sent {
            Ok(()) => self.step(CoverEvent::Pushed),
            Err(_) => self.step(CoverEvent::PushFailed),
        }
    }

    /// Puts a cover packet on the mix channel and makes the step that
    /// follows: the next wait when the packet was queued, the end of the
    /// session when the mix sender is gone. Which of the two it is lies
    /// with the mix sender alone.
    pub fn push(
        &self,
        mix_tx: &futures::channel::mpsc::UnboundedSender<MixMessage>,
        message: MixMessage,
    ) -> (action: CoverAction)
        ensures
            action == cover_next(CoverEvent::Pushed, self.our_info) || action == cover_next(
                CoverEvent::PushFailed,
                self.our_info,
            ),
    {
        self.after_push(send_unbounded(mix_tx, message))
    }
}

/// Every packet that the cover stream asks for is a loop-cover packet of
/// this client, and it asks for one after each wait and at no other time.
pub proof fn lemma_cover_stream_emits_only_cover(event: CoverEvent, our_info: Destination)
    ensures
        cover_next(event, our_info) matches CoverAction::Build(request) ==> request
            == (PacketRequest::LoopCover { origin: our_info }),
        cover_next(event, our_info) is Build <==> event == CoverEvent::Waited,
        cover_next(event, our_info) matches CoverAction::Wait(delay) ==> delay
            == (Delay::Exponential { mean: LOOP_COVER_AVERAGE_DELAY }),
{
}

} // verus!
