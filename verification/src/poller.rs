//! The provider poller: fetch on a fixed cadence, drop the cover, publish
//! the rest.
use vstd::prelude::*;
use crate::buffer::{contents_after, payloads, replies, BufferOp};
use crate::channel::send_unbounded;
use crate::timing::{Delay, FETCH_MESSAGES_DELAY};

verus! {

/// Whether a payload is a real message: neither of the two payloads that
/// stand for "nothing".
pub open spec fn is_real(payload: Seq<u8>, loop_cover: Seq<u8>, dummy: Seq<u8>) -> bool {
    payload != loop_cover && payload != dummy
}

/// What is left of a provider's response once cover and dummy payloads
/// are dropped: the real messages, in the order they came in.
pub open spec fn retain_real(response: Seq<Seq<u8>>, loop_cover: Seq<u8>, dummy: Seq<u8>) -> Seq<
    Seq<u8>,
> {
    response.filter(|payload: Seq<u8>| is_real(payload, loop_cover, dummy))
}

/// What the poller has just seen.
#[derive(Debug, PartialEq, Eq)]
pub enum PollerEvent {
    /// The task has started.
    Started,
    /// The wait between two polls is over.
    Waited,
    /// The provider answered with these payloads.
    Fetched(Vec<Vec<u8>>),
    /// The provider could not be asked, or refused.
    FetchFailed,
    /// The batch was handed to the buffer's side.
    Published,
    /// The buffer's side is gone.
    PublishFailed,
}

/// What the poller has to do next.
#[derive(Debug, PartialEq, Eq)]
pub enum PollerAction {
    Wait(Delay),
    Fetch,
    Publish(Vec<Vec<u8>>),
    Abort,
}

/// Whether two byte strings are the same.
pub fn same_bytes(left: &Vec<u8>, right: &Vec<u8>) -> (same: bool)
    ensures
        same == (left@ == right@),
{
    if left.len() != right.len() {
        return false;
    }
    let mut at: usize = 0;
    while at < left.len()
        invariant
            at <= left.len(),
            left.len() == right.len(),
            forall|k: int| 0 <= k < at ==> left@[k] == right@[k],
        decreases left.len() - at,
    {
        if left[at] != right[at] {
            return false;
        }
        at += 1;
    }
    assert(left@ =~= right@);
    true
}

/// The two payloads that carry no message: the one inside this client's
/// own loop-cover packets, and the one with which a provider pads its
/// answers.
#[derive(Debug, PartialEq, Eq)]
pub struct CoverPayloads {
    pub loop_cover: Vec<u8>,
    pub dummy: Vec<u8>,
}

impl CoverPayloads {
    pub fn new(loop_cover: Vec<u8>, dummy: Vec<u8>) -> (cover: Self)
        ensures
            cover.loop_cover == loop_cover,
            cover.dummy == dummy,
    {
        CoverPayloads { loop_cover, dummy }
    }

    /// Whether `payload` is a real message.
    pub open spec fn admits(self, payload: Seq<u8>) -> bool {
        is_real(payload, self.loop_cover@, self.dummy@)
    }

    /// A provider's response without its cover and dummy payloads.
    pub open spec fn retained(self, response: Seq<Seq<u8>>) -> Seq<Seq<u8>> {
        retain_real(response, self.loop_cover@, self.dummy@)
    }

    /// Whether `message` is a real message.
    pub fn is_real_message(&self, message: &Vec<u8>) -> (admitted: bool)
        ensures
            admitted == self.admits(message@),
    {
        !same_bytes(message, &self.loop_cover) && !same_bytes(message, &self.dummy)
    }

    /// Drops every payload that equals the loop-cover or the dummy payload
    /// and keeps the others, in order.
    pub fn filter_cover_traffic(&self, messages: Vec<Vec<u8>>) -> (kept: Vec<Vec<u8>>)
        ensures
            payloads(kept@) == self.retained(payloads(messages@)),
    {
        let ghost all = payloads(messages@);
        let ghost wanted = |payload: Seq<u8>| is_real(payload, self.loop_cover@, self.dummy@);
        let mut kept: Vec<Vec<u8>> = Vec::new();
        proof {
            reveal(Seq::filter);
            assert(all.take(0) =~= Seq::<Seq<u8>>::empty());
            assert(payloads(kept@) =~= all.take(0).filter(wanted));
        }
        for message in iter: messages
            invariant
                all == payloads(messages@),
                wanted == (|payload: Seq<u8>| is_real(payload, self.loop_cover@, self.dummy@)),
                iter.seq() == messages@,
                payloads(kept@) == all.take(iter.index() as int).filter(wanted),
        {
            let ghost at = iter.index() as int;
            let ghost before = payloads(kept@);
            let keep = self.is_real_message(&message);
            proof {
                assert(all.take(at + 1) =~= all.take(at).push(message@));
                all.take(at).lemma_filter_push(message@, wanted);
            }
            if keep {
                kept.push(message);
                assert(payloads(kept@) =~= before.push(message@));
            }
        }
        assert(all.take(messages@.len() as int) =~= all);
        kept
    }
}

/// A poller's event, with the payloads as the bytes they hold.
pub enum PollerEventView {
    Started,
    Waited,
    Fetched(Seq<Seq<u8>>),
    FetchFailed,
    Published,
    PublishFailed,
}

/// A poller's action, with the payloads as the bytes they hold.
pub enum PollerActionView {
    Wait(Delay),
    Fetch,
    Publish(Seq<Seq<u8>>),
    Abort,
}

impl View for PollerEvent {
    type V = PollerEventView;

    open spec fn view(&self) -> PollerEventView {
        match *self {
            PollerEvent::Started => PollerEventView::Started,
            PollerEvent::Waited => PollerEventView::Waited,
            PollerEvent::Fetched(response) => PollerEventView::Fetched(payloads(response@)),
            PollerEvent::FetchFailed => PollerEventView::FetchFailed,
            PollerEvent::Published => PollerEventView::Published,
            PollerEvent::PublishFailed => PollerEventView::PublishFailed,
        }
    }
}

impl View for PollerAction {
    type V = PollerActionView;

    open spec fn view(&self) -> PollerActionView {
        match *self {
            PollerAction::Wait(delay) => PollerActionView::Wait(delay),
            PollerAction::Fetch => PollerActionView::Fetch,
            PollerAction::Publish(batch) => PollerActionView::Publish(payloads(batch@)),
            PollerAction::Abort => PollerActionView::Abort,
        }
    }
}

/// The poller's rule, for the two payloads that count as cover. It waits
/// a fixed time, then fetches. An answer is published without its cover,
/// even when nothing is left of it. A provider that fails, or a buffer
/// that is gone, ends the session.
pub open spec fn poller_next(
    event: PollerEventView,
    loop_cover: Seq<u8>,
    dummy: Seq<u8>,
) -> PollerActionView {
    match event {
        PollerEventView::Started | PollerEventView::Published => PollerActionView::Wait(
            Delay::Fixed { millis: FETCH_MESSAGES_DELAY },
        ),
        PollerEventView::Waited => PollerActionView::Fetch,
        PollerEventView::Fetched(response) => PollerActionView::Publish(
            retain_real(response, loop_cover, dummy),
        ),
        PollerEventView::FetchFailed | PollerEventView::PublishFailed => PollerActionView::Abort,
    }
}

/// The task that polls the provider. It knows which payloads are cover.
#[derive(Debug, PartialEq, Eq)]
pub struct ProviderPoller {
    pub cover: CoverPayloads,
}

impl ProviderPoller {
    pub fn new(cover: CoverPayloads) -> (poller: Self)
        ensures
            poller.cover == cover,
    {
        ProviderPoller { cover }
    }

    /// What this poller does after `event`.
    pub open spec fn next(self, event: PollerEventView) -> PollerActionView {
        poller_next(event, self.cover.loop_cover@, self.cover.dummy@)
    }

    /// One step of the poller.
    pub fn step(&self, event: PollerEvent) -> (action: PollerAction)
        ensures
            action@ == self.next(event@),
    {
        match event {
            PollerEvent::Started => PollerAction::Wait(
                Delay::Fixed { millis: FETCH_MESSAGES_DELAY },
            ),
            PollerEvent::Published => PollerAction::Wait(
                Delay::Fixed { millis: FETCH_MESSAGES_DELAY },
            ),
            PollerEvent::Waited => PollerAction::Fetch,
            PollerEvent::Fetched(response) => PollerAction::Publish(
                self.cover.filter_cover_traffic(response),
            ),
            PollerEvent::FetchFailed => PollerAction::Abort,
            PollerEvent::PublishFailed => PollerAction::Abort,
        }
    }

    /// The step that follows an attempt to publish a batch, given how the
    /// attempt ended: the poller goes on to its next wait when the batch
    /// was taken, and gives up when the batch came back because the
    /// buffer's side is gone.
    pub fn after_publish(&self, sent: Result<(), Vec<Vec<u8>>>) -> (action: PollerAction)
        ensures
            action@ == self.next(
                if sent is Ok {
                    PollerEventView::Published
                } else {
                    PollerEventView::PublishFailed
                },
            ),
    {
        match sent {
            Ok(()) => self.step(PollerEvent::Published),
            Err(_) => self.step(PollerEvent::PublishFailed),
        }
    }

    /// Hands a filtered batch to the buffer's side and makes the step that
    /// follows: the next wait when the batch was taken, the end of the
    /// session when nobody is there to take it. Which of the two it is
    /// lies with the buffer's side alone.
    pub fn publish(
        &self,
        poller_tx: &futures::channel::mpsc::UnboundedSender<Vec<Vec<u8>>>,
        batch: Vec<Vec<u8>>,
    ) -> (action: PollerAction)
        ensures
            action@ == self.next(PollerEventView::Published) || action@ == self.next(
                PollerEventView::PublishFailed,
            ),
    {
        self.after_publish(send_unbounded(poller_tx, batch))
    }
}

/// Filtering drops exactly the cover: a real payload is kept as often as
/// the response holds it, and a cover or dummy payload is not kept at all.
pub proof fn lemma_retained_counts(
    response: Seq<Seq<u8>>,
    loop_cover: Seq<u8>,
    dummy: Seq<u8>,
    payload: Seq<u8>,
)
    ensures
        retain_real(response, loop_cover, dummy).to_multiset().count(payload) == if is_real(
            payload,
            loop_cover,
            dummy,
        ) {
            response.to_multiset().count(payload)
        } else {
            0
        },
    decreases response.len(),
{
    broadcast use vstd::seq_lib::group_to_multiset_ensures;

    let wanted = |p: Seq<u8>| is_real(p, loop_cover, dummy);
    if response.len() == 0 {
        reveal(Seq::filter);
        assert(response.filter(wanted) =~= Seq::<Seq<u8>>::empty());
        assert(response =~= Seq::<Seq<u8>>::empty());
    } else {
        let front = response.drop_last();
        let last = response.last();
        lemma_retained_counts(front, loop_cover, dummy, payload);
        assert(response =~= front.push(last));
        front.lemma_filter_push(last, wanted);
    }
}

/// Filtering keeps the order and works batch by batch: the real messages
/// of two responses laid end to end are those of the first followed by
/// those of the second.
pub proof fn lemma_retained_concat(
    first: Seq<Seq<u8>>,
    second: Seq<Seq<u8>>,
    loop_cover: Seq<u8>,
    dummy: Seq<u8>,
)
    ensures
        retain_real(first + second, loop_cover, dummy) == retain_real(first, loop_cover, dummy)
            + retain_real(second, loop_cover, dummy),
{
    let wanted = |p: Seq<u8>| is_real(p, loop_cover, dummy);
    Seq::filter_distributes_over_add(first, second, wanted);
}

/// No cover reaches the reader. When a buffer that holds `held` is given
/// the filtered form of a provider's response, the next drain returns
/// `held` followed by the response's real messages in their order, and
/// nothing of the response that equals the loop-cover or the dummy
/// payload is among them.
pub proof fn lemma_next_drain_omits_cover(
    held: Seq<Seq<u8>>,
    response: Seq<Seq<u8>>,
    loop_cover: Seq<u8>,
    dummy: Seq<u8>,
)
    ensures
        ({
            let published = retain_real(response, loop_cover, dummy);
            let ops = seq![BufferOp::Append(published), BufferOp::Drain];
            &&& poller_next(PollerEventView::Fetched(response), loop_cover, dummy)
                == PollerActionView::Publish(published)
            &&& replies(held, ops) == seq![held + published]
            &&& contents_after(held, ops) == Seq::<Seq<u8>>::empty()
            &&& all_real(published, loop_cover, dummy)
            &&& forall|i: int|
                0 <= i < response.len() && is_real(response[i], loop_cover, dummy)
                    ==> published.contains(#[trigger] response[i])
        }),
{
    let wanted = |p: Seq<u8>| is_real(p, loop_cover, dummy);
    let published = retain_real(response, loop_cover, dummy);
    let ops = seq![BufferOp::Append(published), BufferOp::Drain];
    let first = seq![BufferOp::Append(published)];
    assert(ops.drop_last() =~= first);
    assert(first.drop_last() =~= Seq::<BufferOp>::empty());
    assert(contents_after(held, first.drop_last()) == held);
    assert(contents_after(held, first) == held + published);
    assert(replies(held, first.drop_last()) =~= Seq::<Seq<Seq<u8>>>::empty());
    assert(replies(held, first) =~= Seq::<Seq<Seq<u8>>>::empty());
    assert(replies(held, ops) =~= seq![held + published]);
    lemma_retained_is_real(response, loop_cover, dummy);
    assert forall|i: int|
        0 <= i < response.len() && is_real(response[i], loop_cover, dummy) implies published.contains(
        #[trigger] response[i],
    ) by {
        response.lemma_filter_contains(wanted, i);
    }
}

/// Whether every payload of a list is a real message.
pub open spec fn all_real(list: Seq<Seq<u8>>, loop_cover: Seq<u8>, dummy: Seq<u8>) -> bool {
    forall|i: int| 0 <= i < list.len() ==> is_real(#[trigger] list[i], loop_cover, dummy)
}

/// Whether every batch that `ops` append holds real messages only, as
/// the batches that the poller publishes do.
pub open spec fn appends_only_real(ops: Seq<BufferOp>, loop_cover: Seq<u8>, dummy: Seq<u8>) -> bool {
    forall|k: int|
        0 <= k < ops.len() ==> match #[trigger] ops[k] {
            BufferOp::Append(batch) => all_real(batch, loop_cover, dummy),
            BufferOp::Drain => true,
        }
}

/// What the poller publishes holds real messages only.
pub proof fn lemma_retained_is_real(response: Seq<Seq<u8>>, loop_cover: Seq<u8>, dummy: Seq<u8>)
    ensures
        all_real(retain_real(response, loop_cover, dummy), loop_cover, dummy),
{
    let wanted = |p: Seq<u8>| is_real(p, loop_cover, dummy);
    let published = retain_real(response, loop_cover, dummy);
    assert forall|i: int| 0 <= i < published.len() implies is_real(
        #[trigger] published[i],
        loop_cover,
        dummy,
    ) by {
        response.lemma_filter_pred(wanted, i);
    }
}

/// A buffer that is fed by the poller alone never hands out cover: if it
/// started without cover and every batch appended since was free of it,
/// then so is every reply that a reader got, and so is what it still
/// holds.
pub proof fn lemma_no_cover_is_ever_delivered(
    start: Seq<Seq<u8>>,
    ops: Seq<BufferOp>,
    loop_cover: Seq<u8>,
    dummy: Seq<u8>,
)
    requires
        all_real(start, loop_cover, dummy),
        appends_only_real(ops, loop_cover, dummy),
    ensures
        all_real(contents_after(start, ops), loop_cover, dummy),
        forall|r: int|
            0 <= r < replies(start, ops).len() ==> all_real(
                #[trigger] replies(start, ops)[r],
                loop_cover,
                dummy,
            ),
    decreases ops.len(),
{
    if ops.len() > 0 {
        let before = ops.drop_last();
        assert(appends_only_real(before, loop_cover, dummy)) by {
            assert forall|k: int| 0 <= k < before.len() implies match #[trigger] before[k] {
                BufferOp::Append(batch) => all_real(batch, loop_cover, dummy),
                BufferOp::Drain => true,
            } by {
                assert(before[k] == ops[k]);
            }
        }
        lemma_no_cover_is_ever_delivered(start, before, loop_cover, dummy);
        assert(ops.last() == ops[ops.len() - 1]);
        let earlier = replies(start, before);
        let now = replies(start, ops);
        assert forall|r: int| 0 <= r < now.len() implies all_real(
            #[trigger] now[r],
            loop_cover,
            dummy,
        ) by {
            if r < earlier.len() {
                assert(now[r] == earlier[r]);
            } else {
                assert(now[r] == contents_after(start, before));
            }
        }
    }
}

} // verus!
