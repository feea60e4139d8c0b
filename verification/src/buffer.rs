//! The buffer of received messages, and the two controllers that share it.
//!
//! The poller's side appends whole batches; the application's side takes
//! everything there is. Whoever drives the two holds the buffer under one
//! lock, so each call below is one step that nothing interleaves with.
use vstd::prelude::*;
use crate::channel::BufferResponse;

verus! {

/// The payloads of a list of messages, each as the bytes it holds.
pub open spec fn payloads(messages: Seq<Vec<u8>>) -> Seq<Seq<u8>> {
    messages.map_values(|message: Vec<u8>| message@)
}

/// Whether a task goes on after the step it has just made.
#[derive(Clone, Copy, Debug, PartialEq, Eq, Structural)]
pub enum TaskFlow {
    /// The step is done; wait for the next event.
    Continue,
    /// The task's input has ended; the task ends with it.
    Finished,
    /// The pipeline is broken; the whole client has to stop.
    Abort,
}

/// What a controller does once it knows whether a reply reached the reader:
/// a reply that nobody took is a broken pipeline.
pub open spec fn flow_after_reply(delivered: bool) -> TaskFlow {
    if delivered {
        TaskFlow::Continue
    } else {
        TaskFlow::Abort
    }
}

/// Messages fetched from the provider and not yet read by the application,
/// oldest first.
pub struct ReceivedMessagesBuffer {
    messages: Vec<Vec<u8>>,
}

impl View for ReceivedMessagesBuffer {
    type V = Seq<Seq<u8>>;

    closed spec fn view(&self) -> Seq<Seq<u8>> {
        payloads(self.messages@)
    }
}

impl ReceivedMessagesBuffer {
    /// An empty buffer.
    pub fn new() -> (buffer: Self)
        ensures
            buffer@ == Seq::<Seq<u8>>::empty(),
    {
        let buffer = ReceivedMessagesBuffer { messages: Vec::new() };
        assert(buffer@ =~= Seq::<Seq<u8>>::empty());
        buffer
    }

    /// How many messages wait to be read.
    pub fn len(&self) -> (count: usize)
        ensures
            count == self@.len(),
    {
        self.messages.len()
    }

    /// Appends a batch behind what is already there, in the batch's order.
    pub fn add_new_messages(&mut self, msgs: Vec<Vec<u8>>)
        ensures
            final(self)@ == old(self)@ + payloads(msgs@),
    {
        let mut batch = msgs;
        self.messages.append(&mut batch);
        assert(self@ =~= old(self)@ + payloads(msgs@));
    }

    /// Takes everything out: the buffer is empty afterwards, and the
    /// result is what it held, in order.
    pub fn acquire_and_empty(&mut self) -> (taken: Vec<Vec<u8>>)
        ensures
            payloads(taken@) == old(self)@,
            final(self)@ == Seq::<Seq<u8>>::empty(),
    {
        let mut taken: Vec<Vec<u8>> = Vec::new();
        std::mem::swap(&mut self.messages, &mut taken);
        assert(self@ =~= Seq::<Seq<u8>>::empty());
        taken
    }

    /// One step of the controller on the poller's side. A batch is appended
    /// and the controller goes on; when the poller's channel has ended the
    /// buffer stays as it is and the controller ends.
    pub fn poller_input_step(&mut self, received: Option<Vec<Vec<u8>>>) -> (flow: TaskFlow)
        ensures
            match received {
                Some(batch) => final(self)@ == old(self)@ + payloads(batch@) && flow
                    == TaskFlow::Continue,
                None => final(self)@ == old(self)@ && flow == TaskFlow::Finished,
            },
    {
        match received {
            Some(batch) => {
                self.add_new_messages(batch);
                TaskFlow::Continue
            },
            None => TaskFlow::Finished,
        }
    }

    /// What the query controller does after it tried to hand a reply over.
    pub fn reply_step(sent: Result<(), Vec<Vec<u8>>>) -> (flow: TaskFlow)
        ensures
            flow == flow_after_reply(sent is Ok),
    {
        match sent {
            Ok(()) => TaskFlow::Continue,
            Err(_) => TaskFlow::Abort,
        }
    }

    /// Empties the buffer into a reply slot. The slot is given everything
    /// that the buffer held, in order; when nobody waits for the reply any
    /// more, that is what comes back.
    pub fn answer(&mut self, slot: BufferResponse) -> (sent: Result<(), Vec<Vec<u8>>>)
        ensures
            final(self)@ == Seq::<Seq<u8>>::empty(),
            sent matches Err(back) ==> payloads(back@) == old(self)@,
    {
        let messages = self.acquire_and_empty();
        slot.send(messages)
    }

    /// One step of the controller on the application's side. A request
    /// empties the buffer into its reply slot; whether the reader was still
    /// there decides between going on and giving up. When the query channel
    /// has ended the buffer stays as it is and the controller ends.
    pub fn query_output_step(&mut self, request: Option<BufferResponse>) -> (flow: TaskFlow)
        ensures
            match request {
                Some(_) => final(self)@ == Seq::<Seq<u8>>::empty() && (flow == TaskFlow::Continue
                    || flow == TaskFlow::Abort),
                None => final(self)@ == old(self)@ && flow == TaskFlow::Finished,
            },
    {
        match request {
            Some(slot) => Self::reply_step(self.answer(slot)),
            None => TaskFlow::Finished,
        }
    }
}

/// One thing that can happen to the buffer: a batch arrives, or a reader
/// takes what is there.
pub enum BufferOp {
    Append(Seq<Seq<u8>>),
    Drain,
}

/// What the buffer holds after `ops` have been applied, in order, to a
/// buffer that held `start`.
pub open spec fn contents_after(start: Seq<Seq<u8>>, ops: Seq<BufferOp>) -> Seq<Seq<u8>>
    decreases ops.len(),
{
    if ops.len() == 0 {
        start
    } else {
        match ops.last() {
            BufferOp::Append(batch) => contents_after(start, ops.drop_last()) + batch,
            BufferOp::Drain => Seq::empty(),
        }
    }
}

/// The replies that the readers got while `ops` were applied, one for each
/// drain, in order.
pub open spec fn replies(start: Seq<Seq<u8>>, ops: Seq<BufferOp>) -> Seq<Seq<Seq<u8>>>
    decreases ops.len(),
{
    if ops.len() == 0 {
        Seq::empty()
    } else {
        match ops.last() {
            BufferOp::Append(_) => replies(start, ops.drop_last()),
            BufferOp::Drain => replies(start, ops.drop_last()).push(
                contents_after(start, ops.drop_last()),
            ),
        }
    }
}

/// Everything that `ops` appended, batch after batch.
pub open spec fn appended(ops: Seq<BufferOp>) -> Seq<Seq<u8>>
    decreases ops.len(),
{
    if ops.len() == 0 {
        Seq::empty()
    } else {
        match ops.last() {
            BufferOp::Append(batch) => appended(ops.drop_last()) + batch,
            BufferOp::Drain => appended(ops.drop_last()),
        }
    }
}

/// The replies laid end to end.
pub open spec fn delivered(batches: Seq<Seq<Seq<u8>>>) -> Seq<Seq<u8>>
    decreases batches.len(),
{
    if batches.len() == 0 {
        Seq::empty()
    } else {
        delivered(batches.drop_last()) + batches.last()
    }
}

/// Nothing is lost and nothing is handed out twice: however appends and
/// drains are interleaved, the replies laid end to end, followed by what
/// is still in the buffer, are exactly what the buffer started with
/// followed by everything that was appended, in the same order.
pub proof fn lemma_drains_partition_appends(start: Seq<Seq<u8>>, ops: Seq<BufferOp>)
    ensures
        delivered(replies(start, ops)) + contents_after(start, ops) == start + appended(ops),
    decreases ops.len(),
{
    if ops.len() == 0 {
        assert(delivered(replies(start, ops)) + contents_after(start, ops) =~= start + appended(
            ops,
        ));
    } else {
        let before = ops.drop_last();
        lemma_drains_partition_appends(start, before);
        match ops.last() {
            BufferOp::Append(batch) => {
                assert(delivered(replies(start, ops)) + contents_after(start, ops) =~= (delivered(
                    replies(start, before),
                ) + contents_after(start, before)) + batch);
                assert(start + appended(ops) =~= (start + appended(before)) + batch);
            },
            BufferOp::Drain => {
                let earlier = replies(start, before);
                let taken = contents_after(start, before);
                assert(earlier.push(taken).drop_last() =~= earlier);
                assert(earlier.push(taken).last() == taken);
                assert(delivered(replies(start, ops)) == delivered(earlier) + taken);
                assert(delivered(replies(start, ops)) + contents_after(start, ops) =~= delivered(
                    earlier,
                ) + taken);
            },
        }
    }
}

/// The same as a count, which is all that matters where order does not:
/// each payload is handed out, or still held, exactly as often as it was
/// there at the start or appended since. Once the last reader has emptied
/// a buffer that started empty, what was handed out is what was appended.
pub proof fn lemma_drained_multiset_is_appended_multiset(
    start: Seq<Seq<u8>>,
    ops: Seq<BufferOp>,
)
    ensures
        delivered(replies(start, ops)).to_multiset().add(
            contents_after(start, ops).to_multiset(),
        ) == start.to_multiset().add(appended(ops).to_multiset()),
        start.len() == 0 && contents_after(start, ops).len() == 0 ==> delivered(
            replies(start, ops),
        ).to_multiset() == appended(ops).to_multiset(),
{
    lemma_drains_partition_appends(start, ops);
    let handed = delivered(replies(start, ops));
    let held = contents_after(start, ops);
    vstd::seq_lib::lemma_multiset_commutative(handed, held);
    vstd::seq_lib::lemma_multiset_commutative(start, appended(ops));
    if start.len() == 0 && held.len() == 0 {
        assert(handed + held =~= handed);
        assert(start + appended(ops) =~= appended(ops));
    }
}

} // verus!
