use futures::channel::oneshot;
use nym_client::buffer::{ReceivedMessagesBuffer, TaskFlow};

fn msg(text: &str) -> Vec<u8> {
    text.as_bytes().to_vec()
}

#[test]
fn new_buffer_is_empty() {
    let mut buffer = ReceivedMessagesBuffer::new();
    assert_eq!(buffer.len(), 0);
    assert_eq!(buffer.acquire_and_empty(), Vec::<Vec<u8>>::new());
}

#[test]
fn interleaved_appends_and_drains() {
    let mut buffer = ReceivedMessagesBuffer::new();
    buffer.add_new_messages(vec![msg("a"), msg("b")]);
    buffer.add_new_messages(vec![msg("c")]);
    assert_eq!(buffer.len(), 3);
    assert_eq!(buffer.acquire_and_empty(), vec![msg("a"), msg("b"), msg("c")]);
    assert_eq!(buffer.len(), 0);
    buffer.add_new_messages(vec![msg("d")]);
    assert_eq!(buffer.acquire_and_empty(), vec![msg("d")]);
    assert_eq!(buffer.acquire_and_empty(), Vec::<Vec<u8>>::new());
}

#[test]
fn empty_batch_changes_nothing() {
    let mut buffer = ReceivedMessagesBuffer::new();
    buffer.add_new_messages(vec![msg("a")]);
    buffer.add_new_messages(Vec::new());
    assert_eq!(buffer.len(), 1);
    assert_eq!(buffer.acquire_and_empty(), vec![msg("a")]);
}

#[test]
fn duplicates_are_kept_as_often_as_appended() {
    let mut buffer = ReceivedMessagesBuffer::new();
    buffer.add_new_messages(vec![msg("x"), msg("x")]);
    buffer.add_new_messages(vec![msg("x")]);
    assert_eq!(buffer.acquire_and_empty(), vec![msg("x"), msg("x"), msg("x")]);
}

#[test]
fn drains_hand_out_what_was_appended() {
    let mut buffer = ReceivedMessagesBuffer::new();
    let mut appended: Vec<Vec<u8>> = Vec::new();
    let mut drained: Vec<Vec<u8>> = Vec::new();
    for round in 0u8..20 {
        let batch: Vec<Vec<u8>> = (0..(round % 4)).map(|k| vec![round, k]).collect();
        appended.extend(batch.clone());
        buffer.add_new_messages(batch);
        if round % 3 == 2 {
            drained.extend(buffer.acquire_and_empty());
        }
    }
    drained.extend(buffer.acquire_and_empty());
    assert_eq!(drained, appended);
}

#[test]
fn poller_input_step_appends_and_goes_on() {
    let mut buffer = ReceivedMessagesBuffer::new();
    assert_eq!(buffer.poller_input_step(Some(vec![msg("a")])), TaskFlow::Continue);
    assert_eq!(buffer.poller_input_step(Some(vec![msg("b"), msg("c")])), TaskFlow::Continue);
    assert_eq!(buffer.poller_input_step(Some(Vec::new())), TaskFlow::Continue);
    assert_eq!(buffer.acquire_and_empty(), vec![msg("a"), msg("b"), msg("c")]);
}

#[test]
fn poller_input_step_ends_with_its_channel() {
    let mut buffer = ReceivedMessagesBuffer::new();
    buffer.add_new_messages(vec![msg("a")]);
    assert_eq!(buffer.poller_input_step(None), TaskFlow::Finished);
    assert_eq!(buffer.acquire_and_empty(), vec![msg("a")]);
}

#[test]
fn query_output_step_fulfils_the_request() {
    let mut buffer = ReceivedMessagesBuffer::new();
    buffer.add_new_messages(vec![msg("a"), msg("b")]);
    let (slot, mut reader) = oneshot::channel::<Vec<Vec<u8>>>();
    assert_eq!(buffer.query_output_step(Some(slot)), TaskFlow::Continue);
    assert_eq!(reader.try_recv(), Ok(Some(vec![msg("a"), msg("b")])));
    assert_eq!(buffer.len(), 0);
}

#[test]
fn query_on_empty_buffer_gets_an_empty_reply() {
    let mut buffer = ReceivedMessagesBuffer::new();
    let (slot, mut reader) = oneshot::channel::<Vec<Vec<u8>>>();
    assert_eq!(buffer.query_output_step(Some(slot)), TaskFlow::Continue);
    assert_eq!(reader.try_recv(), Ok(Some(Vec::new())));
}

#[test]
fn no_payload_appears_in_two_replies() {
    let mut buffer = ReceivedMessagesBuffer::new();
    buffer.add_new_messages(vec![msg("a")]);
    let (first, mut first_reader) = oneshot::channel::<Vec<Vec<u8>>>();
    let (second, mut second_reader) = oneshot::channel::<Vec<Vec<u8>>>();
    assert_eq!(buffer.query_output_step(Some(first)), TaskFlow::Continue);
    assert_eq!(buffer.query_output_step(Some(second)), TaskFlow::Continue);
    assert_eq!(first_reader.try_recv(), Ok(Some(vec![msg("a")])));
    assert_eq!(second_reader.try_recv(), Ok(Some(Vec::new())));
}

#[test]
fn unfulfilled_request_is_fatal() {
    let mut buffer = ReceivedMessagesBuffer::new();
    buffer.add_new_messages(vec![msg("a")]);
    let (slot, reader) = oneshot::channel::<Vec<Vec<u8>>>();
    drop(reader);
    assert_eq!(buffer.query_output_step(Some(slot)), TaskFlow::Abort);
    assert_eq!(buffer.len(), 0);
}

#[test]
fn query_output_step_ends_with_its_channel() {
    let mut buffer = ReceivedMessagesBuffer::new();
    buffer.add_new_messages(vec![msg("a")]);
    assert_eq!(buffer.query_output_step(None), TaskFlow::Finished);
    assert_eq!(buffer.len(), 1);
}

#[test]
fn reply_step_follows_the_delivery() {
    assert_eq!(ReceivedMessagesBuffer::reply_step(Ok(())), TaskFlow::Continue);
    assert_eq!(ReceivedMessagesBuffer::reply_step(Err(vec![msg("a")])), TaskFlow::Abort);
}

#[test]
fn answer_puts_the_contents_into_the_slot() {
    let mut buffer = ReceivedMessagesBuffer::new();
    buffer.add_new_messages(vec![msg("a"), msg("b")]);
    let (slot, mut reader) = oneshot::channel::<Vec<Vec<u8>>>();
    assert_eq!(buffer.answer(slot), Ok(()));
    assert_eq!(buffer.len(), 0);
    assert_eq!(reader.try_recv(), Ok(Some(vec![msg("a"), msg("b")])));
}

#[test]
fn answer_to_nobody_hands_the_contents_back() {
    let mut buffer = ReceivedMessagesBuffer::new();
    buffer.add_new_messages(vec![msg("a"), msg("b")]);
    let (slot, reader) = oneshot::channel::<Vec<Vec<u8>>>();
    drop(reader);
    assert_eq!(buffer.answer(slot), Err(vec![msg("a"), msg("b")]));
    assert_eq!(buffer.len(), 0);
}
