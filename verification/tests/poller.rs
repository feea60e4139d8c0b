use futures::channel::mpsc;
use nym_client::buffer::ReceivedMessagesBuffer;
use nym_client::poller::{same_bytes, CoverPayloads, PollerAction, PollerEvent, ProviderPoller};
use nym_client::timing::{Delay, FETCH_MESSAGES_DELAY};

fn msg(text: &str) -> Vec<u8> {
    text.as_bytes().to_vec()
}

fn cover() -> CoverPayloads {
    CoverPayloads::new(msg("loop cover"), msg("dummy"))
}

#[test]
fn same_bytes_compares_contents() {
    assert!(same_bytes(&msg("abc"), &msg("abc")));
    assert!(same_bytes(&Vec::new(), &Vec::new()));
    assert!(!same_bytes(&msg("abc"), &msg("abd")));
    assert!(!same_bytes(&msg("abc"), &msg("ab")));
    assert!(!same_bytes(&msg("ab"), &msg("abc")));
    assert!(!same_bytes(&msg("xbc"), &msg("abc")));
}

#[test]
fn cover_and_dummy_are_not_real() {
    let cover = cover();
    assert!(!cover.is_real_message(&msg("loop cover")));
    assert!(!cover.is_real_message(&msg("dummy")));
    assert!(cover.is_real_message(&msg("mail1")));
    assert!(cover.is_real_message(&msg("loop cover ")));
    assert!(cover.is_real_message(&msg("dumm")));
    assert!(cover.is_real_message(&Vec::new()));
}

#[test]
fn provider_returns_mixed_payloads() {
    let poller = ProviderPoller::new(cover());
    let response = vec![msg("loop cover"), msg("mail1"), msg("dummy"), msg("mail2")];
    let published = match poller.step(PollerEvent::Fetched(response)) {
        PollerAction::Publish(batch) => batch,
        other => panic!("not published: {:?}", other),
    };
    assert_eq!(published, vec![msg("mail1"), msg("mail2")]);
    let mut buffer = ReceivedMessagesBuffer::new();
    buffer.add_new_messages(published);
    assert_eq!(buffer.acquire_and_empty(), vec![msg("mail1"), msg("mail2")]);
}

#[test]
fn filter_keeps_order_and_repeats() {
    let kept = cover().filter_cover_traffic(vec![
        msg("b"),
        msg("dummy"),
        msg("a"),
        msg("b"),
        msg("loop cover"),
        msg("loop cover"),
        msg("c"),
    ]);
    assert_eq!(kept, vec![msg("b"), msg("a"), msg("b"), msg("c")]);
}

#[test]
fn filter_of_nothing_but_cover_is_empty() {
    let kept = cover().filter_cover_traffic(vec![msg("dummy"), msg("loop cover"), msg("dummy")]);
    assert_eq!(kept, Vec::<Vec<u8>>::new());
    assert_eq!(cover().filter_cover_traffic(Vec::new()), Vec::<Vec<u8>>::new());
}

#[test]
fn filter_leaves_real_messages_alone() {
    let real = vec![msg("one"), msg(""), msg("three")];
    assert_eq!(cover().filter_cover_traffic(real.clone()), real);
}

#[test]
fn empty_answer_is_published_too() {
    let poller = ProviderPoller::new(cover());
    assert_eq!(
        poller.step(PollerEvent::Fetched(vec![msg("dummy")])),
        PollerAction::Publish(Vec::new())
    );
    assert_eq!(poller.step(PollerEvent::Fetched(Vec::new())), PollerAction::Publish(Vec::new()));
}

#[test]
fn poller_waits_a_fixed_second_then_fetches() {
    let poller = ProviderPoller::new(cover());
    let wait = PollerAction::Wait(Delay::Fixed { millis: 1000 });
    assert_eq!(FETCH_MESSAGES_DELAY, 1000);
    assert_eq!(poller.step(PollerEvent::Started), wait);
    assert_eq!(poller.step(PollerEvent::Published), wait);
    assert_eq!(poller.step(PollerEvent::Waited), PollerAction::Fetch);
}

#[test]
fn poller_failures_are_fatal() {
    let poller = ProviderPoller::new(cover());
    assert_eq!(poller.step(PollerEvent::FetchFailed), PollerAction::Abort);
    assert_eq!(poller.step(PollerEvent::PublishFailed), PollerAction::Abort);
}

#[test]
fn publish_reaches_the_buffer_side() {
    let poller = ProviderPoller::new(cover());
    let (poller_tx, mut poller_rx) = mpsc::unbounded::<Vec<Vec<u8>>>();
    let action = poller.publish(&poller_tx, vec![msg("mail1")]);
    assert_eq!(action, PollerAction::Wait(Delay::Fixed { millis: 1000 }));
    assert_eq!(poller_rx.try_recv(), Ok(vec![msg("mail1")]));
    let action = poller.publish(&poller_tx, Vec::new());
    assert_eq!(action, PollerAction::Wait(Delay::Fixed { millis: 1000 }));
    assert_eq!(poller_rx.try_recv(), Ok(Vec::new()));
}

#[test]
fn publish_without_a_buffer_side_is_fatal() {
    let poller = ProviderPoller::new(cover());
    let (poller_tx, poller_rx) = mpsc::unbounded::<Vec<Vec<u8>>>();
    drop(poller_rx);
    assert_eq!(poller.publish(&poller_tx, vec![msg("mail1")]), PollerAction::Abort);
}

#[test]
fn polled_cover_never_reaches_a_drain() {
    let poller = ProviderPoller::new(cover());
    let mut buffer = ReceivedMessagesBuffer::new();
    buffer.add_new_messages(vec![msg("old")]);
    let responses = vec![
        vec![msg("dummy")],
        vec![msg("m1"), msg("loop cover")],
        Vec::new(),
        vec![msg("loop cover"), msg("m2"), msg("m3"), msg("dummy")],
    ];
    for response in responses {
        match poller.step(PollerEvent::Fetched(response)) {
            PollerAction::Publish(batch) => buffer.add_new_messages(batch),
            other => panic!("not published: {:?}", other),
        }
    }
    assert_eq!(buffer.acquire_and_empty(), vec![msg("old"), msg("m1"), msg("m2"), msg("m3")]);
}

#[test]
fn after_publish_follows_the_outcome() {
    let poller = ProviderPoller::new(cover());
    assert_eq!(poller.after_publish(Ok(())), PollerAction::Wait(Delay::Fixed { millis: 1000 }));
    assert_eq!(poller.after_publish(Err(vec![msg("mail1")])), PollerAction::Abort);
    assert_eq!(poller.after_publish(Err(Vec::new())), PollerAction::Abort);
}
