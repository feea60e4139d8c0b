use futures::channel::mpsc;
use nym_client::client::{
    ExitReason, NymClient, Pipeline, Session, SessionAction, SessionEvent, SessionState,
    SocketType,
};
use nym_client::message::{AuthToken, Destination, InputMessage, NetAddress};

fn listen() -> NetAddress {
    NetAddress::V4 { octets: [127, 0, 0, 1], port: 9001 }
}

fn provider() -> NetAddress {
    NetAddress::V6 { segments: [0, 0, 0, 0, 0, 0, 0, 1], port: 8081, flowinfo: 0, scope_id: 0 }
}

fn token(fill: u8) -> AuthToken {
    AuthToken { bytes: vec![fill; 32] }
}

fn client(auth_token: Option<AuthToken>) -> NymClient {
    NymClient::new([5u8; 32], listen(), String::from("https://directory"), auth_token, SocketType::TCP)
}

fn hosts() -> Vec<String> {
    vec![String::from("[::1]:8081"), String::from("10.0.0.2:8081")]
}

fn resolved(auth_token: Option<AuthToken>) -> (Session, SessionAction) {
    let (session, _, _) = client(auth_token).start();
    let (session, _) = session.step(SessionEvent::TopologyFetched { provider_hosts: hosts() });
    session.step(SessionEvent::ProviderResolved(provider()))
}

#[test]
fn start_boots_and_asks_for_the_topology() {
    let (session, action, _input) = client(Some(token(1))).start();
    assert_eq!(
        session,
        Session {
            state: SessionState::Booting,
            address: [5u8; 32],
            socket_listening_address: listen(),
            auth_token: Some(token(1)),
            socket_type: SocketType::TCP,
        }
    );
    assert_eq!(action, SessionAction::FetchTopology { directory: String::from("https://directory") });
}

#[test]
fn input_sender_feeds_the_started_client() {
    let client = client(None);
    let early = client.input_tx.clone();
    let to = Destination::new([9u8; 32], [4u8; 16]);
    early.unbounded_send(InputMessage(to, vec![1])).unwrap();
    let (_, _, mut input) = client.start();
    input.tx.unbounded_send(InputMessage(to, vec![2])).unwrap();
    assert_eq!(input.rx.try_recv(), Ok(InputMessage(to, vec![1])));
    assert_eq!(input.rx.try_recv(), Ok(InputMessage(to, vec![2])));
    assert_eq!(input.rx.try_recv(), Err(mpsc::TryRecvError::Empty));
}

#[test]
fn first_provider_is_chosen() {
    let (session, _, _) = client(None).start();
    let (session, action) = session.step(SessionEvent::TopologyFetched { provider_hosts: hosts() });
    assert_eq!(session.state, SessionState::Resolving);
    assert_eq!(action, SessionAction::ResolveProvider { host: String::from("[::1]:8081") });
}

#[test]
fn registration_absent_token() {
    let (session, action) = resolved(None);
    assert_eq!(session.state, SessionState::Registering { provider: provider() });
    assert_eq!(action, SessionAction::Register { provider: provider(), address: [5u8; 32] });
    let (session, action) = session.step(SessionEvent::Registered(token(3)));
    assert_eq!(session.state, SessionState::Running);
    assert_eq!(session.auth_token, None);
    assert_eq!(
        action,
        SessionAction::Launch {
            provider: provider(),
            address: [5u8; 32],
            token: token(3),
            socket_type: SocketType::TCP,
            socket_listening_address: listen(),
        }
    );
}

#[test]
fn supplied_token_skips_registration() {
    let (session, action) = resolved(Some(token(8)));
    assert_eq!(session.state, SessionState::Running);
    assert_eq!(
        action,
        SessionAction::Launch {
            provider: provider(),
            address: [5u8; 32],
            token: token(8),
            socket_type: SocketType::TCP,
            socket_listening_address: listen(),
        }
    );
}

#[test]
fn register_is_asked_for_exactly_when_no_token_was_given() {
    for given in [None, Some(token(8))] {
        let expected = if given.is_none() { 1 } else { 0 };
        let (mut session, mut action, _) = client(given).start();
        let mut registrations = 0;
        let mut launches = 0;
        loop {
            let event = match action {
                SessionAction::FetchTopology { .. } => {
                    SessionEvent::TopologyFetched { provider_hosts: hosts() }
                }
                SessionAction::ResolveProvider { .. } => SessionEvent::ProviderResolved(provider()),
                SessionAction::Register { .. } => {
                    registrations += 1;
                    SessionEvent::Registered(token(3))
                }
                SessionAction::Launch { .. } => {
                    launches += 1;
                    SessionEvent::TaskCompleted
                }
                SessionAction::Exit { reason } => {
                    assert_eq!(reason, ExitReason::TaskCompleted);
                    break;
                }
            };
            let next = session.step(event);
            session = next.0;
            action = next.1;
        }
        assert_eq!(registrations, expected);
        assert_eq!(launches, 1);
        assert_eq!(session.state, SessionState::Terminated);
    }
}

#[test]
fn boot_failures_end_the_session() {
    let (session, _, _) = client(None).start();
    let (session, action) = session.step(SessionEvent::TopologyUnavailable);
    assert_eq!(session.state, SessionState::Terminated);
    assert_eq!(action, SessionAction::Exit { reason: ExitReason::TopologyUnavailable });

    let (session, _, _) = client(None).start();
    let (session, action) =
        session.step(SessionEvent::TopologyFetched { provider_hosts: Vec::new() });
    assert_eq!(session.state, SessionState::Terminated);
    assert_eq!(action, SessionAction::Exit { reason: ExitReason::NoProvider });

    let (session, _, _) = client(None).start();
    let (session, _) = session.step(SessionEvent::TopologyFetched { provider_hosts: hosts() });
    let (session, action) = session.step(SessionEvent::ProviderUnresolvable);
    assert_eq!(session.state, SessionState::Terminated);
    assert_eq!(action, SessionAction::Exit { reason: ExitReason::ProviderUnresolvable });

    let (session, _) = resolved(None);
    let (session, action) = session.step(SessionEvent::RegistrationFailed);
    assert_eq!(session.state, SessionState::Terminated);
    assert_eq!(action, SessionAction::Exit { reason: ExitReason::RegistrationFailed });
}

#[test]
fn any_task_ending_ends_the_session() {
    let (session, _) = resolved(Some(token(8)));
    let (session, action) = session.step(SessionEvent::TaskCompleted);
    assert_eq!(session.state, SessionState::Terminated);
    assert_eq!(action, SessionAction::Exit { reason: ExitReason::TaskCompleted });
}

#[test]
fn events_out_of_turn_end_the_session() {
    let (session, _, _) = client(None).start();
    let (session, action) = session.step(SessionEvent::Registered(token(3)));
    assert_eq!(session.state, SessionState::Terminated);
    assert_eq!(action, SessionAction::Exit { reason: ExitReason::OutOfTurn });

    let (session, _) = resolved(Some(token(8)));
    let (session, action) = session.step(SessionEvent::ProviderResolved(provider()));
    assert_eq!(session.state, SessionState::Terminated);
    assert_eq!(action, SessionAction::Exit { reason: ExitReason::OutOfTurn });

    let (session, _) = resolved(None);
    let (session, action) = session.step(SessionEvent::TaskCompleted);
    assert_eq!(session.state, SessionState::Terminated);
    assert_eq!(action, SessionAction::Exit { reason: ExitReason::OutOfTurn });
}

#[test]
fn terminated_is_final() {
    let (session, _, _) = client(None).start();
    let (mut session, _) = session.step(SessionEvent::TopologyUnavailable);
    let events = vec![
        SessionEvent::TopologyFetched { provider_hosts: hosts() },
        SessionEvent::ProviderResolved(provider()),
        SessionEvent::Registered(token(3)),
        SessionEvent::TaskCompleted,
    ];
    for event in events {
        let next = session.step(event);
        session = next.0;
        assert_eq!(session.state, SessionState::Terminated);
        assert_eq!(next.1, SessionAction::Exit { reason: ExitReason::OutOfTurn });
    }
}

#[test]
fn every_exit_is_a_failure() {
    let reasons = [
        ExitReason::TopologyUnavailable,
        ExitReason::NoProvider,
        ExitReason::ProviderUnresolvable,
        ExitReason::RegistrationFailed,
        ExitReason::TaskCompleted,
        ExitReason::OutOfTurn,
    ];
    for reason in reasons {
        assert_eq!(reason.exit_code(), 1);
    }
}

#[test]
fn pipeline_opens_empty_and_connected() {
    let (_, _, input) = client(None).start();
    let mut pipeline = Pipeline::open(input);
    assert_eq!(pipeline.buffer.len(), 0);
    assert_eq!(pipeline.mix_rx.try_recv(), Err(mpsc::TryRecvError::Empty));
    assert_eq!(pipeline.poller_rx.try_recv(), Err(mpsc::TryRecvError::Empty));
    assert!(pipeline.query_rx.try_recv().is_err());
    pipeline.poller_tx.unbounded_send(vec![vec![1u8]]).unwrap();
    assert_eq!(pipeline.poller_rx.try_recv(), Ok(vec![vec![1u8]]));
    let to = Destination::new([9u8; 32], [4u8; 16]);
    pipeline.input.tx.unbounded_send(InputMessage(to, vec![2])).unwrap();
    assert_eq!(pipeline.input.rx.try_recv(), Ok(InputMessage(to, vec![2])));
}
