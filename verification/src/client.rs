//! The client and the session it runs: boot, register if need be, launch
//! the tasks, and stop for good when any of them ends.
use vstd::prelude::*;
use crate::buffer::ReceivedMessagesBuffer;
use crate::channel::BufferResponse;
use crate::message::{AuthToken, InputMessage, MixMessage, NetAddress};

verus! {

/// The front end through which the application reaches the client.
#[derive(Clone, Copy, Debug, PartialEq, Eq, Structural)]
pub enum SocketType {
    TCP,
    WebSocket,
    /// No front end: the application holds the channel ends itself.
    Disabled,
}

/// What a client is told when it is made.
#[derive(Debug, PartialEq, Eq)]
pub struct ClientConfig {
    /// This client's address in the mix network.
    pub address: [u8; 32],
    /// Where the front end listens.
    pub socket_listening_address: NetAddress,
    /// Where the topology is fetched from.
    pub directory: String,
    /// The provider's credential, if the client has registered before.
    pub auth_token: Option<AuthToken>,
    pub socket_type: SocketType,
}

/// The two ends of the channel on which the application hands messages
/// to the client.
pub struct InputChannel {
    pub tx: futures::channel::mpsc::UnboundedSender<InputMessage>,
    pub rx: futures::channel::mpsc::UnboundedReceiver<InputMessage>,
}

/// A client that has not been started.
pub struct NymClient {
    config: ClientConfig,
    pub input_tx: futures::channel::mpsc::UnboundedSender<InputMessage>,
    input_rx: futures::channel::mpsc::UnboundedReceiver<InputMessage>,
}

/// Where a session stands.
#[derive(Clone, Copy, Debug, PartialEq, Eq)]
pub enum SessionState {
    /// Booting: the topology has been asked for.
    Booting,
    /// Still booting: the first provider's host is being turned into a
    /// network address.
    Resolving,
    /// The client is registering with the provider at this address.
    Registering { provider: NetAddress },
    /// The tasks are running.
    Running,
    /// The session is over.
    Terminated,
}

/// Why a session ended.
#[derive(Clone, Copy, Debug, PartialEq, Eq, Structural)]
pub enum ExitReason {
    /// The topology could not be fetched.
    TopologyUnavailable,
    /// The topology names no provider.
    NoProvider,
    /// The provider's host is not a network address.
    ProviderUnresolvable,
    /// The provider refused the registration.
    RegistrationFailed,
    /// One of the tasks returned, which none of them should.
    TaskCompleted,
    /// Something was reported that cannot happen where the session stood.
    OutOfTurn,
}

/// What the supervisor has just seen.
#[derive(Debug, PartialEq, Eq)]
pub enum SessionEvent {
    /// The topology arrived; these are its providers' hosts, in its order.
    TopologyFetched { provider_hosts: Vec<String> },
    TopologyUnavailable,
    ProviderResolved(NetAddress),
    ProviderUnresolvable,
    /// The provider issued this credential.
    Registered(AuthToken),
    RegistrationFailed,
    /// One of the tasks returned.
    TaskCompleted,
}

/// What the supervisor has to do next.
#[derive(Debug, PartialEq, Eq)]
pub enum SessionAction {
    FetchTopology { directory: String },
    ResolveProvider { host: String },
    /// Register this client's address with the provider.
    Register { provider: NetAddress, address: [u8; 32] },
    /// Open the channels and spawn the tasks; the poller presents `token`.
    Launch {
        provider: NetAddress,
        address: [u8; 32],
        token: AuthToken,
        socket_type: SocketType,
        socket_listening_address: NetAddress,
    },
    /// Report the reason and leave with a failure.
    Exit { reason: ExitReason },
}

/// A started client. The credential stays here until the tasks are
/// launched, and is then handed on to them.
#[derive(Debug, PartialEq, Eq)]
pub struct Session {
    pub state: SessionState,
    pub address: [u8; 32],
    pub socket_listening_address: NetAddress,
    pub auth_token: Option<AuthToken>,
    pub socket_type: SocketType,
}

impl Session {
    /// The session of a client that has just been started.
    pub open spec fn booting(config: ClientConfig) -> Session {
        Session {
            state: SessionState::Booting,
            address: config.address,
            socket_listening_address: config.socket_listening_address,
            auth_token: config.auth_token,
            socket_type: config.socket_type,
        }
    }

    /// The session, moved to `state`.
    pub open spec fn moved_to(self, state: SessionState) -> Session {
        Session { state, ..self }
    }

    /// The session once the tasks are launched: it runs, and its
    /// credential has been handed on.
    pub open spec fn launched(self) -> Session {
        Session { state: SessionState::Running, auth_token: None, ..self }
    }

    /// The session, ended for `reason`, and the action that says so.
    pub open spec fn failed(self, reason: ExitReason) -> (Session, SessionAction) {
        (self.moved_to(SessionState::Terminated), SessionAction::Exit { reason })
    }

    /// The action that launches the tasks with `token`.
    pub open spec fn launch_with(self, provider: NetAddress, token: AuthToken) -> SessionAction {
        SessionAction::Launch {
            provider,
            address: self.address,
            token,
            socket_type: self.socket_type,
            socket_listening_address: self.socket_listening_address,
        }
    }

    /// The supervisor's rule.
    ///
    /// Booting, the topology's first provider is chosen and its host
    /// resolved. With the provider's address known, a client that was given
    /// a credential launches at once with it; one that was not registers
    /// first, and launches with the credential it is issued. Once running,
    /// any task that returns ends the session. A failure while booting or
    /// registering ends it before anything was launched, and so does an
    /// event that cannot happen where the session stands. From the end
    /// there is no way back.
    pub open spec fn next(self, event: SessionEvent) -> (Session, SessionAction) {
        match (self.state, event) {
            (SessionState::Booting, SessionEvent::TopologyFetched { provider_hosts }) => {
                if provider_hosts@.len() == 0 {
                    self.failed(ExitReason::NoProvider)
                } else {
                    (
                        self.moved_to(SessionState::Resolving),
                        SessionAction::ResolveProvider { host: provider_hosts@[0] },
                    )
                }
            },
            (SessionState::Booting, SessionEvent::TopologyUnavailable) => self.failed(
                ExitReason::TopologyUnavailable,
            ),
            (SessionState::Resolving, SessionEvent::ProviderResolved(provider)) => {
                match self.auth_token {
                    Some(token) => (self.launched(), self.launch_with(provider, token)),
                    None => (
                        self.moved_to(SessionState::Registering { provider }),
                        SessionAction::Register { provider, address: self.address },
                    ),
                }
            },
            (SessionState::Resolving, SessionEvent::ProviderUnresolvable) => self.failed(
                ExitReason::ProviderUnresolvable,
            ),
            (SessionState::Registering { provider }, SessionEvent::Registered(token)) => (
                self.launched(),
                self.launch_with(provider, token),
            ),
            (SessionState::Registering { .. }, SessionEvent::RegistrationFailed) => self.failed(
                ExitReason::RegistrationFailed,
            ),
            (SessionState::Running, SessionEvent::TaskCompleted) => self.failed(
                ExitReason::TaskCompleted,
            ),
            _ => self.failed(ExitReason::OutOfTurn),
        }
    }

    fn fail(self, reason: ExitReason) -> (next: (Session, SessionAction))
        ensures
            next == self.failed(reason),
    {
        (
            Session {
                state: SessionState::Terminated,
                address: self.address,
                socket_listening_address: self.socket_listening_address,
                auth_token: self.auth_token,
                socket_type: self.socket_type,
            },
            SessionAction::Exit { reason },
        )
    }

    fn launch(self, provider: NetAddress, token: AuthToken) -> (next: (Session, SessionAction))
        ensures
            next == (self.launched(), self.launch_with(provider, token)),
    {
        let action = SessionAction::Launch {
            provider,
            address: self.address,
            token,
            socket_type: self.socket_type,
            socket_listening_address: self.socket_listening_address,
        };
        (
            Session {
                state: SessionState::Running,
                address: self.address,
                socket_listening_address: self.socket_listening_address,
                auth_token: None,
                socket_type: self.socket_type,
            },
            action,
        )
    }

    fn move_to(self, state: SessionState) -> (next: Session)
        ensures
            next == self.moved_to(state),
    {
        Session {
            state,
            address: self.address,
            socket_listening_address: self.socket_listening_address,
            auth_token: self.auth_token,
            socket_type: self.socket_type,
        }
    }

    /// One step of the supervisor: the session as it stands after `event`,
    /// and what has to be done next.
    pub fn step(self, event: SessionEvent) -> (next: (Session, SessionAction))
        ensures
            next == self.next(event),
    {
        match self.state {
            SessionState::Booting => match event {
                SessionEvent::TopologyFetched { provider_hosts } => {
                    let mut hosts = provider_hosts;
                    if hosts.len() == 0 {
                        self.fail(ExitReason::NoProvider)
                    } else {
                        let host = hosts.remove(0);
                        (self.move_to(SessionState::Resolving), SessionAction::ResolveProvider { host })
                    }
                },
                SessionEvent::TopologyUnavailable => self.fail(ExitReason::TopologyUnavailable),
                _ => self.fail(ExitReason::OutOfTurn),
            },
            SessionState::Resolving => match event {
                SessionEvent::ProviderResolved(provider) => {
                    let mut session = self;
                    match session.auth_token.take() {
                        Some(token) => session.launch(provider, token),
                        None => {
                            let address = session.address;
                            (
                                session.move_to(SessionState::Registering { provider }),
                                SessionAction::Register { provider, address },
                            )
                        },
                    }
                },
                SessionEvent::ProviderUnresolvable => self.fail(ExitReason::ProviderUnresolvable),
                _ => self.fail(ExitReason::OutOfTurn),
            },
            SessionState::Registering { provider } => match event {
                SessionEvent::Registered(token) => self.launch(provider, token),
                SessionEvent::RegistrationFailed => self.fail(ExitReason::RegistrationFailed),
                _ => self.fail(ExitReason::OutOfTurn),
            },
            SessionState::Running => match event {
                SessionEvent::TaskCompleted => self.fail(ExitReason::TaskCompleted),
                _ => self.fail(ExitReason::OutOfTurn),
            },
            SessionState::Terminated => self.fail(ExitReason::OutOfTurn),
        }
    }
}

impl ExitReason {
    /// The status with which the process leaves: a failure, whatever the
    /// reason, since a session is not meant to end.
    pub fn exit_code(self) -> (code: i32)
        ensures
            code == 1,
    {
        1
    }
}

impl NymClient {
    /// What the client was told when it was made.
    pub closed spec fn config(self) -> ClientConfig {
        self.config
    }

    /// The two ends of the client's input channel.
    pub closed spec fn input(self) -> InputChannel {
        InputChannel { tx: self.input_tx, rx: self.input_rx }
    }

    /// A client with a fresh input channel, whose sending end the
    /// application may use from now on.
    pub fn new(
        address: [u8; 32],
        socket_listening_address: NetAddress,
        directory: String,
        auth_token: Option<AuthToken>,
        socket_type: SocketType,
    ) -> (client: Self)
        ensures
            client.config() == (ClientConfig {
                address,
                socket_listening_address,
                directory,
                auth_token,
                socket_type,
            }),
    {
        let (input_tx, input_rx) = futures::channel::mpsc::unbounded::<InputMessage>();
        NymClient {
            config: ClientConfig {
                address,
                socket_listening_address,
                directory,
                auth_token,
                socket_type,
            },
            input_tx,
            input_rx,
        }
    }

    /// Starts the client: a session that boots, the first thing to do for
    /// it, which is to fetch the topology from the client's directory, and
    /// the client's input channel.
    pub fn start(self) -> (started: (Session, SessionAction, InputChannel))
        ensures
            started.0 == Session::booting(self.config()),
            started.1 == (SessionAction::FetchTopology { directory: self.config().directory }),
            started.2 == self.input(),
    {
        let session = Session {
            state: SessionState::Booting,
            address: self.config.address,
            socket_listening_address: self.config.socket_listening_address,
            auth_token: self.config.auth_token,
            socket_type: self.config.socket_type,
        };
        let action = SessionAction::FetchTopology { directory: self.config.directory };
        (session, action, InputChannel { tx: self.input_tx, rx: self.input_rx })
    }
}

/// Everything the tasks share once they are launched.
pub struct Pipeline {
    /// From the application to the out queue.
    pub input: InputChannel,
    /// From the cover stream and the out queue to the mix sender.
    pub mix_tx: futures::channel::mpsc::UnboundedSender<MixMessage>,
    pub mix_rx: futures::channel::mpsc::UnboundedReceiver<MixMessage>,
    /// From the poller to the buffer.
    pub poller_tx: futures::channel::mpsc::UnboundedSender<Vec<Vec<u8>>>,
    pub poller_rx: futures::channel::mpsc::UnboundedReceiver<Vec<Vec<u8>>>,
    /// From the application's readers to the buffer.
    pub query_tx: futures::channel::mpsc::UnboundedSender<BufferResponse>,
    pub query_rx: futures::channel::mpsc::UnboundedReceiver<BufferResponse>,
    /// The messages received and not yet read: none, to begin with.
    pub buffer: ReceivedMessagesBuffer,
}

impl Pipeline {
    /// Opens the channels between the tasks around the client's input
    /// channel, with an empty buffer.
    pub fn open(input: InputChannel) -> (pipeline: Self)
        ensures
            pipeline.input == input,
            pipeline.buffer@ == Seq::<Seq<u8>>::empty(),
    {
        let (mix_tx, mix_rx) = futures::channel::mpsc::unbounded::<MixMessage>();
        let (poller_tx, poller_rx) = futures::channel::mpsc::unbounded::<Vec<Vec<u8>>>();
        let (query_tx, query_rx) = futures::channel::mpsc::unbounded::<BufferResponse>();
        Pipeline {
            input,
            mix_tx,
            mix_rx,
            poller_tx,
            poller_rx,
            query_tx,
            query_rx,
            buffer: ReceivedMessagesBuffer::new(),
        }
    }
}

/// The session after the supervisor has stepped through `events`, and the
/// actions it was told to take on the way, one for each event.
pub open spec fn session_after(session: Session, events: Seq<SessionEvent>) -> (Session, Seq<SessionAction>)
    decreases events.len(),
{
    if events.len() == 0 {
        (session, Seq::empty())
    } else {
        let (before, actions) = session_after(session, events.drop_last());
        let (after, action) = before.next(events.last());
        (after, actions.push(action))
    }
}

/// How often the supervisor was told to register.
pub open spec fn registrations(actions: Seq<SessionAction>) -> nat
    decreases actions.len(),
{
    if actions.len() == 0 {
        0
    } else if actions.last() is Register {
        registrations(actions.drop_last()) + 1
    } else {
        registrations(actions.drop_last())
    }
}

/// How often the supervisor was told to launch the tasks.
pub open spec fn launches(actions: Seq<SessionAction>) -> nat
    decreases actions.len(),
{
    if actions.len() == 0 {
        0
    } else if actions.last() is Launch {
        launches(actions.drop_last()) + 1
    } else {
        launches(actions.drop_last())
    }
}

/// Whether a session ended while it was still booting or registering.
pub open spec fn is_boot_failure(reason: ExitReason) -> bool {
    reason == ExitReason::TopologyUnavailable || reason == ExitReason::NoProvider || reason
        == ExitReason::ProviderUnresolvable || reason == ExitReason::RegistrationFailed
}

/// What holds of a session that began as `first` and has since taken
/// `actions`, wherever it stands now.
pub open spec fn on_course(first: Session, now: Session, actions: Seq<SessionAction>) -> bool {
    let owed: nat = if first.auth_token is None {
        1
    } else {
        0
    };
    &&& now.address == first.address
    &&& now.socket_type == first.socket_type
    &&& now.socket_listening_address == first.socket_listening_address
    &&& match now.state {
        SessionState::Booting | SessionState::Resolving => {
            &&& now.auth_token == first.auth_token
            &&& registrations(actions) == 0
            &&& launches(actions) == 0
        },
        SessionState::Registering { .. } => {
            &&& first.auth_token is None
            &&& registrations(actions) == 1
            &&& launches(actions) == 0
        },
        SessionState::Running => {
            &&& registrations(actions) == owed
            &&& launches(actions) == 1
        },
        SessionState::Terminated => {
            &&& registrations(actions) <= owed
            &&& launches(actions) <= 1
            &&& launches(actions) == 1 ==> registrations(actions) == owed
        },
    }
}

/// The end is final: a session that is over stays over, whatever is
/// reported to it, and a session is told to leave exactly when it is over.
pub proof fn lemma_terminated_is_final(session: Session, event: SessionEvent)
    ensures
        session.state == SessionState::Terminated ==> session.next(event).0.state
            == SessionState::Terminated,
        session.next(event).1 is Exit <==> session.next(event).0.state
            == SessionState::Terminated,
{
}

/// A client registers if and only if it was given no credential. Over
/// any course of events from boot on: a client that was given a
/// credential is never told to register; no client is told to register
/// more than once; and a session that runs has registered exactly once
/// if it was given none. The tasks are launched at most once, a running
/// session has launched them, and they were launched only after the
/// registration that was owed.
pub proof fn lemma_registers_iff_no_token(first: Session, events: Seq<SessionEvent>)
    requires
        first.state == SessionState::Booting,
    ensures
        ({
            let (last, actions) = session_after(first, events);
            &&& actions.len() == events.len()
            &&& on_course(first, last, actions)
            &&& registrations(actions) <= 1
            &&& first.auth_token is Some ==> registrations(actions) == 0
            &&& last.state == SessionState::Running ==> (registrations(actions) == 1
                <==> first.auth_token is None)
            &&& launches(actions) <= 1
            &&& last.state == SessionState::Running ==> launches(actions) == 1
        }),
    decreases events.len(),
{
    if events.len() > 0 {
        lemma_registers_iff_no_token(first, events.drop_last());
        let (before, actions) = session_after(first, events.drop_last());
        let (after, action) = before.next(events.last());
        assert(actions.push(action).drop_last() =~= actions);
    }
}

/// The tasks run with the client's one credential: the one it was given,
/// or else the one that the provider issued in the event just before.
pub proof fn lemma_launch_presents_the_token(
    first: Session,
    events: Seq<SessionEvent>,
    at: int,
)
    requires
        first.state == SessionState::Booting,
        0 <= at < events.len(),
        session_after(first, events).1[at] is Launch,
    ensures
        session_after(first, events).1.len() == events.len(),
        match first.auth_token {
            Some(given) => session_after(first, events).1[at]->token == given,
            None => events[at] == SessionEvent::Registered(session_after(first, events).1[at]->token),
        },
    decreases events.len(),
{
    lemma_registers_iff_no_token(first, events);
    lemma_registers_iff_no_token(first, events.drop_last());
    let (before, actions) = session_after(first, events.drop_last());
    if at < events.len() - 1 {
        lemma_launch_presents_the_token(first, events.drop_last(), at);
    }
}

/// A session that fails while booting or registering has launched
/// nothing.
pub proof fn lemma_boot_failure_launches_nothing(first: Session, events: Seq<SessionEvent>)
    requires
        first.state == SessionState::Booting,
        events.len() > 0,
        session_after(first, events).1.last() matches SessionAction::Exit { reason } && is_boot_failure(
            reason,
        ),
    ensures
        launches(session_after(first, events).1) == 0,
{
    lemma_registers_iff_no_token(first, events.drop_last());
    let (before, actions) = session_after(first, events.drop_last());
    let (after, action) = before.next(events.last());
    assert(actions.push(action).drop_last() =~= actions);
}

} // verus!
