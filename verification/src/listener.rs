//! The accept loop of a transport listener, as decisions.
//!
//! A listener opens its endpoint once and then accepts connections for as
//! long as the endpoint lives. Each accepted connection runs as a task of its
//! own; what becomes of that task is reported to the listener and never
//! changes what the listener does next. The caller performs each
//! [`ListenerAction`] and hands back the [`ListenerEvent`] that came of it.

use vstd::prelude::*;

verus! {

/// Port of the multiplexed transport.
pub const WEBTRANSPORT_PORT: u16 = 4433;

/// Port of the framed-socket transport.
pub const WEBSOCKET_PORT: u16 = 4434;

/// Port of the static file service.
pub const HTTP_PORT: u16 = 8080;

/// The two transports that carry the payload stream.
#[derive(Clone, Copy, Debug, PartialEq, Eq, Structural)]
pub enum Transport {
    /// Streams and unreliable datagrams over one encrypted session.
    Multiplexed,
    /// Discrete messages over one TLS-wrapped byte stream.
    FramedSocket,
}

/// The port on which a transport listens.
pub open spec fn port_of(transport: Transport) -> u16 {
    match transport {
        Transport::Multiplexed => WEBTRANSPORT_PORT,
        Transport::FramedSocket => WEBSOCKET_PORT,
    }
}

impl Transport {
    /// The port on which this transport listens.
    pub fn port(self) -> (port: u16)
        ensures
            port == port_of(self),
    {
        match self {
            Transport::Multiplexed => WEBTRANSPORT_PORT,
            Transport::FramedSocket => WEBSOCKET_PORT,
        }
    }
}

/// Why a listener stopped. Either failure ends the listener for good.
#[derive(Clone, Copy, Debug, PartialEq, Eq, Structural)]
pub enum ListenerError {
    /// The endpoint could not be opened on its port.
    Bind,
    /// Accepting from the open endpoint failed.
    Accept,
}

/// Why one connection ended early. None of these reaches the listener's
/// own state.
#[derive(Clone, Copy, Debug, PartialEq, Eq, Structural)]
pub enum ConnectionError {
    /// A step of the connection's set-up failed.
    Handshake,
    /// A payload could not be sent.
    Transmit,
    /// The encoder refused a frame.
    Encoding,
}

/// How a connection's task ended.
#[derive(Clone, Copy, Debug, PartialEq, Eq, Structural)]
pub enum ConnectionOutcome {
    /// The stream was sent to its end.
    Finished,
    /// The task gave up.
    Failed(ConnectionError),
}

/// Where a listener stands.
#[derive(Clone, Copy, Debug, PartialEq, Eq, Structural)]
pub enum ListenerState {
    /// The endpoint is being opened.
    Opening,
    /// Waiting for the next connection.
    Accepting,
    /// A connection was accepted and its task is about to be started.
    Spawning,
    /// The listener has ended.
    Stopped(ListenerError),
}

/// What the caller reports to a listener.
#[derive(Clone, Copy, Debug, PartialEq, Eq, Structural)]
pub enum ListenerEvent {
    /// The endpoint is open.
    Opened,
    /// The endpoint could not be opened.
    OpenFailed,
    /// A connection arrived.
    Accepted,
    /// Accepting failed.
    AcceptFailed,
    /// The accepted connection's task was started.
    Spawned,
    /// The task of some earlier connection has ended.
    ConnectionClosed(ConnectionOutcome),
}

/// What a listener asks of the caller.
#[derive(Clone, Copy, Debug, PartialEq, Eq, Structural)]
pub enum ListenerAction {
    /// Open the endpoint on this port with the shared identity.
    Open(u16),
    /// Wait for the next connection.
    Accept,
    /// Start a task for the connection just accepted, and do not wait for it.
    Spawn,
    /// Give up and return this error.
    Stop(ListenerError),
}

/// The state that follows `state` when `event` is reported. An event that
/// does not answer what the listener is waiting for leaves the state as it
/// is; so does every report about a connection.
pub open spec fn listener_step(state: ListenerState, event: ListenerEvent) -> ListenerState {
    match (state, event) {
        (ListenerState::Opening, ListenerEvent::Opened) => ListenerState::Accepting,
        (ListenerState::Opening, ListenerEvent::OpenFailed) => ListenerState::Stopped(
            ListenerError::Bind,
        ),
        (ListenerState::Accepting, ListenerEvent::Accepted) => ListenerState::Spawning,
        (ListenerState::Accepting, ListenerEvent::AcceptFailed) => ListenerState::Stopped(
            ListenerError::Accept,
        ),
        (ListenerState::Spawning, ListenerEvent::Spawned) => ListenerState::Accepting,
        _ => state,
    }
}

/// What a listener on `port` asks for in `state`.
pub open spec fn listener_action(port: u16, state: ListenerState) -> ListenerAction {
    match state {
        ListenerState::Opening => ListenerAction::Open(port),
        ListenerState::Accepting => ListenerAction::Accept,
        ListenerState::Spawning => ListenerAction::Spawn,
        ListenerState::Stopped(error) => ListenerAction::Stop(error),
    }
}

/// The state reached from `state` through `events`, taken in order.
pub open spec fn listener_run(state: ListenerState, events: Seq<ListenerEvent>) -> ListenerState
    decreases events.len(),
{
    if events.len() == 0 {
        state
    } else {
        listener_step(listener_run(state, events.drop_last()), events.last())
    }
}

/// The accept loop of one transport.
pub struct Listener {
    transport: Transport,
    port: u16,
    state: ListenerState,
}

impl Listener {
    /// The transport that this listener serves.
    pub closed spec fn transport(&self) -> Transport {
        self.transport
    }

    /// The port on which the listener opens its endpoint.
    pub closed spec fn port(&self) -> u16 {
        self.port
    }

    /// Where the listener stands.
    pub closed spec fn state(&self) -> ListenerState {
        self.state
    }

    /// A listener for `transport` that has yet to open its endpoint on
    /// `port`.
    pub fn new(transport: Transport, port: u16) -> (listener: Self)
        ensures
            listener.transport() == transport,
            listener.port() == port,
            listener.state() == ListenerState::Opening,
    {
        Listener { transport, port, state: ListenerState::Opening }
    }

    /// A listener for `transport` on the port that is known for it.
    pub fn well_known(transport: Transport) -> (listener: Self)
        ensures
            listener.transport() == transport,
            listener.port() == port_of(transport),
            listener.state() == ListenerState::Opening,
    {
        Listener::new(transport, transport.port())
    }

    /// The transport that the listener serves.
    pub fn serves(&self) -> (transport: Transport)
        ensures
            transport == self.transport(),
    {
        self.transport
    }

    /// What the listener is waiting for.
    pub fn action(&self) -> (action: ListenerAction)
        ensures
            action == listener_action(self.port(), self.state()),
    {
        match self.state {
            ListenerState::Opening => ListenerAction::Open(self.port),
            ListenerState::Accepting => ListenerAction::Accept,
            ListenerState::Spawning => ListenerAction::Spawn,
            ListenerState::Stopped(error) => ListenerAction::Stop(error),
        }
    }

    /// Whether the listener has ended.
    pub fn is_stopped(&self) -> (stopped: bool)
        ensures
            stopped == (self.state() is Stopped),
    {
        match self.state {
            ListenerState::Stopped(_) => true,
            _ => false,
        }
    }

    /// Takes in `event` and says what to do next.
    pub fn on_event(&mut self, event: ListenerEvent) -> (action: ListenerAction)
        ensures
            final(self).transport() == old(self).transport(),
            final(self).port() == old(self).port(),
            final(self).state() == listener_step(old(self).state(), event),
            action == listener_action(final(self).port(), final(self).state()),
    {
        let next = match (self.state, event) {
            (ListenerState::Opening, ListenerEvent::Opened) => ListenerState::Accepting,
            (ListenerState::Opening, ListenerEvent::OpenFailed) => ListenerState::Stopped(
                ListenerError::Bind,
            ),
            (ListenerState::Accepting, ListenerEvent::Accepted) => ListenerState::Spawning,
            (ListenerState::Accepting, ListenerEvent::AcceptFailed) => ListenerState::Stopped(
                ListenerError::Accept,
            ),
            (ListenerState::Spawning, ListenerEvent::Spawned) => ListenerState::Accepting,
            (state, _) => state,
        };
        self.state = next;
        self.action()
    }
}

/// Whether every event of `events` is a report about a connection.
pub open spec fn only_reports(events: Seq<ListenerEvent>) -> bool {
    forall|i: int| 0 <= i < events.len() ==> (#[trigger] events[i]) is ConnectionClosed
}

/// Connections are isolated from the listener: however many of them end, and
/// however they end, the listener stands where it stood.
pub proof fn lemma_reports_change_nothing(state: ListenerState, events: Seq<ListenerEvent>)
    requires
        only_reports(events),
    ensures
        listener_run(state, events) == state,
    decreases events.len(),
{
    if events.len() > 0 {
        lemma_reports_change_nothing(state, events.drop_last());
        assert(events.last() == events[events.len() - 1]);
    }
}

/// After any number of connections have failed, an accepting listener
/// still takes the next connection and starts its task.
pub proof fn lemma_accepts_after_failures(port: u16, events: Seq<ListenerEvent>)
    requires
        only_reports(events),
    ensures
        listener_action(port, listener_run(ListenerState::Accepting, events))
            == ListenerAction::Accept,
        listener_action(
            port,
            listener_step(
                listener_run(ListenerState::Accepting, events),
                ListenerEvent::Accepted,
            ),
        ) == ListenerAction::Spawn,
{
    lemma_reports_change_nothing(ListenerState::Accepting, events);
}

/// A listener that has stopped stays stopped, with the same error.
pub proof fn lemma_stopped_is_final(error: ListenerError, events: Seq<ListenerEvent>)
    ensures
        listener_run(ListenerState::Stopped(error), events) == ListenerState::Stopped(error),
    decreases events.len(),
{
    if events.len() > 0 {
        lemma_stopped_is_final(error, events.drop_last());
    }
}

/// A listener stops only when opening or accepting fails.
pub proof fn lemma_stop_needs_failure(state: ListenerState, event: ListenerEvent)
    requires
        !(state is Stopped),
        listener_step(state, event) is Stopped,
    ensures
        event == ListenerEvent::OpenFailed || event == ListenerEvent::AcceptFailed,
{
}

/// One step of setting a connection up.
#[derive(Clone, Copy, Debug, PartialEq, Eq, Structural)]
pub enum SetupStep {
    /// The session handshake of the multiplexed transport.
    Session,
    /// The TLS server handshake of the framed socket.
    Tls,
    /// The protocol upgrade that follows the TLS handshake.
    Upgrade,
}

/// Where the set-up of one connection stands.
#[derive(Clone, Copy, Debug, PartialEq, Eq, Structural)]
pub enum SetupState {
    /// This step is to be run next.
    Pending(SetupStep),
    /// Every step succeeded; the handler can start.
    Established,
    /// This step failed; the connection is dropped.
    Failed(SetupStep),
}

/// The first step of a connection on `transport`.
pub open spec fn first_step(transport: Transport) -> SetupStep {
    match transport {
        Transport::Multiplexed => SetupStep::Session,
        Transport::FramedSocket => SetupStep::Tls,
    }
}

/// Where the set-up stands once the pending step has ended, well (`ok`) or
/// not. A set-up that is over stays as it is.
pub open spec fn setup_step(state: SetupState, ok: bool) -> SetupState {
    match state {
        SetupState::Pending(step) => if !ok {
            SetupState::Failed(step)
        } else {
            match step {
                SetupStep::Tls => SetupState::Pending(SetupStep::Upgrade),
                SetupStep::Session => SetupState::Established,
                SetupStep::Upgrade => SetupState::Established,
            }
        },
        _ => state,
    }
}

/// The set-up of one accepted connection.
pub struct ConnectionSetup {
    state: SetupState,
}

impl ConnectionSetup {
    /// Where the set-up stands.
    pub closed spec fn state(&self) -> SetupState {
        self.state
    }

    /// The set-up of a connection just accepted on `transport`.
    pub fn new(transport: Transport) -> (setup: Self)
        ensures
            setup.state() == SetupState::Pending(first_step(transport)),
    {
        let step = match transport {
            Transport::Multiplexed => SetupStep::Session,
            Transport::FramedSocket => SetupStep::Tls,
        };
        ConnectionSetup { state: SetupState::Pending(step) }
    }

    /// Where the set-up stands.
    pub fn current(&self) -> (state: SetupState)
        ensures
            state == self.state(),
    {
        self.state
    }

    /// Takes in how the pending step ended and says where the set-up stands
    /// now.
    pub fn on_result(&mut self, ok: bool) -> (state: SetupState)
        ensures
            final(self).state() == setup_step(old(self).state(), ok),
            state == final(self).state(),
    {
        let next = match self.state {
            SetupState::Pending(step) => if !ok {
                SetupState::Failed(step)
            } else {
                match step {
                    SetupStep::Tls => SetupState::Pending(SetupStep::Upgrade),
                    SetupStep::Session => SetupState::Established,
                    SetupStep::Upgrade => SetupState::Established,
                }
            },
            state => state,
        };
        self.state = next;
        next
    }
}

/// A connection of the multiplexed transport is established by its one
/// handshake; one of the framed socket by its two steps in order; and a
/// failure at any step ends the set-up at that step.
pub proof fn lemma_setup_paths(first_ok: bool, second_ok: bool)
    ensures
        setup_step(SetupState::Pending(first_step(Transport::Multiplexed)), first_ok) == if first_ok {
            SetupState::Established
        } else {
            SetupState::Failed(SetupStep::Session)
        },
        setup_step(
            setup_step(SetupState::Pending(first_step(Transport::FramedSocket)), first_ok),
            second_ok,
        ) == if !first_ok {
            SetupState::Failed(SetupStep::Tls)
        } else if !second_ok {
            SetupState::Failed(SetupStep::Upgrade)
        } else {
            SetupState::Established
        },
{
}

} // verus!
