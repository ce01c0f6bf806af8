//! One client connection as a state machine. The machine decides; its
//! driver sends, receives and waits, and reports back what happened.

use crate::broker::{broker_ticks, AppState, BrokerView};
use crate::protocol::{CommandInput, ResponseView, StateResponse};
use crate::servo_controller::with_command;
use vstd::prelude::*;

verus! {

/// The number of client messages the ingress queue holds.
pub const INGRESS_BACKLOG: usize = 100;

/// The length of one tick, in milliseconds.
pub const TICK_PERIOD_MS: u64 = 100;

/// Where an active session stands within its tick.
#[derive(Debug, Clone, Copy, PartialEq, Eq, Structural)]
pub enum TickStage {
    /// At the top of a tick.
    Ready,
    /// The state message is on its way to the client.
    Broadcast,
    /// The ingress queue is being polled.
    Poll,
}

/// Where a session stands in its life.
#[derive(Debug, Clone, Copy, PartialEq, Eq, Structural)]
pub enum SessionState {
    /// The upgrade request has not been decided.
    Upgrading,
    /// The session holds the broker's token.
    Active(TickStage),
    /// The session is over.
    Terminated,
}

/// What one poll of the ingress queue gave.
#[derive(Debug, Clone, Copy, PartialEq, Eq, Structural)]
pub enum QueuePoll {
    /// No message was queued.
    Empty,
    /// The ingress task has stopped and the queue is drained.
    Closed,
    /// A message was queued that is no command.
    Malformed,
    /// A command was queued.
    Command(CommandInput),
}

/// What the driver of a session reports back.
#[derive(Debug, Clone, Copy, PartialEq, Eq, Structural)]
pub enum SessionEvent {
    /// The client asks for a session.
    Upgrade,
    /// A tick begins.
    Tick,
    /// The state message went out (`true`) or the send failed (`false`).
    Sent(bool),
    /// The ingress queue was polled once.
    Polled(QueuePoll),
}

/// What the driver of a session does next.
#[derive(Debug)]
pub enum SessionAction {
    /// Refuse the upgrade with the conflict status.
    Reject,
    /// Complete the upgrade and start the ingress task; then report
    /// `Tick`.
    Accept,
    /// Send the message; then report `Sent`.
    Send(StateResponse),
    /// Poll the ingress queue once without blocking and let one tick
    /// period pass; then report `Polled`.
    Poll,
    /// Send the message, whatever becomes of it; then report `Tick`.
    Reply(StateResponse),
    /// Report `Tick`.
    Continue,
    /// Send the message, whatever becomes of it, and close the
    /// connection.
    Farewell(StateResponse),
    /// Close the connection.
    Close,
}

/// An action, as plain values.
pub enum ActionView {
    Reject,
    Accept,
    Send(ResponseView),
    Poll,
    Reply(ResponseView),
    Continue,
    Farewell(ResponseView),
    Close,
}

impl View for SessionAction {
    type V = ActionView;

    open spec fn view(&self) -> ActionView {
        match *self {
            SessionAction::Reject => ActionView::Reject,
            SessionAction::Accept => ActionView::Accept,
            SessionAction::Send(response) => ActionView::Send(response@),
            SessionAction::Poll => ActionView::Poll,
            SessionAction::Reply(response) => ActionView::Reply(response@),
            SessionAction::Continue => ActionView::Continue,
            SessionAction::Farewell(response) => ActionView::Farewell(response@),
            SessionAction::Close => ActionView::Close,
        }
    }
}

/// The broker once a session has given its token back.
pub open spec fn released(broker: BrokerView) -> BrokerView {
    BrokerView { connected: false, ..broker }
}

/// One step of a session: in `state`, with the broker at `broker`, the
/// event `event` can lead to `next` and `after` with the action `action`.
///
/// An upgrade is accepted only while the token is free. An active session
/// runs its ticks in a fixed order: the controller tick and the state
/// message, then one poll of the queue, then the command that the poll
/// gave, if any. It ends on a failed send of the state message, on a
/// disconnect command, on a closed queue and on an event out of turn, and
/// gives the token back whenever it ends.
pub open spec fn session_step(
    state: SessionState,
    broker: BrokerView,
    event: SessionEvent,
    next: SessionState,
    after: BrokerView,
    action: ActionView,
) -> bool {
    match (state, event) {
        (SessionState::Upgrading, SessionEvent::Upgrade) => if broker.connected {
            &&& next == SessionState::Terminated
            &&& after == broker
            &&& action == ActionView::Reject
        } else {
            &&& next == SessionState::Active(TickStage::Ready)
            &&& after == (BrokerView { connected: true, ..broker })
            &&& action == ActionView::Accept
        },
        (SessionState::Active(TickStage::Ready), SessionEvent::Tick) => {
            &&& next == SessionState::Active(TickStage::Broadcast)
            &&& broker_ticks(broker, after)
            &&& action == ActionView::Send(ResponseView::ServoState(after.servos))
        },
        (SessionState::Active(TickStage::Broadcast), SessionEvent::Sent(true)) => {
            &&& next == SessionState::Active(TickStage::Poll)
            &&& after == broker
            &&& action == ActionView::Poll
        },
        (
            SessionState::Active(TickStage::Poll),
            SessionEvent::Polled(QueuePoll::Command(CommandInput::Servo(command))),
        ) => {
            &&& next == SessionState::Active(TickStage::Ready)
            &&& after == (BrokerView { servos: with_command(broker.servos, command), ..broker })
            &&& action == ActionView::Reply(ResponseView::Nothing)
        },
        (
            SessionState::Active(TickStage::Poll),
            SessionEvent::Polled(QueuePoll::Command(CommandInput::Disconnect)),
        ) => {
            &&& next == SessionState::Terminated
            &&& after == released(broker)
            &&& action == ActionView::Farewell(ResponseView::Disconnect)
        },
        (SessionState::Active(TickStage::Poll), SessionEvent::Polled(QueuePoll::Empty))
        | (SessionState::Active(TickStage::Poll), SessionEvent::Polled(QueuePoll::Malformed)) => {
            &&& next == SessionState::Active(TickStage::Ready)
            &&& after == broker
            &&& action == ActionView::Continue
        },
        (SessionState::Active(_), _) => {
            &&& next == SessionState::Terminated
            &&& after == released(broker)
            &&& action == ActionView::Close
        },
        _ => {
            &&& next == SessionState::Terminated
            &&& after == broker
            &&& action == ActionView::Close
        },
    }
}

/// What the ingress task has in hand.
#[derive(Debug, Clone, Copy, PartialEq, Eq, Structural)]
pub enum IngressEvent {
    /// The client sent a text message.
    Text,
    /// The client sent a message of another kind.
    Other,
    /// The stream of client messages ended or failed.
    Ended,
    /// The queue did not take the last text because its reader is gone.
    QueueClosed,
}

/// What the ingress task does next.
#[derive(Debug, Clone, Copy, PartialEq, Eq, Structural)]
pub enum IngressAction {
    /// Put the text into the queue; report `QueueClosed` if it is not
    /// taken, else receive the next message.
    Forward,
    /// Receive the next message.
    Skip,
    /// Stop, without a word to the tick loop.
    Stop,
}

/// The action of the ingress task on `event`.
pub open spec fn ingress_action(event: IngressEvent) -> IngressAction {
    match event {
        IngressEvent::Text => IngressAction::Forward,
        IngressEvent::Other => IngressAction::Skip,
        IngressEvent::Ended => IngressAction::Stop,
        IngressEvent::QueueClosed => IngressAction::Stop,
    }
}

/// One step of the ingress task: texts go to the queue, other messages
/// are passed over, and the task stops when either end is gone.
pub fn ingress_step(event: IngressEvent) -> (action: IngressAction)
    ensures
        action == ingress_action(event),
{
    match event {
        IngressEvent::Text => IngressAction::Forward,
        IngressEvent::Other => IngressAction::Skip,
        IngressEvent::Ended => IngressAction::Stop,
        IngressEvent::QueueClosed => IngressAction::Stop,
    }
}

/// Of two upgrade requests in a row against a broker whose token is free,
/// the first is accepted and the second is refused, and the token stays
/// with the first.
pub proof fn lemma_second_upgrade_is_refused(
    broker: BrokerView,
    first: (SessionState, BrokerView, ActionView),
    second: (SessionState, BrokerView, ActionView),
)
    requires
        !broker.connected,
        session_step(
            SessionState::Upgrading,
            broker,
            SessionEvent::Upgrade,
            first.0,
            first.1,
            first.2,
        ),
        session_step(
            SessionState::Upgrading,
            first.1,
            SessionEvent::Upgrade,
            second.0,
            second.1,
            second.2,
        ),
    ensures
        first.2 == ActionView::Accept,
        first.0 == SessionState::Active(TickStage::Ready),
        second.2 == ActionView::Reject,
        second.0 == SessionState::Terminated,
        second.1 == first.1,
        second.1.connected,
{
}

/// A session changes the token only by taking it on its upgrade and by
/// giving it back when it ends: a step that leaves an active session
/// active keeps the token, and a step that ends one frees it.
pub proof fn lemma_token_follows_session(
    state: SessionState,
    broker: BrokerView,
    event: SessionEvent,
    next: SessionState,
    after: BrokerView,
    action: ActionView,
)
    requires
        session_step(state, broker, event, next, after, action),
    ensures
        state is Active && next is Active ==> after.connected == broker.connected,
        state is Active && next is Terminated ==> !after.connected,
        state is Upgrading && next is Active ==> !broker.connected && after.connected,
        !(state is Active) && !(next is Active) ==> after == broker,
        state is Terminated ==> next is Terminated,
        next !is Upgrading,
{
}

/// Among the sessions that share one broker, at most one is active, and
/// the token is taken exactly while one is.
pub open spec fn one_session_holds_token(sessions: Seq<SessionState>, broker: BrokerView) -> bool {
    &&& forall|i: int, j: int|
        0 <= i < sessions.len() && 0 <= j < sessions.len() && (#[trigger] sessions[i]) is Active
            && (#[trigger] sessions[j]) is Active ==> i == j
    &&& broker.connected <==> exists|i: int|
        0 <= i < sessions.len() && (#[trigger] sessions[i]) is Active
}

/// Whichever session takes a step, and on whatever event, there is still
/// at most one active session afterwards and the token is still taken
/// exactly while one is.
pub proof fn lemma_sessions_exclude_each_other(
    sessions: Seq<SessionState>,
    broker: BrokerView,
    k: int,
    event: SessionEvent,
    next: SessionState,
    after: BrokerView,
    action: ActionView,
)
    requires
        one_session_holds_token(sessions, broker),
        0 <= k < sessions.len(),
        session_step(sessions[k], broker, event, next, after, action),
    ensures
        one_session_holds_token(sessions.update(k, next), after),
{
    let stepped = sessions.update(k, next);
    lemma_token_follows_session(sessions[k], broker, event, next, after, action);
    if next is Active {
        assert(stepped[k] is Active);
    } else if !(sessions[k] is Active) && broker.connected {
        let holder = choose|i: int| 0 <= i < sessions.len() && (#[trigger] sessions[i]) is Active;
        assert(stepped[holder] is Active);
    }
}

/// The protocol of one client connection.
pub struct SessionLoop {
    state: SessionState,
}

impl View for SessionLoop {
    type V = SessionState;

    closed spec fn view(&self) -> SessionState {
        self.state
    }
}

impl SessionLoop {
    /// A session whose upgrade request has not been decided.
    pub fn new() -> (session: Self)
        ensures
            session@ == SessionState::Upgrading,
    {
        Self { state: SessionState::Upgrading }
    }

    /// Where the session stands.
    pub fn state(&self) -> (state: SessionState)
        ensures
            state == self@,
    {
        self.state
    }

    /// Takes one event and says what to do next.
    pub fn step(&mut self, broker: &mut AppState, event: SessionEvent) -> (action: SessionAction)
        ensures
            session_step(old(self)@, old(broker)@, event, final(self)@, final(broker)@, action@),
    {
        match (self.state, event) {
            (SessionState::Upgrading, SessionEvent::Upgrade) => {
                if broker.try_begin_session() {
                    self.state = SessionState::Active(TickStage::Ready);
                    SessionAction::Accept
                } else {
                    self.state = SessionState::Terminated;
                    SessionAction::Reject
                }
            },
            (SessionState::Active(TickStage::Ready), SessionEvent::Tick) => {
                let response = broker.update();
                self.state = SessionState::Active(TickStage::Broadcast);
                SessionAction::Send(response)
            },
            (SessionState::Active(TickStage::Broadcast), SessionEvent::Sent(true)) => {
                self.state = SessionState::Active(TickStage::Poll);
                SessionAction::Poll
            },
            (SessionState::Active(TickStage::Poll), SessionEvent::Polled(QueuePoll::Command(command))) => {
                let response = broker.handle_command(command);
                match response {
                    StateResponse::Disconnect => {
                        self.state = SessionState::Terminated;
                        broker.end_session();
                        SessionAction::Farewell(response)
                    },
                    _ => {
                        self.state = SessionState::Active(TickStage::Ready);
                        SessionAction::Reply(response)
                    },
                }
            },
            (SessionState::Active(TickStage::Poll), SessionEvent::Polled(QueuePoll::Empty))
            | (SessionState::Active(TickStage::Poll), SessionEvent::Polled(QueuePoll::Malformed)) => {
                self.state = SessionState::Active(TickStage::Ready);
                SessionAction::Continue
            },
            (SessionState::Active(_), _) => {
                self.state = SessionState::Terminated;
                broker.end_session();
                SessionAction::Close
            },
            _ => {
                self.state = SessionState::Terminated;
                SessionAction::Close
            },
        }
    }
}

} // verus!
