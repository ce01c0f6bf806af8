use servo_bridge::broker::AppState;
use servo_bridge::can::{CANError, CANHandle, CANMessage, MockHandle};
use servo_bridge::protocol::{CommandInput, ControllerInput, StateResponse};
use servo_bridge::servo_controller::ServoController;
use servo_bridge::session::{
    ingress_step, IngressAction, IngressEvent, QueuePoll, SessionAction, SessionEvent,
    SessionLoop, SessionState, TickStage, INGRESS_BACKLOG, TICK_PERIOD_MS,
};

struct Broken;

impl CANHandle for Broken {
    fn write(&self, _msg: &CANMessage) -> Result<(), CANError> {
        Err(CANError::ComErr)
    }

    fn read(&self) -> Result<Option<CANMessage>, CANError> {
        Err(CANError::ComErr)
    }
}

fn broker() -> AppState {
    AppState::new(ServoController::new(Box::new(MockHandle::open(0).unwrap()), 2))
}

fn servo(up: bool, down: bool, left: bool, right: bool) -> QueuePoll {
    QueuePoll::Command(CommandInput::Servo(ControllerInput { up, down, left, right }))
}

/// An accepted session at the top of its first tick.
fn active(broker: &mut AppState) -> SessionLoop {
    let mut session = SessionLoop::new();
    assert!(matches!(session.step(broker, SessionEvent::Upgrade), SessionAction::Accept));
    session
}

/// An accepted session that waits for the outcome of its poll.
fn polling(broker: &mut AppState) -> SessionLoop {
    let mut session = active(broker);
    assert!(matches!(session.step(broker, SessionEvent::Tick), SessionAction::Send(_)));
    assert!(matches!(session.step(broker, SessionEvent::Sent(true)), SessionAction::Poll));
    session
}

#[test]
fn queue_bound_and_tick_period() {
    assert_eq!(INGRESS_BACKLOG, 100);
    assert_eq!(TICK_PERIOD_MS, 100);
}

#[test]
fn new_session_is_upgrading() {
    assert_eq!(SessionLoop::new().state(), SessionState::Upgrading);
}

#[test]
fn upgrade_on_a_free_broker_is_accepted() {
    let mut broker = broker();
    let mut session = SessionLoop::new();
    let action = session.step(&mut broker, SessionEvent::Upgrade);
    assert!(matches!(action, SessionAction::Accept));
    assert_eq!(session.state(), SessionState::Active(TickStage::Ready));
    assert!(broker.client_connected);
}

#[test]
fn second_upgrade_is_refused_while_the_first_is_active() {
    let mut broker = broker();
    let mut first = SessionLoop::new();
    let mut second = SessionLoop::new();
    assert!(matches!(first.step(&mut broker, SessionEvent::Upgrade), SessionAction::Accept));
    assert!(matches!(second.step(&mut broker, SessionEvent::Upgrade), SessionAction::Reject));
    assert_eq!(second.state(), SessionState::Terminated);
    assert_eq!(first.state(), SessionState::Active(TickStage::Ready));
    assert!(broker.client_connected);
    assert!(matches!(first.step(&mut broker, SessionEvent::Tick), SessionAction::Send(_)));
}

#[test]
fn refused_session_stays_over_and_never_frees_the_token() {
    let mut broker = broker();
    let _first = active(&mut broker);
    let mut second = SessionLoop::new();
    second.step(&mut broker, SessionEvent::Upgrade);
    for event in [
        SessionEvent::Upgrade,
        SessionEvent::Tick,
        SessionEvent::Sent(true),
        SessionEvent::Sent(false),
        SessionEvent::Polled(QueuePoll::Closed),
        SessionEvent::Polled(QueuePoll::Command(CommandInput::Disconnect)),
    ] {
        assert!(matches!(second.step(&mut broker, event), SessionAction::Close));
        assert_eq!(second.state(), SessionState::Terminated);
        assert!(broker.client_connected);
    }
}

#[test]
fn tick_sends_the_state_after_the_controller_tick() {
    let mut broker = broker();
    let mut session = active(&mut broker);
    match session.step(&mut broker, SessionEvent::Tick) {
        SessionAction::Send(StateResponse::ServoState(servos)) => {
            assert_eq!(servos.len(), 2);
            assert_eq!(servos[0].angle, 1);
            assert_eq!(servos[1].angle, 0);
        }
        other => panic!("unexpected action {:?}", other),
    }
    assert_eq!(session.state(), SessionState::Active(TickStage::Broadcast));
}

#[test]
fn tick_sends_the_state_even_if_the_transport_fails() {
    let mut broker = AppState::new(ServoController::new(Box::new(Broken), 2));
    let mut session = active(&mut broker);
    match session.step(&mut broker, SessionEvent::Tick) {
        SessionAction::Send(StateResponse::ServoState(servos)) => {
            assert_eq!(servos.len(), 2);
            assert_eq!(servos[0].angle, 0);
        }
        other => panic!("unexpected action {:?}", other),
    }
    assert!(broker.client_connected);
}

#[test]
fn delivered_state_leads_to_one_poll() {
    let mut broker = broker();
    let mut session = active(&mut broker);
    session.step(&mut broker, SessionEvent::Tick);
    assert!(matches!(session.step(&mut broker, SessionEvent::Sent(true)), SessionAction::Poll));
    assert_eq!(session.state(), SessionState::Active(TickStage::Poll));
}

#[test]
fn failed_send_ends_the_session_and_frees_the_token() {
    let mut broker = broker();
    let mut session = active(&mut broker);
    session.step(&mut broker, SessionEvent::Tick);
    assert!(matches!(session.step(&mut broker, SessionEvent::Sent(false)), SessionAction::Close));
    assert_eq!(session.state(), SessionState::Terminated);
    assert!(!broker.client_connected);
}

#[test]
fn empty_queue_leads_to_the_next_tick() {
    let mut broker = broker();
    let mut session = polling(&mut broker);
    let action = session.step(&mut broker, SessionEvent::Polled(QueuePoll::Empty));
    assert!(matches!(action, SessionAction::Continue));
    assert_eq!(session.state(), SessionState::Active(TickStage::Ready));
    assert!(broker.client_connected);
}

#[test]
fn malformed_message_is_dropped_without_an_answer() {
    let mut broker = broker();
    let mut session = polling(&mut broker);
    let action = session.step(&mut broker, SessionEvent::Polled(QueuePoll::Malformed));
    assert!(matches!(action, SessionAction::Continue));
    assert_eq!(session.state(), SessionState::Active(TickStage::Ready));
    assert!(broker.client_connected);
    match session.step(&mut broker, SessionEvent::Tick) {
        SessionAction::Send(StateResponse::ServoState(servos)) => {
            assert!(servos.iter().all(|s| !s.up_pressed && !s.down_pressed));
        }
        other => panic!("unexpected action {:?}", other),
    }
}

#[test]
fn closed_queue_ends_the_session_and_frees_the_token() {
    let mut broker = broker();
    let mut session = polling(&mut broker);
    let action = session.step(&mut broker, SessionEvent::Polled(QueuePoll::Closed));
    assert!(matches!(action, SessionAction::Close));
    assert_eq!(session.state(), SessionState::Terminated);
    assert!(!broker.client_connected);
}

#[test]
fn servo_command_is_applied_and_answered() {
    let mut broker = broker();
    let mut session = polling(&mut broker);
    let action = session.step(&mut broker, SessionEvent::Polled(servo(false, true, true, false)));
    assert!(matches!(action, SessionAction::Reply(StateResponse::Nothing)));
    assert_eq!(session.state(), SessionState::Active(TickStage::Ready));
    assert!(broker.client_connected);
    match session.step(&mut broker, SessionEvent::Tick) {
        SessionAction::Send(StateResponse::ServoState(servos)) => {
            assert!(!servos[0].up_pressed && servos[0].down_pressed);
            assert!(servos[1].up_pressed && !servos[1].down_pressed);
        }
        other => panic!("unexpected action {:?}", other),
    }
}

#[test]
fn disconnect_command_is_answered_and_ends_the_session() {
    let mut broker = broker();
    let mut session = polling(&mut broker);
    let action = session
        .step(&mut broker, SessionEvent::Polled(QueuePoll::Command(CommandInput::Disconnect)));
    assert!(matches!(action, SessionAction::Farewell(StateResponse::Disconnect)));
    assert_eq!(session.state(), SessionState::Terminated);
    assert!(!broker.client_connected);
}

#[test]
fn session_from_upgrade_to_disconnect() {
    let mut broker = broker();
    let mut session = SessionLoop::new();
    assert!(matches!(session.step(&mut broker, SessionEvent::Upgrade), SessionAction::Accept));

    assert!(matches!(session.step(&mut broker, SessionEvent::Tick), SessionAction::Send(_)));
    assert!(matches!(session.step(&mut broker, SessionEvent::Sent(true)), SessionAction::Poll));
    let reply = session.step(&mut broker, SessionEvent::Polled(servo(true, false, false, false)));
    assert!(matches!(reply, SessionAction::Reply(StateResponse::Nothing)));

    match session.step(&mut broker, SessionEvent::Tick) {
        SessionAction::Send(StateResponse::ServoState(servos)) => {
            assert_eq!(servos.len(), 2);
            assert!(servos[0].up_pressed);
            assert!(!servos[0].down_pressed);
            assert!(!servos[1].up_pressed);
            assert!(!servos[1].down_pressed);
        }
        other => panic!("unexpected action {:?}", other),
    }
    assert!(matches!(session.step(&mut broker, SessionEvent::Sent(true)), SessionAction::Poll));
    let farewell = session
        .step(&mut broker, SessionEvent::Polled(QueuePoll::Command(CommandInput::Disconnect)));
    assert!(matches!(farewell, SessionAction::Farewell(StateResponse::Disconnect)));
    assert_eq!(session.state(), SessionState::Terminated);
    assert!(!broker.client_connected);

    let mut next = SessionLoop::new();
    assert!(matches!(next.step(&mut broker, SessionEvent::Upgrade), SessionAction::Accept));
    assert!(broker.client_connected);
}

#[test]
fn backlog_is_drained_one_message_per_tick() {
    let mut broker = broker();
    let mut session = active(&mut broker);
    let backlog = [servo(true, false, false, false), servo(false, true, false, false)];
    let mut seen = Vec::new();
    for queued in backlog {
        match session.step(&mut broker, SessionEvent::Tick) {
            SessionAction::Send(StateResponse::ServoState(servos)) => {
                seen.push((servos[0].up_pressed, servos[0].down_pressed));
            }
            other => panic!("unexpected action {:?}", other),
        }
        assert!(matches!(session.step(&mut broker, SessionEvent::Sent(true)), SessionAction::Poll));
        assert!(matches!(
            session.step(&mut broker, SessionEvent::Polled(queued)),
            SessionAction::Reply(StateResponse::Nothing)
        ));
    }
    match session.step(&mut broker, SessionEvent::Tick) {
        SessionAction::Send(StateResponse::ServoState(servos)) => {
            seen.push((servos[0].up_pressed, servos[0].down_pressed));
        }
        other => panic!("unexpected action {:?}", other),
    }
    assert_eq!(seen, vec![(false, false), (true, false), (false, true)]);
}

#[test]
fn event_out_of_turn_ends_an_active_session() {
    let out_of_turn = [
        (0, SessionEvent::Upgrade),
        (0, SessionEvent::Sent(true)),
        (0, SessionEvent::Polled(QueuePoll::Empty)),
        (1, SessionEvent::Tick),
        (1, SessionEvent::Upgrade),
        (1, SessionEvent::Polled(QueuePoll::Command(CommandInput::Disconnect))),
        (2, SessionEvent::Tick),
        (2, SessionEvent::Sent(true)),
        (2, SessionEvent::Upgrade),
    ];
    for (stage, event) in out_of_turn {
        let mut broker = broker();
        let mut session = active(&mut broker);
        if stage >= 1 {
            session.step(&mut broker, SessionEvent::Tick);
        }
        if stage >= 2 {
            session.step(&mut broker, SessionEvent::Sent(true));
        }
        assert!(matches!(session.step(&mut broker, event), SessionAction::Close));
        assert_eq!(session.state(), SessionState::Terminated);
        assert!(!broker.client_connected);
    }
}

#[test]
fn event_before_the_upgrade_ends_the_session_and_leaves_the_token() {
    for taken in [false, true] {
        for event in [
            SessionEvent::Tick,
            SessionEvent::Sent(true),
            SessionEvent::Sent(false),
            SessionEvent::Polled(QueuePoll::Closed),
        ] {
            let mut broker = broker();
            if taken {
                assert!(broker.try_begin_session());
            }
            let mut session = SessionLoop::new();
            assert!(matches!(session.step(&mut broker, event), SessionAction::Close));
            assert_eq!(session.state(), SessionState::Terminated);
            assert_eq!(broker.client_connected, taken);
        }
    }
}

#[test]
fn ingress_forwards_texts_only() {
    assert_eq!(ingress_step(IngressEvent::Text), IngressAction::Forward);
    assert_eq!(ingress_step(IngressEvent::Other), IngressAction::Skip);
}

#[test]
fn ingress_stops_when_either_end_is_gone() {
    assert_eq!(ingress_step(IngressEvent::Ended), IngressAction::Stop);
    assert_eq!(ingress_step(IngressEvent::QueueClosed), IngressAction::Stop);
}
