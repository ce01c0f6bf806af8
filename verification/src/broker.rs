//! The state shared by every session: the controller and the token that
//! lets one session at a time use it.

use crate::protocol::{CommandInput, StateResponse};
use crate::servo_controller::{with_command, tick_yields, ControllerError, ServoController, ServoState};
use vstd::prelude::*;
use vstd::slice::slice_to_vec;

verus! {

/// What the broker holds, as plain values.
pub struct BrokerView {
    pub servos: Seq<ServoState>,
    pub connected: bool,
}

/// The one controller of the process and the token of the one session
/// that may use it.
pub struct AppState {
    controller: ServoController,
    pub client_connected: bool,
}

impl View for AppState {
    type V = BrokerView;

    closed spec fn view(&self) -> BrokerView {
        BrokerView { servos: self.controller@, connected: self.client_connected }
    }
}

/// A controller tick can take the broker from `before` to `after`: the
/// servo states move as one tick moves them and the token stays.
pub open spec fn broker_ticks(before: BrokerView, after: BrokerView) -> bool {
    &&& after.connected == before.connected
    &&& exists|r: Result<(), ControllerError>| #[trigger]
        tick_yields(before.servos, after.servos, r)
}

impl AppState {
    /// A broker over `controller` whose token is free.
    pub fn new(controller: ServoController) -> (state: Self)
        ensures
            state@ == (BrokerView { servos: controller@, connected: false }),
    {
        Self { controller, client_connected: false }
    }

    /// Takes the session token if it is free.
    pub fn try_begin_session(&mut self) -> (begun: bool)
        ensures
            begun == !old(self)@.connected,
            final(self)@ == (BrokerView { connected: true, ..old(self)@ }),
    {
        if self.client_connected {
            false
        } else {
            self.client_connected = true;
            true
        }
    }

    /// Gives the session token back.
    pub fn end_session(&mut self)
        ensures
            final(self)@ == (BrokerView { connected: false, ..old(self)@ }),
    {
        self.client_connected = false;
    }

    /// Runs one controller tick and reports the state of every servo
    /// after it, whether the tick failed or not.
    pub fn update(&mut self) -> (response: StateResponse)
        ensures
            broker_ticks(old(self)@, final(self)@),
            response matches StateResponse::ServoState(servos) && servos@ == final(self)@.servos,
    {
        let outcome = self.controller.update();
        assert(tick_yields(old(self)@.servos, self@.servos, outcome));
        let servo_states = slice_to_vec(self.controller.get_servo_state().as_slice());
        StateResponse::ServoState(servo_states)
    }

    /// Applies one client message.
    pub fn handle_command(&mut self, msg: CommandInput) -> (response: StateResponse)
        ensures
            match msg {
                CommandInput::Servo(command) => {
                    &&& response is Nothing
                    &&& final(self)@ == (BrokerView {
                        servos: with_command(old(self)@.servos, command),
                        ..old(self)@
                    })
                },
                CommandInput::Disconnect => {
                    &&& response is Disconnect
                    &&& final(self)@ == (BrokerView { connected: false, ..old(self)@ })
                },
            },
    {
        match msg {
            CommandInput::Servo(command) => {
                let _ = self.controller.handle_command(command);
                StateResponse::Nothing
            },
            CommandInput::Disconnect => {
                self.client_connected = false;
                StateResponse::Disconnect
            },
        }
    }
}

} // verus!
