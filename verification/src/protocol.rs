//! The messages between the client and the bridge.

use crate::servo_controller::ServoState;
use vstd::prelude::*;

verus! {

/// What the client wants of the two axes: `up` and `down` move axis 0,
/// `left` and `right` move axis 1.
#[derive(Debug, Clone, Copy, PartialEq, Eq, Structural)]
pub struct ControllerInput {
    pub up: bool,
    pub down: bool,
    pub left: bool,
    pub right: bool,
}

/// A message from the client.
#[derive(Debug, Clone, Copy, PartialEq, Eq, Structural)]
pub enum CommandInput {
    /// New intents for the two axes.
    Servo(ControllerInput),
    /// The client ends the session.
    Disconnect,
}

/// A message to the client.
#[derive(Debug)]
pub enum StateResponse {
    /// The state of every servo, in the controller's order.
    ServoState(Vec<ServoState>),
    /// The session has ended at the client's request.
    Disconnect,
    /// A command was applied and there is nothing to report.
    Nothing,
}

/// A message to the client, as plain values.
pub enum ResponseView {
    ServoState(Seq<ServoState>),
    Disconnect,
    Nothing,
}

impl View for StateResponse {
    type V = ResponseView;

    open spec fn view(&self) -> ResponseView {
        match *self {
            StateResponse::ServoState(servos) => ResponseView::ServoState(servos@),
            StateResponse::Disconnect => ResponseView::Disconnect,
            StateResponse::Nothing => ResponseView::Nothing,
        }
    }
}

} // verus!
