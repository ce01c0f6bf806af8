//! A bridge between one remote client and a rig of servos on a CAN bus.
//!
//! `can` holds the bus frame and the transport interface with its mock,
//! `servo_controller` the controller that turns commands into frames and
//! telemetry into servo state, `protocol` the messages exchanged with the
//! client, `broker` the state that all sessions share, and `session` the
//! protocol of one client connection as a state machine.

pub mod broker;
pub mod can;
pub mod protocol;
pub mod servo_controller;
pub mod session;
