//! Command and control layer for a set of networked hardware peripherals:
//! on/off actuators driven over GPIO, a positionable stage driven by a
//! stepper motor, and cameras that stream frames over a publish/subscribe
//! bus.
//!
//! The crate holds the verified core: the request/response client logic,
//! the device-side transition functions, the position-control state machine
//! with homing and travel-limit handling, the capture-loop gating, and the
//! interactive session that validates operator input. The message bus and
//! the hardware drivers themselves are outside collaborators; a front end
//! runs the loops, performs the returned actions, and feeds the results
//! back in as plain values.

pub mod channel;
pub mod identity;
pub mod motor;
pub mod onoff;
pub mod response;
pub mod session;
pub mod streaming;
pub mod text;

pub use channel::{ChannelConfig, CommandChannel, CommandReply, PositionReply, TransportError};
pub use identity::DeviceIdentity;
pub use motor::{DriverCommand, MoveDecision, StepperMotorServer};
pub use session::{CameraClient, OnOffClient, PositionClient, SessionAction, SessionState};
pub use streaming::{CameraServer, CameraSettings, CaptureStep, Frame, FrameStore};
pub use onoff::GPIOServer;
pub use response::{CommandResponse, PositionResponse};
