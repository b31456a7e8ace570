use vstd::prelude::*;

verus! {

/// A movement command for the robot.
///
/// The velocity targets are carried as the decimal text that the device frame
/// spells out for them (for example `"1.5"` or `"-2"`).
#[derive(Clone, Debug)]
pub enum ActuationCommand {
    /// Robot-frame velocity targets along x and y, and the angular velocity.
    MoveLocal { x: String, y: String, omega: String },
    /// Hold still: no frame is emitted while this command is latched.
    Stop,
}

/// Failures of the actuation path and of body queries.
#[derive(Clone, Copy, Debug, PartialEq, Eq, Structural)]
pub enum ControlError {
    /// The device link could not be opened; the worker never starts ticking.
    DeviceOpenFailed,
    /// Writing a frame to the device link failed; the worker stops.
    DeviceWriteFailed,
    /// The receiving side of the command channel is gone.
    ChannelClosed,
    /// A body handle does not name a body of the simulation.
    InvalidHandle,
}

} // verus!
