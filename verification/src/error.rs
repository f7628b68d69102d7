//! The failure taxonomy of the motor controller.

use vstd::prelude::*;

verus! {

/// Which of the two motor channels an operation was acting on when it
/// failed.
#[derive(Clone, Copy, PartialEq, Eq, Structural, Debug)]
pub enum Side {
    Left,
    Right,
}

/// A failure surfaced by the motor controller. Each hardware-facing variant
/// names the side whose channel the failing step was acting on and carries
/// the platform's own description of the underlying cause.
#[derive(Debug)]
pub enum RoverError {
    /// A channel could not be acquired, exported or unexported.
    ChannelUnavailable(Side, String),
    /// Setting a channel's period failed.
    ConfigurationFailed(Side, String),
    /// Writing a channel's duty cycle or enable flag failed.
    HardwareWriteFailed(Side, String),
    /// A speed argument was not parseable as a signed integer in range.
    InvalidInput,
}

/// Holds when `e` reports that acquiring, exporting or unexporting the
/// channel on side `side` failed.
pub open spec fn is_channel_unavailable(e: RoverError, side: Side) -> bool {
    match e {
        RoverError::ChannelUnavailable(s, _) => s == side,
        _ => false,
    }
}

/// Holds when `e` reports that configuring the period of the channel on
/// side `side` failed.
pub open spec fn is_configuration_failure(e: RoverError, side: Side) -> bool {
    match e {
        RoverError::ConfigurationFailed(s, _) => s == side,
        _ => false,
    }
}

/// Holds when `e` reports that a duty-cycle or enable write to the channel
/// on side `side` failed.
pub open spec fn is_hardware_write_failure(e: RoverError, side: Side) -> bool {
    match e {
        RoverError::HardwareWriteFailed(s, _) => s == side,
        _ => false,
    }
}

} // verus!
