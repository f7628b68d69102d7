//! The motor controller: two PWM channels, a fixed period, and verified
//! bookkeeping of everything programmed into them.

use vstd::prelude::*;
use sysfs_pwm::Pwm;
use crate::duty::{clamped_duty_cycle, spec_speed_to_duty_cycle, NEUTRAL_DUTY_CYCLE, PERIOD};
use crate::error::{
    is_channel_unavailable, is_configuration_failure, is_hardware_write_failure, RoverError, Side,
};
use crate::pwm;

verus! {

/// What the controller has programmed into one PWM channel: the period
/// written at construction, and the duty cycle and enable flag most
/// recently written with success (`None` before the first such write,
/// when the hardware still holds whatever it held before).
pub struct ChannelModel {
    /// The channel's period in nanoseconds, configured at construction.
    pub period_ns: u32,
    /// The last duty cycle successfully written, in nanoseconds.
    pub duty_cycle: Option<u32>,
    /// The last enable flag successfully written.
    pub enabled: Option<bool>,
}

/// The state of a channel just after construction: period configured,
/// nothing else written yet.
pub open spec fn fresh_channel() -> ChannelModel {
    ChannelModel { period_ns: PERIOD, duty_cycle: None, enabled: None }
}

/// `m` with its last-written duty cycle replaced by `d`.
pub open spec fn with_duty(m: ChannelModel, d: u32) -> ChannelModel {
    ChannelModel { duty_cycle: Some(d), ..m }
}

/// `m` with its last-written enable flag replaced by `e`.
pub open spec fn with_enabled(m: ChannelModel, e: bool) -> ChannelModel {
    ChannelModel { enabled: Some(e), ..m }
}

/// A two-motor rover: one PWM channel per motor, both exported and
/// configured to the fixed 50 Hz period for the controller's whole
/// lifetime. Dropping output for good goes through [`Rover::unexport`],
/// which consumes the controller, so no operation can follow it.
pub struct Rover {
    left: Pwm,
    right: Pwm,
    left_model: Ghost<ChannelModel>,
    right_model: Ghost<ChannelModel>,
}

impl Rover {
    /// What this controller has programmed into the left motor's channel.
    pub closed spec fn left_channel(&self) -> ChannelModel {
        self.left_model@
    }

    /// What this controller has programmed into the right motor's channel.
    pub closed spec fn right_channel(&self) -> ChannelModel {
        self.right_model@
    }

    /// Both channels carry the fixed period.
    pub open spec fn wf(&self) -> bool {
        self.left_channel().period_ns == PERIOD && self.right_channel().period_ns == PERIOD
    }

    /// Acquires and exports the two channels and sets both periods, left
    /// before right. Any failure aborts immediately; already-completed
    /// steps are not rolled back.
    pub fn new(chip: u32, left_pin: u32, right_pin: u32) -> (r: Result<Rover, RoverError>)
        ensures
            r matches Ok(rover) ==> rover.wf() && rover.left_channel() == fresh_channel()
                && rover.right_channel() == fresh_channel(),
            r matches Err(e) ==> is_channel_unavailable(e, Side::Left)
                || is_channel_unavailable(e, Side::Right)
                || is_configuration_failure(e, Side::Left)
                || is_configuration_failure(e, Side::Right),
    {
        let left = match pwm::acquire(chip, left_pin) {
            Ok(p) => p,
            Err(cause) => {
                return Err(RoverError::ChannelUnavailable(Side::Left, cause));
            },
        };
        let right = match pwm::acquire(chip, right_pin) {
            Ok(p) => p,
            Err(cause) => {
                return Err(RoverError::ChannelUnavailable(Side::Right, cause));
            },
        };
        match pwm::export(&left) {
            Ok(()) => {},
            Err(cause) => {
                return Err(RoverError::ChannelUnavailable(Side::Left, cause));
            },
        }
        match pwm::export(&right) {
            Ok(()) => {},
            Err(cause) => {
                return Err(RoverError::ChannelUnavailable(Side::Right, cause));
            },
        }
        match pwm::set_period_ns(&left, PERIOD) {
            Ok(()) => {},
            Err(cause) => {
                return Err(RoverError::ConfigurationFailed(Side::Left, cause));
            },
        }
        match pwm::set_period_ns(&right, PERIOD) {
            Ok(()) => {},
            Err(cause) => {
                return Err(RoverError::ConfigurationFailed(Side::Right, cause));
            },
        }
        Ok(Rover {
            left,
            right,
            left_model: Ghost(fresh_channel()),
            right_model: Ghost(fresh_channel()),
        })
    }

    /// Converts a speed command between `-100` (full reverse) and `100`
    /// (full forward) to a duty cycle in nanoseconds, clamping inputs
    /// outside that range to the nearer bound; this never fails.
    pub fn speed_to_duty_cycle(speed: i8) -> (duty: u32)
        ensures
            duty == spec_speed_to_duty_cycle(speed as int) as u32,
    {
        clamped_duty_cycle(speed as i32)
    }

    /// Writes the enable flag of both channels, left before right. A
    /// disabled channel keeps its last programmed duty cycle and resumes
    /// outputting it when re-enabled. Fail-fast: when the left write
    /// fails, the right channel is untouched.
    pub fn enable(&mut self, enabled: bool) -> (r: Result<(), RoverError>)
        ensures
            old(self).wf() ==> final(self).wf(),
            r matches Ok(()) ==> final(self).left_channel() == with_enabled(
                old(self).left_channel(),
                enabled,
            ) && final(self).right_channel() == with_enabled(
                old(self).right_channel(),
                enabled,
            ),
            r matches Err(e) ==> (is_hardware_write_failure(e, Side::Left)
                && final(self).left_channel() == old(self).left_channel()
                && final(self).right_channel() == old(self).right_channel()) || (
            is_hardware_write_failure(e, Side::Right) && final(self).left_channel()
                == with_enabled(old(self).left_channel(), enabled) && final(self).right_channel()
                == old(self).right_channel()),
    {
        match pwm::set_enabled(&self.left, enabled) {
            Ok(()) => {},
            Err(cause) => {
                return Err(RoverError::HardwareWriteFailed(Side::Left, cause));
            },
        }
        self.left_model = Ghost(with_enabled(self.left_model@, enabled));
        match pwm::set_enabled(&self.right, enabled) {
            Ok(()) => {},
            Err(cause) => {
                return Err(RoverError::HardwareWriteFailed(Side::Right, cause));
            },
        }
        self.right_model = Ghost(with_enabled(self.right_model@, enabled));
        Ok(())
    }

    /// Programs the left motor's duty cycle from a speed command. The
    /// command is negated before conversion: the two motors are mounted
    /// mirrored, so equal forward commands drive the rover straight.
    pub fn set_left_speed(&mut self, speed: i8) -> (r: Result<(), RoverError>)
        ensures
            old(self).wf() ==> final(self).wf(),
            final(self).right_channel() == old(self).right_channel(),
            r matches Ok(()) ==> final(self).left_channel() == with_duty(
                old(self).left_channel(),
                spec_speed_to_duty_cycle(-(speed as int)) as u32,
            ),
            r matches Err(e) ==> is_hardware_write_failure(e, Side::Left)
                && final(self).left_channel() == old(self).left_channel(),
    {
        let duty: u32 = clamped_duty_cycle(-(speed as i32));
        match pwm::set_duty_cycle_ns(&self.left, duty) {
            Ok(()) => {
                self.left_model = Ghost(with_duty(self.left_model@, duty));
                Ok(())
            },
            Err(cause) => Err(RoverError::HardwareWriteFailed(Side::Left, cause)),
        }
    }

    /// Programs the right motor's duty cycle from a speed command, without
    /// the left side's negation.
    pub fn set_right_speed(&mut self, speed: i8) -> (r: Result<(), RoverError>)
        ensures
            old(self).wf() ==> final(self).wf(),
            final(self).left_channel() == old(self).left_channel(),
            r matches Ok(()) ==> final(self).right_channel() == with_duty(
                old(self).right_channel(),
                spec_speed_to_duty_cycle(speed as int) as u32,
            ),
            r matches Err(e) ==> is_hardware_write_failure(e, Side::Right)
                && final(self).right_channel() == old(self).right_channel(),
    {
        let duty: u32 = clamped_duty_cycle(speed as i32);
        match pwm::set_duty_cycle_ns(&self.right, duty) {
            Ok(()) => {
                self.right_model = Ghost(with_duty(self.right_model@, duty));
                Ok(())
            },
            Err(cause) => Err(RoverError::HardwareWriteFailed(Side::Right, cause)),
        }
    }

    /// Programs both duty cycles, left before right, leaving the enable
    /// flags alone. Fail-fast: when the left write fails, the right write
    /// is not attempted and the already-applied left write stays.
    pub fn set_speed(&mut self, left: i8, right: i8) -> (r: Result<(), RoverError>)
        ensures
            old(self).wf() ==> final(self).wf(),
            r matches Ok(()) ==> final(self).left_channel() == with_duty(
                old(self).left_channel(),
                spec_speed_to_duty_cycle(-(left as int)) as u32,
            ) && final(self).right_channel() == with_duty(
                old(self).right_channel(),
                spec_speed_to_duty_cycle(right as int) as u32,
            ),
            r matches Err(e) ==> (is_hardware_write_failure(e, Side::Left)
                && final(self).left_channel() == old(self).left_channel()
                && final(self).right_channel() == old(self).right_channel()) || (
            is_hardware_write_failure(e, Side::Right) && final(self).left_channel() == with_duty(
                old(self).left_channel(),
                spec_speed_to_duty_cycle(-(left as int)) as u32,
            ) && final(self).right_channel() == old(self).right_channel()),
    {
        match self.set_left_speed(left) {
            Ok(()) => {},
            Err(e) => {
                return Err(e);
            },
        }
        self.set_right_speed(right)
    }

    /// Programs both channels to the neutral duty cycle and then disables
    /// both, left before right at each step. Unlike `enable(false)` alone,
    /// this also zeroes the commanded speed, so a later re-enable resumes
    /// at neutral rather than at the prior speed.
    pub fn stop(&mut self) -> (r: Result<(), RoverError>)
        ensures
            old(self).wf() ==> final(self).wf(),
            r matches Ok(()) ==> final(self).left_channel() == with_enabled(
                with_duty(old(self).left_channel(), NEUTRAL_DUTY_CYCLE),
                false,
            ) && final(self).right_channel() == with_enabled(
                with_duty(old(self).right_channel(), NEUTRAL_DUTY_CYCLE),
                false,
            ),
            r matches Err(e) ==> (is_hardware_write_failure(e, Side::Left) && ((
            final(self).left_channel() == old(self).left_channel() && final(self).right_channel()
                == old(self).right_channel()) || (final(self).left_channel() == with_duty(
                old(self).left_channel(),
                NEUTRAL_DUTY_CYCLE,
            ) && final(self).right_channel() == with_duty(
                old(self).right_channel(),
                NEUTRAL_DUTY_CYCLE,
            )))) || (is_hardware_write_failure(e, Side::Right) && ((final(self).left_channel()
                == with_duty(old(self).left_channel(), NEUTRAL_DUTY_CYCLE)
                && final(self).right_channel() == old(self).right_channel()) || (final(self).left_channel()
                == with_enabled(with_duty(old(self).left_channel(), NEUTRAL_DUTY_CYCLE), false)
                && final(self).right_channel() == with_duty(
                old(self).right_channel(),
                NEUTRAL_DUTY_CYCLE,
            )))),
    {
        proof {
            assert(spec_speed_to_duty_cycle(0) == NEUTRAL_DUTY_CYCLE);
        }
        match self.set_left_speed(0) {
            Ok(()) => {},
            Err(e) => {
                return Err(e);
            },
        }
        match self.set_right_speed(0) {
            Ok(()) => {},
            Err(e) => {
                return Err(e);
            },
        }
        match pwm::set_enabled(&self.left, false) {
            Ok(()) => {},
            Err(cause) => {
                return Err(RoverError::HardwareWriteFailed(Side::Left, cause));
            },
        }
        self.left_model = Ghost(with_enabled(self.left_model@, false));
        match pwm::set_enabled(&self.right, false) {
            Ok(()) => {},
            Err(cause) => {
                return Err(RoverError::HardwareWriteFailed(Side::Right, cause));
            },
        }
        self.right_model = Ghost(with_enabled(self.right_model@, false));
        Ok(())
    }

    /// Disables both channels and withdraws them from user-space control,
    /// left before right at each step, consuming the controller: the type
    /// system forbids any further operation on it. Each step short-circuits
    /// on the first failure, leaving later steps unattempted.
    pub fn unexport(self) -> (r: Result<(), RoverError>)
        ensures
            r matches Err(e) ==> is_hardware_write_failure(e, Side::Left)
                || is_hardware_write_failure(e, Side::Right)
                || is_channel_unavailable(e, Side::Left)
                || is_channel_unavailable(e, Side::Right),
    {
        match pwm::set_enabled(&self.left, false) {
            Ok(()) => {},
            Err(cause) => {
                return Err(RoverError::HardwareWriteFailed(Side::Left, cause));
            },
        }
        match pwm::set_enabled(&self.right, false) {
            Ok(()) => {},
            Err(cause) => {
                return Err(RoverError::HardwareWriteFailed(Side::Right, cause));
            },
        }
        match pwm::unexport(&self.left) {
            Ok(()) => {},
            Err(cause) => {
                return Err(RoverError::ChannelUnavailable(Side::Left, cause));
            },
        }
        match pwm::unexport(&self.right) {
            Ok(()) => {},
            Err(cause) => {
                return Err(RoverError::ChannelUnavailable(Side::Right, cause));
            },
        }
        Ok(())
    }
}

} // verus!
