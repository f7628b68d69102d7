//! Trusted boundary to the platform PWM capability.
//!
//! Every call into the sysfs PWM driver goes through one of the wrappers
//! here. Whether such a call succeeds depends on the platform (which chips
//! exist, what the kernel accepts), so no wrapper promises success: each
//! hands back either `Ok` or the platform's description of the failure, and
//! the verified controller states what holds of its own state for every
//! outcome.

use vstd::prelude::*;
use sysfs_pwm::Pwm;

verus! {

#[verifier::external_type_specification]
#[verifier::external_body]
pub struct ExPwm(Pwm);

/// Relies on `sysfs_pwm::Pwm::new`: builds a handle for the given chip and
/// channel numbers, failing when the chip is absent; it touches no channel
/// state.
#[verifier::external_body]
pub(crate) fn acquire(chip: u32, channel: u32) -> (r: Result<Pwm, String>) {
    match Pwm::new(chip, channel) {
        Ok(p) => Ok(p),
        Err(e) => Err(format!("{}", e)),
    }
}

/// Relies on `sysfs_pwm::Pwm::export`: asks the kernel to expose the
/// channel for user-space control.
#[verifier::external_body]
pub(crate) fn export(pwm: &Pwm) -> (r: Result<(), String>) {
    match pwm.export() {
        Ok(()) => Ok(()),
        Err(e) => Err(format!("{}", e)),
    }
}

/// Relies on `sysfs_pwm::Pwm::unexport`: withdraws the channel from
/// user-space control.
#[verifier::external_body]
pub(crate) fn unexport(pwm: &Pwm) -> (r: Result<(), String>) {
    match pwm.unexport() {
        Ok(()) => Ok(()),
        Err(e) => Err(format!("{}", e)),
    }
}

/// Relies on `sysfs_pwm::Pwm::set_period_ns`: writes the channel's period
/// in nanoseconds.
#[verifier::external_body]
pub(crate) fn set_period_ns(pwm: &Pwm, period_ns: u32) -> (r: Result<(), String>) {
    match pwm.set_period_ns(period_ns) {
        Ok(()) => Ok(()),
        Err(e) => Err(format!("{}", e)),
    }
}

/// Relies on `sysfs_pwm::Pwm::set_duty_cycle_ns`: writes the channel's
/// duty cycle in nanoseconds.
#[verifier::external_body]
pub(crate) fn set_duty_cycle_ns(pwm: &Pwm, duty_cycle_ns: u32) -> (r: Result<(), String>) {
    match pwm.set_duty_cycle_ns(duty_cycle_ns) {
        Ok(()) => Ok(()),
        Err(e) => Err(format!("{}", e)),
    }
}

/// Relies on `sysfs_pwm::Pwm::enable`: writes the channel's enable flag.
#[verifier::external_body]
pub(crate) fn set_enabled(pwm: &Pwm, enabled: bool) -> (r: Result<(), String>) {
    match pwm.enable(enabled) {
        Ok(()) => Ok(()),
        Err(e) => Err(format!("{}", e)),
    }
}

} // verus!
