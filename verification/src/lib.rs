//! Control of a two-motor differential rover over Linux sysfs PWM channels.
//!
//! The heart of the crate is [`Rover`]: it owns one PWM channel per motor,
//! keeps both configured to a fixed 50 Hz period, and translates signed
//! speed commands in `[-100, 100]` into servo duty cycles in
//! `[1_000_000, 2_000_000]` nanoseconds. Every operation's effect on the
//! last-programmed duty cycle and enable flag of each channel is stated in
//! its contract and verified.

mod duty;
mod error;
mod parse;
mod pwm;
mod rover;

pub use crate::duty::{
    lemma_duty_cycle_affine, lemma_duty_cycle_monotone, lemma_duty_cycle_saturates,
    spec_speed_to_duty_cycle, clamped_duty_cycle, MAX_DUTY_CYCLE, MIN_DUTY_CYCLE,
    NEUTRAL_DUTY_CYCLE, PERIOD,
};
pub use crate::error::{
    is_channel_unavailable, is_configuration_failure, is_hardware_write_failure, RoverError, Side,
};
pub use crate::parse::{
    all_digits, digits_value, is_ascii_digit, is_valid_speed, lemma_digits_value_nonneg,
    lemma_digits_value_prefix, parse_speed, speed_digits, speed_sign, speed_value,
};
pub use crate::rover::{fresh_channel, with_duty, with_enabled, ChannelModel, Rover};
