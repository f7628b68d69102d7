use rover::{
    clamped_duty_cycle, Rover, MAX_DUTY_CYCLE, MIN_DUTY_CYCLE, NEUTRAL_DUTY_CYCLE, PERIOD,
};

#[test]
fn endpoints_map_to_duty_cycle_bounds() {
    assert_eq!(Rover::speed_to_duty_cycle(-100), 1_000_000);
    assert_eq!(Rover::speed_to_duty_cycle(0), 1_500_000);
    assert_eq!(Rover::speed_to_duty_cycle(100), 2_000_000);
}

#[test]
fn intermediate_speeds_map_linearly() {
    assert_eq!(Rover::speed_to_duty_cycle(50), 1_750_000);
    assert_eq!(Rover::speed_to_duty_cycle(-50), 1_250_000);
    assert_eq!(Rover::speed_to_duty_cycle(1), 1_505_000);
    assert_eq!(Rover::speed_to_duty_cycle(-1), 1_495_000);
    assert_eq!(Rover::speed_to_duty_cycle(25), 1_625_000);
    assert_eq!(Rover::speed_to_duty_cycle(-99), 1_005_000);
}

#[test]
fn out_of_range_speeds_clamp_to_nearer_bound() {
    assert_eq!(Rover::speed_to_duty_cycle(127), 2_000_000);
    assert_eq!(Rover::speed_to_duty_cycle(-128), 1_000_000);
    assert_eq!(Rover::speed_to_duty_cycle(101), 2_000_000);
    assert_eq!(Rover::speed_to_duty_cycle(-101), 1_000_000);
}

#[test]
fn wide_commands_clamp_too() {
    assert_eq!(clamped_duty_cycle(1000), 2_000_000);
    assert_eq!(clamped_duty_cycle(-1000), 1_000_000);
    assert_eq!(clamped_duty_cycle(i32::MAX), 2_000_000);
    assert_eq!(clamped_duty_cycle(i32::MIN), 1_000_000);
    assert_eq!(clamped_duty_cycle(128), 2_000_000);
    assert_eq!(clamped_duty_cycle(-127), 1_000_000);
    assert_eq!(clamped_duty_cycle(-99), 1_005_000);
    assert_eq!(clamped_duty_cycle(99), 1_995_000);
}

#[test]
fn conversion_is_monotone_over_whole_input_type() {
    let mut previous: u32 = Rover::speed_to_duty_cycle(i8::MIN);
    let mut s: i16 = i8::MIN as i16 + 1;
    while s <= i8::MAX as i16 {
        let duty = Rover::speed_to_duty_cycle(s as i8);
        assert!(duty >= previous);
        assert!((MIN_DUTY_CYCLE..=MAX_DUTY_CYCLE).contains(&duty));
        previous = duty;
        s += 1;
    }
}

#[test]
fn mirrored_left_command_uses_negated_conversion() {
    // set_left_speed(50) programs speed_to_duty_cycle(-50), the mirror of
    // set_right_speed(50)'s speed_to_duty_cycle(50).
    assert_eq!(Rover::speed_to_duty_cycle(-50), 1_250_000);
    assert_eq!(Rover::speed_to_duty_cycle(50), 1_750_000);
    assert_eq!(
        Rover::speed_to_duty_cycle(-50) - MIN_DUTY_CYCLE,
        MAX_DUTY_CYCLE - Rover::speed_to_duty_cycle(50)
    );
}

#[test]
fn constants_describe_a_standard_servo_signal() {
    assert_eq!(PERIOD, 20_000_000);
    assert_eq!(MIN_DUTY_CYCLE, 1_000_000);
    assert_eq!(MAX_DUTY_CYCLE, 2_000_000);
    assert_eq!(NEUTRAL_DUTY_CYCLE, (MIN_DUTY_CYCLE + MAX_DUTY_CYCLE) / 2);
    assert_eq!(Rover::speed_to_duty_cycle(0), NEUTRAL_DUTY_CYCLE);
}
