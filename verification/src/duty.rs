//! The saturating, linear map from a signed speed command to a servo
//! duty cycle.

use vstd::prelude::*;

verus! {

/// Fixed PWM period in nanoseconds: 20 ms, i.e. a 50 Hz servo/ESC signal.
pub const PERIOD: u32 = 20_000_000;

/// Duty cycle commanded at full reverse (speed `-100`), in nanoseconds.
pub const MIN_DUTY_CYCLE: u32 = 1_000_000;

/// Duty cycle commanded at full forward (speed `100`), in nanoseconds.
pub const MAX_DUTY_CYCLE: u32 = 2_000_000;

/// Duty cycle commanded at speed `0`, in nanoseconds: the neutral point of
/// a standard hobby servo/ESC signal, the midpoint of the duty-cycle range.
pub const NEUTRAL_DUTY_CYCLE: u32 = 1_500_000;

/// The duty cycle, in nanoseconds, that a speed command maps to: the linear
/// map that sends `[-100, 100]` onto `[MIN_DUTY_CYCLE, MAX_DUTY_CYCLE]`
/// (with `0` at the neutral midpoint), saturated at the nearer bound for
/// inputs outside `[-100, 100]`.
pub open spec fn spec_speed_to_duty_cycle(speed: int) -> int {
    let raw = (speed * 10000 + MIN_DUTY_CYCLE) / 2 + MIN_DUTY_CYCLE;
    if raw > MAX_DUTY_CYCLE {
        MAX_DUTY_CYCLE as int
    } else if raw < MIN_DUTY_CYCLE {
        MIN_DUTY_CYCLE as int
    } else {
        raw
    }
}

/// The conversion is the affine map `speed * 5000 + 1_500_000`, clamped to
/// the duty-cycle range: the halved scaling factor divides evenly, so the
/// truncating division loses nothing.
pub proof fn lemma_duty_cycle_affine(speed: int)
    ensures
        spec_speed_to_duty_cycle(speed) == if speed * 5000 + 1_500_000 > MAX_DUTY_CYCLE {
            MAX_DUTY_CYCLE as int
        } else if speed * 5000 + 1_500_000 < MIN_DUTY_CYCLE {
            MIN_DUTY_CYCLE as int
        } else {
            speed * 5000 + 1_500_000
        },
{
    let k = speed * 5000 + 500_000;
    assert(speed * 10000 + MIN_DUTY_CYCLE == 2 * k);
    assert((2 * k) / 2 == k) by (nonlinear_arith);
}

/// Saturation: the result never leaves `[MIN_DUTY_CYCLE, MAX_DUTY_CYCLE]`,
/// and any speed outside `[-100, 100]` is clamped to exactly the nearer
/// bound of that range.
pub proof fn lemma_duty_cycle_saturates(speed: int)
    ensures
        MIN_DUTY_CYCLE <= spec_speed_to_duty_cycle(speed) <= MAX_DUTY_CYCLE,
        speed <= -100 ==> spec_speed_to_duty_cycle(speed) == MIN_DUTY_CYCLE,
        speed >= 100 ==> spec_speed_to_duty_cycle(speed) == MAX_DUTY_CYCLE,
{
    lemma_duty_cycle_affine(speed);
    if speed <= -100 {
        assert(speed * 5000 <= -100 * 5000) by (nonlinear_arith)
            requires speed <= -100;
    }
    if speed >= 100 {
        assert(speed * 5000 >= 100 * 5000) by (nonlinear_arith)
            requires speed >= 100;
    }
}

/// Monotonicity: a larger speed command never maps to a smaller duty cycle.
pub proof fn lemma_duty_cycle_monotone(s1: int, s2: int)
    requires
        s1 <= s2,
    ensures
        spec_speed_to_duty_cycle(s1) <= spec_speed_to_duty_cycle(s2),
{
    lemma_duty_cycle_affine(s1);
    lemma_duty_cycle_affine(s2);
    assert(s1 * 5000 <= s2 * 5000) by (nonlinear_arith)
        requires s1 <= s2;
}

/// Computes the duty cycle for a speed command of any width, saturating
/// outside `[-100, 100]`; this conversion never fails.
pub fn clamped_duty_cycle(speed: i32) -> (duty: u32)
    ensures
        duty == spec_speed_to_duty_cycle(speed as int),
{
    proof {
        lemma_duty_cycle_affine(speed as int);
    }
    let exact: i64 = (speed as i64) * 5000 + 1_500_000;
    if exact > MAX_DUTY_CYCLE as i64 {
        MAX_DUTY_CYCLE
    } else if exact < MIN_DUTY_CYCLE as i64 {
        MIN_DUTY_CYCLE
    } else {
        exact as u32
    }
}

} // verus!
