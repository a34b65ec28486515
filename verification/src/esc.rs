//! Manual ESC test mode: a digit received on the serial port sets all four
//! motors to one of six duties.

use vstd::prelude::*;

use crate::constants::{MOTOR_MAX, MOTOR_MIN, PWM_TOP};

verus! {

/// The duty that the digit `byte - '0'` selects: `PWM_TOP / (10 - digit)`,
/// so that '0' is the lowest and '5' the highest.
pub open spec fn spec_esc_duty(byte: u8) -> int {
    (PWM_TOP as int) / (10 - (byte - 48))
}

/// The duty that a received byte selects, for the digits '0' to '5'; any
/// other byte is not a command.
pub fn esc_duty(byte: u8) -> (duty: Option<u16>)
    ensures
        duty is Some <==> 48 <= byte <= 53,
        duty matches Some(d) ==> d == spec_esc_duty(byte),
{
    if 48 <= byte && byte <= 53 {
        let divisor: u16 = (10 - (byte - 48)) as u16;
        Some(PWM_TOP / divisor)
    } else {
        None
    }
}

/// The duty that every ESC is started at so that it calibrates: a tenth of the period.
pub fn esc_calibration_duty() -> (duty: u16)
    ensures
        duty == PWM_TOP / 10,
        duty == MOTOR_MIN,
{
    PWM_TOP / 10
}

/// A higher digit gives a higher duty, '0' gives `MOTOR_MIN` and '5' gives
/// `MOTOR_MAX`, so that every duty lies within the motor range.
pub proof fn law_esc_duty_monotone(a: u8, b: u8)
    requires
        48 <= a < b <= 53,
    ensures
        spec_esc_duty(a) < spec_esc_duty(b),
        spec_esc_duty(48) == MOTOR_MIN,
        spec_esc_duty(53) == MOTOR_MAX,
        MOTOR_MIN <= spec_esc_duty(a) <= MOTOR_MAX,
        MOTOR_MIN <= spec_esc_duty(b) <= MOTOR_MAX,
{
    assert(spec_esc_duty(48) == 2000) by (nonlinear_arith);
    assert(spec_esc_duty(49) == 2222) by (nonlinear_arith);
    assert(spec_esc_duty(50) == 2500) by (nonlinear_arith);
    assert(spec_esc_duty(51) == 2857) by (nonlinear_arith);
    assert(spec_esc_duty(52) == 3333) by (nonlinear_arith);
    assert(spec_esc_duty(53) == 4000) by (nonlinear_arith);
}

/// The whole duty table: '0' gives 2000, '1' 2222, '2' 2500, '3' 2857,
/// '4' 3333 and '5' 4000 counts of the 20000-count PWM period.
pub proof fn law_esc_duty_table()
    ensures
        spec_esc_duty(48) == 2000,
        spec_esc_duty(49) == 2222,
        spec_esc_duty(50) == 2500,
        spec_esc_duty(51) == 2857,
        spec_esc_duty(52) == 3333,
        spec_esc_duty(53) == 4000,
{
    assert(spec_esc_duty(48) == 2000) by (nonlinear_arith);
    assert(spec_esc_duty(49) == 2222) by (nonlinear_arith);
    assert(spec_esc_duty(50) == 2500) by (nonlinear_arith);
    assert(spec_esc_duty(51) == 2857) by (nonlinear_arith);
    assert(spec_esc_duty(52) == 3333) by (nonlinear_arith);
    assert(spec_esc_duty(53) == 4000) by (nonlinear_arith);
}

} // verus!
