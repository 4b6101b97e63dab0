//! A PWM output whose duty cycle rises in steps and starts over.
use vstd::prelude::*;

verus! {

/// Step of the duty cycle in percent.
pub const DUTY_STEP: u8 = 5;

/// The duty cycle in percent that follows on `current`.
pub fn next_duty(current: u8) -> (r: u8)
    requires
        current <= 100,
    ensures
        r == (if current + DUTY_STEP > 100 {
            0
        } else {
            current + DUTY_STEP
        }),
        r <= 100,
{
    let next: u8 = current + DUTY_STEP;
    if next > 100 {
        0
    } else {
        next
    }
}

} // verus!
