//! Logging straight to a blocking UART.
use vstd::prelude::*;

use crate::bits;

verus! {

/// Width of the processor mode field of the program status register.
pub const MODE_WIDTH: u32 = 5;

pub const MODE_FIQ: u32 = 0b10001;

pub const MODE_IRQ: u32 = 0b10010;

/// The mode field of a program status register.
pub open spec fn mode(cpsr: u32) -> u32 {
    bits::field(cpsr, 0, MODE_WIDTH)
}

/// Whether a record that is logged with this program status is dropped.
pub fn skips_record(skip_in_isr: bool, cpsr: u32) -> (r: bool)
    ensures
        r == (skip_in_isr && (mode(cpsr) == MODE_FIQ || mode(cpsr) == MODE_IRQ)),
{
    if !skip_in_isr {
        return false;
    }
    let m: u32 = bits::get_field(cpsr, 0, MODE_WIDTH);
    m == MODE_FIQ || m == MODE_IRQ
}

} // verus!
