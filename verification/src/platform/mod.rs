//! Platform integration for applications that dispatch interrupts themselves.
use vstd::prelude::*;

use crate::interrupt::{Interrupt, InterruptInfo, InterruptSignalRegister};
use crate::runtime::{self, GicOp};
use crate::Hertz;

pub mod time;

verus! {

/// Processor system clock of the Zedboard.
pub const PS_CLOCK_FREQUENCY_HZ: u32 = 33_333_300;

/// Processor system clock of the Zedboard.
pub fn ps_clock_frequency() -> (r: Hertz)
    ensures
        r.hz == PS_CLOCK_FREQUENCY_HZ,
{
    Hertz::from_raw(PS_CLOCK_FREQUENCY_HZ)
}

/// The interrupt that the application's matcher gets to see.
///
/// Only private and shared peripheral interrupts are dispatched.
pub fn interrupt_to_dispatch(iar: InterruptSignalRegister) -> (r: Option<Interrupt>)
    ensures
        r == match Interrupt::decoded(iar.ack_int_id) {
            Interrupt::Spurious | Interrupt::Invalid(_) | Interrupt::Sgi(_) => None,
            interrupt => Some(interrupt),
        },
{
    match InterruptInfo::new(iar).interrupt() {
        Interrupt::Spurious | Interrupt::Invalid(_) | Interrupt::Sgi(_) => None,
        interrupt => Some(interrupt),
    }
}

/// Dispatches one acknowledged interrupt with the application's matcher.
///
/// Returns whether the matcher handled the interrupt, and the accesses that are left
/// to perform: the one that ends the acknowledged interrupt.
pub fn dispatch_interrupts<F: Fn(Interrupt) -> bool>(
    iar: InterruptSignalRegister,
    dispatch: F,
) -> (r: (bool, Vec<GicOp>))
    requires
        forall|interrupt: Interrupt| #[trigger] call_requires(dispatch, (interrupt,)),
    ensures
        match Interrupt::decoded(iar.ack_int_id) {
            Interrupt::Spurious | Interrupt::Invalid(_) | Interrupt::Sgi(_) => !r.0,
            interrupt => call_ensures(dispatch, (interrupt,), r.0),
        },
        r.1@ == seq![GicOp::WriteEndOfInterrupt(iar)],
{
    let handled = match interrupt_to_dispatch(iar) {
        None => false,
        Some(interrupt) => dispatch(interrupt),
    };
    let ops: Vec<GicOp> = vec![runtime::end_of_interrupt(iar)];
    assert(ops@ =~= seq![GicOp::WriteEndOfInterrupt(iar)]);
    (handled, ops)
}

} // verus!
