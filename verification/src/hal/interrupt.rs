//! Type-level interrupt bindings for drivers that share one interrupt entry.
use vstd::prelude::*;

pub use crate::interrupt::typelevel;
use crate::interrupt::Interrupt;

verus! {

/// Check whether `interrupt` matches the type-level source `I`.
pub fn matches<I: typelevel::Interrupt>(interrupt: Interrupt) -> (r: bool)
    ensures
        r == (interrupt == I::source()),
{
    interrupt == I::irq()
}

/// Dispatch one interrupt to a concrete handler if it matches `I`.
///
/// Returns `true` if the handler ran. Must only be called from the interrupt
/// context in which `interrupt` was delivered.
///
/// A match runs the handler once, and any other interrupt does not run it; the
/// contract holds that it ran on a match.
pub fn dispatch<I: typelevel::Interrupt, H: typelevel::Handler<I>>(interrupt: Interrupt) -> (r:
    bool)
    ensures
        r == (interrupt == I::source()),
        r ==> call_ensures(H::on_interrupt, (), ()),
{
    crate::interrupt::dispatch::<I, H>(interrupt)
}

} // verus!
