//! UART building blocks.
use vstd::prelude::*;

pub mod rx_async;

verus! {

/// Receive errors that have been seen.
#[derive(Debug, Clone, Copy, PartialEq, Eq, Structural)]
pub struct RxErrors {
    pub overflow: bool,
    pub framing: bool,
    pub parity: bool,
}

impl Default for RxErrors {
    fn default() -> (r: Self)
        ensures
            r == (RxErrors { overflow: false, framing: false, parity: false }),
    {
        RxErrors { overflow: false, framing: false, parity: false }
    }
}

impl RxErrors {
    /// The errors of both.
    pub open spec fn both(self, other: Self) -> Self {
        RxErrors {
            overflow: self.overflow || other.overflow,
            framing: self.framing || other.framing,
            parity: self.parity || other.parity,
        }
    }

    pub fn merge(self, other: Self) -> (r: Self)
        ensures
            r == self.both(other),
    {
        RxErrors {
            overflow: self.overflow || other.overflow,
            framing: self.framing || other.framing,
            parity: self.parity || other.parity,
        }
    }
}

} // verus!
