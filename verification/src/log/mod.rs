//! Logging back ends.
use vstd::prelude::*;

pub mod rb;
pub mod uart_blocking;

verus! {

/// Only one logging back end can be installed, and only once.
#[derive(Debug, Clone, Copy, PartialEq, Eq, Structural)]
pub struct LoggerInit {
    pub done: bool,
}

impl LoggerInit {
    pub fn new() -> (r: Self)
        ensures
            !r.done,
    {
        LoggerInit { done: false }
    }

    /// Whether the caller is the first, who installs its back end.
    pub fn claim(&mut self) -> (r: bool)
        ensures
            r == !old(self).done,
            final(self).done,
    {
        let first = !self.done;
        self.done = true;
        first
    }
}

} // verus!
