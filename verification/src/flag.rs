//! The process-wide shutdown flag, modelled as an explicit value handed to
//! every task rather than true global state.

use vstd::prelude::*;

verus! {

/// A single shared boolean, `false` until shutdown is requested. The
/// interrupt handler raises it exactly once; no component ever clears it.
#[derive(Debug, PartialEq, Eq, Structural, Clone, Copy)]
pub struct ShutdownFlag {
    raised: bool,
}

impl ShutdownFlag {
    /// Whether shutdown has been requested.
    pub closed spec fn is_raised(self) -> bool {
        self.raised
    }

    /// A fresh flag: shutdown has not been requested.
    pub fn new() -> (r: ShutdownFlag)
        ensures
            !r.is_raised(),
    {
        ShutdownFlag { raised: false }
    }

    /// Request shutdown: the flag becomes raised and stays raised.
    /// Idempotent: raising an already-raised flag changes nothing.
    pub fn raise(&mut self)
        ensures
            final(self).is_raised(),
    {
        self.raised = true;
    }

    /// Read the current value; concurrent readers all observe the same
    /// monotone transition from `false` to `true`.
    pub fn get(&self) -> (r: bool)
        ensures
            r == self.is_raised(),
    {
        self.raised
    }
}

} // verus!
