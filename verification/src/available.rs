//! The three-way classification that a probe ends in.

use vstd::prelude::*;

verus! {

/// How far a companion module can be relied on.
#[derive(Debug, Copy, Clone, PartialEq, Eq, Structural)]
pub enum Available {
    /// Found, executable, and reporting exactly the expected version.
    Yes,
    /// Found, but its version could not be confirmed.
    Degraded,
    /// Not found on the search path.
    No,
}

impl Available {
    /// Whether the module is fully available.
    pub fn is_yes(&self) -> (yes: bool)
        ensures
            yes == (*self == Available::Yes),
    {
        *self == Available::Yes
    }
}

} // verus!
