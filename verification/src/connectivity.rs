//! Whether the network may be used at all.

use vstd::prelude::*;

verus! {

/// Whether the network may be used.
#[derive(Clone, Copy, Debug, PartialEq, Eq, Structural)]
pub enum Connectivity {
    /// Requests go out.
    Online,
    /// No request goes out: each one is answered with a rejection.
    Offline,
}

impl Default for Connectivity {
    fn default() -> (r: Self)
        ensures
            r == Connectivity::Online,
    {
        Connectivity::Online
    }
}

} // verus!
