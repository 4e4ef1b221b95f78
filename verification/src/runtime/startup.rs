//! What is done once, when a role of the runtime starts.

use vstd::prelude::*;

verus! {

/// The threads of the runtime.
#[derive(Clone, Copy, Debug, PartialEq, Eq, Structural)]
pub enum Thread {
    Satman,
    Session,
    Moninj,
    Analyzer,
    Grabber,
}

/// A step of the start.
#[derive(Clone, Copy, Debug, PartialEq, Eq, Structural)]
pub enum Startup {
    /// Initialise the clock and reset generator of the RTIO.
    InitRtioCrg,
    /// Take the routing table from the configuration.
    LoadRoutingTable,
    /// Take a routing table without any path.
    EmptyRoutingTable,
    /// Mark every destination as down.
    ClearDestinations,
    /// Disable the interconnect to every destination.
    DisableInterconnect,
    /// Start the management of the RTIO.
    StartRtioManagement,
    /// Start a thread with a stack of so many bytes.
    Spawn { stack_size: usize, thread: Thread },
}

/// One element if the condition holds, else none.
pub open spec fn when<T>(condition: bool, element: T) -> Seq<T> {
    if condition {
        seq![element]
    } else {
        seq![]
    }
}

} // verus!
