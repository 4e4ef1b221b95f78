//! The start of the master.

use vstd::prelude::*;

use crate::gateware::Gateware;
use crate::runtime::startup::{Startup, Thread};

verus! {

/// The steps that start the master, in their order: the routing table and the
/// state of the destinations, then the threads of the cores that there are.
pub open spec fn startup(gateware: Gateware) -> Seq<Startup> {
    seq![
        if gateware.drtio {
            Startup::LoadRoutingTable
        } else {
            Startup::EmptyRoutingTable
        },
        Startup::ClearDestinations,
    ] + crate::runtime::startup::when(gateware.drtio_routing, Startup::DisableInterconnect) + seq![
        Startup::StartRtioManagement,
        Startup::Spawn { stack_size: 16384, thread: Thread::Session },
    ] + crate::runtime::startup::when(
        gateware.rtio_moninj || gateware.drtio,
        Startup::Spawn { stack_size: 4096, thread: Thread::Moninj },
    ) + crate::runtime::startup::when(
        gateware.rtio_analyzer,
        Startup::Spawn { stack_size: 8192, thread: Thread::Analyzer },
    ) + crate::runtime::startup::when(
        gateware.grabber,
        Startup::Spawn { stack_size: 4096, thread: Thread::Grabber },
    )
}

/// Lists the steps that start the master.
pub fn start(gateware: &Gateware) -> (steps: Vec<Startup>)
    ensures
        steps@ == startup(*gateware),
{
    let mut steps: Vec<Startup> = Vec::new();
    if gateware.drtio {
        steps.push(Startup::LoadRoutingTable);
    } else {
        steps.push(Startup::EmptyRoutingTable);
    }
    steps.push(Startup::ClearDestinations);
    if gateware.drtio_routing {
        steps.push(Startup::DisableInterconnect);
    }
    steps.push(Startup::StartRtioManagement);
    steps.push(Startup::Spawn { stack_size: 16384, thread: Thread::Session });
    if gateware.rtio_moninj || gateware.drtio {
        steps.push(Startup::Spawn { stack_size: 4096, thread: Thread::Moninj });
    }
    if gateware.rtio_analyzer {
        steps.push(Startup::Spawn { stack_size: 8192, thread: Thread::Analyzer });
    }
    if gateware.grabber {
        steps.push(Startup::Spawn { stack_size: 4096, thread: Thread::Grabber });
    }
    steps
}

/// The place of a step in the order of the start.
pub open spec fn place(step: Startup) -> int {
    match step {
        Startup::LoadRoutingTable => 0,
        Startup::EmptyRoutingTable => 1,
        Startup::ClearDestinations => 2,
        Startup::DisableInterconnect => 3,
        Startup::StartRtioManagement => 4,
        Startup::Spawn { thread, .. } => match thread {
            Thread::Session => 5,
            Thread::Moninj => 6,
            Thread::Analyzer => 7,
            Thread::Grabber => 8,
            Thread::Satman => 9,
        },
        Startup::InitRtioCrg => 10,
    }
}

/// Nothing is done twice, and everything in its order: the routing table and the
/// destinations before the management of the RTIO, and this before any thread.
pub proof fn law_the_master_starts_in_order(gateware: Gateware, i: int, j: int)
    requires
        0 <= i < j < startup(gateware).len(),
    ensures
        place(startup(gateware)[i]) < place(startup(gateware)[j]),
{
}

/// The step is done at the start of the master.
pub open spec fn is_done(gateware: Gateware, step: Startup) -> bool {
    exists|i: int| 0 <= i < startup(gateware).len() && #[trigger] startup(gateware)[i] == step
}

/// The routing table is loaded with links and empty without, the destinations
/// are cleared, the management of the RTIO and the session are started in any
/// case, and everything else is done just for the gateware that it is for.
pub proof fn law_the_master_starts_what_there_is(gateware: Gateware)
    ensures
        is_done(gateware, Startup::LoadRoutingTable) == gateware.drtio,
        is_done(gateware, Startup::EmptyRoutingTable) == !gateware.drtio,
        is_done(gateware, Startup::ClearDestinations),
        is_done(gateware, Startup::DisableInterconnect) == gateware.drtio_routing,
        is_done(gateware, Startup::StartRtioManagement),
        is_done(gateware, (Startup::Spawn { stack_size: 16384, thread: Thread::Session })),
        is_done(gateware, (Startup::Spawn { stack_size: 4096, thread: Thread::Moninj })) == (
        gateware.rtio_moninj || gateware.drtio),
        is_done(gateware, (Startup::Spawn { stack_size: 8192, thread: Thread::Analyzer }))
            == gateware.rtio_analyzer,
        is_done(gateware, (Startup::Spawn { stack_size: 4096, thread: Thread::Grabber }))
            == gateware.grabber,
        forall|i: int|
            0 <= i < startup(gateware).len() ==> (
            #[trigger] startup(gateware)[i] matches Startup::Spawn { stack_size, thread } ==> (
            stack_size == match thread {
                Thread::Session => 16384usize,
                Thread::Analyzer => 8192usize,
                _ => 4096usize,
            })),
{
    let steps = startup(gateware);
    let a: int = if gateware.drtio_routing {
        1
    } else {
        0
    };
    let b: int = a + if gateware.rtio_moninj || gateware.drtio {
        1int
    } else {
        0int
    };
    let c: int = b + if gateware.rtio_analyzer {
        1int
    } else {
        0int
    };
    assert(steps[0] is LoadRoutingTable || steps[0] is EmptyRoutingTable);
    assert(steps[1] is ClearDestinations);
    assert(gateware.drtio_routing ==> steps[2] is DisableInterconnect);
    assert(steps[2 + a] is StartRtioManagement);
    assert(steps[3 + a] == (Startup::Spawn { stack_size: 16384, thread: Thread::Session }));
    assert(gateware.rtio_moninj || gateware.drtio ==> steps[4 + a] == (Startup::Spawn {
        stack_size: 4096,
        thread: Thread::Moninj,
    }));
    assert(gateware.rtio_analyzer ==> steps[4 + b] == (Startup::Spawn {
        stack_size: 8192,
        thread: Thread::Analyzer,
    }));
    assert(gateware.grabber ==> steps[4 + c] == (Startup::Spawn {
        stack_size: 4096,
        thread: Thread::Grabber,
    }));
}

} // verus!
