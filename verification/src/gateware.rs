//! What the gateware of a board offers to the firmware.

use vstd::prelude::*;

verus! {

/// The optional cores of the gateware, and how many repeaters it holds.
#[derive(Clone, Copy, Debug, PartialEq, Eq, Structural)]
pub struct Gateware {
    /// DRTIO links to satellites.
    pub drtio: bool,
    /// Packets can be routed to other destinations.
    pub drtio_routing: bool,
    /// Monitoring and injection of RTIO channels.
    pub rtio_moninj: bool,
    /// Playback of DMA traces.
    pub rtio_dma: bool,
    /// Analyzer of RTIO events.
    pub rtio_analyzer: bool,
    /// Camera frame grabbers.
    pub grabber: bool,
    /// Si5324 clock cleaner.
    pub si5324: bool,
    /// Number of repeater cores, which routing makes use of.
    pub drtiorep: usize,
}

impl Gateware {
    /// Number of repeaters that the firmware drives.
    pub open spec fn repeaters_spec(self) -> nat {
        if self.drtio_routing {
            self.drtiorep as nat
        } else {
            0
        }
    }

    /// Number of repeaters that the firmware drives: none without routing.
    pub fn repeaters(&self) -> (n: usize)
        ensures
            n == self.repeaters_spec(),
    {
        if self.drtio_routing {
            self.drtiorep
        } else {
            0
        }
    }
}

} // verus!
