//! The routing table of the DRTIO network.

use vstd::prelude::*;

verus! {

/// Number of destinations in a network.
pub const DEST_COUNT: usize = 256;

/// Longest path to a destination.
pub const MAX_HOPS: usize = 32;

/// Mark of a hop that leads nowhere.
pub const INVALID_HOP: u8 = 0xff;

/// For every destination, the link to take at each rank of the network. Link 0
/// ends the path: the destination is the device itself.
#[derive(Clone, Copy, Debug, PartialEq, Eq)]
pub struct RoutingTable(pub [[u8; MAX_HOPS]; DEST_COUNT]);

/// Where a packet for some destination has to go.
#[derive(Clone, Copy, Debug, PartialEq, Eq, Structural)]
pub enum Route {
    /// The device itself is the destination.
    Local,
    /// The packet goes on through this repeater.
    Repeater { repno: usize },
    /// The table names a repeater that the device lacks.
    Unreachable,
}

/// The link that a device of this rank takes towards the destination, by these
/// paths.
pub open spec fn hop_of(paths: Seq<[u8; MAX_HOPS]>, destination: u8, rank: u8) -> u8 {
    paths[destination as int]@[rank as int]
}

impl View for RoutingTable {
    type V = Seq<[u8; MAX_HOPS]>;

    /// The paths by destination.
    open spec fn view(&self) -> Seq<[u8; MAX_HOPS]> {
        self.0@
    }
}

impl RoutingTable {
    /// The link that a device of this rank takes towards the destination.
    pub open spec fn hop(&self, destination: u8, rank: u8) -> u8 {
        hop_of(self@, destination, rank)
    }

    /// Where a device of this rank and with so many repeaters sends a packet.
    pub open spec fn route_spec(&self, destination: u8, rank: u8, repeaters: nat) -> Route {
        let hop = self.hop(destination, rank);
        if hop == 0 {
            Route::Local
        } else if hop <= repeaters {
            Route::Repeater { repno: (hop - 1) as usize }
        } else {
            Route::Unreachable
        }
    }

    /// The table of a device that has not been told any path yet.
    pub fn default_empty() -> (table: RoutingTable)
        ensures
            forall|destination: u8, rank: u8|
                rank < MAX_HOPS ==> table.hop(destination, rank) == INVALID_HOP,
    {
        RoutingTable([[INVALID_HOP; MAX_HOPS]; DEST_COUNT])
    }

    /// Enters the path to a destination.
    pub fn set_path(&mut self, destination: u8, hops: [u8; MAX_HOPS])
        ensures
            final(self)@ == old(self)@.update(destination as int, hops),
    {
        self.0[destination as usize] = hops;
    }

    /// The link that a device of this rank takes towards the destination.
    pub fn get_hop(&self, destination: u8, rank: u8) -> (hop: u8)
        requires
            rank < MAX_HOPS,
        ensures
            hop == self.hop(destination, rank),
    {
        self.0[destination as usize][rank as usize]
    }

    /// Where a device of this rank and with so many repeaters sends a packet.
    pub fn route(&self, destination: u8, rank: u8, repeaters: usize) -> (route: Route)
        requires
            rank < MAX_HOPS,
        ensures
            route == self.route_spec(destination, rank, repeaters as nat),
    {
        let hop: u8 = self.get_hop(destination, rank);
        if hop == 0 {
            Route::Local
        } else {
            let repno: usize = (hop - 1) as usize;
            if repno < repeaters {
                Route::Repeater { repno }
            } else {
                Route::Unreachable
            }
        }
    }
}

} // verus!
