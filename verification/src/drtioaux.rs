//! What every user of the DRTIO auxiliary channel shares: the sizes of its
//! payloads, the errors of the link, and the marks that tell the pieces of a
//! long message apart.

use vstd::prelude::*;

verus! {

/// Largest piece of data that a satellite sends in one packet: a frame of 512
/// bytes less the CRC, the packet type, the status and the length.
pub const SAT_PAYLOAD_MAX_SIZE: usize = 504;

/// Largest piece of data that the master sends in one packet: as above, less
/// the source, the destination and the identifier.
pub const MASTER_PAYLOAD_MAX_SIZE: usize = 498;

/// Failures of the auxiliary link.
#[derive(Clone, Copy, Debug, PartialEq, Eq, Structural)]
pub enum Error {
    GatewareError,
    CorruptedPacket,
    LinkDown,
    TimedOut,
    UnexpectedReply,
    RoutingError,
    Protocol,
}

/// Where a piece of a long message stands in it.
#[derive(Clone, Copy, Debug, PartialEq, Eq, Structural)]
pub enum PayloadStatus {
    Middle,
    First,
    Last,
    FirstAndLast,
}

impl PayloadStatus {
    /// The piece opens its message.
    pub open spec fn is_first(self) -> bool {
        self is First || self is FirstAndLast
    }

    /// The piece closes its message.
    pub open spec fn is_last(self) -> bool {
        self is Last || self is FirstAndLast
    }

    /// The mark of a piece that opens its message or not, and closes it or not.
    pub fn from_status(first: bool, last: bool) -> (status: PayloadStatus)
        ensures
            status.is_first() == first,
            status.is_last() == last,
    {
        if first {
            if last {
                PayloadStatus::FirstAndLast
            } else {
                PayloadStatus::First
            }
        } else {
            if last {
                PayloadStatus::Last
            } else {
                PayloadStatus::Middle
            }
        }
    }
}

} // verus!
