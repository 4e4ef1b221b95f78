//! Packets of the auxiliary channel that are part of a transaction.

use vstd::prelude::*;

use crate::drtioaux::SAT_PAYLOAD_MAX_SIZE;
use crate::routing::MAX_HOPS;

verus! {

/// What a packet says.
#[derive(Clone, Copy, Debug, PartialEq, Eq)]
pub enum Payload {
    EchoRequest,
    EchoReply,
    ResetRequest,
    ResetAck,
    TSCAck,
    DestinationStatusRequest,
    DestinationDownReply,
    RoutingSetPath { destination: u8, hops: [u8; MAX_HOPS] },
    RoutingSetRank { rank: u8 },
    RoutingAck,
    /// A payload that passes through unread: its type and its encoded fields,
    /// of which the first `length` bytes count.
    Other { kind: u8, length: u16, data: [u8; SAT_PAYLOAD_MAX_SIZE] },
}

/// A packet between two devices. The source of a transaction numbers it below
/// 128; the reply has the same number with the highest bit set.
#[derive(Clone, Copy, Debug, PartialEq, Eq)]
pub struct Packet {
    pub source: u8,
    pub destination: u8,
    pub transaction_id: u8,
    pub payload: Payload,
}

} // verus!
