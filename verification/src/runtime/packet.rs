//! Packets of the auxiliary channel that name their destination themselves.

use vstd::prelude::*;

use crate::routing::MAX_HOPS;

verus! {

/// Largest piece of analyzer data in one packet.
pub const ANALYZER_MAX_SIZE: usize = 504;

/// Largest piece of a DMA trace in one packet.
pub const DMA_TRACE_MAX_SIZE: usize = 500;

/// A packet between the master, its satellites and their repeaters.
#[allow(inconsistent_fields)]
#[derive(Clone, Copy, Debug, PartialEq, Eq)]
pub enum Packet {
    EchoRequest,
    EchoReply,
    ResetRequest,
    ResetAck,
    TSCAck,
    DestinationStatusRequest { destination: u8 },
    DestinationDownReply,
    DestinationOkReply,
    DestinationSequenceErrorReply { channel: u16 },
    DestinationCollisionReply { channel: u16 },
    DestinationBusyReply { channel: u16 },
    RoutingSetPath { destination: u8, hops: [u8; MAX_HOPS] },
    RoutingSetRank { rank: u8 },
    RoutingAck,
    MonitorRequest { destination: u8, channel: u16, probe: u8 },
    MonitorReply { value: u64 },
    InjectionRequest { destination: u8, channel: u16, overrd: u8, value: u8 },
    InjectionStatusRequest { destination: u8, channel: u16, overrd: u8 },
    InjectionStatusReply { value: u8 },
    I2cStartRequest { destination: u8, busno: u8 },
    I2cRestartRequest { destination: u8, busno: u8 },
    I2cStopRequest { destination: u8, busno: u8 },
    I2cWriteRequest { destination: u8, busno: u8, data: u8 },
    I2cWriteReply { succeeded: bool, ack: bool },
    I2cReadRequest { destination: u8, busno: u8, ack: bool },
    I2cReadReply { succeeded: bool, data: u8 },
    I2cBasicReply { succeeded: bool },
    I2cSwitchSelectRequest { destination: u8, busno: u8, address: u8, mask: u8 },
    SpiSetConfigRequest { destination: u8, busno: u8, flags: u8, length: u8, div: u8, cs: u8 },
    SpiWriteRequest { destination: u8, busno: u8, data: u32 },
    SpiReadRequest { destination: u8, busno: u8 },
    SpiReadReply { succeeded: bool, data: u32 },
    SpiBasicReply { succeeded: bool },
    AnalyzerHeaderRequest { destination: u8 },
    AnalyzerHeader { sent_bytes: u32, total_byte_count: u64, overflow_occurred: bool },
    AnalyzerDataRequest { destination: u8 },
    AnalyzerData { last: bool, length: u16, data: [u8; ANALYZER_MAX_SIZE] },
    DmaAddTraceRequest {
        destination: u8,
        id: u32,
        last: bool,
        length: u16,
        trace: [u8; DMA_TRACE_MAX_SIZE],
    },
    DmaAddTraceReply { succeeded: bool },
    DmaRemoveTraceRequest { destination: u8, id: u32 },
    DmaRemoveTraceReply { succeeded: bool },
    DmaPlaybackRequest { destination: u8, id: u32, timestamp: u64 },
    DmaPlaybackReply { succeeded: bool },
    DmaPlaybackStatus { destination: u8, id: u32, error: u8, channel: u32, timestamp: u64 },
}

} // verus!
