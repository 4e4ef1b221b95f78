//! Messages between the satellite manager and the kernel CPU.

use vstd::prelude::*;

verus! {

/// Where the kernel CPU begins to execute.
pub const KERNELCPU_EXEC_ADDRESS: usize = 0x45000000;

/// The end of the memory of the kernel CPU.
pub const KERNELCPU_LAST_ADDRESS: usize = 0x4fffffff;

/// The length of the header in front of the support code.
pub const KSUPPORT_HEADER_SIZE: usize = 0x74;

/// A message from the kernel CPU or to it.
#[allow(inconsistent_fields)]
#[derive(Debug, PartialEq, Eq)]
pub enum Message {
    LoadRequest(Vec<u8>),
    /// The kernel has been loaded, or why it has not.
    LoadReply(Result<(), String>),
    /// A text that has been formatted.
    Log(String),
    LogSlice(String),
    DmaRecordStart(String),
    DmaRecordAppend(Vec<u8>),
    DmaRecordStop { duration: u64, enable_ddma: bool },
    DmaEraseRequest { name: String },
    DmaRetrieveRequest { name: String },
    DmaRetrieveReply { trace: Option<Vec<u8>>, duration: u64, uses_ddma: bool },
    DmaStartRemoteRequest { id: i32, timestamp: i64 },
    DmaAwaitRemoteRequest { id: i32 },
    DmaAwaitRemoteReply { timeout: bool, error: u8, channel: u32, timestamp: u64 },
    RpcSend { is_async: bool, service: u32, tag: Vec<u8> },
    RpcFlush,
    CacheGetRequest { key: String },
    CacheGetReply { value: Vec<i32> },
    CachePutRequest { key: String, value: Vec<i32> },
    CachePutReply { succeeded: bool },
    RunFinished,
    /// The kernel has ended with these exceptions, each rendered as text.
    RunException { exceptions: Vec<Option<String>> },
    RtioInitRequest,
    RtioDestinationStatusRequest { destination: u8 },
    RtioDestinationStatusReply { up: bool },
    I2cStartRequest { busno: u32 },
    I2cRestartRequest { busno: u32 },
    I2cStopRequest { busno: u32 },
    I2cWriteRequest { busno: u32, data: u8 },
    I2cWriteReply { succeeded: bool, ack: bool },
    I2cReadRequest { busno: u32, ack: bool },
    I2cReadReply { succeeded: bool, data: u8 },
    I2cBasicReply { succeeded: bool },
    I2cSwitchSelectRequest { busno: u32, address: u8, mask: u8 },
    SpiSetConfigRequest { busno: u32, flags: u8, length: u8, div: u8, cs: u8 },
    SpiWriteRequest { busno: u32, data: u32 },
    SpiReadRequest { busno: u32 },
    SpiReadReply { succeeded: bool, data: u32 },
    SpiBasicReply { succeeded: bool },
    /// Any other message.
    Other,
}

} // verus!
