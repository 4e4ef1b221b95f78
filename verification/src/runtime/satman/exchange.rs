//! The service of packets that arrive from upstream.
//!
//! The board is driven from outside. A packet opens an exchange: each step of
//! it either asks the board to perform one operation, whose outcome yields the
//! next step, or ends the exchange.

use vstd::prelude::*;

use crate::drtioaux::Error;
use crate::gateware::Gateware;
use crate::routing::{Route, RoutingTable, MAX_HOPS};
use crate::runtime::packet::{Packet, ANALYZER_MAX_SIZE, DMA_TRACE_MAX_SIZE};

verus! {

/// Errors of the RTIO core that are reported to the master.
#[derive(Clone, Copy, Debug, PartialEq, Eq, Structural)]
pub enum RtioError {
    Sequence,
    Collision,
    Busy,
}

/// What the board is asked to do.
#[allow(inconsistent_fields)]
#[derive(Clone, Copy, Debug, PartialEq, Eq)]
pub enum Operation {
    /// Send a packet upstream.
    Send { packet: Packet },
    /// Forward a packet through a repeater and return its answer upstream.
    Forward { repno: usize, packet: Packet },
    /// Forward a status request through a repeater and return its answer upstream.
    ForwardStatus { repno: usize, destination: u8 },
    /// Reset the RTIO core, then the RTIO of every repeater, by
    /// [`reset_rtio`](crate::runtime::satman::board_steps::reset_rtio).
    ResetRtio,
    /// Tell every repeater the path to a destination, by
    /// [`set_path`](crate::runtime::satman::board_steps::set_path).
    SetPath { destination: u8, hops: [u8; MAX_HOPS] },
    /// Set the interconnect up for a rank, and tell every repeater its own, by
    /// [`set_rank`](crate::runtime::satman::board_steps::set_rank).
    SetRank { rank: u8, repeater_rank: u8 },
    /// Read the error flags of the RTIO core.
    ReadErrors,
    /// Read the channel that an error occurred on, and clear the error.
    TakeError { error: RtioError },
    /// Read a probe, by [`read_monitor`](crate::runtime::satman::moninj::read_monitor).
    ReadMonitor { channel: u16, probe: u8 },
    /// Set an override, by [`inject`](crate::runtime::satman::moninj::inject).
    Inject { channel: u16, overrd: u8, value: u8 },
    /// Read an override, by
    /// [`read_injection`](crate::runtime::satman::moninj::read_injection).
    ReadInjection { channel: u16, overrd: u8 },
    I2cStart { busno: u8 },
    I2cRestart { busno: u8 },
    I2cStop { busno: u8 },
    I2cWrite { busno: u8, data: u8 },
    I2cRead { busno: u8, ack: bool },
    I2cSwitchSelect { busno: u8, address: u8, mask: u8 },
    SpiSetConfig { busno: u8, flags: u8, length: u8, div: u8, cs: u8 },
    SpiWrite { busno: u8, data: u32 },
    SpiRead { busno: u8 },
    ReadAnalyzerHeader,
    ReadAnalyzerData,
    DmaAdd { id: u32, last: bool, length: u16, trace: [u8; DMA_TRACE_MAX_SIZE] },
    DmaErase { id: u32 },
    DmaPlayback { id: u32, timestamp: u64 },
}

/// What came of an operation.
#[allow(inconsistent_fields)]
#[derive(Clone, Copy, Debug, PartialEq, Eq)]
pub enum Outcome {
    /// The operation is over; nothing is known of how it went.
    Done,
    /// The operation succeeded or not.
    Completed { succeeded: bool },
    /// The link carried the packet, or failed.
    Carried { result: Result<(), Error> },
    Errors { flags: u8 },
    Channel { channel: u16 },
    Monitor { value: u64 },
    Injection { value: u8 },
    /// The acknowledgement of the byte written, if the bus worked.
    Written { ack: Option<bool> },
    /// The byte read, if the bus worked.
    Byte { data: Option<u8> },
    /// The word read, if the bus worked.
    Word { data: Option<u32> },
    AnalyzerHeader { sent_bytes: u32, total_byte_count: u64, overflow: bool },
    AnalyzerData { last: bool, length: u16, data: [u8; ANALYZER_MAX_SIZE] },
}

/// A step of an exchange.
#[derive(Clone, Copy, Debug, PartialEq, Eq)]
pub enum Step {
    /// The board performs the operation; its outcome goes to [`resume`].
    Perform { operation: Operation },
    /// The exchange is over.
    Finish { result: Result<(), Error> },
}

impl RtioError {
    /// The flag of the error.
    pub open spec fn flag_spec(self) -> u8 {
        match self {
            RtioError::Sequence => 1,
            RtioError::Collision => 2,
            RtioError::Busy => 4,
        }
    }

    /// The flag of the error, which written back clears it.
    pub fn flag(&self) -> (flag: u8)
        ensures
            flag == self.flag_spec(),
    {
        match self {
            RtioError::Sequence => 1,
            RtioError::Collision => 2,
            RtioError::Busy => 4,
        }
    }

    /// The error that is set among the flags.
    pub open spec fn is_set(self, flags: u8) -> bool {
        flags & self.flag_spec() != 0
    }

    /// The reply that reports the error.
    pub open spec fn reply(self, channel: u16) -> Packet {
        match self {
            RtioError::Sequence => Packet::DestinationSequenceErrorReply { channel },
            RtioError::Collision => Packet::DestinationCollisionReply { channel },
            RtioError::Busy => Packet::DestinationBusyReply { channel },
        }
    }
}

/// The error that a status reply reports: a sequence error before a collision,
/// and a collision before a busy channel.
pub open spec fn first_error(flags: u8) -> Option<RtioError> {
    if RtioError::Sequence.is_set(flags) {
        Some(RtioError::Sequence)
    } else if RtioError::Collision.is_set(flags) {
        Some(RtioError::Collision)
    } else if RtioError::Busy.is_set(flags) {
        Some(RtioError::Busy)
    } else {
        None
    }
}

impl Operation {
    /// The kinds of outcome that the operation can have.
    pub open spec fn yields(self, outcome: Outcome) -> bool {
        match self {
            Operation::Send { .. }
            | Operation::Forward { .. }
            | Operation::ForwardStatus { .. } => outcome is Carried,
            Operation::ResetRtio
            | Operation::SetPath { .. }
            | Operation::SetRank { .. }
            | Operation::Inject { .. } => outcome is Done,
            Operation::ReadErrors => outcome is Errors,
            Operation::TakeError { .. } => outcome is Channel,
            Operation::ReadMonitor { .. } => outcome is Monitor,
            Operation::ReadInjection { .. } => outcome is Injection,
            Operation::I2cWrite { .. } => outcome is Written,
            Operation::I2cRead { .. } => outcome is Byte,
            Operation::SpiRead { .. } => outcome is Word,
            Operation::ReadAnalyzerHeader => outcome is AnalyzerHeader,
            Operation::ReadAnalyzerData => outcome is AnalyzerData,
            _ => outcome is Completed,
        }
    }
}

impl Step {
    /// Asks for an operation.
    pub open spec fn perform(operation: Operation) -> Step {
        Step::Perform { operation }
    }

    /// Asks for a packet to be sent upstream.
    pub open spec fn send(packet: Packet) -> Step {
        Step::Perform { operation: Operation::Send { packet } }
    }

    /// Ends the exchange in success.
    pub open spec fn succeed() -> Step {
        Step::Finish { result: Ok(()) }
    }

    /// Ends the exchange in failure.
    pub open spec fn fail(error: Error) -> Step {
        Step::Finish { result: Err(error) }
    }
}

/// The step for a packet that names a destination: `here` if the destination
/// is this device, else the packet goes on unchanged, or fails if the table
/// names a repeater that the device lacks.
pub open spec fn addressed(
    gateware: Gateware,
    table: RoutingTable,
    rank: u8,
    destination: u8,
    packet: Packet,
    here: Step,
) -> Step {
    if gateware.drtio_routing {
        match table.route_spec(destination, rank, gateware.repeaters_spec()) {
            Route::Local => here,
            Route::Repeater { repno } => Step::perform(Operation::Forward { repno, packet }),
            Route::Unreachable => Step::fail(Error::RoutingError),
        }
    } else {
        here
    }
}

/// The step that answers a request for the status of a destination.
pub open spec fn status_step(
    gateware: Gateware,
    table: RoutingTable,
    rank: u8,
    destination: u8,
) -> Step {
    if gateware.drtio_routing {
        match table.route_spec(destination, rank, gateware.repeaters_spec()) {
            Route::Local => Step::perform(Operation::ReadErrors),
            Route::Repeater { repno } => Step::perform(
                Operation::ForwardStatus { repno, destination },
            ),
            Route::Unreachable => Step::send(Packet::DestinationDownReply),
        }
    } else {
        Step::perform(Operation::ReadErrors)
    }
}

/// The destination of a packet that is served where it is addressed to.
pub open spec fn destination_of(packet: Packet) -> Option<u8> {
    match packet {
        Packet::MonitorRequest { destination, .. }
        | Packet::InjectionRequest { destination, .. }
        | Packet::InjectionStatusRequest { destination, .. }
        | Packet::I2cStartRequest { destination, .. }
        | Packet::I2cRestartRequest { destination, .. }
        | Packet::I2cStopRequest { destination, .. }
        | Packet::I2cWriteRequest { destination, .. }
        | Packet::I2cReadRequest { destination, .. }
        | Packet::I2cSwitchSelectRequest { destination, .. }
        | Packet::SpiSetConfigRequest { destination, .. }
        | Packet::SpiWriteRequest { destination, .. }
        | Packet::SpiReadRequest { destination, .. }
        | Packet::AnalyzerHeaderRequest { destination }
        | Packet::AnalyzerDataRequest { destination }
        | Packet::DmaAddTraceRequest { destination, .. }
        | Packet::DmaRemoveTraceRequest { destination, .. }
        | Packet::DmaPlaybackRequest { destination, .. } => Some(destination),
        _ => None,
    }
}

/// The packet belongs to a core that the gateware may lack altogether.
pub open spec fn is_dma_request(packet: Packet) -> bool {
    packet is DmaAddTraceRequest || packet is DmaRemoveTraceRequest || packet is DmaPlaybackRequest
}

/// The step that serves a packet on this device.
pub open spec fn served_here(gateware: Gateware, packet: Packet) -> Step {
    match packet {
        Packet::EchoRequest => Step::send(Packet::EchoReply),
        Packet::ResetRequest => Step::perform(Operation::ResetRtio),
        Packet::RoutingSetPath { destination, hops } => if gateware.drtio_routing {
            Step::perform(Operation::SetPath { destination, hops })
        } else {
            Step::send(Packet::RoutingAck)
        },
        Packet::RoutingSetRank { rank } => if gateware.drtio_routing {
            Step::perform(Operation::SetRank { rank, repeater_rank: (rank + 1) as u8 })
        } else {
            Step::send(Packet::RoutingAck)
        },
        Packet::MonitorRequest { channel, probe, .. } => if gateware.rtio_moninj {
            Step::perform(Operation::ReadMonitor { channel, probe })
        } else {
            Step::send(Packet::MonitorReply { value: 0 })
        },
        Packet::InjectionRequest { channel, overrd, value, .. } => if gateware.rtio_moninj {
            Step::perform(Operation::Inject { channel, overrd, value })
        } else {
            Step::succeed()
        },
        Packet::InjectionStatusRequest { channel, overrd, .. } => if gateware.rtio_moninj {
            Step::perform(Operation::ReadInjection { channel, overrd })
        } else {
            Step::send(Packet::InjectionStatusReply { value: 0 })
        },
        Packet::I2cStartRequest { busno, .. } => Step::perform(Operation::I2cStart { busno }),
        Packet::I2cRestartRequest { busno, .. } => Step::perform(Operation::I2cRestart { busno }),
        Packet::I2cStopRequest { busno, .. } => Step::perform(Operation::I2cStop { busno }),
        Packet::I2cWriteRequest { busno, data, .. } => Step::perform(
            Operation::I2cWrite { busno, data },
        ),
        Packet::I2cReadRequest { busno, ack, .. } => Step::perform(
            Operation::I2cRead { busno, ack },
        ),
        Packet::I2cSwitchSelectRequest { busno, address, mask, .. } => Step::perform(
            Operation::I2cSwitchSelect { busno, address, mask },
        ),
        Packet::SpiSetConfigRequest { busno, flags, length, div, cs, .. } => Step::perform(
            Operation::SpiSetConfig { busno, flags, length, div, cs },
        ),
        Packet::SpiWriteRequest { busno, data, .. } => Step::perform(
            Operation::SpiWrite { busno, data },
        ),
        Packet::SpiReadRequest { busno, .. } => Step::perform(Operation::SpiRead { busno }),
        Packet::AnalyzerHeaderRequest { .. } => Step::perform(Operation::ReadAnalyzerHeader),
        Packet::AnalyzerDataRequest { .. } => Step::perform(Operation::ReadAnalyzerData),
        Packet::DmaAddTraceRequest { id, last, length, trace, .. } => Step::perform(
            Operation::DmaAdd { id, last, length, trace },
        ),
        Packet::DmaRemoveTraceRequest { id, .. } => Step::perform(Operation::DmaErase { id }),
        Packet::DmaPlaybackRequest { id, timestamp, .. } => Step::perform(
            Operation::DmaPlayback { id, timestamp },
        ),
        _ => Step::succeed(),
    }
}

/// The step that opens the exchange for a packet.
pub open spec fn first_step(
    gateware: Gateware,
    table: RoutingTable,
    rank: u8,
    packet: Packet,
) -> Step {
    match (packet, destination_of(packet)) {
        (Packet::DestinationStatusRequest { destination }, _) => status_step(
            gateware,
            table,
            rank,
            destination,
        ),
        _ if is_dma_request(packet) && !gateware.rtio_dma => Step::succeed(),
        (_, Some(destination)) => addressed(
            gateware,
            table,
            rank,
            destination,
            packet,
            served_here(gateware, packet),
        ),
        (_, None) => served_here(gateware, packet),
    }
}

/// The paths after a packet: with routing, a path that it sets is entered.
pub open spec fn paths_after(
    gateware: Gateware,
    paths: Seq<[u8; MAX_HOPS]>,
    packet: Packet,
) -> Seq<[u8; MAX_HOPS]> {
    match packet {
        Packet::RoutingSetPath { destination, hops } if gateware.drtio_routing => paths.update(
            destination as int,
            hops,
        ),
        _ => paths,
    }
}

/// The rank after a packet: with routing, the one that it sets.
pub open spec fn rank_after(gateware: Gateware, rank: u8, packet: Packet) -> u8 {
    match packet {
        Packet::RoutingSetRank { rank: new_rank } if gateware.drtio_routing => new_rank,
        _ => rank,
    }
}

/// The step that follows an operation.
pub open spec fn next_step(operation: Operation, outcome: Outcome) -> Step {
    match (operation, outcome) {
        (Operation::Send { .. }, Outcome::Carried { result }) => Step::Finish { result },
        (Operation::Forward { .. }, Outcome::Carried { result }) => Step::Finish { result },
        (Operation::ForwardStatus { .. }, Outcome::Carried { result }) => if result is Ok {
            Step::succeed()
        } else {
            Step::send(Packet::DestinationDownReply)
        },
        (Operation::ResetRtio, Outcome::Done) => Step::send(Packet::ResetAck),
        (Operation::SetPath { .. }, Outcome::Done) => Step::send(Packet::RoutingAck),
        (Operation::SetRank { .. }, Outcome::Done) => Step::send(Packet::RoutingAck),
        (Operation::Inject { .. }, Outcome::Done) => Step::succeed(),
        (Operation::ReadErrors, Outcome::Errors { flags }) => match first_error(flags) {
            Some(error) => Step::perform(Operation::TakeError { error }),
            None => Step::send(Packet::DestinationOkReply),
        },
        (Operation::TakeError { error }, Outcome::Channel { channel }) => Step::send(
            error.reply(channel),
        ),
        (Operation::ReadMonitor { .. }, Outcome::Monitor { value }) => Step::send(
            Packet::MonitorReply { value },
        ),
        (Operation::ReadInjection { .. }, Outcome::Injection { value }) => Step::send(
            Packet::InjectionStatusReply { value },
        ),
        (Operation::I2cWrite { .. }, Outcome::Written { ack }) => Step::send(
            Packet::I2cWriteReply {
                succeeded: ack is Some,
                ack: if ack is Some { ack->0 } else { false },
            },
        ),
        (Operation::I2cRead { .. }, Outcome::Byte { data }) => Step::send(
            Packet::I2cReadReply {
                succeeded: data is Some,
                data: if data is Some { data->0 } else { 0xff },
            },
        ),
        (Operation::SpiRead { .. }, Outcome::Word { data }) => Step::send(
            Packet::SpiReadReply {
                succeeded: data is Some,
                data: if data is Some { data->0 } else { 0 },
            },
        ),
        (
            Operation::ReadAnalyzerHeader,
            Outcome::AnalyzerHeader { sent_bytes, total_byte_count, overflow },
        ) => Step::send(
            Packet::AnalyzerHeader { sent_bytes, total_byte_count, overflow_occurred: overflow },
        ),
        (Operation::ReadAnalyzerData, Outcome::AnalyzerData { last, length, data }) => Step::send(
            Packet::AnalyzerData { last, length, data },
        ),
        (Operation::SpiSetConfig { .. }, Outcome::Completed { succeeded }) => Step::send(
            Packet::SpiBasicReply { succeeded },
        ),
        (Operation::SpiWrite { .. }, Outcome::Completed { succeeded }) => Step::send(
            Packet::SpiBasicReply { succeeded },
        ),
        (Operation::DmaAdd { .. }, Outcome::Completed { succeeded }) => Step::send(
            Packet::DmaAddTraceReply { succeeded },
        ),
        (Operation::DmaErase { .. }, Outcome::Completed { succeeded }) => Step::send(
            Packet::DmaRemoveTraceReply { succeeded },
        ),
        (Operation::DmaPlayback { .. }, Outcome::Completed { succeeded }) => Step::send(
            Packet::DmaPlaybackReply { succeeded },
        ),
        (_, Outcome::Completed { succeeded }) => Step::send(Packet::I2cBasicReply { succeeded }),
        _ => Step::succeed(),
    }
}

/// The step for a packet that names a destination, if it is not this device.
fn forward(
    gateware: &Gateware,
    table: &RoutingTable,
    rank: u8,
    destination: u8,
    packet: Packet,
) -> (step: Option<Step>)
    requires
        gateware.drtio_routing ==> rank < MAX_HOPS,
    ensures
        forall|here: Step|
            #[trigger] addressed(*gateware, *table, rank, destination, packet, here) == (
            match step {
                Some(away) => away,
                None => here,
            }),
{
    if gateware.drtio_routing {
        match table.route(destination, rank, gateware.repeaters()) {
            Route::Local => None,
            Route::Repeater { repno } => Some(
                Step::Perform { operation: Operation::Forward { repno, packet } },
            ),
            Route::Unreachable => Some(Step::Finish { result: Err(Error::RoutingError) }),
        }
    } else {
        None
    }
}

/// Opens the exchange for a packet from upstream. Packets that carry a
/// destination are served if it is this device and forwarded otherwise; paths
/// and the rank are taken over; what is not a request is ignored.
///
/// With routing, the rank has to stay below [`MAX_HOPS`].
pub fn process_aux_packet(
    gateware: &Gateware,
    routing_table: &mut RoutingTable,
    rank: &mut u8,
    packet: Packet,
) -> (step: Step)
    requires
        gateware.drtio_routing ==> *old(rank) < MAX_HOPS,
        gateware.drtio_routing ==> (packet matches Packet::RoutingSetRank { rank: new_rank }
            ==> new_rank < MAX_HOPS),
    ensures
        step == first_step(*gateware, *old(routing_table), *old(rank), packet),
        final(routing_table)@ == paths_after(*gateware, old(routing_table)@, packet),
        *final(rank) == rank_after(*gateware, *old(rank), packet),
{
    match packet {
        Packet::EchoRequest => Step::Perform {
            operation: Operation::Send { packet: Packet::EchoReply },
        },
        Packet::ResetRequest => Step::Perform { operation: Operation::ResetRtio },
        Packet::DestinationStatusRequest { destination } => {
            let route = if gateware.drtio_routing {
                routing_table.route(destination, *rank, gateware.repeaters())
            } else {
                Route::Local
            };
            match route {
                Route::Local => Step::Perform { operation: Operation::ReadErrors },
                Route::Repeater { repno } => Step::Perform {
                    operation: Operation::ForwardStatus { repno, destination },
                },
                Route::Unreachable => Step::Perform {
                    operation: Operation::Send { packet: Packet::DestinationDownReply },
                },
            }
        },
        Packet::RoutingSetPath { destination, hops } => {
            if gateware.drtio_routing {
                routing_table.set_path(destination, hops);
                Step::Perform { operation: Operation::SetPath { destination, hops } }
            } else {
                Step::Perform { operation: Operation::Send { packet: Packet::RoutingAck } }
            }
        },
        Packet::RoutingSetRank { rank: new_rank } => {
            if gateware.drtio_routing {
                *rank = new_rank;
                Step::Perform {
                    operation: Operation::SetRank { rank: new_rank, repeater_rank: new_rank + 1 },
                }
            } else {
                Step::Perform { operation: Operation::Send { packet: Packet::RoutingAck } }
            }
        },
        Packet::MonitorRequest { destination, channel, probe } => {
            match forward(gateware, routing_table, *rank, destination, packet) {
                Some(step) => step,
                None => if gateware.rtio_moninj {
                    Step::Perform { operation: Operation::ReadMonitor { channel, probe } }
                } else {
                    Step::Perform {
                        operation: Operation::Send { packet: Packet::MonitorReply { value: 0 } },
                    }
                },
            }
        },
        Packet::InjectionRequest { destination, channel, overrd, value } => {
            match forward(gateware, routing_table, *rank, destination, packet) {
                Some(step) => step,
                None => if gateware.rtio_moninj {
                    Step::Perform { operation: Operation::Inject { channel, overrd, value } }
                } else {
                    Step::Finish { result: Ok(()) }
                },
            }
        },
        Packet::InjectionStatusRequest { destination, channel, overrd } => {
            match forward(gateware, routing_table, *rank, destination, packet) {
                Some(step) => step,
                None => if gateware.rtio_moninj {
                    Step::Perform { operation: Operation::ReadInjection { channel, overrd } }
                } else {
                    Step::Perform {
                        operation: Operation::Send {
                            packet: Packet::InjectionStatusReply { value: 0 },
                        },
                    }
                },
            }
        },
        Packet::I2cStartRequest { destination, busno } => {
            match forward(gateware, routing_table, *rank, destination, packet) {
                Some(step) => step,
                None => Step::Perform { operation: Operation::I2cStart { busno } },
            }
        },
        Packet::I2cRestartRequest { destination, busno } => {
            match forward(gateware, routing_table, *rank, destination, packet) {
                Some(step) => step,
                None => Step::Perform { operation: Operation::I2cRestart { busno } },
            }
        },
        Packet::I2cStopRequest { destination, busno } => {
            match forward(gateware, routing_table, *rank, destination, packet) {
                Some(step) => step,
                None => Step::Perform { operation: Operation::I2cStop { busno } },
            }
        },
        Packet::I2cWriteRequest { destination, busno, data } => {
            match forward(gateware, routing_table, *rank, destination, packet) {
                Some(step) => step,
                None => Step::Perform { operation: Operation::I2cWrite { busno, data } },
            }
        },
        Packet::I2cReadRequest { destination, busno, ack } => {
            match forward(gateware, routing_table, *rank, destination, packet) {
                Some(step) => step,
                None => Step::Perform { operation: Operation::I2cRead { busno, ack } },
            }
        },
        Packet::I2cSwitchSelectRequest { destination, busno, address, mask } => {
            match forward(gateware, routing_table, *rank, destination, packet) {
                Some(step) => step,
                None => Step::Perform {
                    operation: Operation::I2cSwitchSelect { busno, address, mask },
                },
            }
        },
        Packet::SpiSetConfigRequest { destination, busno, flags, length, div, cs } => {
            match forward(gateware, routing_table, *rank, destination, packet) {
                Some(step) => step,
                None => Step::Perform {
                    operation: Operation::SpiSetConfig { busno, flags, length, div, cs },
                },
            }
        },
        Packet::SpiWriteRequest { destination, busno, data } => {
            match forward(gateware, routing_table, *rank, destination, packet) {
                Some(step) => step,
                None => Step::Perform { operation: Operation::SpiWrite { busno, data } },
            }
        },
        Packet::SpiReadRequest { destination, busno } => {
            match forward(gateware, routing_table, *rank, destination, packet) {
                Some(step) => step,
                None => Step::Perform { operation: Operation::SpiRead { busno } },
            }
        },
        Packet::AnalyzerHeaderRequest { destination } => {
            match forward(gateware, routing_table, *rank, destination, packet) {
                Some(step) => step,
                None => Step::Perform { operation: Operation::ReadAnalyzerHeader },
            }
        },
        Packet::AnalyzerDataRequest { destination } => {
            match forward(gateware, routing_table, *rank, destination, packet) {
                Some(step) => step,
                None => Step::Perform { operation: Operation::ReadAnalyzerData },
            }
        },
        Packet::DmaAddTraceRequest { destination, id, last, length, trace } => {
            if !gateware.rtio_dma {
                return Step::Finish { result: Ok(()) };
            }
            match forward(gateware, routing_table, *rank, destination, packet) {
                Some(step) => step,
                None => Step::Perform { operation: Operation::DmaAdd { id, last, length, trace } },
            }
        },
        Packet::DmaRemoveTraceRequest { destination, id } => {
            if !gateware.rtio_dma {
                return Step::Finish { result: Ok(()) };
            }
            match forward(gateware, routing_table, *rank, destination, packet) {
                Some(step) => step,
                None => Step::Perform { operation: Operation::DmaErase { id } },
            }
        },
        Packet::DmaPlaybackRequest { destination, id, timestamp } => {
            if !gateware.rtio_dma {
                return Step::Finish { result: Ok(()) };
            }
            match forward(gateware, routing_table, *rank, destination, packet) {
                Some(step) => step,
                None => Step::Perform { operation: Operation::DmaPlayback { id, timestamp } },
            }
        },
        _ => Step::Finish { result: Ok(()) },
    }
}

/// Continues an exchange with the outcome of the operation that it asked for.
pub fn resume(operation: Operation, outcome: Outcome) -> (step: Step)
    requires
        operation.yields(outcome),
    ensures
        step == next_step(operation, outcome),
{
    let packet = match (operation, outcome) {
        (Operation::Send { .. }, Outcome::Carried { result }) => {
            return Step::Finish { result };
        },
        (Operation::Forward { .. }, Outcome::Carried { result }) => {
            return Step::Finish { result };
        },
        (Operation::ForwardStatus { .. }, Outcome::Carried { result }) => match result {
            Ok(()) => {
                return Step::Finish { result: Ok(()) };
            },
            Err(_) => Packet::DestinationDownReply,
        },
        (Operation::ResetRtio, _) => Packet::ResetAck,
        (Operation::SetPath { .. }, _) => Packet::RoutingAck,
        (Operation::SetRank { .. }, _) => Packet::RoutingAck,
        (Operation::Inject { .. }, _) => {
            return Step::Finish { result: Ok(()) };
        },
        (Operation::ReadErrors, Outcome::Errors { flags }) => if flags & 1 != 0 {
            return Step::Perform {
                operation: Operation::TakeError { error: RtioError::Sequence },
            };
        } else if flags & 2 != 0 {
            return Step::Perform {
                operation: Operation::TakeError { error: RtioError::Collision },
            };
        } else if flags & 4 != 0 {
            return Step::Perform { operation: Operation::TakeError { error: RtioError::Busy } };
        } else {
            Packet::DestinationOkReply
        },
        (Operation::TakeError { error }, Outcome::Channel { channel }) => match error {
            RtioError::Sequence => Packet::DestinationSequenceErrorReply { channel },
            RtioError::Collision => Packet::DestinationCollisionReply { channel },
            RtioError::Busy => Packet::DestinationBusyReply { channel },
        },
        (Operation::ReadMonitor { .. }, Outcome::Monitor { value }) => Packet::MonitorReply {
            value,
        },
        (
            Operation::ReadInjection { .. },
            Outcome::Injection { value },
        ) => Packet::InjectionStatusReply { value },
        (Operation::I2cWrite { .. }, Outcome::Written { ack }) => match ack {
            Some(ack) => Packet::I2cWriteReply { succeeded: true, ack },
            None => Packet::I2cWriteReply { succeeded: false, ack: false },
        },
        (Operation::I2cRead { .. }, Outcome::Byte { data }) => match data {
            Some(data) => Packet::I2cReadReply { succeeded: true, data },
            None => Packet::I2cReadReply { succeeded: false, data: 0xff },
        },
        (Operation::SpiRead { .. }, Outcome::Word { data }) => match data {
            Some(data) => Packet::SpiReadReply { succeeded: true, data },
            None => Packet::SpiReadReply { succeeded: false, data: 0 },
        },
        (
            Operation::ReadAnalyzerHeader,
            Outcome::AnalyzerHeader { sent_bytes, total_byte_count, overflow },
        ) => Packet::AnalyzerHeader { sent_bytes, total_byte_count, overflow_occurred: overflow },
        (
            Operation::ReadAnalyzerData,
            Outcome::AnalyzerData { last, length, data },
        ) => Packet::AnalyzerData { last, length, data },
        (Operation::SpiSetConfig { .. }, Outcome::Completed { succeeded }) => {
            Packet::SpiBasicReply { succeeded }
        },
        (Operation::SpiWrite { .. }, Outcome::Completed { succeeded }) => {
            Packet::SpiBasicReply { succeeded }
        },
        (Operation::DmaAdd { .. }, Outcome::Completed { succeeded }) => {
            Packet::DmaAddTraceReply { succeeded }
        },
        (Operation::DmaErase { .. }, Outcome::Completed { succeeded }) => {
            Packet::DmaRemoveTraceReply { succeeded }
        },
        (Operation::DmaPlayback { .. }, Outcome::Completed { succeeded }) => {
            Packet::DmaPlaybackReply { succeeded }
        },
        (_, Outcome::Completed { succeeded }) => Packet::I2cBasicReply { succeeded },
        _ => {
            return Step::Finish { result: Ok(()) };
        },
    };
    Step::Perform { operation: Operation::Send { packet } }
}

/// Opens an exchange with what the uplink has received: a packet is processed,
/// and without one, or with a failure of the link, the exchange is over.
pub fn process_aux_packets(
    gateware: &Gateware,
    routing_table: &mut RoutingTable,
    rank: &mut u8,
    received: Result<Option<Packet>, Error>,
) -> (step: Step)
    requires
        gateware.drtio_routing ==> *old(rank) < MAX_HOPS,
        gateware.drtio_routing ==> (received matches Ok(Some(
            Packet::RoutingSetRank { rank: new_rank },
        )) ==> new_rank < MAX_HOPS),
    ensures
        match received {
            Ok(Some(packet)) => {
                &&& step == first_step(*gateware, *old(routing_table), *old(rank), packet)
                &&& final(routing_table)@ == paths_after(*gateware, old(routing_table)@, packet)
                &&& *final(rank) == rank_after(*gateware, *old(rank), packet)
            },
            Ok(None) => {
                &&& step == Step::succeed()
                &&& *final(routing_table) == *old(routing_table)
                &&& *final(rank) == *old(rank)
            },
            Err(error) => {
                &&& step == Step::fail(error)
                &&& *final(routing_table) == *old(routing_table)
                &&& *final(rank) == *old(rank)
            },
        },
{
    match received {
        Ok(Some(packet)) => process_aux_packet(gateware, routing_table, rank, packet),
        Ok(None) => Step::Finish { result: Ok(()) },
        Err(error) => Step::Finish { result: Err(error) },
    }
}

/// The packet is none that the device expects from upstream: it is no request,
/// or one for a core that the gateware lacks altogether.
pub open spec fn is_ignored_spec(gateware: Gateware, packet: Packet) -> bool {
    &&& !(packet is EchoRequest || packet is ResetRequest || packet is DestinationStatusRequest
        || packet is RoutingSetPath || packet is RoutingSetRank)
    &&& destination_of(packet) is None || is_dma_request(packet) && !gateware.rtio_dma
}

/// Tells whether a packet is none that the device expects from upstream, so
/// that nothing is done about it but to warn of it.
pub fn is_ignored(gateware: &Gateware, packet: &Packet) -> (ignored: bool)
    ensures
        ignored == is_ignored_spec(*gateware, *packet),
{
    match packet {
        Packet::EchoRequest => false,
        Packet::ResetRequest => false,
        Packet::DestinationStatusRequest { .. } => false,
        Packet::RoutingSetPath { .. } => false,
        Packet::RoutingSetRank { .. } => false,
        Packet::MonitorRequest { .. } => false,
        Packet::InjectionRequest { .. } => false,
        Packet::InjectionStatusRequest { .. } => false,
        Packet::I2cStartRequest { .. } => false,
        Packet::I2cRestartRequest { .. } => false,
        Packet::I2cStopRequest { .. } => false,
        Packet::I2cWriteRequest { .. } => false,
        Packet::I2cReadRequest { .. } => false,
        Packet::I2cSwitchSelectRequest { .. } => false,
        Packet::SpiSetConfigRequest { .. } => false,
        Packet::SpiWriteRequest { .. } => false,
        Packet::SpiReadRequest { .. } => false,
        Packet::AnalyzerHeaderRequest { .. } => false,
        Packet::AnalyzerDataRequest { .. } => false,
        Packet::DmaAddTraceRequest { .. } => !gateware.rtio_dma,
        Packet::DmaRemoveTraceRequest { .. } => !gateware.rtio_dma,
        Packet::DmaPlaybackRequest { .. } => !gateware.rtio_dma,
        _ => true,
    }
}

/// The outcomes belong to the operations that an exchange asks for, from this
/// step on.
pub open spec fn is_run(step: Step, outcomes: Seq<Outcome>) -> bool
    decreases outcomes.len(),
{
    outcomes.len() == 0 || match step {
        Step::Perform { operation } => operation.yields(outcomes.first()) && is_run(
            next_step(operation, outcomes.first()),
            outcomes.drop_first(),
        ),
        Step::Finish { .. } => false,
    }
}

/// The step that an exchange reaches with these outcomes.
pub open spec fn step_after(step: Step, outcomes: Seq<Outcome>) -> Step
    decreases outcomes.len(),
{
    match step {
        Step::Perform { operation } if outcomes.len() > 0 => step_after(
            next_step(operation, outcomes.first()),
            outcomes.drop_first(),
        ),
        _ => step,
    }
}

/// The packets that an exchange has sent upstream with these outcomes.
pub open spec fn sent_upstream(step: Step, outcomes: Seq<Outcome>) -> Seq<Packet>
    decreases outcomes.len(),
{
    match step {
        Step::Perform { operation } if outcomes.len() > 0 => {
            let later = sent_upstream(
                next_step(operation, outcomes.first()),
                outcomes.drop_first(),
            );
            match operation {
                Operation::Send { packet } => seq![packet] + later,
                _ => later,
            }
        },
        _ => seq![],
    }
}

/// The packet is a reply to the request.
pub open spec fn is_reply_to(request: Packet, reply: Packet) -> bool {
    match request {
        Packet::EchoRequest => reply is EchoReply,
        Packet::ResetRequest => reply is ResetAck,
        Packet::DestinationStatusRequest { .. } => {
            ||| reply is DestinationDownReply
            ||| reply is DestinationOkReply
            ||| reply is DestinationSequenceErrorReply
            ||| reply is DestinationCollisionReply
            ||| reply is DestinationBusyReply
        },
        Packet::RoutingSetPath { .. } | Packet::RoutingSetRank { .. } => reply is RoutingAck,
        Packet::MonitorRequest { .. } => reply is MonitorReply,
        Packet::InjectionStatusRequest { .. } => reply is InjectionStatusReply,
        Packet::I2cStartRequest { .. }
        | Packet::I2cRestartRequest { .. }
        | Packet::I2cStopRequest { .. }
        | Packet::I2cSwitchSelectRequest { .. } => reply is I2cBasicReply,
        Packet::I2cWriteRequest { .. } => reply is I2cWriteReply,
        Packet::I2cReadRequest { .. } => reply is I2cReadReply,
        Packet::SpiSetConfigRequest { .. } | Packet::SpiWriteRequest { .. } => {
            reply is SpiBasicReply
        },
        Packet::SpiReadRequest { .. } => reply is SpiReadReply,
        Packet::AnalyzerHeaderRequest { .. } => reply is AnalyzerHeader,
        Packet::AnalyzerDataRequest { .. } => reply is AnalyzerData,
        Packet::DmaAddTraceRequest { .. } => reply is DmaAddTraceReply,
        Packet::DmaRemoveTraceRequest { .. } => reply is DmaRemoveTraceReply,
        Packet::DmaPlaybackRequest { .. } => reply is DmaPlaybackReply,
        _ => false,
    }
}

/// The gateware serves the packet and answers it.
pub open spec fn is_answered(gateware: Gateware, packet: Packet) -> bool {
    match packet {
        Packet::EchoRequest
        | Packet::ResetRequest
        | Packet::DestinationStatusRequest { .. }
        | Packet::RoutingSetPath { .. }
        | Packet::RoutingSetRank { .. } => true,
        Packet::InjectionRequest { .. } => false,
        _ => destination_of(packet) is Some && (is_dma_request(packet) ==> gateware.rtio_dma),
    }
}

/// How many operations an exchange may still ask for at a step.
pub open spec fn operations_left(step: Step) -> nat {
    match step {
        Step::Finish { .. } => 0,
        Step::Perform { operation } => match operation {
            Operation::Send { .. } | Operation::Forward { .. } | Operation::Inject { .. } => 1,
            Operation::ReadErrors => 3,
            _ => 2,
        },
    }
}

/// Every exchange ends: each operation leaves fewer operations to ask for, and
/// no exchange asks for more than three.
pub proof fn law_exchanges_end(operation: Operation, outcome: Outcome)
    requires
        operation.yields(outcome),
    ensures
        operations_left(next_step(operation, outcome)) < operations_left(Step::perform(operation)),
        operations_left(Step::perform(operation)) <= 3,
{
}

/// No exchange sends more than one packet upstream.
pub proof fn law_at_most_one_reply(step: Step, outcomes: Seq<Outcome>)
    requires
        is_run(step, outcomes),
    ensures
        sent_upstream(step, outcomes).len() <= 1,
    decreases outcomes.len(),
{
    if outcomes.len() > 0 {
        if let Step::Perform { operation } = step {
            let next = next_step(operation, outcomes.first());
            law_at_most_one_reply(next, outcomes.drop_first());
            if operation is Send {
                assert(next is Finish);
            }
        }
    }
}

/// What an exchange sends upstream is a reply to the packet that opened it.
pub proof fn law_replies_match(
    gateware: Gateware,
    table: RoutingTable,
    rank: u8,
    packet: Packet,
    outcomes: Seq<Outcome>,
)
    requires
        is_run(first_step(gateware, table, rank, packet), outcomes),
    ensures
        forall|i: int|
            0 <= i < sent_upstream(first_step(gateware, table, rank, packet), outcomes).len()
                ==> is_reply_to(
                packet,
                #[trigger] sent_upstream(first_step(gateware, table, rank, packet), outcomes)[i],
            ),
{
    reveal_with_fuel(is_run, 4);
    reveal_with_fuel(sent_upstream, 4);
    law_at_most_one_reply(first_step(gateware, table, rank, packet), outcomes);
}

/// A request that the device serves and answers, and does not pass on, has been
/// answered exactly once when its exchange is over.
pub proof fn law_served_requests_are_answered(
    gateware: Gateware,
    table: RoutingTable,
    rank: u8,
    packet: Packet,
    outcomes: Seq<Outcome>,
)
    requires
        is_answered(gateware, packet),
        is_run(first_step(gateware, table, rank, packet), outcomes),
        step_after(first_step(gateware, table, rank, packet), outcomes) is Finish,
        first_step(gateware, table, rank, packet) matches Step::Perform { operation } && !(
        operation is Forward || operation is ForwardStatus),
    ensures
        sent_upstream(first_step(gateware, table, rank, packet), outcomes).len() == 1,
{
    reveal_with_fuel(is_run, 5);
    reveal_with_fuel(sent_upstream, 5);
    reveal_with_fuel(step_after, 5);
}

/// A packet that the device does not expect leads to nothing and changes
/// nothing. One that it expects is acted upon, unless it injects into channels
/// that the gateware cannot override.
pub proof fn law_only_unexpected_packets_are_ignored(
    gateware: Gateware,
    table: RoutingTable,
    rank: u8,
    packet: Packet,
)
    ensures
        is_ignored_spec(gateware, packet) ==> {
            &&& first_step(gateware, table, rank, packet) == Step::succeed()
            &&& paths_after(gateware, table@, packet) == table@
            &&& rank_after(gateware, rank, packet) == rank
        },
        !is_ignored_spec(gateware, packet) && !(packet is InjectionRequest
            && !gateware.rtio_moninj) ==> first_step(gateware, table, rank, packet)
            != Step::succeed(),
{
}

/// A packet for another device goes on unchanged, and nothing is done for it
/// here but that.
pub proof fn law_packets_are_forwarded_unchanged(
    gateware: Gateware,
    table: RoutingTable,
    rank: u8,
    packet: Packet,
    destination: u8,
    repno: usize,
)
    requires
        gateware.drtio_routing,
        destination_of(packet) == Some(destination),
        is_dma_request(packet) ==> gateware.rtio_dma,
        table.route_spec(destination, rank, gateware.repeaters_spec()) == (Route::Repeater {
            repno,
        }),
    ensures
        first_step(gateware, table, rank, packet) == Step::perform(
            Operation::Forward { repno, packet },
        ),
        paths_after(gateware, table@, packet) == table@,
        rank_after(gateware, rank, packet) == rank,
{
}

/// A path that a packet has set is the one that later packets for its
/// destination take, and no other path changes.
pub proof fn law_set_paths_are_taken(
    gateware: Gateware,
    before: RoutingTable,
    after: RoutingTable,
    destination: u8,
    hops: [u8; MAX_HOPS],
    other: u8,
    rank: u8,
)
    requires
        gateware.drtio_routing,
        rank < MAX_HOPS,
        other != destination,
        after@ == paths_after(
            gateware,
            before@,
            Packet::RoutingSetPath { destination, hops },
        ),
    ensures
        after.hop(destination, rank) == hops@[rank as int],
        after.hop(other, rank) == before.hop(other, rank),
{
}

} // verus!
