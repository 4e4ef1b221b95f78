//! What holds of the service of packets from upstream, packet by packet.

use vstd::prelude::*;

use crate::drtioaux::Error;
use crate::gateware::Gateware;
use crate::routing::{Route, RoutingTable, DEST_COUNT, MAX_HOPS};
use crate::runtime::packet::{Packet, ANALYZER_MAX_SIZE, DMA_TRACE_MAX_SIZE};
use crate::runtime::satman::exchange::{Operation, Outcome, RtioError, Step};

verus! {

/// The board sends the packet upstream next.
pub open spec fn sends(step: Step, packet: Packet) -> bool {
    step == (Step::Perform { operation: Operation::Send { packet } })
}

/// The board performs the operation next.
pub open spec fn asks_for(step: Step, operation: Operation) -> bool {
    step == (Step::Perform { operation })
}

/// The exchange is over and has gone well.
pub open spec fn is_over(step: Step) -> bool {
    step == (Step::Finish { result: Ok(()) })
}

/// The device is the destination: there is no routing, or the table names no
/// link for it.
pub open spec fn is_for_the_device(
    gateware: Gateware,
    table: RoutingTable,
    rank: u8,
    destination: u8,
) -> bool {
    gateware.drtio_routing ==> table.0@[destination as int]@[rank as int] == 0
}

/// The packet leaves through the repeater behind the link that the table names,
/// as it is, or fails if there is no such repeater.
pub open spec fn is_passed_on(
    gateware: Gateware,
    table: RoutingTable,
    rank: u8,
    destination: u8,
    packet: Packet,
    step: Step,
) -> bool {
    let link = table.0@[destination as int]@[rank as int];
    if link <= gateware.drtiorep {
        step matches Step::Perform { operation: Operation::Forward { repno, packet: passed } }
            && repno + 1 == link && passed == packet
    } else {
        step == (Step::Finish { result: Err(Error::RoutingError) })
    }
}

/// The link that a packet takes is the entry of the table for its destination
/// at the rank of the device: entry 0 is the device, an entry up to the number
/// of repeaters is the repeater of that number, counted from 1, and any other
/// leads nowhere.
pub proof fn law_routes_are_the_entries_of_the_table(
    table: RoutingTable,
    destination: u8,
    rank: u8,
    repeaters: nat,
)
    ensures
        table.hop(destination, rank) == table.0@[destination as int]@[rank as int],
        table.route_spec(destination, rank, repeaters) is Local
            <==> table.0@[destination as int]@[rank as int] == 0,
        table.route_spec(destination, rank, repeaters) matches Route::Repeater { repno } ==> repno
            + 1 == table.0@[destination as int]@[rank as int] && repno < repeaters,
        table.route_spec(destination, rank, repeaters) is Unreachable
            <==> table.0@[destination as int]@[rank as int] > repeaters,
{
}

/// The firmware drives every repeater of a gateware with routing, and none of
/// one without.
pub proof fn law_routing_drives_all_repeaters(gateware: Gateware)
    ensures
        gateware.drtio_routing ==> gateware.repeaters_spec() == gateware.drtiorep,
        !gateware.drtio_routing ==> gateware.repeaters_spec() == 0,
{
}

/// An echo is answered, and a reset is carried out and then acknowledged,
/// whatever the gateware and the table.
pub proof fn law_echoes_and_resets_are_answered(gateware: Gateware, table: RoutingTable, rank: u8)
    ensures
        sends(
            crate::runtime::satman::exchange::first_step(
                gateware,
                table,
                rank,
                Packet::EchoRequest,
            ),
            Packet::EchoReply,
        ),
        asks_for(
            crate::runtime::satman::exchange::first_step(
                gateware,
                table,
                rank,
                Packet::ResetRequest,
            ),
            Operation::ResetRtio,
        ),
        sends(
            crate::runtime::satman::exchange::next_step(Operation::ResetRtio, Outcome::Done),
            Packet::ResetAck,
        ),
{
}

/// What carries a packet ends the exchange with the answer of the link.
pub proof fn law_the_link_ends_the_exchange(
    packet: Packet,
    repno: usize,
    result: Result<(), Error>,
)
    ensures
        crate::runtime::satman::exchange::next_step(
            Operation::Send { packet },
            Outcome::Carried { result },
        ) == (Step::Finish { result }),
        crate::runtime::satman::exchange::next_step(
            Operation::Forward { repno, packet },
            Outcome::Carried { result },
        ) == (Step::Finish { result }),
{
}

/// A request for the status of the device reads its errors. One for another
/// destination goes to the repeater behind its link, and a destination that
/// cannot be reached, for want of the repeater or by a failure of its link, is
/// reported as down.
pub proof fn law_the_status_of_every_destination_is_told(
    gateware: Gateware,
    table: RoutingTable,
    rank: u8,
    destination: u8,
    repno: usize,
    error: Error,
)
    ensures
        ({
            let step = crate::runtime::satman::exchange::first_step(
                gateware,
                table,
                rank,
                Packet::DestinationStatusRequest { destination },
            );
            let link = table.0@[destination as int]@[rank as int];
            &&& is_for_the_device(gateware, table, rank, destination) ==> asks_for(
                step,
                Operation::ReadErrors,
            )
            &&& !is_for_the_device(gateware, table, rank, destination) && link
                <= gateware.drtiorep ==> (step matches Step::Perform {
                operation: Operation::ForwardStatus { repno: taken, destination: asked },
            } && taken + 1 == link && asked == destination)
            &&& !is_for_the_device(gateware, table, rank, destination) && link
                > gateware.drtiorep ==> sends(step, Packet::DestinationDownReply)
        }),
        is_over(
            crate::runtime::satman::exchange::next_step(
                Operation::ForwardStatus { repno, destination },
                Outcome::Carried { result: Ok(()) },
            ),
        ),
        sends(
            crate::runtime::satman::exchange::next_step(
                Operation::ForwardStatus { repno, destination },
                Outcome::Carried { result: Err(error) },
            ),
            Packet::DestinationDownReply,
        ),
{
}

/// The status of the device is the first of its errors, by their flags 1, 2 and
/// 4, with the channel that it occurred on; without one of these it is well.
pub proof fn law_the_first_error_is_reported(flags: u8, channel: u16)
    ensures
        ({
            let step = crate::runtime::satman::exchange::next_step(
                Operation::ReadErrors,
                Outcome::Errors { flags },
            );
            &&& flags & 1 != 0 ==> asks_for(
                step,
                Operation::TakeError { error: RtioError::Sequence },
            )
            &&& flags & 1 == 0 && flags & 2 != 0 ==> asks_for(
                step,
                Operation::TakeError { error: RtioError::Collision },
            )
            &&& flags & 1 == 0 && flags & 2 == 0 && flags & 4 != 0 ==> asks_for(
                step,
                Operation::TakeError { error: RtioError::Busy },
            )
            &&& flags & 1 == 0 && flags & 2 == 0 && flags & 4 == 0 ==> sends(
                step,
                Packet::DestinationOkReply,
            )
        }),
        RtioError::Sequence.flag_spec() == 1,
        RtioError::Collision.flag_spec() == 2,
        RtioError::Busy.flag_spec() == 4,
        sends(
            crate::runtime::satman::exchange::next_step(
                Operation::TakeError { error: RtioError::Sequence },
                Outcome::Channel { channel },
            ),
            Packet::DestinationSequenceErrorReply { channel },
        ),
        sends(
            crate::runtime::satman::exchange::next_step(
                Operation::TakeError { error: RtioError::Collision },
                Outcome::Channel { channel },
            ),
            Packet::DestinationCollisionReply { channel },
        ),
        sends(
            crate::runtime::satman::exchange::next_step(
                Operation::TakeError { error: RtioError::Busy },
                Outcome::Channel { channel },
            ),
            Packet::DestinationBusyReply { channel },
        ),
{
}

/// With routing, a path and a rank are taken over and handed on to the
/// repeaters, whose rank is one more, and then acknowledged. Without, they are
/// only acknowledged.
pub proof fn law_paths_and_ranks_are_acknowledged(
    gateware: Gateware,
    table: RoutingTable,
    rank: u8,
    destination: u8,
    hops: [u8; MAX_HOPS],
    new_rank: u8,
    repeater_rank: u8,
)
    requires
        new_rank < MAX_HOPS,
    ensures
        ({
            let path = crate::runtime::satman::exchange::first_step(
                gateware,
                table,
                rank,
                Packet::RoutingSetPath { destination, hops },
            );
            let ranked = crate::runtime::satman::exchange::first_step(
                gateware,
                table,
                rank,
                Packet::RoutingSetRank { rank: new_rank },
            );
            &&& gateware.drtio_routing ==> asks_for(path, Operation::SetPath { destination, hops })
            &&& gateware.drtio_routing ==> (ranked matches Step::Perform {
                operation: Operation::SetRank { rank: own, repeater_rank: below },
            } && own == new_rank && below == new_rank + 1)
            &&& !gateware.drtio_routing ==> sends(path, Packet::RoutingAck)
            &&& !gateware.drtio_routing ==> sends(ranked, Packet::RoutingAck)
        }),
        sends(
            crate::runtime::satman::exchange::next_step(
                Operation::SetPath { destination, hops },
                Outcome::Done,
            ),
            Packet::RoutingAck,
        ),
        sends(
            crate::runtime::satman::exchange::next_step(
                Operation::SetRank { rank: new_rank, repeater_rank },
                Outcome::Done,
            ),
            Packet::RoutingAck,
        ),
{
}

/// Nothing but a packet that sets a path changes the paths, and then only the
/// one to its destination; nothing but a packet that sets the rank changes the
/// rank; and nothing changes either without routing.
pub proof fn law_only_routing_packets_change_the_routing(
    gateware: Gateware,
    paths: Seq<[u8; MAX_HOPS]>,
    rank: u8,
    packet: Packet,
    other: u8,
)
    requires
        paths.len() == DEST_COUNT,
    ensures
        ({
            let after = crate::runtime::satman::exchange::paths_after(gateware, paths, packet);
            let new_rank = crate::runtime::satman::exchange::rank_after(gateware, rank, packet);
            &&& after.len() == paths.len()
            &&& !gateware.drtio_routing || !(packet is RoutingSetPath) ==> after == paths
            &&& !gateware.drtio_routing || !(packet is RoutingSetRank) ==> new_rank == rank
            &&& gateware.drtio_routing ==> (packet matches Packet::RoutingSetPath {
                destination,
                hops,
            } ==> after[destination as int] == hops && (other != destination
                ==> after[other as int] == paths[other as int]))
            &&& gateware.drtio_routing ==> (packet matches Packet::RoutingSetRank { rank: told }
                ==> new_rank == told)
        }),
{
}

/// A request to monitor or inject for the device hands its fields to the board
/// unchanged, and what is read goes back; without the core, a value reads as 0
/// and an injection is passed over. For another destination it is passed on.
pub proof fn law_moninj_requests_are_carried_out(
    gateware: Gateware,
    table: RoutingTable,
    rank: u8,
    destination: u8,
    channel: u16,
    probe: u8,
    overrd: u8,
    value: u8,
    read: u64,
)
    ensures
        ({
            let monitor = Packet::MonitorRequest { destination, channel, probe };
            let injection = Packet::InjectionRequest { destination, channel, overrd, value };
            let status = Packet::InjectionStatusRequest { destination, channel, overrd };
            let first = |packet: Packet|
                crate::runtime::satman::exchange::first_step(gateware, table, rank, packet);
            if is_for_the_device(gateware, table, rank, destination) {
                if gateware.rtio_moninj {
                    &&& asks_for(first(monitor), Operation::ReadMonitor { channel, probe })
                    &&& asks_for(first(injection), Operation::Inject { channel, overrd, value })
                    &&& asks_for(first(status), Operation::ReadInjection { channel, overrd })
                } else {
                    &&& sends(first(monitor), Packet::MonitorReply { value: 0 })
                    &&& is_over(first(injection))
                    &&& sends(first(status), Packet::InjectionStatusReply { value: 0 })
                }
            } else {
                &&& is_passed_on(gateware, table, rank, destination, monitor, first(monitor))
                &&& is_passed_on(gateware, table, rank, destination, injection, first(injection))
                &&& is_passed_on(gateware, table, rank, destination, status, first(status))
            }
        }),
        sends(
            crate::runtime::satman::exchange::next_step(
                Operation::ReadMonitor { channel, probe },
                Outcome::Monitor { value: read },
            ),
            Packet::MonitorReply { value: read },
        ),
        is_over(
            crate::runtime::satman::exchange::next_step(
                Operation::Inject { channel, overrd, value },
                Outcome::Done,
            ),
        ),
        sends(
            crate::runtime::satman::exchange::next_step(
                Operation::ReadInjection { channel, overrd },
                Outcome::Injection { value },
            ),
            Packet::InjectionStatusReply { value },
        ),
{
}

/// A request for an I2C bus of the device hands its fields to the board
/// unchanged. For another destination it is passed on.
pub proof fn law_i2c_requests_are_carried_out(
    gateware: Gateware,
    table: RoutingTable,
    rank: u8,
    destination: u8,
    busno: u8,
    data: u8,
    ack: bool,
    address: u8,
    mask: u8,
)
    ensures
        ({
            let start = Packet::I2cStartRequest { destination, busno };
            let restart = Packet::I2cRestartRequest { destination, busno };
            let stop = Packet::I2cStopRequest { destination, busno };
            let write = Packet::I2cWriteRequest { destination, busno, data };
            let read = Packet::I2cReadRequest { destination, busno, ack };
            let select = Packet::I2cSwitchSelectRequest { destination, busno, address, mask };
            let first = |packet: Packet|
                crate::runtime::satman::exchange::first_step(gateware, table, rank, packet);
            if is_for_the_device(gateware, table, rank, destination) {
                &&& asks_for(first(start), Operation::I2cStart { busno })
                &&& asks_for(first(restart), Operation::I2cRestart { busno })
                &&& asks_for(first(stop), Operation::I2cStop { busno })
                &&& asks_for(first(write), Operation::I2cWrite { busno, data })
                &&& asks_for(first(read), Operation::I2cRead { busno, ack })
                &&& asks_for(first(select), Operation::I2cSwitchSelect { busno, address, mask })
            } else {
                &&& is_passed_on(gateware, table, rank, destination, start, first(start))
                &&& is_passed_on(gateware, table, rank, destination, restart, first(restart))
                &&& is_passed_on(gateware, table, rank, destination, stop, first(stop))
                &&& is_passed_on(gateware, table, rank, destination, write, first(write))
                &&& is_passed_on(gateware, table, rank, destination, read, first(read))
                &&& is_passed_on(gateware, table, rank, destination, select, first(select))
            }
        }),
{
}

/// Whether an operation on an I2C bus succeeded goes back, with the
/// acknowledgement or the byte if there is one. A failure reads as no
/// acknowledgement and as 0xff.
pub proof fn law_i2c_outcomes_go_back(
    busno: u8,
    data: u8,
    ack: bool,
    address: u8,
    mask: u8,
    succeeded: bool,
    acknowledged: bool,
    byte: u8,
)
    ensures
        ({
            let after = |operation: Operation, outcome: Outcome|
                crate::runtime::satman::exchange::next_step(operation, outcome);
            let completed = Outcome::Completed { succeeded };
            let basic = Packet::I2cBasicReply { succeeded };
            let write = Operation::I2cWrite { busno, data };
            let read = Operation::I2cRead { busno, ack };
            &&& sends(after(Operation::I2cStart { busno }, completed), basic)
            &&& sends(after(Operation::I2cRestart { busno }, completed), basic)
            &&& sends(after(Operation::I2cStop { busno }, completed), basic)
            &&& sends(after(Operation::I2cSwitchSelect { busno, address, mask }, completed), basic)
            &&& sends(
                after(write, Outcome::Written { ack: Some(acknowledged) }),
                Packet::I2cWriteReply { succeeded: true, ack: acknowledged },
            )
            &&& sends(
                after(write, Outcome::Written { ack: None }),
                Packet::I2cWriteReply { succeeded: false, ack: false },
            )
            &&& sends(
                after(read, Outcome::Byte { data: Some(byte) }),
                Packet::I2cReadReply { succeeded: true, data: byte },
            )
            &&& sends(
                after(read, Outcome::Byte { data: None }),
                Packet::I2cReadReply { succeeded: false, data: 0xff },
            )
        }),
{
}

/// A request for an SPI bus of the device hands its fields to the board
/// unchanged. For another destination it is passed on.
pub proof fn law_spi_requests_are_carried_out(
    gateware: Gateware,
    table: RoutingTable,
    rank: u8,
    destination: u8,
    busno: u8,
    flags: u8,
    length: u8,
    div: u8,
    cs: u8,
    data: u32,
)
    ensures
        ({
            let config = Packet::SpiSetConfigRequest { destination, busno, flags, length, div, cs };
            let write = Packet::SpiWriteRequest { destination, busno, data };
            let read = Packet::SpiReadRequest { destination, busno };
            let first = |packet: Packet|
                crate::runtime::satman::exchange::first_step(gateware, table, rank, packet);
            if is_for_the_device(gateware, table, rank, destination) {
                &&& asks_for(
                    first(config),
                    Operation::SpiSetConfig { busno, flags, length, div, cs },
                )
                &&& asks_for(first(write), Operation::SpiWrite { busno, data })
                &&& asks_for(first(read), Operation::SpiRead { busno })
            } else {
                &&& is_passed_on(gateware, table, rank, destination, config, first(config))
                &&& is_passed_on(gateware, table, rank, destination, write, first(write))
                &&& is_passed_on(gateware, table, rank, destination, read, first(read))
            }
        }),
{
}

/// Whether an operation on an SPI bus succeeded goes back, with the word if one
/// was read. A failure reads as 0.
pub proof fn law_spi_outcomes_go_back(
    busno: u8,
    flags: u8,
    length: u8,
    div: u8,
    cs: u8,
    data: u32,
    succeeded: bool,
    word: u32,
)
    ensures
        ({
            let after = |operation: Operation, outcome: Outcome|
                crate::runtime::satman::exchange::next_step(operation, outcome);
            let completed = Outcome::Completed { succeeded };
            let basic = Packet::SpiBasicReply { succeeded };
            let config = Operation::SpiSetConfig { busno, flags, length, div, cs };
            let read = Operation::SpiRead { busno };
            &&& sends(after(config, completed), basic)
            &&& sends(after(Operation::SpiWrite { busno, data }, completed), basic)
            &&& sends(
                after(read, Outcome::Word { data: Some(word) }),
                Packet::SpiReadReply { succeeded: true, data: word },
            )
            &&& sends(
                after(read, Outcome::Word { data: None }),
                Packet::SpiReadReply { succeeded: false, data: 0 },
            )
        }),
{
}

/// A request for the analyzer of the device reads it, and what is read goes
/// back unchanged. For another destination it is passed on.
pub proof fn law_the_analyzer_is_read(
    gateware: Gateware,
    table: RoutingTable,
    rank: u8,
    destination: u8,
    sent_bytes: u32,
    total_byte_count: u64,
    overflow: bool,
    last: bool,
    length: u16,
    data: [u8; ANALYZER_MAX_SIZE],
)
    ensures
        ({
            let header = Packet::AnalyzerHeaderRequest { destination };
            let body = Packet::AnalyzerDataRequest { destination };
            let first = |packet: Packet|
                crate::runtime::satman::exchange::first_step(gateware, table, rank, packet);
            if is_for_the_device(gateware, table, rank, destination) {
                &&& asks_for(first(header), Operation::ReadAnalyzerHeader)
                &&& asks_for(first(body), Operation::ReadAnalyzerData)
            } else {
                &&& is_passed_on(gateware, table, rank, destination, header, first(header))
                &&& is_passed_on(gateware, table, rank, destination, body, first(body))
            }
        }),
        sends(
            crate::runtime::satman::exchange::next_step(
                Operation::ReadAnalyzerHeader,
                Outcome::AnalyzerHeader { sent_bytes, total_byte_count, overflow },
            ),
            Packet::AnalyzerHeader { sent_bytes, total_byte_count, overflow_occurred: overflow },
        ),
        sends(
            crate::runtime::satman::exchange::next_step(
                Operation::ReadAnalyzerData,
                Outcome::AnalyzerData { last, length, data },
            ),
            Packet::AnalyzerData { last, length, data },
        ),
{
}

/// With the DMA core, a request for the traces of the device hands its fields
/// to the board unchanged: a piece of a trace is the last just if the packet
/// marks it so. For another destination it is passed on. Without the core it is
/// passed over, whatever its destination.
pub proof fn law_dma_requests_are_carried_out(
    gateware: Gateware,
    table: RoutingTable,
    rank: u8,
    destination: u8,
    id: u32,
    last: bool,
    length: u16,
    trace: [u8; DMA_TRACE_MAX_SIZE],
    timestamp: u64,
)
    ensures
        ({
            let add = Packet::DmaAddTraceRequest { destination, id, last, length, trace };
            let remove = Packet::DmaRemoveTraceRequest { destination, id };
            let playback = Packet::DmaPlaybackRequest { destination, id, timestamp };
            let first = |packet: Packet|
                crate::runtime::satman::exchange::first_step(gateware, table, rank, packet);
            if !gateware.rtio_dma {
                is_over(first(add)) && is_over(first(remove)) && is_over(first(playback))
            } else if is_for_the_device(gateware, table, rank, destination) {
                &&& asks_for(first(add), Operation::DmaAdd { id, last, length, trace })
                &&& asks_for(first(remove), Operation::DmaErase { id })
                &&& asks_for(first(playback), Operation::DmaPlayback { id, timestamp })
            } else {
                &&& is_passed_on(gateware, table, rank, destination, add, first(add))
                &&& is_passed_on(gateware, table, rank, destination, remove, first(remove))
                &&& is_passed_on(gateware, table, rank, destination, playback, first(playback))
            }
        }),
{
}

/// Whether an operation on the traces succeeded goes back, as the reply to its
/// own request.
pub proof fn law_dma_outcomes_go_back(
    id: u32,
    last: bool,
    length: u16,
    trace: [u8; DMA_TRACE_MAX_SIZE],
    timestamp: u64,
    succeeded: bool,
)
    ensures
        ({
            let after = |operation: Operation|
                crate::runtime::satman::exchange::next_step(
                    operation,
                    Outcome::Completed { succeeded },
                );
            &&& sends(
                after(Operation::DmaAdd { id, last, length, trace }),
                Packet::DmaAddTraceReply { succeeded },
            )
            &&& sends(after(Operation::DmaErase { id }), Packet::DmaRemoveTraceReply { succeeded })
            &&& sends(
                after(Operation::DmaPlayback { id, timestamp }),
                Packet::DmaPlaybackReply { succeeded },
            )
        }),
{
}

/// The packet is one that a satellite sends and does not expect to receive from
/// upstream.
pub open spec fn is_from_a_satellite(packet: Packet) -> bool {
    ||| packet is EchoReply
    ||| packet is ResetAck
    ||| packet is TSCAck
    ||| packet is DestinationDownReply
    ||| packet is DestinationOkReply
    ||| packet is DestinationSequenceErrorReply
    ||| packet is DestinationCollisionReply
    ||| packet is DestinationBusyReply
    ||| packet is RoutingAck
    ||| packet is MonitorReply
    ||| packet is InjectionStatusReply
    ||| packet is I2cWriteReply
    ||| packet is I2cReadReply
    ||| packet is I2cBasicReply
    ||| packet is SpiReadReply
    ||| packet is SpiBasicReply
    ||| packet is AnalyzerHeader
    ||| packet is AnalyzerData
    ||| packet is DmaAddTraceReply
    ||| packet is DmaRemoveTraceReply
    ||| packet is DmaPlaybackReply
    ||| packet is DmaPlaybackStatus
}

/// The packet is a request for the DMA core.
pub open spec fn is_for_the_dma_core(packet: Packet) -> bool {
    ||| packet is DmaAddTraceRequest
    ||| packet is DmaRemoveTraceRequest
    ||| packet is DmaPlaybackRequest
}

/// A packet of a satellite that comes from upstream leads to nothing. Just these
/// packets are unexpected, and those for a DMA core that there is not.
pub proof fn law_packets_of_satellites_are_unexpected(
    gateware: Gateware,
    table: RoutingTable,
    rank: u8,
    packet: Packet,
)
    ensures
        is_from_a_satellite(packet) ==> is_over(
            crate::runtime::satman::exchange::first_step(gateware, table, rank, packet),
        ),
        crate::runtime::satman::exchange::is_ignored_spec(gateware, packet) <==> (
        is_from_a_satellite(packet) || (is_for_the_dma_core(packet) && !gateware.rtio_dma)),
{
}

/// Every answer that the board can give to an operation can be gone on with:
/// what carries a packet tells the answer of the link, what reads tells what it
/// read, what may fail tells whether it did, and the rest only that it is over.
pub proof fn law_every_outcome_is_taken(operation: Operation, outcome: Outcome)
    ensures
        (match operation {
            Operation::Send { .. } => outcome is Carried,
            Operation::Forward { .. } => outcome is Carried,
            Operation::ForwardStatus { .. } => outcome is Carried,
            Operation::ResetRtio => outcome is Done,
            Operation::SetPath { .. } => outcome is Done,
            Operation::SetRank { .. } => outcome is Done,
            Operation::ReadErrors => outcome is Errors,
            Operation::TakeError { .. } => outcome is Channel,
            Operation::ReadMonitor { .. } => outcome is Monitor,
            Operation::Inject { .. } => outcome is Done,
            Operation::ReadInjection { .. } => outcome is Injection,
            Operation::I2cStart { .. } => outcome is Completed,
            Operation::I2cRestart { .. } => outcome is Completed,
            Operation::I2cStop { .. } => outcome is Completed,
            Operation::I2cWrite { .. } => outcome is Written,
            Operation::I2cRead { .. } => outcome is Byte,
            Operation::I2cSwitchSelect { .. } => outcome is Completed,
            Operation::SpiSetConfig { .. } => outcome is Completed,
            Operation::SpiWrite { .. } => outcome is Completed,
            Operation::SpiRead { .. } => outcome is Word,
            Operation::ReadAnalyzerHeader => outcome is AnalyzerHeader,
            Operation::ReadAnalyzerData => outcome is AnalyzerData,
            Operation::DmaAdd { .. } => outcome is Completed,
            Operation::DmaErase { .. } => outcome is Completed,
            Operation::DmaPlayback { .. } => outcome is Completed,
        }) ==> operation.yields(outcome),
{
}

} // verus!
