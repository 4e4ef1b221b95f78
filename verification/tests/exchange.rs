use artiq_firmware::drtioaux::Error;
use artiq_firmware::gateware::Gateware;
use artiq_firmware::routing::{Route, RoutingTable, INVALID_HOP, MAX_HOPS};
use artiq_firmware::runtime::packet::{Packet, ANALYZER_MAX_SIZE, DMA_TRACE_MAX_SIZE};
use artiq_firmware::runtime::satman::exchange::{Operation, Outcome, RtioError, Step};
use artiq_firmware::runtime::satman::{
    is_ignored, process_aux_packet, process_aux_packets, resume,
};

fn full() -> Gateware {
    Gateware {
        drtio: false,
        drtio_routing: true,
        rtio_moninj: true,
        rtio_dma: true,
        rtio_analyzer: true,
        grabber: true,
        si5324: true,
        drtiorep: 2,
    }
}

fn bare() -> Gateware {
    Gateware {
        drtio: false,
        drtio_routing: false,
        rtio_moninj: false,
        rtio_dma: false,
        rtio_analyzer: false,
        grabber: false,
        si5324: false,
        drtiorep: 2,
    }
}

/// Destination 1 is the device of rank 1, 2 and 3 lie behind its repeaters.
fn table() -> RoutingTable {
    let mut table = RoutingTable::default_empty();
    for (destination, hop) in [(1, 0), (2, 1), (3, 2), (4, 3)] {
        let mut hops = [0; MAX_HOPS];
        hops[1] = hop;
        table.set_path(destination, hops);
    }
    table
}

fn first(gateware: &Gateware, packet: Packet) -> Step {
    process_aux_packet(gateware, &mut table(), &mut 1, packet)
}

fn perform(operation: Operation) -> Step {
    Step::Perform { operation }
}

fn send(packet: Packet) -> Step {
    perform(Operation::Send { packet })
}

fn done() -> Step {
    Step::Finish { result: Ok(()) }
}

fn completed(succeeded: bool) -> Outcome {
    Outcome::Completed { succeeded }
}

#[test]
fn routes_follow_the_table() {
    let table = table();
    assert_eq!(table.route(1, 1, 2), Route::Local);
    assert_eq!(table.route(2, 1, 2), Route::Repeater { repno: 0 });
    assert_eq!(table.route(3, 1, 2), Route::Repeater { repno: 1 });
    assert_eq!(table.route(4, 1, 2), Route::Unreachable);
    assert_eq!(table.route(5, 1, 2), Route::Unreachable);
    assert_eq!(table.get_hop(5, 1), INVALID_HOP);
}

#[test]
fn an_echo_is_answered() {
    assert_eq!(first(&full(), Packet::EchoRequest), send(Packet::EchoReply));
}

#[test]
fn the_end_of_sending_ends_an_exchange() {
    let operation = Operation::Send { packet: Packet::EchoReply };
    for result in [Ok(()), Err(Error::GatewareError)] {
        assert_eq!(resume(operation, Outcome::Carried { result }), Step::Finish { result });
    }
}

#[test]
fn a_reset_is_acknowledged() {
    assert_eq!(first(&bare(), Packet::ResetRequest), perform(Operation::ResetRtio));
    assert_eq!(resume(Operation::ResetRtio, Outcome::Done), send(Packet::ResetAck));
}

#[test]
fn the_status_of_the_device_tells_its_first_error() {
    let request = Packet::DestinationStatusRequest { destination: 1 };
    assert_eq!(first(&full(), request), perform(Operation::ReadErrors));
    for (flags, error) in [
        (1, RtioError::Sequence),
        (7, RtioError::Sequence),
        (2, RtioError::Collision),
        (6, RtioError::Collision),
        (4, RtioError::Busy),
    ] {
        assert_eq!(
            resume(Operation::ReadErrors, Outcome::Errors { flags }),
            perform(Operation::TakeError { error })
        );
    }
    for flags in [0, 8] {
        assert_eq!(
            resume(Operation::ReadErrors, Outcome::Errors { flags }),
            send(Packet::DestinationOkReply)
        );
    }
    for (error, flag, reply) in [
        (RtioError::Sequence, 1, Packet::DestinationSequenceErrorReply { channel: 77 }),
        (RtioError::Collision, 2, Packet::DestinationCollisionReply { channel: 77 }),
        (RtioError::Busy, 4, Packet::DestinationBusyReply { channel: 77 }),
    ] {
        assert_eq!(error.flag(), flag);
        assert_eq!(
            resume(Operation::TakeError { error }, Outcome::Channel { channel: 77 }),
            send(reply)
        );
    }
}

#[test]
fn the_status_of_another_device_is_asked_for() {
    let status = |destination| Packet::DestinationStatusRequest { destination };
    let operation = Operation::ForwardStatus { repno: 1, destination: 3 };
    assert_eq!(first(&full(), status(3)), perform(operation));
    assert_eq!(resume(operation, Outcome::Carried { result: Ok(()) }), done());
    for error in [Error::LinkDown, Error::TimedOut] {
        assert_eq!(
            resume(operation, Outcome::Carried { result: Err(error) }),
            send(Packet::DestinationDownReply)
        );
    }
    assert_eq!(first(&full(), status(4)), send(Packet::DestinationDownReply));
    assert_eq!(first(&bare(), status(3)), perform(Operation::ReadErrors));
}

#[test]
fn paths_are_entered() {
    let hops = [5; MAX_HOPS];
    let mut table = table();
    let mut rank = 1;
    let packet = Packet::RoutingSetPath { destination: 9, hops };
    let operation = Operation::SetPath { destination: 9, hops };
    assert_eq!(process_aux_packet(&full(), &mut table, &mut rank, packet), perform(operation));
    assert_eq!(table.get_hop(9, 31), 5);
    assert_eq!(table.get_hop(2, 1), 1);
    assert_eq!(resume(operation, Outcome::Done), send(Packet::RoutingAck));
    let before = table;
    let other = Packet::RoutingSetPath { destination: 9, hops: [6; MAX_HOPS] };
    assert_eq!(
        process_aux_packet(&bare(), &mut table, &mut rank, other),
        send(Packet::RoutingAck)
    );
    assert_eq!(table, before);
}

#[test]
fn the_rank_is_taken_over() {
    let mut rank = 1;
    let packet = Packet::RoutingSetRank { rank: 31 };
    let operation = Operation::SetRank { rank: 31, repeater_rank: 32 };
    assert_eq!(process_aux_packet(&full(), &mut table(), &mut rank, packet), perform(operation));
    assert_eq!(rank, 31);
    assert_eq!(resume(operation, Outcome::Done), send(Packet::RoutingAck));
    let packet = Packet::RoutingSetRank { rank: 200 };
    assert_eq!(
        process_aux_packet(&bare(), &mut table(), &mut rank, packet),
        send(Packet::RoutingAck)
    );
    assert_eq!(rank, 31);
}

#[test]
fn packets_for_other_devices_are_forwarded() {
    let request = |destination| Packet::MonitorRequest { destination, channel: 4, probe: 5 };
    let operation = Operation::Forward { repno: 0, packet: request(2) };
    assert_eq!(first(&full(), request(2)), perform(operation));
    for result in [Ok(()), Err(Error::LinkDown)] {
        assert_eq!(resume(operation, Outcome::Carried { result }), Step::Finish { result });
    }
    assert_eq!(first(&full(), request(4)), Step::Finish { result: Err(Error::RoutingError) });
}

#[test]
fn monitors_are_read() {
    let packet = Packet::MonitorRequest { destination: 1, channel: 4, probe: 5 };
    let operation = Operation::ReadMonitor { channel: 4, probe: 5 };
    assert_eq!(first(&full(), packet), perform(operation));
    assert_eq!(
        resume(operation, Outcome::Monitor { value: 1 << 40 }),
        send(Packet::MonitorReply { value: 1 << 40 })
    );
    assert_eq!(first(&bare(), packet), send(Packet::MonitorReply { value: 0 }));
}

#[test]
fn injections_are_made_without_a_reply() {
    let packet = Packet::InjectionRequest { destination: 1, channel: 4, overrd: 5, value: 6 };
    let operation = Operation::Inject { channel: 4, overrd: 5, value: 6 };
    assert_eq!(first(&full(), packet), perform(operation));
    assert_eq!(resume(operation, Outcome::Done), done());
    assert_eq!(first(&bare(), packet), done());
}

#[test]
fn injections_are_read() {
    let packet = Packet::InjectionStatusRequest { destination: 1, channel: 4, overrd: 5 };
    let operation = Operation::ReadInjection { channel: 4, overrd: 5 };
    assert_eq!(first(&full(), packet), perform(operation));
    assert_eq!(
        resume(operation, Outcome::Injection { value: 9 }),
        send(Packet::InjectionStatusReply { value: 9 })
    );
    assert_eq!(first(&bare(), packet), send(Packet::InjectionStatusReply { value: 0 }));
}

#[test]
fn i2c_buses_are_driven() {
    let cases = [
        (
            Packet::I2cStartRequest { destination: 1, busno: 3 },
            Operation::I2cStart { busno: 3 },
        ),
        (
            Packet::I2cRestartRequest { destination: 1, busno: 3 },
            Operation::I2cRestart { busno: 3 },
        ),
        (Packet::I2cStopRequest { destination: 1, busno: 3 }, Operation::I2cStop { busno: 3 }),
        (
            Packet::I2cSwitchSelectRequest { destination: 1, busno: 3, address: 4, mask: 5 },
            Operation::I2cSwitchSelect { busno: 3, address: 4, mask: 5 },
        ),
    ];
    for (packet, operation) in cases {
        assert_eq!(first(&full(), packet), perform(operation));
        for succeeded in [false, true] {
            assert_eq!(
                resume(operation, completed(succeeded)),
                send(Packet::I2cBasicReply { succeeded })
            );
        }
    }
}

#[test]
fn i2c_bytes_are_written_and_read() {
    let write = Operation::I2cWrite { busno: 3, data: 0x42 };
    assert_eq!(
        first(&full(), Packet::I2cWriteRequest { destination: 1, busno: 3, data: 0x42 }),
        perform(write)
    );
    for (outcome, succeeded, acknowledged) in
        [(Some(true), true, true), (Some(false), true, false), (None, false, false)]
    {
        assert_eq!(
            resume(write, Outcome::Written { ack: outcome }),
            send(Packet::I2cWriteReply { succeeded, ack: acknowledged })
        );
    }
    let read = Operation::I2cRead { busno: 3, ack: true };
    assert_eq!(
        first(&full(), Packet::I2cReadRequest { destination: 1, busno: 3, ack: true }),
        perform(read)
    );
    assert_eq!(
        resume(read, Outcome::Byte { data: Some(0x17) }),
        send(Packet::I2cReadReply { succeeded: true, data: 0x17 })
    );
    assert_eq!(
        resume(read, Outcome::Byte { data: None }),
        send(Packet::I2cReadReply { succeeded: false, data: 0xff })
    );
}

#[test]
fn spi_buses_are_driven() {
    let cases = [
        (
            Packet::SpiSetConfigRequest {
                destination: 1,
                busno: 3,
                flags: 4,
                length: 5,
                div: 6,
                cs: 7,
            },
            Operation::SpiSetConfig { busno: 3, flags: 4, length: 5, div: 6, cs: 7 },
        ),
        (
            Packet::SpiWriteRequest { destination: 1, busno: 3, data: 0xdeadbeef },
            Operation::SpiWrite { busno: 3, data: 0xdeadbeef },
        ),
    ];
    for (packet, operation) in cases {
        assert_eq!(first(&full(), packet), perform(operation));
        assert_eq!(
            resume(operation, completed(true)),
            send(Packet::SpiBasicReply { succeeded: true })
        );
    }
    let read = Operation::SpiRead { busno: 3 };
    assert_eq!(
        first(&full(), Packet::SpiReadRequest { destination: 1, busno: 3 }),
        perform(read)
    );
    assert_eq!(
        resume(read, Outcome::Word { data: Some(0x12345678) }),
        send(Packet::SpiReadReply { succeeded: true, data: 0x12345678 })
    );
    assert_eq!(
        resume(read, Outcome::Word { data: None }),
        send(Packet::SpiReadReply { succeeded: false, data: 0 })
    );
}

#[test]
fn the_analyzer_is_read() {
    assert_eq!(
        first(&full(), Packet::AnalyzerHeaderRequest { destination: 1 }),
        perform(Operation::ReadAnalyzerHeader)
    );
    assert_eq!(
        resume(
            Operation::ReadAnalyzerHeader,
            Outcome::AnalyzerHeader { sent_bytes: 3, total_byte_count: 4, overflow: true }
        ),
        send(Packet::AnalyzerHeader {
            sent_bytes: 3,
            total_byte_count: 4,
            overflow_occurred: true
        })
    );
    assert_eq!(
        first(&full(), Packet::AnalyzerDataRequest { destination: 1 }),
        perform(Operation::ReadAnalyzerData)
    );
    let data = [8; ANALYZER_MAX_SIZE];
    assert_eq!(
        resume(
            Operation::ReadAnalyzerData,
            Outcome::AnalyzerData { last: true, length: 2, data }
        ),
        send(Packet::AnalyzerData { last: true, length: 2, data })
    );
}

#[test]
fn dma_traces_are_kept_and_played() {
    let trace = [7; DMA_TRACE_MAX_SIZE];
    let cases = [
        (
            Packet::DmaAddTraceRequest { destination: 1, id: 5, last: true, length: 6, trace },
            Operation::DmaAdd { id: 5, last: true, length: 6, trace },
            Packet::DmaAddTraceReply { succeeded: true },
        ),
        (
            Packet::DmaRemoveTraceRequest { destination: 1, id: 5 },
            Operation::DmaErase { id: 5 },
            Packet::DmaRemoveTraceReply { succeeded: true },
        ),
        (
            Packet::DmaPlaybackRequest { destination: 1, id: 5, timestamp: 9 },
            Operation::DmaPlayback { id: 5, timestamp: 9 },
            Packet::DmaPlaybackReply { succeeded: true },
        ),
    ];
    for (packet, operation, reply) in cases {
        assert_eq!(first(&full(), packet), perform(operation));
        assert_eq!(resume(operation, completed(true)), send(reply));
        assert_eq!(first(&bare(), packet), done());
        let without_dma = Gateware { rtio_dma: false, ..full() };
        assert_eq!(first(&without_dma, packet), done());
    }
}

#[test]
fn dma_requests_are_forwarded_only_with_dma() {
    let packet = Packet::DmaRemoveTraceRequest { destination: 2, id: 5 };
    assert_eq!(first(&full(), packet), perform(Operation::Forward { repno: 0, packet }));
    assert_eq!(first(&Gateware { rtio_dma: false, ..full() }, packet), done());
}

#[test]
fn replies_from_upstream_are_ignored() {
    for packet in [Packet::EchoReply, Packet::TSCAck, Packet::DestinationOkReply] {
        assert_eq!(first(&full(), packet), done());
    }
}

#[test]
fn unexpected_packets_are_told_from_requests() {
    for packet in [
        Packet::EchoReply,
        Packet::TSCAck,
        Packet::RoutingAck,
        Packet::DestinationOkReply,
        Packet::MonitorReply { value: 1 },
        Packet::DmaPlaybackStatus { destination: 1, id: 2, error: 0, channel: 0, timestamp: 0 },
    ] {
        assert!(is_ignored(&full(), &packet));
        assert!(is_ignored(&bare(), &packet));
    }
    for packet in [
        Packet::EchoRequest,
        Packet::ResetRequest,
        Packet::DestinationStatusRequest { destination: 9 },
        Packet::RoutingSetPath { destination: 9, hops: [0; MAX_HOPS] },
        Packet::RoutingSetRank { rank: 1 },
        Packet::InjectionRequest { destination: 1, channel: 4, overrd: 5, value: 6 },
        Packet::SpiReadRequest { destination: 1, busno: 3 },
        Packet::AnalyzerDataRequest { destination: 1 },
    ] {
        assert!(!is_ignored(&full(), &packet));
        assert!(!is_ignored(&bare(), &packet));
    }
    let trace = [7; DMA_TRACE_MAX_SIZE];
    for packet in [
        Packet::DmaAddTraceRequest { destination: 1, id: 5, last: true, length: 6, trace },
        Packet::DmaRemoveTraceRequest { destination: 2, id: 5 },
        Packet::DmaPlaybackRequest { destination: 1, id: 5, timestamp: 9 },
    ] {
        assert!(!is_ignored(&full(), &packet));
        assert!(is_ignored(&bare(), &packet));
    }
}

#[test]
fn what_the_uplink_received_is_processed() {
    let mut table = table();
    let mut rank = 1;
    assert_eq!(
        process_aux_packets(&full(), &mut table, &mut rank, Ok(Some(Packet::EchoRequest))),
        send(Packet::EchoReply)
    );
    assert_eq!(process_aux_packets(&full(), &mut table, &mut rank, Ok(None)), done());
    for error in [
        Error::GatewareError,
        Error::CorruptedPacket,
        Error::LinkDown,
        Error::TimedOut,
        Error::UnexpectedReply,
        Error::RoutingError,
        Error::Protocol,
    ] {
        assert_eq!(
            process_aux_packets(&full(), &mut table, &mut rank, Err(error)),
            Step::Finish { result: Err(error) }
        );
    }
    let received = Ok(Some(Packet::RoutingSetRank { rank: 4 }));
    process_aux_packets(&full(), &mut table, &mut rank, received);
    assert_eq!(rank, 4);
}

/// Carries an exchange out, and returns what it sent upstream.
fn replies(packet: Packet, flags: u8) -> Vec<Packet> {
    let mut step = first(&full(), packet);
    let mut sent = Vec::new();
    for _ in 0..3 {
        let operation = match step {
            Step::Perform { operation } => operation,
            Step::Finish { .. } => return sent,
        };
        let outcome = match operation {
            Operation::Send { packet } => {
                sent.push(packet);
                Outcome::Carried { result: Ok(()) }
            }
            Operation::Forward { .. } | Operation::ForwardStatus { .. } => {
                Outcome::Carried { result: Ok(()) }
            }
            Operation::ReadErrors => Outcome::Errors { flags },
            Operation::TakeError { .. } => Outcome::Channel { channel: 3 },
            Operation::ResetRtio => Outcome::Done,
            _ => completed(true),
        };
        step = resume(operation, outcome);
    }
    assert!(matches!(step, Step::Finish { .. }));
    sent
}

#[test]
fn an_exchange_sends_at_most_one_reply() {
    assert_eq!(replies(Packet::EchoRequest, 0), vec![Packet::EchoReply]);
    assert_eq!(replies(Packet::ResetRequest, 0), vec![Packet::ResetAck]);
    let status = |destination| Packet::DestinationStatusRequest { destination };
    assert_eq!(replies(status(1), 0), vec![Packet::DestinationOkReply]);
    assert_eq!(
        replies(status(1), 2),
        vec![Packet::DestinationCollisionReply { channel: 3 }]
    );
    assert_eq!(replies(status(2), 0), vec![]);
    assert_eq!(
        replies(Packet::I2cStartRequest { destination: 1, busno: 0 }, 0),
        vec![Packet::I2cBasicReply { succeeded: true }]
    );
    assert_eq!(replies(Packet::TSCAck, 0), vec![]);
}
