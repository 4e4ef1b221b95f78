use artiq_firmware::gateware::Gateware;
use artiq_firmware::runtime::master;
use artiq_firmware::runtime::packet::Packet;
use artiq_firmware::runtime::satman;
use artiq_firmware::routing::{INVALID_HOP, MAX_HOPS};
use artiq_firmware::runtime::satman::board_steps::{
    pulse_reset, reset_rtio, set_path, set_rank, BoardStep,
};
use artiq_firmware::runtime::satman::moninj::{
    inject, read_injection, read_monitor, MoninjWrite,
};
use artiq_firmware::runtime::satman::uplink::{
    underflow_slack, PlaybackStatus, ProtocolError, Satman, Task, TscTask, Uplink, TICK_PERIOD_MS,
};
use artiq_firmware::runtime::satman::{
    drtiosat_link_rx_up, drtiosat_process_errors, drtiosat_reset, drtiosat_reset_phy,
    drtiosat_tsc_loaded, hardware_tick, playback_done, satman_thread, tsc_loaded,
};
use artiq_firmware::runtime::startup::{Startup, Thread};

fn bare() -> Gateware {
    Gateware {
        drtio: false,
        drtio_routing: false,
        rtio_moninj: false,
        rtio_dma: false,
        rtio_analyzer: false,
        grabber: false,
        si5324: false,
        drtiorep: 2,
    }
}

fn routing() -> Gateware {
    Gateware { drtio_routing: true, ..bare() }
}

fn spawn(stack_size: usize, thread: Thread) -> Startup {
    Startup::Spawn { stack_size, thread }
}

#[test]
fn repeaters_are_driven_with_routing_only() {
    assert_eq!(routing().repeaters(), 2);
    assert_eq!(bare().repeaters(), 0);
}

#[test]
fn a_bare_master_starts_its_session() {
    assert_eq!(
        master::start(&bare()),
        vec![
            Startup::EmptyRoutingTable,
            Startup::ClearDestinations,
            Startup::StartRtioManagement,
            spawn(16384, Thread::Session),
        ]
    );
}

#[test]
fn a_full_master_starts_all_threads() {
    let gateware = Gateware {
        drtio: true,
        rtio_moninj: true,
        rtio_analyzer: true,
        grabber: true,
        ..routing()
    };
    assert_eq!(
        master::start(&gateware),
        vec![
            Startup::LoadRoutingTable,
            Startup::ClearDestinations,
            Startup::DisableInterconnect,
            Startup::StartRtioManagement,
            spawn(16384, Thread::Session),
            spawn(4096, Thread::Moninj),
            spawn(8192, Thread::Analyzer),
            spawn(4096, Thread::Grabber),
        ]
    );
}

#[test]
fn monitoring_runs_with_links_or_its_core() {
    let moninj = spawn(4096, Thread::Moninj);
    assert!(!master::start(&bare()).contains(&moninj));
    assert!(master::start(&Gateware { drtio: true, ..bare() }).contains(&moninj));
    assert!(master::start(&Gateware { rtio_moninj: true, ..bare() }).contains(&moninj));
}

#[test]
fn the_satellite_manager_starts_its_thread() {
    assert_eq!(satman::start(), vec![Startup::InitRtioCrg, spawn(16384, Thread::Satman)]);
}

#[test]
fn registers_are_set_by_one() {
    for (value, set) in [(0, false), (1, true), (2, false), (255, false)] {
        assert_eq!(drtiosat_link_rx_up(value), set);
        assert_eq!(drtiosat_tsc_loaded(value), set);
    }
}

#[test]
fn protocol_errors_are_reported_in_order_and_cleared() {
    let none = drtiosat_process_errors(0);
    assert_eq!(none.reports, vec![]);
    assert_eq!(none.clear, 0);
    let all = drtiosat_process_errors(0xff);
    assert_eq!(
        all.reports,
        vec![
            ProtocolError::UnknownPacketType,
            ProtocolError::TruncatedPacket,
            ProtocolError::BufferSpaceTimeout,
            ProtocolError::WriteUnderflow,
            ProtocolError::WriteOverflow,
        ]
    );
    assert_eq!(all.clear, 0xff);
    let some = drtiosat_process_errors(0b1_0100);
    assert_eq!(
        some.reports,
        vec![ProtocolError::BufferSpaceTimeout, ProtocolError::WriteOverflow]
    );
    assert_eq!(some.clear, 0b1_0100);
    assert_eq!(drtiosat_process_errors(8).reports, vec![ProtocolError::WriteUnderflow]);
    assert_eq!(drtiosat_process_errors(0b1110_0000).reports, vec![]);
}

#[test]
fn slack_is_the_lead_of_the_event() {
    assert_eq!(underflow_slack(1000, 1250), -250);
    assert_eq!(underflow_slack(-5, -7), 2);
}

#[test]
fn the_hardware_is_ticked_every_200_milliseconds() {
    assert_eq!(TICK_PERIOD_MS, 200);
    let gateware = Gateware { grabber: true, ..bare() };
    let mut ts = 0;
    assert!(!hardware_tick(&gateware, &mut ts, 0));
    assert_eq!(ts, 0);
    assert!(hardware_tick(&gateware, &mut ts, 10));
    assert_eq!(ts, 210);
    assert!(!hardware_tick(&gateware, &mut ts, 210));
    assert_eq!(ts, 210);
    assert!(hardware_tick(&gateware, &mut ts, 211));
    assert_eq!(ts, 411);
}

#[test]
fn grabbers_are_ticked_where_there_are_any() {
    let mut ts = 0;
    assert!(!hardware_tick(&bare(), &mut ts, 10));
    assert_eq!(ts, 210);
}

#[test]
fn a_satellite_without_uplink_serves_its_repeaters() {
    assert_eq!(
        satman_thread(&routing(), Uplink::Down, false),
        (
            Uplink::Down,
            vec![
                Task::ProcessErrors,
                Task::ServiceRepeater { repno: 0 },
                Task::ServiceRepeater { repno: 1 },
                Task::HardwareTick,
                Task::Relinquish,
            ]
        )
    );
}

#[test]
fn a_session_begins_when_the_uplink_comes_up() {
    let begin = vec![
        Task::ClearSession,
        Task::ResetAux,
        Task::Reset { reset: false },
        Task::ResetPhy { reset: false },
    ];
    assert_eq!(satman_thread(&bare(), Uplink::Down, true), (Uplink::Up, begin.clone()));
    let mut with_clock = vec![
        Task::SelectRecoveredClock { recovered: true },
        Task::CalibrateSkew,
    ];
    with_clock.extend(begin);
    let gateware = Gateware { si5324: true, ..bare() };
    assert_eq!(satman_thread(&gateware, Uplink::Down, true), (Uplink::Up, with_clock));
}

#[test]
fn a_session_serves_packets() {
    assert_eq!(
        satman_thread(&routing(), Uplink::Up, true),
        (
            Uplink::Up,
            vec![
                Task::ProcessErrors,
                Task::ProcessAuxPackets,
                Task::ServiceRepeater { repno: 0 },
                Task::ServiceRepeater { repno: 1 },
                Task::HardwareTick,
                Task::CheckTsc,
                Task::CheckPlayback,
                Task::Relinquish,
            ]
        )
    );
}

#[test]
fn a_session_ends_when_the_uplink_goes_down() {
    let end = vec![
        Task::ResetPhy { reset: true },
        Task::Reset { reset: true },
        Task::ClearTsc,
    ];
    assert_eq!(satman_thread(&bare(), Uplink::Up, false), (Uplink::Down, end.clone()));
    let mut with_clock = end;
    with_clock.push(Task::SelectRecoveredClock { recovered: false });
    let gateware = Gateware { si5324: true, ..bare() };
    assert_eq!(satman_thread(&gateware, Uplink::Up, false), (Uplink::Down, with_clock));
}

#[test]
fn every_session_begins_clear() {
    let mut uplink = Uplink::Down;
    let mut clear = false;
    for rx_up in [false, true, true, false, false, true, false, true, true, true] {
        let (next, tasks) = satman_thread(&routing(), uplink, rx_up);
        uplink = next;
        for task in tasks {
            match task {
                Task::ClearSession => clear = true,
                Task::Reset { reset: true } => clear = false,
                Task::ProcessAuxPackets => assert!(clear),
                _ => {}
            }
        }
    }
}

#[test]
fn a_loaded_time_is_handed_on_to_every_repeater() {
    assert_eq!(tsc_loaded(&routing(), false), vec![]);
    assert_eq!(
        tsc_loaded(&routing(), true),
        vec![
            TscTask::SyncTsc { repno: 0 },
            TscTask::SyncTsc { repno: 1 },
            TscTask::Send { packet: Packet::TSCAck },
        ]
    );
    assert_eq!(tsc_loaded(&bare(), true), vec![TscTask::Send { packet: Packet::TSCAck }]);
}

#[test]
fn the_end_of_a_playback_is_reported() {
    assert_eq!(playback_done(2, None), None);
    let status = PlaybackStatus { id: 3, error: 4, channel: 5, timestamp: 6 };
    assert_eq!(
        playback_done(2, Some(status)),
        Some(Packet::DmaPlaybackStatus {
            destination: 2,
            id: 3,
            error: 4,
            channel: 5,
            timestamp: 6,
        })
    );
}

#[test]
fn a_new_satellite_manager_knows_of_no_path() {
    let satman = Satman::new();
    assert_eq!(satman.uplink, Uplink::Down);
    assert_eq!(satman.rank, 1);
    assert_eq!(satman.hardware_tick_ts, 0);
    assert_eq!(satman.routing_table.get_hop(1, 1), INVALID_HOP);
}

#[test]
fn reset_lines_are_set_by_one() {
    assert_eq!(drtiosat_reset(true), 1);
    assert_eq!(drtiosat_reset(false), 0);
    assert_eq!(drtiosat_reset_phy(true), 1);
    assert_eq!(drtiosat_reset_phy(false), 0);
}

#[test]
fn a_reset_is_held_for_100_microseconds() {
    let pulse = vec![
        BoardStep::WriteReset { value: 1 },
        BoardStep::Wait { us: 100 },
        BoardStep::WriteReset { value: 0 },
    ];
    assert_eq!(pulse_reset(), pulse);
    assert_eq!(reset_rtio(&bare()), pulse);
    let mut with_repeaters = pulse;
    with_repeaters.push(BoardStep::ResetRepeater { repno: 0 });
    with_repeaters.push(BoardStep::ResetRepeater { repno: 1 });
    assert_eq!(reset_rtio(&routing()), with_repeaters);
}

#[test]
fn every_repeater_is_told_a_path_and_its_rank() {
    let hops = [3; MAX_HOPS];
    assert_eq!(
        set_path(&routing(), 9, hops),
        vec![
            BoardStep::SetRepeaterPath { repno: 0, destination: 9, hops },
            BoardStep::SetRepeaterPath { repno: 1, destination: 9, hops },
        ]
    );
    assert_eq!(
        set_rank(&routing(), 4, 5),
        vec![
            BoardStep::EnableInterconnect { rank: 4 },
            BoardStep::SetRepeaterRank { repno: 0, rank: 5 },
            BoardStep::SetRepeaterRank { repno: 1, rank: 5 },
        ]
    );
}

#[test]
fn monitoring_and_injection_select_before_they_act() {
    assert_eq!(
        read_monitor(300, 2),
        vec![
            MoninjWrite::MonChanSel { channel: 300 },
            MoninjWrite::MonProbeSel { probe: 2 },
            MoninjWrite::MonValueUpdate { update: 1 },
        ]
    );
    let select = vec![
        MoninjWrite::InjChanSel { channel: 300 },
        MoninjWrite::InjOverrideSel { overrd: 3 },
    ];
    assert_eq!(read_injection(300, 3), select);
    let mut all = select;
    all.push(MoninjWrite::InjValue { value: 4 });
    assert_eq!(inject(300, 3, 4), all);
}
