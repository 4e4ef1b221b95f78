//! The course of the satellite manager with its uplink.

use vstd::prelude::*;

use crate::gateware::Gateware;
use crate::routing::{RoutingTable, INVALID_HOP, MAX_HOPS};
use crate::runtime::packet::Packet;
use crate::runtime::startup::{Startup, Thread};

verus! {

/// Least time between two ticks of the hardware, in milliseconds.
pub const TICK_PERIOD_MS: u64 = 200;

/// Errors of the link protocol that the gateware flags.
#[derive(Clone, Copy, Debug, PartialEq, Eq, Structural)]
pub enum ProtocolError {
    /// A packet of an unknown type was received.
    UnknownPacketType,
    /// A truncated packet was received.
    TruncatedPacket,
    /// A destination did not tell its buffer space in time.
    BufferSpaceTimeout,
    /// A write came too late for its timestamp.
    WriteUnderflow,
    /// A write found its buffer full.
    WriteOverflow,
}

/// The service of the protocol errors: what to report, and the flags to write
/// back so that the gateware clears them.
#[derive(Debug, PartialEq, Eq)]
pub struct ErrorService {
    pub reports: Vec<ProtocolError>,
    pub clear: u8,
}

/// The state that the manager knows its uplink in.
#[derive(Clone, Copy, Debug, PartialEq, Eq, Structural)]
pub enum Uplink {
    Down,
    Up,
}

/// What the manager keeps over its sessions.
#[derive(Clone, Copy, Debug, PartialEq, Eq)]
pub struct Satman {
    pub uplink: Uplink,
    pub routing_table: RoutingTable,
    pub rank: u8,
    /// The time up to which no tick of the hardware is due.
    pub hardware_tick_ts: u64,
}

/// What the manager has the board do.
#[derive(Clone, Copy, Debug, PartialEq, Eq, Structural)]
pub enum Task {
    /// Service the protocol errors.
    ProcessErrors,
    /// Receive from upstream and serve what arrived.
    ProcessAuxPackets,
    /// Let a repeater do its work.
    ServiceRepeater { repno: usize },
    /// Tick the hardware if it is due.
    HardwareTick,
    /// Find out whether upstream has loaded the time.
    CheckTsc,
    /// Find out whether a playback has ended.
    CheckPlayback,
    /// Let the other threads run.
    Relinquish,
    /// Take the clock that is recovered from the uplink, or the local one.
    SelectRecoveredClock { recovered: bool },
    /// Calibrate the skew of the clock.
    CalibrateSkew,
    /// Begin with no DMA traces and an analyzer that has sent nothing.
    ClearSession,
    /// Reset the auxiliary channel of the uplink.
    ResetAux,
    /// Put the RTIO core into reset, or take it out.
    Reset { reset: bool },
    /// Put the RTIO PHYs into reset, or take them out.
    ResetPhy { reset: bool },
    /// Drop a notice that upstream has loaded the time.
    ClearTsc,
}

/// What follows a time that upstream has loaded.
#[derive(Clone, Copy, Debug, PartialEq, Eq)]
pub enum TscTask {
    /// Hand the time on to a repeater.
    SyncTsc { repno: usize },
    /// Send a packet upstream.
    Send { packet: Packet },
}

/// How a playback has ended.
#[derive(Clone, Copy, Debug, PartialEq, Eq, Structural)]
pub struct PlaybackStatus {
    pub id: u32,
    pub error: u8,
    pub channel: u32,
    pub timestamp: u64,
}

impl Satman {
    /// A manager that has just started: it knows of no uplink and of no path.
    pub fn new() -> (satman: Satman)
        ensures
            satman.uplink is Down,
            forall|destination: u8, rank: u8|
                rank < MAX_HOPS ==> satman.routing_table.hop(destination, rank) == INVALID_HOP,
            satman.rank == 1,
            satman.hardware_tick_ts == 0,
    {
        Satman {
            uplink: Uplink::Down,
            routing_table: RoutingTable::default_empty(),
            rank: 1,
            hardware_tick_ts: 0,
        }
    }
}

impl ProtocolError {
    /// The flag of the error.
    pub open spec fn flag(self) -> u8 {
        match self {
            ProtocolError::UnknownPacketType => 1,
            ProtocolError::TruncatedPacket => 2,
            ProtocolError::BufferSpaceTimeout => 4,
            ProtocolError::WriteUnderflow => 8,
            ProtocolError::WriteOverflow => 16,
        }
    }

    /// The error if its flag is set.
    pub open spec fn flagged(self, flags: u8) -> Seq<ProtocolError> {
        crate::runtime::startup::when(flags & self.flag() != 0, self)
    }
}

/// The RTIO receiver of the uplink is up, by its register.
pub fn drtiosat_link_rx_up(rx_up: u8) -> (up: bool)
    ensures
        up == (rx_up == 1),
{
    rx_up == 1
}

/// Upstream has loaded the time, by the register; writing the 1 back takes
/// note of it.
pub fn drtiosat_tsc_loaded(tsc_loaded: u8) -> (loaded: bool)
    ensures
        loaded == (tsc_loaded == 1),
{
    tsc_loaded == 1
}

/// Services the protocol errors: every error that is flagged is reported, in
/// the order of the flags, and all flags are cleared.
pub fn drtiosat_process_errors(errors: u8) -> (service: ErrorService)
    ensures
        service.clear == errors,
        service.reports@ == ProtocolError::UnknownPacketType.flagged(errors)
            + ProtocolError::TruncatedPacket.flagged(errors)
            + ProtocolError::BufferSpaceTimeout.flagged(errors)
            + ProtocolError::WriteUnderflow.flagged(errors) + ProtocolError::WriteOverflow.flagged(
            errors,
        ),
{
    let mut reports: Vec<ProtocolError> = Vec::new();
    if errors & 1 != 0 {
        reports.push(ProtocolError::UnknownPacketType);
    }
    if errors & 2 != 0 {
        reports.push(ProtocolError::TruncatedPacket);
    }
    if errors & 4 != 0 {
        reports.push(ProtocolError::BufferSpaceTimeout);
    }
    if errors & 8 != 0 {
        reports.push(ProtocolError::WriteUnderflow);
    }
    if errors & 16 != 0 {
        reports.push(ProtocolError::WriteOverflow);
    }
    ErrorService { reports, clear: errors }
}

/// How far an event lay ahead of the counter when its write came too late.
pub fn underflow_slack(timestamp_event: i64, timestamp_counter: i64) -> (slack: i64)
    requires
        i64::MIN <= timestamp_event - timestamp_counter <= i64::MAX,
    ensures
        slack == timestamp_event - timestamp_counter,
{
    timestamp_event - timestamp_counter
}

/// The time up to which no tick is due, after a look at the clock at `now`.
pub open spec fn tick_after(ts: u64, now: u64) -> int {
    if now > ts {
        now + TICK_PERIOD_MS
    } else {
        ts as int
    }
}

/// Ticks the hardware if the time `ts` has passed, and sets the time before
/// which it is not ticked again. Returns whether the grabbers are to be ticked.
pub fn hardware_tick(gateware: &Gateware, ts: &mut u64, now: u64) -> (tick_grabbers: bool)
    requires
        now > *old(ts) ==> now + TICK_PERIOD_MS <= u64::MAX,
    ensures
        tick_grabbers == (now > *old(ts) && gateware.grabber),
        *final(ts) == tick_after(*old(ts), now),
{
    if now > *ts {
        *ts = now + TICK_PERIOD_MS;
        gateware.grabber
    } else {
        false
    }
}

/// One turn for every repeater, in their order.
pub open spec fn repeater_turns(gateware: Gateware) -> Seq<Task> {
    Seq::new(
        gateware.repeaters_spec(),
        |repno: int| Task::ServiceRepeater { repno: repno as usize },
    )
}

/// The uplink as the manager knows it once it has read the receiver.
pub open spec fn uplink_after(rx_up: bool) -> Uplink {
    if rx_up {
        Uplink::Up
    } else {
        Uplink::Down
    }
}

/// What the manager does on a reading of the receiver.
pub open spec fn tasks(gateware: Gateware, uplink: Uplink, rx_up: bool) -> Seq<Task> {
    match (uplink, uplink_after(rx_up)) {
        (Uplink::Down, Uplink::Down) => seq![Task::ProcessErrors] + repeater_turns(gateware)
            + seq![Task::HardwareTick, Task::Relinquish],
        (Uplink::Down, Uplink::Up) => (if gateware.si5324 {
            seq![Task::SelectRecoveredClock { recovered: true }, Task::CalibrateSkew]
        } else {
            seq![]
        }) + seq![
            Task::ClearSession,
            Task::ResetAux,
            Task::Reset { reset: false },
            Task::ResetPhy { reset: false },
        ],
        (Uplink::Up, Uplink::Up) => seq![Task::ProcessErrors, Task::ProcessAuxPackets]
            + repeater_turns(gateware) + seq![
            Task::HardwareTick,
            Task::CheckTsc,
            Task::CheckPlayback,
            Task::Relinquish,
        ],
        (Uplink::Up, Uplink::Down) => seq![
            Task::ResetPhy { reset: true },
            Task::Reset { reset: true },
            Task::ClearTsc,
        ] + crate::runtime::startup::when(
            gateware.si5324,
            Task::SelectRecoveredClock { recovered: false },
        ),
    }
}

/// Adds one turn for every repeater to the tasks.
fn push_repeater_turns(gateware: &Gateware, tasks: &mut Vec<Task>)
    ensures
        final(tasks)@ == old(tasks)@ + repeater_turns(*gateware),
{
    let n: usize = gateware.repeaters();
    let ghost before = tasks@;
    for repno in 0..n
        invariant
            n == gateware.repeaters_spec(),
            tasks@ == before + repeater_turns(*gateware).take(repno as int),
    {
        tasks.push(Task::ServiceRepeater { repno });
        assert(repeater_turns(*gateware).take(repno + 1) == repeater_turns(*gateware).take(
            repno as int,
        ).push(repeater_turns(*gateware)[repno as int]));
    }
    assert(repeater_turns(*gateware).take(n as int) == repeater_turns(*gateware));
}

/// A round of the manager: from the uplink as it knows it and a reading of the
/// receiver, the uplink as it knows it next, and what it does before it reads
/// the receiver again. While the uplink stays down or up, its devices are
/// served; when the uplink comes up, a session begins, and when it goes down,
/// the session ends.
pub fn satman_thread(gateware: &Gateware, uplink: Uplink, rx_up: bool) -> (round: (
    Uplink,
    Vec<Task>,
))
    ensures
        round.0 == uplink_after(rx_up),
        round.1@ == tasks(*gateware, uplink, rx_up),
{
    let mut tasks: Vec<Task> = Vec::new();
    match uplink {
        Uplink::Down => {
            if !rx_up {
                tasks.push(Task::ProcessErrors);
                push_repeater_turns(gateware, &mut tasks);
                tasks.push(Task::HardwareTick);
                tasks.push(Task::Relinquish);
                (Uplink::Down, tasks)
            } else {
                if gateware.si5324 {
                    tasks.push(Task::SelectRecoveredClock { recovered: true });
                    tasks.push(Task::CalibrateSkew);
                }
                tasks.push(Task::ClearSession);
                tasks.push(Task::ResetAux);
                tasks.push(Task::Reset { reset: false });
                tasks.push(Task::ResetPhy { reset: false });
                (Uplink::Up, tasks)
            }
        },
        Uplink::Up => {
            if rx_up {
                tasks.push(Task::ProcessErrors);
                tasks.push(Task::ProcessAuxPackets);
                push_repeater_turns(gateware, &mut tasks);
                tasks.push(Task::HardwareTick);
                tasks.push(Task::CheckTsc);
                tasks.push(Task::CheckPlayback);
                tasks.push(Task::Relinquish);
                (Uplink::Up, tasks)
            } else {
                tasks.push(Task::ResetPhy { reset: true });
                tasks.push(Task::Reset { reset: true });
                tasks.push(Task::ClearTsc);
                if gateware.si5324 {
                    tasks.push(Task::SelectRecoveredClock { recovered: false });
                }
                (Uplink::Down, tasks)
            }
        },
    }
}

/// The time handed on to every repeater, in their order.
pub open spec fn repeater_syncs(gateware: Gateware) -> Seq<TscTask> {
    Seq::new(gateware.repeaters_spec(), |repno: int| TscTask::SyncTsc { repno: repno as usize })
}

/// What follows a reading of the notice that upstream has loaded the time: if
/// it has, every repeater is handed the time, then upstream is told so.
pub fn tsc_loaded(gateware: &Gateware, loaded: bool) -> (tasks: Vec<TscTask>)
    ensures
        tasks@ == if loaded {
            repeater_syncs(*gateware).push(TscTask::Send { packet: Packet::TSCAck })
        } else {
            seq![]
        },
{
    let mut tasks: Vec<TscTask> = Vec::new();
    if loaded {
        let n: usize = gateware.repeaters();
        for repno in 0..n
            invariant
                n == gateware.repeaters_spec(),
                tasks@ == repeater_syncs(*gateware).take(repno as int),
        {
            tasks.push(TscTask::SyncTsc { repno });
            assert(repeater_syncs(*gateware).take(repno + 1) == repeater_syncs(*gateware).take(
                repno as int,
            ).push(repeater_syncs(*gateware)[repno as int]));
        }
        assert(repeater_syncs(*gateware).take(n as int) == repeater_syncs(*gateware));
        tasks.push(TscTask::Send { packet: Packet::TSCAck });
    }
    tasks
}

/// The packet that reports upstream how a playback has ended, if one has.
pub fn playback_done(rank: u8, status: Option<PlaybackStatus>) -> (packet: Option<Packet>)
    ensures
        packet == match status {
            Some(status) => Some(
                Packet::DmaPlaybackStatus {
                    destination: rank,
                    id: status.id,
                    error: status.error,
                    channel: status.channel,
                    timestamp: status.timestamp,
                },
            ),
            None => None,
        },
{
    match status {
        Some(status) => Some(
            Packet::DmaPlaybackStatus {
                destination: rank,
                id: status.id,
                error: status.error,
                channel: status.channel,
                timestamp: status.timestamp,
            },
        ),
        None => None,
    }
}

/// Lists the steps that start the satellite manager.
pub fn start() -> (steps: Vec<Startup>)
    ensures
        steps@ == seq![
            Startup::InitRtioCrg,
            Startup::Spawn { stack_size: 16384, thread: Thread::Satman },
        ],
{
    let mut steps: Vec<Startup> = Vec::new();
    steps.push(Startup::InitRtioCrg);
    steps.push(Startup::Spawn { stack_size: 16384, thread: Thread::Satman });
    steps
}

/// Two ticks of the hardware are more than [`TICK_PERIOD_MS`] apart.
pub proof fn law_ticks_are_spaced(ts: u64, first: u64, second: u64)
    requires
        first > ts,
        second > tick_after(ts, first),
    ensures
        second - first > TICK_PERIOD_MS,
{
}

/// What the manager does over a course of readings of the receiver.
pub open spec fn course(gateware: Gateware, uplink: Uplink, readings: Seq<bool>) -> Seq<Task>
    decreases readings.len(),
{
    if readings.len() == 0 {
        seq![]
    } else {
        tasks(gateware, uplink, readings.first()) + course(
            gateware,
            uplink_after(readings.first()),
            readings.drop_first(),
        )
    }
}

/// A session is open after the tasks: the last that cleared one came after the
/// last that put the RTIO core into reset.
pub open spec fn is_session_open(open: bool, tasks: Seq<Task>) -> bool
    decreases tasks.len(),
{
    if tasks.len() == 0 {
        open
    } else {
        match tasks.last() {
            Task::ClearSession => true,
            Task::Reset { reset: true } => false,
            _ => is_session_open(open, tasks.drop_last()),
        }
    }
}

/// Whatever the uplink does, a packet is served only after the DMA traces and
/// the analyzer have been cleared for the session, with no loss of the uplink
/// in between.
pub proof fn law_packets_are_served_in_clear_sessions(
    gateware: Gateware,
    uplink: Uplink,
    readings: Seq<bool>,
    i: int,
)
    requires
        0 <= i < course(gateware, uplink, readings).len(),
        course(gateware, uplink, readings)[i] is ProcessAuxPackets,
    ensures
        is_session_open(uplink is Up, course(gateware, uplink, readings).take(i)),
    decreases readings.len(),
{
    let round = tasks(gateware, uplink, readings.first());
    let next = uplink_after(readings.first());
    let rest = course(gateware, next, readings.drop_first());
    lemma_round_opens_and_closes(gateware, uplink, readings.first());
    if i < round.len() {
        assert((round + rest).take(i) =~= round.take(i));
        lemma_round_serves_in_a_session(gateware, uplink, readings.first(), i);
    } else {
        law_packets_are_served_in_clear_sessions(
            gateware,
            next,
            readings.drop_first(),
            i - round.len(),
        );
        assert((round + rest).take(i) =~= round + rest.take(i - round.len()));
        lemma_session_over_parts(uplink is Up, round, rest.take(i - round.len()));
    }
}

proof fn lemma_session_over_parts(open: bool, first: Seq<Task>, second: Seq<Task>)
    ensures
        is_session_open(open, first + second) == is_session_open(
            is_session_open(open, first),
            second,
        ),
    decreases second.len(),
{
    if second.len() == 0 {
        assert(first + second =~= first);
    } else {
        assert((first + second).drop_last() =~= first + second.drop_last());
        lemma_session_over_parts(open, first, second.drop_last());
    }
}

proof fn lemma_turns_keep_the_session(gateware: Gateware, open: bool, k: nat)
    requires
        k <= gateware.repeaters_spec(),
    ensures
        is_session_open(open, repeater_turns(gateware).take(k as int)) == open,
    decreases k,
{
    if k > 0 {
        assert(repeater_turns(gateware).take(k as int).drop_last() =~= repeater_turns(
            gateware,
        ).take(k - 1));
        lemma_turns_keep_the_session(gateware, open, (k - 1) as nat);
    }
}

/// A round leaves a session open just if it leaves the uplink up.
proof fn lemma_round_opens_and_closes(gateware: Gateware, uplink: Uplink, rx_up: bool)
    ensures
        is_session_open(uplink is Up, tasks(gateware, uplink, rx_up)) == (uplink_after(rx_up)
            is Up),
{
    reveal_with_fuel(is_session_open, 7);
    let turns = repeater_turns(gateware);
    let n = gateware.repeaters_spec();
    lemma_turns_keep_the_session(gateware, uplink is Up, n);
    assert(turns.take(n as int) =~= turns);
    match (uplink, rx_up) {
        (Uplink::Down, false) => {
            let head = seq![Task::ProcessErrors];
            lemma_session_over_parts(false, head, turns);
            lemma_session_over_parts(
                false,
                head + turns,
                seq![Task::HardwareTick, Task::Relinquish],
            );
        },
        (Uplink::Up, true) => {
            let head = seq![Task::ProcessErrors, Task::ProcessAuxPackets];
            lemma_session_over_parts(true, head, turns);
            lemma_session_over_parts(
                true,
                head + turns,
                seq![Task::HardwareTick, Task::CheckTsc, Task::CheckPlayback, Task::Relinquish],
            );
        },
        _ => {},
    }
}

/// A round serves packets only in a session that is open.
proof fn lemma_round_serves_in_a_session(
    gateware: Gateware,
    uplink: Uplink,
    rx_up: bool,
    i: int,
)
    requires
        0 <= i < tasks(gateware, uplink, rx_up).len(),
        tasks(gateware, uplink, rx_up)[i] is ProcessAuxPackets,
    ensures
        is_session_open(uplink is Up, tasks(gateware, uplink, rx_up).take(i)),
{
    reveal_with_fuel(is_session_open, 2);
    let done = tasks(gateware, uplink, rx_up);
    assert(uplink is Up && rx_up && i == 1);
    assert(done.take(1) =~= seq![Task::ProcessErrors]);
}

/// The RTIO core and its PHYs are taken out of reset when the uplink comes up
/// and put into reset when it goes down, and at no other time.
pub proof fn law_resets_follow_the_uplink(
    gateware: Gateware,
    uplink: Uplink,
    rx_up: bool,
    reset: bool,
)
    ensures
        tasks(gateware, uplink, rx_up).contains(Task::Reset { reset }) <==> (uplink
            != uplink_after(rx_up) && reset == !rx_up),
        tasks(gateware, uplink, rx_up).contains(Task::ResetPhy { reset }) <==> (uplink
            != uplink_after(rx_up) && reset == !rx_up),
{
    let done = tasks(gateware, uplink, rx_up);
    if uplink is Up && !rx_up {
        assert(done[0] == Task::ResetPhy { reset: true });
        assert(done[1] == Task::Reset { reset: true });
    }
    if uplink is Down && rx_up {
        let i: int = if gateware.si5324 { 4 } else { 2 };
        assert(done[i] == Task::Reset { reset: false });
        assert(done[i + 1] == Task::ResetPhy { reset: false });
    }
}

/// Whatever the gateware, a round with the uplink up looks for errors, serves a
/// packet, gives every repeater that is driven one turn, ticks the hardware,
/// looks for a loaded time and for the end of a playback, and then lets the
/// other threads run, each once and in this order.
pub proof fn law_a_session_is_served(gateware: Gateware, repno: int)
    ensures
        ({
            let done = tasks(gateware, Uplink::Up, true);
            let n: int = if gateware.drtio_routing {
                gateware.drtiorep as int
            } else {
                0
            };
            &&& done.len() == n + 6
            &&& done[0] is ProcessErrors
            &&& done[1] is ProcessAuxPackets
            &&& 0 <= repno < n ==> (done[2 + repno] matches Task::ServiceRepeater { repno: served }
                && served == repno)
            &&& done[n + 2] is HardwareTick
            &&& done[n + 3] is CheckTsc
            &&& done[n + 4] is CheckPlayback
            &&& done[n + 5] is Relinquish
        }),
        uplink_after(true) is Up,
{
}

/// Whatever the gateware, a round without the uplink looks for errors, gives
/// every repeater that is driven one turn, ticks the hardware and then lets the
/// other threads run, each once and in this order.
pub proof fn law_a_device_without_uplink_goes_on(gateware: Gateware, repno: int)
    ensures
        ({
            let done = tasks(gateware, Uplink::Down, false);
            let n: int = if gateware.drtio_routing {
                gateware.drtiorep as int
            } else {
                0
            };
            &&& done.len() == n + 3
            &&& done[0] is ProcessErrors
            &&& 0 <= repno < n ==> (done[1 + repno] matches Task::ServiceRepeater { repno: served }
                && served == repno)
            &&& done[n + 1] is HardwareTick
            &&& done[n + 2] is Relinquish
        }),
        uplink_after(false) is Down,
{
}

/// When the uplink comes up, the clock is taken from it, where there is a choice
/// of clocks, before the session is cleared; the auxiliary channel is reset, and
/// at last the RTIO core and then its PHYs are taken out of reset. When it goes
/// down, the PHYs and then the core are put into reset, a notice of a loaded
/// time is dropped, and at last the local clock is taken. Nothing else is done.
pub proof fn law_sessions_begin_and_end_in_order(gateware: Gateware)
    ensures
        ({
            let begun = tasks(gateware, Uplink::Down, true);
            let k: int = if gateware.si5324 {
                2
            } else {
                0
            };
            &&& begun.len() == k + 4
            &&& gateware.si5324 ==> begun[0] == (Task::SelectRecoveredClock { recovered: true })
            &&& gateware.si5324 ==> begun[1] is CalibrateSkew
            &&& begun[k] is ClearSession
            &&& begun[k + 1] is ResetAux
            &&& begun[k + 2] == (Task::Reset { reset: false })
            &&& begun[k + 3] == (Task::ResetPhy { reset: false })
        }),
        ({
            let ended = tasks(gateware, Uplink::Up, false);
            &&& ended.len() == if gateware.si5324 {
                4int
            } else {
                3int
            }
            &&& ended[0] == (Task::ResetPhy { reset: true })
            &&& ended[1] == (Task::Reset { reset: true })
            &&& ended[2] is ClearTsc
            &&& gateware.si5324 ==> ended[3] == (Task::SelectRecoveredClock { recovered: false })
        }),
{
}

/// Each error of the protocol has a flag of its own, from the lowest bit on, and
/// is reported once if its flag is set and not at all otherwise, whatever the
/// other flags are.
pub proof fn law_flagged_errors_are_reported_once(flags: u8)
    ensures
        ProtocolError::UnknownPacketType.flagged(flags).len() == if flags & 1 != 0 {
            1int
        } else {
            0int
        },
        ProtocolError::TruncatedPacket.flagged(flags).len() == if flags & 2 != 0 {
            1int
        } else {
            0int
        },
        ProtocolError::BufferSpaceTimeout.flagged(flags).len() == if flags & 4 != 0 {
            1int
        } else {
            0int
        },
        ProtocolError::WriteUnderflow.flagged(flags).len() == if flags & 8 != 0 {
            1int
        } else {
            0int
        },
        ProtocolError::WriteOverflow.flagged(flags).len() == if flags & 16 != 0 {
            1int
        } else {
            0int
        },
        forall|error: ProtocolError, i: int|
            0 <= i < error.flagged(flags).len() ==> #[trigger] error.flagged(flags)[i] == error,
{
}

/// A tick moves the time of the next to 200 milliseconds after it, whatever it
/// was before; a look at the clock without a tick leaves it.
pub proof fn law_a_tick_sets_the_time_of_the_next(ts: u64, other: u64, now: u64)
    ensures
        now > ts ==> tick_after(ts, now) == now + 200,
        now > ts && now > other ==> tick_after(ts, now) == tick_after(other, now),
        now <= ts ==> tick_after(ts, now) == ts,
{
}

/// A loaded time is handed on to every repeater that is driven, once each, in
/// their order.
pub proof fn law_every_repeater_gets_the_time(gateware: Gateware, repno: int)
    ensures
        repeater_syncs(gateware).len() == if gateware.drtio_routing {
            gateware.drtiorep as int
        } else {
            0int
        },
        0 <= repno < repeater_syncs(gateware).len() ==> (
        repeater_syncs(gateware)[repno] matches TscTask::SyncTsc { repno: synced } && synced
            == repno),
{
}

} // verus!
