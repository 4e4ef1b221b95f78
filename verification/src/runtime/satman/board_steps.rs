//! What the board does, in order, for operations that reach every repeater.

use vstd::prelude::*;

use crate::gateware::Gateware;
use crate::routing::MAX_HOPS;

verus! {

/// How long a reset of the RTIO core is held, in microseconds.
pub const RESET_PULSE_US: u64 = 100;

/// Something that the board does at once.
#[derive(Clone, Copy, Debug, PartialEq, Eq)]
pub enum BoardStep {
    /// Write the reset line of the RTIO core.
    WriteReset { value: u8 },
    /// Wait for so many microseconds.
    Wait { us: u64 },
    /// Reset the RTIO of a repeater; a failure is only reported.
    ResetRepeater { repno: usize },
    /// Tell a repeater the path to a destination; a failure is only reported.
    SetRepeaterPath { repno: usize, destination: u8, hops: [u8; MAX_HOPS] },
    /// Set the interconnect up for a rank.
    EnableInterconnect { rank: u8 },
    /// Tell a repeater its rank; a failure is only reported.
    SetRepeaterRank { repno: usize, rank: u8 },
}

/// What is written to the reset line of the RTIO core, to put it into reset or
/// to take it out.
pub fn drtiosat_reset(reset: bool) -> (value: u8)
    ensures
        value == if reset {
            1u8
        } else {
            0u8
        },
{
    if reset {
        1
    } else {
        0
    }
}

/// What is written to the reset line of the RTIO PHYs, to put them into reset
/// or to take them out.
pub fn drtiosat_reset_phy(reset: bool) -> (value: u8)
    ensures
        value == if reset {
            1u8
        } else {
            0u8
        },
{
    if reset {
        1
    } else {
        0
    }
}

/// A reset of the RTIO core that is held for a while.
pub open spec fn pulse() -> Seq<BoardStep> {
    seq![
        BoardStep::WriteReset { value: 1 },
        BoardStep::Wait { us: RESET_PULSE_US },
        BoardStep::WriteReset { value: 0 },
    ]
}

/// The RTIO of every repeater is reset, in their order.
pub open spec fn repeater_resets(gateware: Gateware) -> Seq<BoardStep> {
    Seq::new(
        gateware.repeaters_spec(),
        |repno: int| BoardStep::ResetRepeater { repno: repno as usize },
    )
}

/// Every repeater is told the path, in their order.
pub open spec fn repeater_paths(
    gateware: Gateware,
    destination: u8,
    hops: [u8; MAX_HOPS],
) -> Seq<BoardStep> {
    Seq::new(
        gateware.repeaters_spec(),
        |repno: int| BoardStep::SetRepeaterPath { repno: repno as usize, destination, hops },
    )
}

/// Every repeater is told its rank, in their order.
pub open spec fn repeater_ranks(gateware: Gateware, rank: u8) -> Seq<BoardStep> {
    Seq::new(
        gateware.repeaters_spec(),
        |repno: int| BoardStep::SetRepeaterRank { repno: repno as usize, rank },
    )
}

/// Lists the steps that reset the RTIO core.
pub fn pulse_reset() -> (steps: Vec<BoardStep>)
    ensures
        steps@ == pulse(),
{
    let mut steps: Vec<BoardStep> = Vec::new();
    steps.push(BoardStep::WriteReset { value: drtiosat_reset(true) });
    steps.push(BoardStep::Wait { us: RESET_PULSE_US });
    steps.push(BoardStep::WriteReset { value: drtiosat_reset(false) });
    steps
}

/// Lists the steps that reset the RTIO core, then that of every repeater.
pub fn reset_rtio(gateware: &Gateware) -> (steps: Vec<BoardStep>)
    ensures
        steps@ == pulse() + repeater_resets(*gateware),
{
    let mut steps = pulse_reset();
    let n: usize = gateware.repeaters();
    let ghost all = repeater_resets(*gateware);
    for repno in 0..n
        invariant
            n == gateware.repeaters_spec(),
            all == repeater_resets(*gateware),
            steps@ == pulse() + all.take(repno as int),
    {
        steps.push(BoardStep::ResetRepeater { repno });
        assert(all.take(repno + 1) =~= all.take(repno as int).push(all[repno as int]));
    }
    assert(all.take(n as int) =~= all);
    steps
}

/// Lists the steps that tell every repeater the path to a destination.
pub fn set_path(gateware: &Gateware, destination: u8, hops: [u8; MAX_HOPS]) -> (steps: Vec<
    BoardStep,
>)
    ensures
        steps@ == repeater_paths(*gateware, destination, hops),
{
    let mut steps: Vec<BoardStep> = Vec::new();
    let n: usize = gateware.repeaters();
    let ghost all = repeater_paths(*gateware, destination, hops);
    for repno in 0..n
        invariant
            n == gateware.repeaters_spec(),
            all == repeater_paths(*gateware, destination, hops),
            steps@ == all.take(repno as int),
    {
        steps.push(BoardStep::SetRepeaterPath { repno, destination, hops });
        assert(all.take(repno + 1) =~= all.take(repno as int).push(all[repno as int]));
    }
    assert(all.take(n as int) =~= all);
    steps
}

/// Lists the steps that set the interconnect up for a rank, then tell every
/// repeater its own.
pub fn set_rank(gateware: &Gateware, rank: u8, repeater_rank: u8) -> (steps: Vec<BoardStep>)
    ensures
        steps@ == seq![BoardStep::EnableInterconnect { rank }] + repeater_ranks(
            *gateware,
            repeater_rank,
        ),
{
    let mut steps: Vec<BoardStep> = Vec::new();
    steps.push(BoardStep::EnableInterconnect { rank });
    let n: usize = gateware.repeaters();
    let ghost all = repeater_ranks(*gateware, repeater_rank);
    for repno in 0..n
        invariant
            n == gateware.repeaters_spec(),
            all == repeater_ranks(*gateware, repeater_rank),
            steps@ == seq![BoardStep::EnableInterconnect { rank }] + all.take(repno as int),
    {
        steps.push(BoardStep::SetRepeaterRank { repno, rank: repeater_rank });
        assert(all.take(repno + 1) =~= all.take(repno as int).push(all[repno as int]));
    }
    assert(all.take(n as int) =~= all);
    steps
}

/// A reset of the RTIO core leaves it out of reset, whatever is reset with it.
pub proof fn law_resets_end(gateware: Gateware, i: int)
    requires
        0 <= i < (pulse() + repeater_resets(gateware)).len(),
        (pulse() + repeater_resets(gateware))[i] is WriteReset,
        forall|j: int|
            i < j < (pulse() + repeater_resets(gateware)).len() ==> !(#[trigger] (pulse()
                + repeater_resets(gateware))[j] is WriteReset),
    ensures
        (pulse() + repeater_resets(gateware))[i] == (BoardStep::WriteReset { value: 0 }),
{
    assert((pulse() + repeater_resets(gateware))[2] is WriteReset);
}

/// A reset of the RTIO core puts it into reset, holds it there for 100
/// microseconds, and takes it out.
pub proof fn law_a_reset_is_a_pulse()
    ensures
        pulse().len() == 3,
        pulse()[0] == (BoardStep::WriteReset { value: 1 }),
        pulse()[1] == (BoardStep::Wait { us: 100 }),
        pulse()[2] == (BoardStep::WriteReset { value: 0 }),
{
}

/// Every repeater that is driven is reset, told a path and told its rank, once
/// each, in their order, with the path and the rank unchanged.
pub proof fn law_every_repeater_is_told(
    gateware: Gateware,
    destination: u8,
    hops: [u8; MAX_HOPS],
    rank: u8,
    repno: int,
)
    ensures
        ({
            let n: int = if gateware.drtio_routing {
                gateware.drtiorep as int
            } else {
                0
            };
            let resets = repeater_resets(gateware);
            let paths = repeater_paths(gateware, destination, hops);
            let ranks = repeater_ranks(gateware, rank);
            &&& resets.len() == n && paths.len() == n && ranks.len() == n
            &&& 0 <= repno < n ==> {
                &&& resets[repno] matches BoardStep::ResetRepeater { repno: told } && told == repno
                &&& paths[repno] matches BoardStep::SetRepeaterPath {
                    repno: told,
                    destination: to,
                    hops: path,
                } && told == repno && to == destination && path == hops
                &&& ranks[repno] matches BoardStep::SetRepeaterRank { repno: told, rank: own }
                    && told == repno && own == rank
            }
        }),
{
}

} // verus!
