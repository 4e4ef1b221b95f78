//! Control of the kernel CPU.

use vstd::prelude::*;

use crate::satman::kernel_proto::{
    KERNELCPU_EXEC_ADDRESS, KERNELCPU_LAST_ADDRESS, KSUPPORT_HEADER_SIZE,
};

verus! {

/// What the board is asked to do with the kernel CPU.
#[derive(Clone, Copy, Debug, PartialEq, Eq, Structural)]
pub enum CpuAction {
    /// Write the reset line: 1 holds the CPU in reset.
    WriteReset { value: u8 },
    /// Select the master of the RTIO interconnect.
    SelectRtio { value: u8 },
    /// Acknowledge whatever is in the mailbox.
    AcknowledgeMailbox,
    /// Empty the queue of remote calls.
    InitRpcQueue,
    /// Copy the support code to an address.
    CopySupportCode { address: usize },
    /// Compare the memory at an address with the support code, and report the
    /// bytes that differ.
    CompareSupportCode { address: usize },
}

/// Where the support code goes: its header lies in front of the address that
/// execution begins at.
pub open spec fn support_code_address() -> usize {
    (KERNELCPU_EXEC_ADDRESS - KSUPPORT_HEADER_SIZE) as usize
}

/// The actions that stop the kernel CPU.
pub open spec fn stop_actions() -> Seq<CpuAction> {
    seq![
        CpuAction::WriteReset { value: 1 },
        CpuAction::SelectRtio { value: 0 },
        CpuAction::AcknowledgeMailbox,
        CpuAction::InitRpcQueue,
    ]
}

/// Lists the actions that stop the kernel CPU.
pub fn stop() -> (actions: Vec<CpuAction>)
    ensures
        actions@ == stop_actions(),
{
    let mut actions: Vec<CpuAction> = Vec::new();
    actions.push(CpuAction::WriteReset { value: 1 });
    actions.push(CpuAction::SelectRtio { value: 0 });
    actions.push(CpuAction::AcknowledgeMailbox);
    actions.push(CpuAction::InitRpcQueue);
    actions
}

/// Lists the actions that start the kernel CPU, given its reset line. The CPU
/// must not be running: it is held in reset until the support code is in place.
pub fn start(reset: u8) -> (actions: Vec<CpuAction>)
    requires
        reset != 0,
    ensures
        actions@ == stop_actions() + seq![
            CpuAction::SelectRtio { value: 2 },
            CpuAction::CopySupportCode { address: support_code_address() },
            CpuAction::CompareSupportCode { address: support_code_address() },
            CpuAction::WriteReset { value: 0 },
            CpuAction::InitRpcQueue,
        ],
{
    let address: usize = KERNELCPU_EXEC_ADDRESS - KSUPPORT_HEADER_SIZE;
    let mut actions = stop();
    actions.push(CpuAction::SelectRtio { value: 2 });
    actions.push(CpuAction::CopySupportCode { address });
    actions.push(CpuAction::CompareSupportCode { address });
    actions.push(CpuAction::WriteReset { value: 0 });
    actions.push(CpuAction::InitRpcQueue);
    actions
}

/// Tells where the memory differs from the support code that was copied to it,
/// in ascending order.
pub fn mismatches(support_code: &[u8], memory: &[u8]) -> (places: Vec<usize>)
    requires
        memory@.len() == support_code@.len(),
    ensures
        forall|i: usize| #[trigger]
            places@.contains(i) <==> (i < support_code@.len() && memory@[i as int]
                != support_code@[i as int]),
        forall|a: int, b: int| 0 <= a < b < places@.len() ==> places@[a] < places@[b],
{
    let mut places: Vec<usize> = Vec::new();
    for i in 0..support_code.len()
        invariant
            memory@.len() == support_code@.len(),
            forall|j: usize| #[trigger]
                places@.contains(j) <==> (j < i && memory@[j as int] != support_code@[j as int]),
            forall|a: int, b: int| 0 <= a < b < places@.len() ==> places@[a] < places@[b],
            forall|a: int| 0 <= a < places@.len() ==> #[trigger] places@[a] < i,
    {
        if memory[i] != support_code[i] {
            let ghost before = places@;
            places.push(i);
            assert forall|j: usize| #[trigger] places@.contains(j) <==> (j < i + 1
                && memory@[j as int] != support_code@[j as int]) by {
                if places@.contains(j) && j != i {
                    let a = choose|a: int| 0 <= a < places@.len() && places@[a] == j;
                    assert(before[a] == j);
                    assert(before.contains(j));
                }
                if before.contains(j) {
                    let a = choose|a: int| 0 <= a < before.len() && before[a] == j;
                    assert(places@[a] == j);
                }
                assert(places@[before.len() as int] == i);
            }
        }
    }
    places
}

/// Tells whether a pointer from the mailbox lies in the memory of the kernel
/// CPU.
pub fn validate(ptr: usize) -> (valid: bool)
    ensures
        valid == (KERNELCPU_EXEC_ADDRESS <= ptr <= KERNELCPU_LAST_ADDRESS),
{
    ptr >= KERNELCPU_EXEC_ADDRESS && ptr <= KERNELCPU_LAST_ADDRESS
}

/// A kernel CPU that is stopped is held in reset and off the RTIO interconnect,
/// then the mailbox and the queue of remote calls are emptied.
pub proof fn law_a_stopped_cpu_is_held_in_reset()
    ensures
        stop_actions().len() == 4,
        stop_actions()[0] == (CpuAction::WriteReset { value: 1 }),
        stop_actions()[1] == (CpuAction::SelectRtio { value: 0 }),
        stop_actions()[2] is AcknowledgeMailbox,
        stop_actions()[3] is InitRpcQueue,
        support_code_address() + KSUPPORT_HEADER_SIZE == KERNELCPU_EXEC_ADDRESS,
{
}

} // verus!
