//! The registers of monitoring and injection.

use vstd::prelude::*;

verus! {

/// A write to a register.
#[derive(Clone, Copy, Debug, PartialEq, Eq, Structural)]
pub enum MoninjWrite {
    /// Select the channel to monitor.
    MonChanSel { channel: u16 },
    /// Select the probe of the channel.
    MonProbeSel { probe: u8 },
    /// Have the value taken from the probe.
    MonValueUpdate { update: u8 },
    /// Select the channel to inject into.
    InjChanSel { channel: u16 },
    /// Select the override of the channel.
    InjOverrideSel { overrd: u8 },
    /// Set the override.
    InjValue { value: u8 },
}

/// Lists the writes after which the value of a probe can be read.
pub fn read_monitor(channel: u16, probe: u8) -> (writes: Vec<MoninjWrite>)
    ensures
        writes@ == seq![
            MoninjWrite::MonChanSel { channel },
            MoninjWrite::MonProbeSel { probe },
            MoninjWrite::MonValueUpdate { update: 1 },
        ],
{
    let mut writes: Vec<MoninjWrite> = Vec::new();
    writes.push(MoninjWrite::MonChanSel { channel });
    writes.push(MoninjWrite::MonProbeSel { probe });
    writes.push(MoninjWrite::MonValueUpdate { update: 1 });
    writes
}

/// Lists the writes that set an override.
pub fn inject(channel: u16, overrd: u8, value: u8) -> (writes: Vec<MoninjWrite>)
    ensures
        writes@ == seq![
            MoninjWrite::InjChanSel { channel },
            MoninjWrite::InjOverrideSel { overrd },
            MoninjWrite::InjValue { value },
        ],
{
    let mut writes = read_injection(channel, overrd);
    writes.push(MoninjWrite::InjValue { value });
    writes
}

/// Lists the writes after which the value of an override can be read.
pub fn read_injection(channel: u16, overrd: u8) -> (writes: Vec<MoninjWrite>)
    ensures
        writes@ == seq![
            MoninjWrite::InjChanSel { channel },
            MoninjWrite::InjOverrideSel { overrd },
        ],
{
    let mut writes: Vec<MoninjWrite> = Vec::new();
    writes.push(MoninjWrite::InjChanSel { channel });
    writes.push(MoninjWrite::InjOverrideSel { overrd });
    writes
}

} // verus!
