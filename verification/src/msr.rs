//! Model-specific registers: the numbered control and status registers of
//! the processor, addressed by number rather than name.

use vstd::prelude::*;

verus! {

/// The time-stamp counter.
pub const TSC: u32 = 0x10;

/// The code-segment selector for the fast system-call entry.
pub const SYSENTER_CS: u32 = 0x174;
/// The stack pointer for the fast system-call entry.
pub const SYSENTER_SP: u32 = 0x175;
/// The instruction pointer for the fast system-call entry.
pub const SYSENTER_IP: u32 = 0x176;

/// The architectural model-specific registers the client synchronizes.
///
/// Coverage is deliberately partial: the time-stamp counter and one
/// segment-selector register; further registers are extension points.
#[derive(Debug, Clone, Copy, PartialEq, Eq, Structural)]
pub struct MSRState {
    /// The time-stamp counter.
    pub tsc: u64,
    /// The code-segment selector for the fast system-call entry.
    pub sysenter_cs: u64,
}

impl Default for MSRState {
    /// A cleared register record.
    fn default() -> (r: Self)
        ensures
            r.tsc == 0 && r.sysenter_cs == 0,
    {
        MSRState { tsc: 0, sysenter_cs: 0 }
    }
}

} // verus!
