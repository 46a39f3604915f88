//! The portable face of an accelerated virtual machine.
//!
//! Whatever backend runs the guest, the caller sees the same shapes: a
//! memory-region description, a callback interface for port I/O, a tagged
//! exit state decoded from the backend's raw records, and the small state
//! machine every virtual CPU walks through between runs.

use vstd::prelude::*;

use crate::errors::{Error, FatalVmError};

verus! {

/// One block of host memory to be mapped into the guest, described by
/// plain values. The caller guarantees the host range stays valid and
/// unmoved for as long as the slot is registered.
#[derive(Debug, Clone, Copy, PartialEq, Eq, Structural)]
pub struct MemoryRegion {
    /// The memory slot to operate on.
    pub slot: u8,
    /// The starting host virtual address of the block.
    pub host_addr: u64,
    /// The length of the block in bytes.
    pub host_len: u64,
    /// The guest physical address the block is mapped at.
    pub guest: u64,
}

/// Callbacks through which the caller services guest I/O. Implemented
/// outside the library; nothing is assumed of them.
pub trait CpuCallbacks {
    /// Services one port-I/O request: `port` is the 16-bit port, `output`
    /// says whether data flows to the caller, `buffer` is the packed
    /// element array and `element_size` the size of each element.
    fn port_io(
        &self,
        port: u16,
        output: bool,
        buffer: &mut Vec<u8>,
        element_size: usize,
    ) -> Result<(), Error>;
}

/// Why a virtual CPU stopped for an internal, unrecoverable reason.
#[derive(Debug, Clone, Copy, PartialEq, Eq, Structural)]
pub enum InternalErrorKind {
    /// The kernel could not enter guest execution; the payload is the raw
    /// hardware reason.
    FailedEntry(u64),
    /// Emulating an instruction failed, for instance because the host
    /// lacks second-level address translation.
    Emulation,
    /// An exception occurred while another was being delivered.
    SimultaneousExceptions,
    /// The machine exited during event delivery.
    EventDelivery,
    /// A sub-error this client does not model further.
    Other(u32),
}

/// The portable, decoded result of one run call. Exactly one tag is
/// active.
#[derive(Debug, Clone, Copy, PartialEq, Eq, Structural)]
pub enum ExitState {
    /// The guest initiated a machine reset or shutdown; terminal.
    Shutdown,
    /// The guest executed a halt instruction; the caller may resume after
    /// injecting an interrupt.
    Halt,
    /// The guest requested port I/O; the caller must service every
    /// element of the packed array at the payload location before
    /// resuming.
    IoPortRequest {
        /// The 16-bit I/O port.
        port: u16,
        /// True if data flows from the guest to the caller.
        output: bool,
        /// The size of each element in bytes.
        size: u16,
        /// The number of elements in the packed array.
        count: u32,
        /// Where the packed array lies, as the backend reports it.
        payload_offset: u64,
    },
    /// The guest touched memory-mapped I/O space.
    Mmio {
        /// The guest physical address of the access.
        guest_addr: u64,
        /// The width of the access in bytes.
        width: u32,
        /// True for a write, false for a read.
        write: bool,
    },
    /// A reason this client does not model; the raw architecture-specific
    /// code is carried through for the caller to decide.
    Unknown(u64),
    /// An internal error or entry failure; the virtual CPU must be torn
    /// down and never resumed.
    InternalError(InternalErrorKind),
}

impl ExitState {
    /// Whether this exit ends the virtual CPU's life: a shutdown or an
    /// internal error permits no further run call.
    pub open spec fn spec_is_terminal(self) -> bool {
        self is Shutdown || self is InternalError
    }

    /// Whether this exit ends the virtual CPU's life.
    pub fn is_terminal(&self) -> (r: bool)
        ensures
            r == self.spec_is_terminal(),
    {
        match self {
            ExitState::Shutdown => true,
            ExitState::InternalError(_) => true,
            _ => false,
        }
    }
}

/// Where a virtual CPU stands in its life.
#[derive(Debug, Clone, Copy, PartialEq, Eq, Structural)]
pub enum VcpuPhase {
    /// The virtual CPU may be run.
    Runnable,
    /// A terminal exit was observed; no further run call is permitted.
    Terminated,
}

/// The state machine a virtual CPU walks between runs: it is runnable
/// until a terminal exit is observed, and it may take an interrupt only
/// when the last run reported readiness for one.
#[derive(Debug, Clone, Copy, PartialEq, Eq, Structural)]
pub struct RunLifecycle {
    /// Where the virtual CPU stands.
    pub phase: VcpuPhase,
    /// Whether the last run reported readiness for interrupt injection.
    pub ready_for_interrupt: bool,
}

impl RunLifecycle {
    /// A fresh virtual CPU: runnable, not ready for injection.
    pub fn new() -> (r: Self)
        ensures
            r.phase == VcpuPhase::Runnable,
            !r.ready_for_interrupt,
    {
        RunLifecycle { phase: VcpuPhase::Runnable, ready_for_interrupt: false }
    }

    /// Whether a run call is permitted.
    pub fn runnable(&self) -> (r: bool)
        ensures
            r == (self.phase == VcpuPhase::Runnable),
    {
        match self.phase {
            VcpuPhase::Runnable => true,
            VcpuPhase::Terminated => false,
        }
    }

    /// Records one decoded exit and the readiness the backend reported
    /// with it. A terminal exit moves the virtual CPU to its final phase;
    /// any other leaves it runnable.
    pub fn observe(&mut self, exit: &ExitState, ready: bool)
        requires
            old(self).phase == VcpuPhase::Runnable,
        ensures
            final(self).phase == if exit.spec_is_terminal() {
                VcpuPhase::Terminated
            } else {
                VcpuPhase::Runnable
            },
            final(self).ready_for_interrupt == ready,
    {
        if exit.is_terminal() {
            self.phase = VcpuPhase::Terminated;
        }
        self.ready_for_interrupt = ready;
    }

    /// Gates a request to inject an external interrupt: permitted exactly
    /// when the virtual CPU is runnable and the last run reported
    /// readiness; otherwise the request is an error, never queued.
    pub fn interrupt_request(&self, vector: u8) -> (r: Result<u8, Error>)
        ensures
            r is Ok <==> (self.phase == VcpuPhase::Runnable && self.ready_for_interrupt),
            r is Ok ==> r.unwrap() == vector,
            r is Err ==> r.unwrap_err() == if self.phase != VcpuPhase::Runnable {
                Error::Fatal(FatalVmError::VcpuTerminated)
            } else {
                Error::NotReadyForInterrupt
            },
    {
        if !self.runnable() {
            Err(Error::Fatal(FatalVmError::VcpuTerminated))
        } else if !self.ready_for_interrupt {
            Err(Error::NotReadyForInterrupt)
        } else {
            Ok(vector)
        }
    }
}

} // verus!
