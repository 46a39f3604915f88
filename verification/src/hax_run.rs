//! The run-state tunnel of the vendor driver and its dispatch into the
//! portable exit state.
//!
//! The driver shares a tunnel record and an I/O buffer with the client;
//! both are reported once, at virtual-CPU creation, as raw addresses with
//! a size. The tunnel's payload union is read once into plain fields and
//! decoded here into exactly one tagged result.

use vstd::prelude::*;

use crate::accel::ExitState;
use crate::errors::ProtocolError;

verus! {

/// The reasons the vendor driver reports for a stopped virtual CPU, by
/// wire code.
#[derive(Debug, Clone, Copy, PartialEq, Eq, Structural)]
pub enum ExitStatus {
    /// A port-I/O request.
    IoRequest,
    /// A memory-mapped I/O instruction.
    Mmio,
    /// Real-address mode must be emulated on a host without unrestricted
    /// guest support.
    RealModeEmulation,
    /// The window for interrupt injection opened.
    Interrupt,
    /// An exit the driver does not classify; possibly a shutdown request.
    UnknownVMExit,
    /// The guest executed a halt instruction.
    Halt,
    /// A reboot request, possibly a triple fault.
    StateChange,
    /// The virtual CPU is paused; seen only while it is being destroyed.
    Paused,
    /// A memory-mapped I/O request in the fast format.
    FastMmio,
}

impl ExitStatus {
    /// The wire code of this status.
    pub open spec fn spec_code(self) -> u32 {
        match self {
            ExitStatus::IoRequest => 1,
            ExitStatus::Mmio => 2,
            ExitStatus::RealModeEmulation => 3,
            ExitStatus::Interrupt => 4,
            ExitStatus::UnknownVMExit => 5,
            ExitStatus::Halt => 6,
            ExitStatus::StateChange => 7,
            ExitStatus::Paused => 8,
            ExitStatus::FastMmio => 9,
        }
    }

    /// The wire code of this status.
    pub fn code(self) -> (c: u32)
        ensures
            c == self.spec_code(),
    {
        match self {
            ExitStatus::IoRequest => 1,
            ExitStatus::Mmio => 2,
            ExitStatus::RealModeEmulation => 3,
            ExitStatus::Interrupt => 4,
            ExitStatus::UnknownVMExit => 5,
            ExitStatus::Halt => 6,
            ExitStatus::StateChange => 7,
            ExitStatus::Paused => 8,
            ExitStatus::FastMmio => 9,
        }
    }

    /// Decodes a wire code; codes this client does not model are
    /// rejected.
    pub fn from_code(code: u32) -> (r: Option<ExitStatus>)
        ensures
            r is Some <==> 1 <= code <= 9,
            r is Some ==> r.unwrap().spec_code() == code,
    {
        match code {
            1 => Some(ExitStatus::IoRequest),
            2 => Some(ExitStatus::Mmio),
            3 => Some(ExitStatus::RealModeEmulation),
            4 => Some(ExitStatus::Interrupt),
            5 => Some(ExitStatus::UnknownVMExit),
            6 => Some(ExitStatus::Halt),
            7 => Some(ExitStatus::StateChange),
            8 => Some(ExitStatus::Paused),
            9 => Some(ExitStatus::FastMmio),
            _ => None,
        }
    }
}

/// A port-I/O payload of the tunnel.
#[derive(Debug, Clone, Copy, PartialEq, Eq, Structural)]
pub struct ProgrammedIo {
    /// Zero for a read, one for a write.
    pub direction: u8,
    /// The direction-flag shadow of the string instruction.
    pub df: u8,
    /// The size of each element in bytes.
    pub size: u16,
    /// The 16-bit I/O port.
    pub port: u16,
    /// The number of elements in the packed array.
    pub count: u16,
    /// Request flags.
    pub flags: u8,
    /// The address of the packed element array.
    pub vaddr: u64,
}

/// The tunnel record as the client reads it after a run call, its payload
/// union carried as plain fields; which one is meaningful depends on the
/// status.
#[derive(Debug, Clone, Copy, PartialEq, Eq, Structural)]
pub struct Tunnel {
    /// The raw hardware exit reason.
    pub exit_reason: u32,
    /// Driver flags.
    pub flag: u32,
    /// The wire code of the exit status.
    pub status: u32,
    /// Set when a user event is pending.
    pub user_event_pending: u32,
    /// Non-zero if a requested injection window is now open.
    pub ready_for_interrupt_injection: i32,
    /// Set by the client to ask for an injection window.
    pub request_interrupt_window: i32,
    /// The port-I/O interpretation of the payload.
    pub pio: ProgrammedIo,
    /// The guest-linear-address interpretation of the payload.
    pub gla: u64,
}

/// The fast memory-mapped I/O record the driver places in the I/O
/// buffer.
#[derive(Debug, Clone, Copy, PartialEq, Eq, Structural)]
pub struct FastMmio {
    /// The guest physical address of the access.
    pub gpa: u64,
    /// The second guest physical address, for moves between two
    /// memory-mapped locations.
    pub gpa2: u64,
    /// The width of the access in bytes.
    pub size: u8,
    /// Zero for a read, one for a write.
    pub direction: u8,
    /// The register operand's index.
    pub reg_index: u16,
    /// Control register 0 at the time of the access.
    pub cr0: u64,
    /// Control register 2 at the time of the access.
    pub cr2: u64,
    /// Control register 3 at the time of the access.
    pub cr3: u64,
    /// Control register 4 at the time of the access.
    pub cr4: u64,
}

/// The result of one run call on this backend: the decoded status and
/// the raw hardware exit reason beside it.
#[derive(Debug, Clone, Copy, PartialEq, Eq, Structural)]
pub struct RunResult {
    /// The decoded exit status.
    pub exit_status: ExitStatus,
    /// The raw hardware exit reason.
    pub exit_reason: u32,
}

impl RunResult {
    /// Reads the status and hardware reason out of a tunnel record; a
    /// status code this client does not model is a protocol violation.
    pub fn from_tunnel(t: &Tunnel) -> (r: Result<RunResult, ProtocolError>)
        ensures
            r is Ok <==> 1 <= t.status <= 9,
            r is Ok ==> r.unwrap().exit_status.spec_code() == t.status && r.unwrap().exit_reason
                == t.exit_reason,
            r is Err ==> r.unwrap_err() == ProtocolError::UnknownExitStatus(t.status),
    {
        match ExitStatus::from_code(t.status) {
            Some(status) => Ok(RunResult { exit_status: status, exit_reason: t.exit_reason }),
            None => Err(ProtocolError::UnknownExitStatus(t.status)),
        }
    }
}

/// The portable exit state that one tunnel record decodes to. Port I/O
/// carries its packed-array description; the legacy memory-mapped form
/// carries the guest address with an unknown width of zero; the fast form
/// carries address, width and direction from the I/O buffer record; a
/// halt maps to the portable halt, a state change to a terminal
/// shutdown; everything else is carried through as an unknown exit, with
/// the raw hardware reason as payload where the driver supplies one.
pub open spec fn spec_dispatch_hax(t: Tunnel, fast: FastMmio) -> ExitState {
    if t.status == 1 {
        ExitState::IoPortRequest {
            port: t.pio.port,
            output: t.pio.direction == 1,
            size: t.pio.size,
            count: t.pio.count as u32,
            payload_offset: t.pio.vaddr,
        }
    } else if t.status == 2 {
        ExitState::Mmio { guest_addr: t.gla, width: 0, write: false }
    } else if t.status == 5 {
        ExitState::Unknown(t.exit_reason as u64)
    } else if t.status == 6 {
        ExitState::Halt
    } else if t.status == 7 {
        ExitState::Shutdown
    } else if t.status == 9 {
        ExitState::Mmio { guest_addr: fast.gpa, width: fast.size as u32, write: fast.direction
            == 1 }
    } else {
        ExitState::Unknown(t.status as u64)
    }
}

/// Decodes one tunnel record, and the fast memory-mapped record beside
/// it, into the portable exit state.
pub fn dispatch_hax_exit(t: &Tunnel, fast: &FastMmio) -> (e: ExitState)
    ensures
        e == spec_dispatch_hax(*t, *fast),
{
    if t.status == 1 {
        ExitState::IoPortRequest {
            port: t.pio.port,
            output: t.pio.direction == 1,
            size: t.pio.size,
            count: t.pio.count as u32,
            payload_offset: t.pio.vaddr,
        }
    } else if t.status == 2 {
        ExitState::Mmio { guest_addr: t.gla, width: 0, write: false }
    } else if t.status == 5 {
        ExitState::Unknown(t.exit_reason as u64)
    } else if t.status == 6 {
        ExitState::Halt
    } else if t.status == 7 {
        ExitState::Shutdown
    } else if t.status == 9 {
        ExitState::Mmio {
            guest_addr: fast.gpa,
            width: fast.size as u32,
            write: fast.direction == 1,
        }
    } else {
        ExitState::Unknown(t.status as u64)
    }
}

/// The size in bytes of the tunnel record this client understands; a
/// driver reporting a smaller tunnel cannot be used.
pub const TUNNEL_RECORD_BYTES: u16 = 48;

/// The record in which the driver reports the tunnel it has set up for a
/// virtual CPU.
#[derive(Debug, Clone, Copy, PartialEq, Eq, Structural)]
pub struct TunnelInfo {
    /// The address of the tunnel record in the client's address space.
    pub tunnel_addr: u64,
    /// The address of the I/O buffer in the client's address space.
    pub io_buffer_addr: u64,
    /// The size of the tunnel record in bytes.
    pub size: u16,
}

impl TunnelInfo {
    /// Checks a reported tunnel: it must be at least as large as the
    /// record this client reads, and neither address may be null.
    pub fn validate(&self) -> (r: Result<(), ProtocolError>)
        ensures
            r is Ok <==> (self.size >= TUNNEL_RECORD_BYTES && self.tunnel_addr != 0
                && self.io_buffer_addr != 0),
            r is Err ==> r.unwrap_err() == if self.size < TUNNEL_RECORD_BYTES {
                ProtocolError::TunnelTooSmall
            } else {
                ProtocolError::NullTunnelAddress
            },
    {
        if self.size < TUNNEL_RECORD_BYTES {
            Err(ProtocolError::TunnelTooSmall)
        } else if self.tunnel_addr == 0 || self.io_buffer_addr == 0 {
            Err(ProtocolError::NullTunnelAddress)
        } else {
            Ok(())
        }
    }
}

} // verus!
