//! The run-state record of the generic-syscall backend and its dispatch
//! into the portable exit state.
//!
//! The kernel shares a run-state page with the client; after every run
//! call the page holds an exit reason and a payload union. The raw union
//! is never shown to callers: it is read once, each interpretation carried
//! as a plain field, and decoded here into exactly one tagged result.

use vstd::prelude::*;

use crate::accel::{ExitState, InternalErrorKind};
use crate::errors::Error;

verus! {

/// The raw operating-system code for a call interrupted by a signal.
pub const EINTR: i32 = 4;

/// The exit reasons of this backend, by wire code.
#[derive(Debug, Clone, Copy, PartialEq, Eq, Structural)]
pub enum ExitReason {
    /// The hardware exit reason in the payload is the only information.
    Unknown,
    /// Port I/O must be emulated.
    Io,
    /// A debug event occurred.
    Debug,
    /// The guest executed a halt instruction.
    Hlt,
    /// The guest touched memory-mapped I/O space.
    Mmio,
    /// The window for interrupt injection opened.
    IrqWindowOpen,
    /// The guest shut the machine down.
    Shutdown,
    /// The kernel could not enter guest execution.
    FailEntry,
    /// An interrupt arrived.
    Interrupt,
    /// The guest set the task-priority register.
    SetTpr,
    /// The guest accessed the task-priority register.
    TprAccess,
    /// A non-maskable interrupt arrived.
    Nmi,
    /// An internal error occurred in the kernel module.
    InternalError,
}

impl ExitReason {
    /// The wire code of this exit reason.
    pub open spec fn spec_code(self) -> u32 {
        match self {
            ExitReason::Unknown => 0,
            ExitReason::Io => 2,
            ExitReason::Debug => 4,
            ExitReason::Hlt => 5,
            ExitReason::Mmio => 6,
            ExitReason::IrqWindowOpen => 7,
            ExitReason::Shutdown => 8,
            ExitReason::FailEntry => 9,
            ExitReason::Interrupt => 10,
            ExitReason::SetTpr => 11,
            ExitReason::TprAccess => 12,
            ExitReason::Nmi => 16,
            ExitReason::InternalError => 17,
        }
    }

    /// The wire code of this exit reason.
    pub fn code(self) -> (c: u32)
        ensures
            c == self.spec_code(),
    {
        match self {
            ExitReason::Unknown => 0,
            ExitReason::Io => 2,
            ExitReason::Debug => 4,
            ExitReason::Hlt => 5,
            ExitReason::Mmio => 6,
            ExitReason::IrqWindowOpen => 7,
            ExitReason::Shutdown => 8,
            ExitReason::FailEntry => 9,
            ExitReason::Interrupt => 10,
            ExitReason::SetTpr => 11,
            ExitReason::TprAccess => 12,
            ExitReason::Nmi => 16,
            ExitReason::InternalError => 17,
        }
    }
}

/// A port-I/O exit payload. The kernel expects the caller to service a
/// packed array of `count` elements of `size` bytes at the given offset
/// of the shared page mapping.
#[derive(Debug, Clone, Copy, PartialEq, Eq, Structural)]
pub struct IoState {
    /// True if data flows from the guest to the caller.
    pub direction: bool,
    /// The size of each element in bytes.
    pub size: u8,
    /// The 16-bit I/O port.
    pub port: u16,
    /// The number of elements in the packed array.
    pub count: u32,
    /// The offset of the array within the shared mapping.
    pub data_offset: u64,
}

/// A memory-mapped I/O exit payload.
#[derive(Debug, Clone, Copy, PartialEq, Eq)]
#[verifier::ext_equal]
pub struct MmioState {
    /// The guest physical address of the access.
    pub phys_addr: u64,
    /// The data of the access, meaningful up to its width.
    pub data: [u8; 8],
    /// The width of the access in bytes.
    pub len: u32,
    /// True for a write, false for a read.
    pub is_write: bool,
}

/// The internal-error payloads of this backend, by wire code.
#[derive(Debug, Clone, Copy, PartialEq, Eq, Structural)]
pub enum InternalError {
    /// Emulating an instruction failed; on this architecture that can
    /// mean the host lacks second-level address translation.
    Emulation,
    /// An exception occurred while another was being handled.
    SimultaneousExceptions,
    /// The machine exited during event delivery.
    EventDelivery,
}

impl InternalError {
    /// The wire code of this sub-error.
    pub fn code(self) -> (c: u32)
        ensures
            c == match self {
                InternalError::Emulation => 1u32,
                InternalError::SimultaneousExceptions => 2u32,
                InternalError::EventDelivery => 3u32,
            },
    {
        match self {
            InternalError::Emulation => 1,
            InternalError::SimultaneousExceptions => 2,
            InternalError::EventDelivery => 3,
        }
    }
}

/// Every interpretation of the exit payload union, read once from the
/// shared page. Which field is meaningful depends on the exit reason;
/// the dispatcher chooses exactly one.
#[derive(Debug, Clone, Copy, PartialEq, Eq)]
#[verifier::ext_equal]
pub struct ExitData {
    /// The raw hardware exit reason, meaningful for an unknown exit.
    pub unknown_reason: u64,
    /// The raw hardware reason of a failed entry.
    pub fail_entry_reason: u64,
    /// The port-I/O payload.
    pub io: IoState,
    /// The memory-mapped I/O payload.
    pub mmio: MmioState,
    /// The sub-error code of an internal error.
    pub internal_suberror: u32,
}

/// The run-state record of this backend as the client reads it from the
/// shared page after a run call.
#[derive(Debug, Clone, Copy, PartialEq, Eq)]
#[verifier::ext_equal]
pub struct RunState {
    /// Set by the client to ask the kernel to stop when injection becomes
    /// possible.
    pub request_interrupt_window: bool,
    /// Polled by the kernel right after starting; if set, it exits at
    /// once. Advisory, not a hard preemption guarantee.
    pub immediate_exit: bool,
    /// The wire code of the exit reason.
    pub exit_reason: u32,
    /// True if a requested injection window is now open.
    pub ready_for_interrupt_injection: bool,
    /// The interrupt flag shadow; meaningful only without an in-kernel
    /// interrupt controller.
    pub if_flag: u8,
    /// Machine-specific flags.
    pub flags: u16,
    /// The task-priority shadow; meaningful only without an in-kernel
    /// interrupt controller.
    pub cr8: u64,
    /// The interrupt-controller base shadow; meaningful only without an
    /// in-kernel interrupt controller.
    pub apic_base: u64,
    /// The exit payload.
    pub exit: ExitData,
}

/// The portable exit state that one run-state record decodes to: each
/// modeled wire code maps to its tag with the matching payload
/// interpretation; a code this client does not model is carried through
/// as an unknown exit with the code itself as payload.
pub open spec fn spec_dispatch(run: RunState) -> ExitState {
    if run.exit_reason == 0 {
        ExitState::Unknown(run.exit.unknown_reason)
    } else if run.exit_reason == 2 {
        ExitState::IoPortRequest {
            port: run.exit.io.port,
            output: run.exit.io.direction,
            size: run.exit.io.size as u16,
            count: run.exit.io.count,
            payload_offset: run.exit.io.data_offset,
        }
    } else if run.exit_reason == 5 {
        ExitState::Halt
    } else if run.exit_reason == 6 {
        ExitState::Mmio {
            guest_addr: run.exit.mmio.phys_addr,
            width: run.exit.mmio.len,
            write: run.exit.mmio.is_write,
        }
    } else if run.exit_reason == 8 {
        ExitState::Shutdown
    } else if run.exit_reason == 9 {
        ExitState::InternalError(InternalErrorKind::FailedEntry(run.exit.fail_entry_reason))
    } else if run.exit_reason == 17 {
        ExitState::InternalError(
            if run.exit.internal_suberror == 1 {
                InternalErrorKind::Emulation
            } else if run.exit.internal_suberror == 2 {
                InternalErrorKind::SimultaneousExceptions
            } else if run.exit.internal_suberror == 3 {
                InternalErrorKind::EventDelivery
            } else {
                InternalErrorKind::Other(run.exit.internal_suberror)
            },
        )
    } else {
        ExitState::Unknown(run.exit_reason as u64)
    }
}

/// Decodes one run-state record into the portable exit state.
pub fn dispatch_exit(run: &RunState) -> (e: ExitState)
    ensures
        e == spec_dispatch(*run),
{
    if run.exit_reason == 0 {
        ExitState::Unknown(run.exit.unknown_reason)
    } else if run.exit_reason == 2 {
        ExitState::IoPortRequest {
            port: run.exit.io.port,
            output: run.exit.io.direction,
            size: run.exit.io.size as u16,
            count: run.exit.io.count,
            payload_offset: run.exit.io.data_offset,
        }
    } else if run.exit_reason == 5 {
        ExitState::Halt
    } else if run.exit_reason == 6 {
        ExitState::Mmio {
            guest_addr: run.exit.mmio.phys_addr,
            width: run.exit.mmio.len,
            write: run.exit.mmio.is_write,
        }
    } else if run.exit_reason == 8 {
        ExitState::Shutdown
    } else if run.exit_reason == 9 {
        ExitState::InternalError(InternalErrorKind::FailedEntry(run.exit.fail_entry_reason))
    } else if run.exit_reason == 17 {
        let sub = run.exit.internal_suberror;
        ExitState::InternalError(
            if sub == 1 {
                InternalErrorKind::Emulation
            } else if sub == 2 {
                InternalErrorKind::SimultaneousExceptions
            } else if sub == 3 {
                InternalErrorKind::EventDelivery
            } else {
                InternalErrorKind::Other(sub)
            },
        )
    } else {
        ExitState::Unknown(run.exit_reason as u64)
    }
}

/// What the run loop should do after the run call itself came back.
#[derive(Debug, Clone, Copy, PartialEq, Eq, Structural)]
pub enum RunStep {
    /// The call was interrupted by a signal: host bookkeeping, not a
    /// guest event. Reissue the call; surface nothing.
    Retry,
    /// The call succeeded: read the run-state record and dispatch it.
    ReadExit,
}

/// Decides the run loop's next step from the raw outcome of the run
/// call: a signal interruption is retried transparently, any other
/// failure carries its operating-system code to the caller verbatim.
pub fn run_call_step(outcome: Result<u32, i32>) -> (r: Result<RunStep, Error>)
    ensures
        r is Ok <==> (outcome is Ok || outcome == Err::<u32, i32>(EINTR)),
        outcome is Ok ==> r == Ok::<RunStep, Error>(RunStep::ReadExit),
        outcome == Err::<u32, i32>(EINTR) ==> r == Ok::<RunStep, Error>(RunStep::Retry),
        r is Err ==> outcome is Err && r.unwrap_err() == Error::Io(outcome.unwrap_err()),
{
    match outcome {
        Ok(_) => Ok(RunStep::ReadExit),
        Err(errno) => {
            if errno == EINTR {
                Ok(RunStep::Retry)
            } else {
                Err(Error::Io(errno))
            }
        },
    }
}

} // verus!
