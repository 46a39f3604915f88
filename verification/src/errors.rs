//! Error taxonomy of the client.
//!
//! Each family says how a caller should react: a connection error is fatal at
//! startup, a capability error is fatal for the failing construction step, an
//! I/O error carries the raw operating-system code verbatim, a protocol error
//! marks a kernel reply that violates the expected contract, and a fatal
//! virtual-machine error marks a virtual CPU that must be discarded.

use vstd::prelude::*;

verus! {

/// A failure to establish a connection to a backend.
#[derive(Debug, Clone, Copy, PartialEq, Eq, Structural)]
pub enum ConnectionError {
    /// The backend device could not be opened.
    DeviceMissing,
    /// The reported protocol version falls outside the supported window.
    UnsupportedVersion,
}

/// A required feature that the backend does not support.
///
/// The payload is the numeric capability code that reported zero.
#[derive(Debug, Clone, Copy, PartialEq, Eq, Structural)]
pub enum CapabilityError {
    /// The capability with the given code reported zero.
    MissingCapability(u32),
    /// The backend reports itself as not working because a host processor
    /// feature is absent; the payload names the failing feature.
    HostFeatureAbsent(HostFeature),
    /// The backend's memory quota is below what a guest needs.
    MemoryQuotaTooSmall,
}

/// Host processor features that the vendor driver depends on.
#[derive(Debug, Clone, Copy, PartialEq, Eq, Structural)]
pub enum HostFeature {
    /// Hardware virtual-machine extensions.
    VirtualMachineExtensions,
    /// The no-execute page protection feature.
    NoExecute,
    /// Guest execution without protected-mode entry requirements.
    UnrestrictedGuest,
}

/// A kernel reply that violates the expected protocol.
#[derive(Debug, Clone, Copy, PartialEq, Eq, Structural)]
pub enum ProtocolError {
    /// A bounded-array read updated fewer entries than were requested.
    MsrCountMismatch,
    /// A reply contained a register number the client does not recognize.
    UnknownMsr(u32),
    /// A reply's flags word holds bits outside the architectural mask.
    InvalidFlags,
    /// A device transfer returned a different byte count than the record size.
    SizeMismatch,
    /// An exit-status code this client does not model.
    UnknownExitStatus(u32),
    /// A run-state tunnel smaller than the client's record layout.
    TunnelTooSmall,
    /// A null address where the kernel owes a mapped page.
    NullTunnelAddress,
}

/// An exit reason after which the virtual CPU must be discarded.
#[derive(Debug, Clone, Copy, PartialEq, Eq, Structural)]
pub enum FatalVmError {
    /// The kernel could not enter guest execution.
    FailedEntry,
    /// An internal error inside the kernel module; the payload is the
    /// module's sub-error code.
    Internal(u32),
    /// An operation was requested on a virtual CPU already torn down.
    VcpuTerminated,
}

/// A rejected guest memory registration.
#[derive(Debug, Clone, Copy, PartialEq, Eq, Structural)]
pub enum MemoryError {
    /// The host range is not page-aligned.
    Misaligned,
    /// The range does not fit the wire record's size field.
    TooLarge,
    /// The registration would change the range of a slot that is still
    /// live; a live slot's range changes only through removal.
    LiveSlotChanged,
    /// The guest range overlaps a different, already registered slot.
    Overlap,
}

/// The union of every failure the client can report.
#[derive(Debug, Clone, Copy, PartialEq, Eq, Structural)]
pub enum Error {
    /// A failure to establish a connection.
    Connection(ConnectionError),
    /// A required feature is absent.
    Capability(CapabilityError),
    /// A failed handle operation or control call; the payload is the raw
    /// operating-system error code.
    Io(i32),
    /// A kernel reply violated the expected protocol.
    Protocol(ProtocolError),
    /// The affected virtual CPU must be discarded.
    Fatal(FatalVmError),
    /// A rejected guest memory registration.
    Memory(MemoryError),
    /// An interrupt injection was requested while the virtual CPU had not
    /// reported readiness for one; the request is refused, never queued.
    NotReadyForInterrupt,
}

} // verus!
