//! The negotiated connection to the vendor driver.
//!
//! Opening the device, reading the capability and version records and
//! closing handles are device I/O and happen outside the library; the
//! decisions — whether the reports let a connection proceed, and whether
//! a device transfer's reply is sound — are made here. A failed
//! negotiation hands its device handle back to the caller, who must close
//! it: construction never leaks a handle.

use vstd::prelude::*;

use crate::errors::{Error, ProtocolError};
use crate::hax_caps::CapabilityInfo;
use crate::hax_version::GetHaxVersion;

verus! {

/// Checks the outcome of one device transfer: a failed call carries the
/// operating-system error verbatim; a short or long reply violates the
/// protocol, since every record has a fixed size.
pub fn check_transfer(succeeded: bool, os_error: i32, returned_bytes: u32, expected_bytes: u32) -> (r:
    Result<(), Error>)
    ensures
        r is Ok <==> (succeeded && returned_bytes == expected_bytes),
        !succeeded ==> r == Err::<(), Error>(Error::Io(os_error)),
        succeeded && returned_bytes != expected_bytes ==> r == Err::<(), Error>(
            Error::Protocol(ProtocolError::SizeMismatch),
        ),
{
    if !succeeded {
        Err(Error::Io(os_error))
    } else if returned_bytes != expected_bytes {
        Err(Error::Protocol(ProtocolError::SizeMismatch))
    } else {
        Ok(())
    }
}

/// A negotiated connection to the vendor driver: the device handle and
/// the capability and version snapshots, queried once and cached for the
/// life of the connection.
#[derive(Debug, Clone, Copy, PartialEq, Eq, Structural)]
pub struct Connection {
    /// The raw device handle, owned exclusively by this connection.
    pub handle: i64,
    /// The capability snapshot; read-only after negotiation.
    pub caps: CapabilityInfo,
    /// The version record the driver reported.
    pub version: GetHaxVersion,
}

impl Connection {
    /// Decides a connection from the records read off a freshly opened
    /// device: the capability snapshot is checked first, the version
    /// window second. On failure the handle is handed back so the caller
    /// can close it — a failed negotiation leaves no handle behind.
    pub fn establish(handle: i64, caps: CapabilityInfo, version: GetHaxVersion) -> (r: Result<
        Connection,
        (Error, i64),
    >)
        ensures
            r is Ok <==> (caps.acceptable() && version.acceptable()),
            r is Ok ==> r.unwrap() == (Connection { handle, caps, version }),
            r is Err ==> r.unwrap_err().1 == handle,
            r is Err && !caps.acceptable() ==> r.unwrap_err().0 is Capability,
            r is Err && caps.acceptable() ==> r.unwrap_err().0 is Connection,
    {
        match caps.check() {
            Ok(_) => {},
            Err(e) => {
                return Err((Error::Capability(e), handle));
            },
        }

        match version.check() {
            Ok(_) => {},
            Err(e) => {
                return Err((Error::Connection(e), handle));
            },
        }

        Ok(Connection { handle, caps, version })
    }

    /// The cached capability snapshot. This backend's capabilities are
    /// device-scoped, so later checks reuse the snapshot instead of
    /// re-querying the driver.
    pub fn capabilities(&self) -> (r: CapabilityInfo)
        ensures
            r == self.caps,
    {
        self.caps
    }

    /// Gives the device handle up for closing; the connection ends.
    pub fn release(self) -> (h: i64)
        ensures
            h == self.handle,
    {
        self.handle
    }
}

} // verus!
