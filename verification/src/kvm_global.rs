//! The device-level connection to the generic-syscall backend.
//!
//! This backend's interface version must match exactly; nothing older or
//! newer is accepted. The device-scoped capability checks are decided
//! here from query results the caller reads off the device; machine-scoped
//! capabilities must be re-queried on the machine handle, since their
//! values can depend on machine state.

use vstd::prelude::*;

use crate::errors::{CapabilityError, ConnectionError, Error};
use crate::kvm_wire::Capability;

verus! {

/// The one interface version this client speaks.
pub const API_VERSION: u32 = 12;

/// The smallest run-state mapping this client can work with: it must
/// cover at least the fields the client reads after a run call.
pub const RUN_STATE_MIN_BYTES: usize = 64;

/// Decides whether a reported interface version is usable: it must
/// match this client's version exactly.
pub fn check_api_version(reported: u32) -> (r: Result<(), Error>)
    ensures
        r is Ok <==> reported == API_VERSION,
        r is Err ==> r.unwrap_err() == Error::Connection(ConnectionError::UnsupportedVersion),
{
    if reported == API_VERSION {
        Ok(())
    } else {
        Err(Error::Connection(ConnectionError::UnsupportedVersion))
    }
}

/// Decides a capability requirement from its query result: any non-zero
/// value counts as supported; zero fails with the capability's code.
pub fn require_capability(cap: Capability, value: u32) -> (r: Result<(), Error>)
    ensures
        r is Ok <==> value != 0,
        r is Err ==> r.unwrap_err() == Error::Capability(
            CapabilityError::MissingCapability(cap.spec_code()),
        ),
{
    if value == 0 {
        Err(Error::Capability(CapabilityError::MissingCapability(cap.code())))
    } else {
        Ok(())
    }
}

/// Reads an extension-support query's result: a failed query counts as
/// unsupported rather than an error, as the stable interface promises
/// nothing about unknown extensions.
pub fn extension_supported_value(query: Result<u32, i32>) -> (r: u32)
    ensures
        query is Ok ==> r == query.unwrap(),
        query is Err ==> r == 0,
{
    match query {
        Ok(value) => value,
        Err(_) => 0,
    }
}

/// Decides whether a reported run-state mapping size is large enough
/// for the record this client reads.
pub fn vcpu_mmap_size_ok(reported: usize) -> (r: bool)
    ensures
        r == (reported >= RUN_STATE_MIN_BYTES),
{
    reported >= RUN_STATE_MIN_BYTES
}

/// The capabilities every connection requires at the device scope:
/// machine-handle queries and the emulated identification table.
pub fn required_capabilities() -> (r: Vec<Capability>)
    ensures
        r@ =~= seq![Capability::CheckExtensionVM, Capability::EmulateCpuid],
{
    let mut v: Vec<Capability> = Vec::new();
    v.push(Capability::CheckExtensionVM);
    v.push(Capability::EmulateCpuid);
    v
}

/// The negotiated device-level connection: the device handle, held for
/// the life of the connection.
#[derive(Debug, Clone, Copy, PartialEq, Eq, Structural)]
pub struct Global {
    /// The raw device handle, owned exclusively by this connection.
    pub handle: i64,
}

impl Global {
    /// Decides a connection from what the caller read off a freshly
    /// opened device: the reported version, then the two required
    /// capability values, in order. On failure the handle is handed back
    /// so the caller can close it — a failed negotiation leaves no
    /// handle behind.
    pub fn establish(handle: i64, reported_version: u32, check_extension_vm: u32, emulate_cpuid:
        u32) -> (r: Result<Global, (Error, i64)>)
        ensures
            r is Ok <==> (reported_version == API_VERSION && check_extension_vm != 0
                && emulate_cpuid != 0),
            r is Ok ==> r.unwrap().handle == handle,
            r is Err ==> r.unwrap_err().1 == handle,
            r is Err ==> r.unwrap_err().0 == if reported_version != API_VERSION {
                Error::Connection(ConnectionError::UnsupportedVersion)
            } else if check_extension_vm == 0 {
                Error::Capability(
                    CapabilityError::MissingCapability(Capability::CheckExtensionVM.spec_code()),
                )
            } else {
                Error::Capability(
                    CapabilityError::MissingCapability(Capability::EmulateCpuid.spec_code()),
                )
            },
    {
        match check_api_version(reported_version) {
            Ok(_) => {},
            Err(e) => {
                return Err((e, handle));
            },
        }

        match require_capability(Capability::CheckExtensionVM, check_extension_vm) {
            Ok(_) => {},
            Err(e) => {
                return Err((e, handle));
            },
        }

        match require_capability(Capability::EmulateCpuid, emulate_cpuid) {
            Ok(_) => {},
            Err(e) => {
                return Err((e, handle));
            },
        }

        Ok(Global { handle })
    }

    /// Gives the device handle up for closing; the connection ends.
    pub fn release(self) -> (h: i64)
        ensures
            h == self.handle,
    {
        self.handle
    }
}

} // verus!
