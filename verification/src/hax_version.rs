//! Protocol-version negotiation with the vendor driver.
//!
//! The driver reports its current version and the minimum version it still
//! accepts; the client holds a static window of its own. A driver too old or
//! a driver whose minimum lies above this client's current version is
//! rejected before anything else is done on the connection.

use vstd::prelude::*;

use crate::errors::ConnectionError;

verus! {

/// A protocol version of the vendor driver that this client understands.
#[derive(Debug, Clone, Copy, PartialEq, Eq, Structural)]
pub enum HaxVersion {
    /// The fourth protocol revision: supports unmapping and fast
    /// memory-mapped moves.
    V4,
}

impl HaxVersion {
    /// The numeric value of this version on the wire.
    pub open spec fn spec_number(self) -> u32 {
        match self {
            HaxVersion::V4 => 4,
        }
    }

    /// The numeric value of this version on the wire.
    pub fn number(self) -> (n: u32)
        ensures
            n == self.spec_number(),
    {
        match self {
            HaxVersion::V4 => 4,
        }
    }
}

/// The newest protocol version this client implements.
pub const HAX_CURRENT_VERSION: u32 = 4;

/// The oldest driver version this client still accepts.
pub const HAX_MINIMUM_VERSION: u32 = 4;

/// The version record the driver reports on a version query.
#[derive(Debug, Clone, Copy, PartialEq, Eq, Structural)]
pub struct GetHaxVersion {
    /// The minimum version the driver still accepts from a client.
    pub compat_version: u32,
    /// The version the driver itself implements.
    pub current_version: u32,
}

impl GetHaxVersion {
    /// Whether the driver's version is too old for this client.
    pub fn too_old(&self) -> (r: bool)
        ensures
            r == (self.current_version < HAX_MINIMUM_VERSION),
    {
        self.current_version < HAX_MINIMUM_VERSION
    }

    /// Whether the driver demands a newer client than this one.
    pub fn too_new(&self) -> (r: bool)
        ensures
            r == (HAX_CURRENT_VERSION < self.compat_version),
    {
        HAX_CURRENT_VERSION < self.compat_version
    }

    /// Whether the reported window and the client's window overlap.
    pub open spec fn acceptable(self) -> bool {
        self.current_version >= HAX_MINIMUM_VERSION
            && self.compat_version <= HAX_CURRENT_VERSION
    }

    /// Decides whether a connection may proceed on this version report:
    /// a driver below the client's minimum, or one whose own minimum lies
    /// above the client's current version, is rejected.
    pub fn check(&self) -> (r: Result<(), ConnectionError>)
        ensures
            r is Ok <==> self.acceptable(),
            r is Err ==> r.unwrap_err() == ConnectionError::UnsupportedVersion,
    {
        if self.too_old() {
            Err(ConnectionError::UnsupportedVersion)
        } else if self.too_new() {
            Err(ConnectionError::UnsupportedVersion)
        } else {
            Ok(())
        }
    }
}

/// The record in which the client reports its own window to the driver
/// after creating a virtual machine.
#[derive(Debug, Clone, Copy, PartialEq, Eq, Structural)]
pub struct NotifyVersion {
    /// The version this client implements.
    pub current: u32,
    /// The minimum version this client accepts.
    pub minimum: u32,
}

impl NotifyVersion {
    /// Builds the client's version report.
    pub fn new() -> (r: Self)
        ensures
            r.current == HAX_CURRENT_VERSION,
            r.minimum == HAX_MINIMUM_VERSION,
    {
        NotifyVersion { current: HAX_CURRENT_VERSION, minimum: HAX_MINIMUM_VERSION }
    }
}

} // verus!
