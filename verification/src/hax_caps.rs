//! The capability snapshot of the vendor driver.
//!
//! The driver answers one capability query per connection with a status
//! word, a failure word valid only when the driver is not working, and an
//! optional memory quota. The snapshot is taken once and read afterwards;
//! it is never re-queried.

use vstd::prelude::*;

use crate::errors::{CapabilityError, HostFeature};

verus! {

/// The smallest memory quota under which a guest cannot be run.
pub const MINIMUM_MEMORY_QUOTA: u64 = 0x2000_0000;

/// The capability record the vendor driver reports.
#[derive(Debug, Clone, Copy, PartialEq, Eq, Structural)]
pub struct CapabilityInfo {
    /// Bit zero: the driver is working. Bit one: a memory quota is set and
    /// the quota field is valid.
    pub status: u16,
    /// Valid only when the driver is not working. Bit zero: the
    /// virtual-machine extensions are disabled. Bit one: no-execute is
    /// disabled. Bit two: the unrestricted-guest feature is available.
    pub fail_info: u16,
    /// The memory quota in bytes, valid when bit one of the status is set.
    pub memory_quota: u64,
}

impl CapabilityInfo {
    /// Whether the driver reports itself as working.
    pub fn working(&self) -> (r: bool)
        ensures
            r == ((self.status & 1) != 0),
    {
        (self.status & 1) != 0
    }

    /// The driver's memory quota, if one is enforced.
    pub fn memory_limit(&self) -> (r: Option<u64>)
        ensures
            r is Some <==> (self.status & 2) != 0,
            r is Some ==> r.unwrap() == self.memory_quota,
    {
        if (self.status & 2) != 0 {
            Some(self.memory_quota)
        } else {
            None
        }
    }

    /// Whether the host has the virtual-machine extensions enabled. A
    /// working driver implies they are.
    pub fn vt_x_enabled(&self) -> (r: bool)
        ensures
            r == if (self.status & 1) == 0 {
                (self.fail_info & 1) == 0
            } else {
                true
            },
    {
        if !self.working() {
            (self.fail_info & 1) == 0
        } else {
            true
        }
    }

    /// Whether the host has no-execute page protection enabled. A working
    /// driver implies it has.
    pub fn nx_enabled(&self) -> (r: bool)
        ensures
            r == if (self.status & 1) == 0 {
                (self.fail_info & 2) == 0
            } else {
                true
            },
    {
        if !self.working() {
            (self.fail_info & 2) == 0
        } else {
            true
        }
    }

    /// Whether the host processor supports unrestricted guest execution.
    /// A working driver implies it does.
    pub fn ug_enabled(&self) -> (r: bool)
        ensures
            r == if (self.status & 1) == 0 {
                (self.fail_info & 4) != 0
            } else {
                true
            },
    {
        if !self.working() {
            (self.fail_info & 4) != 0
        } else {
            true
        }
    }

    /// Whether the snapshot lets a connection proceed: either the driver is
    /// working, or none of the three host features it needs is reported
    /// missing; and any enforced memory quota is large enough.
    pub open spec fn acceptable(self) -> bool {
        &&& (self.status & 1) == 0 ==> {
            &&& (self.fail_info & 1) == 0
            &&& (self.fail_info & 2) == 0
            &&& (self.fail_info & 4) != 0
        }
        &&& (self.status & 2) != 0 ==> self.memory_quota > MINIMUM_MEMORY_QUOTA
    }

    /// Decides whether a connection may proceed on this snapshot. When the
    /// driver is not working, the first missing host feature is reported,
    /// in the order: virtual-machine extensions, no-execute, unrestricted
    /// guest. An enforced quota at or under the minimum is rejected last.
    pub fn check(&self) -> (r: Result<(), CapabilityError>)
        ensures
            r is Ok <==> self.acceptable(),
            r is Err ==> r.unwrap_err() == if (self.status & 1) == 0 && (self.fail_info & 1)
                != 0 {
                CapabilityError::HostFeatureAbsent(HostFeature::VirtualMachineExtensions)
            } else if (self.status & 1) == 0 && (self.fail_info & 2) != 0 {
                CapabilityError::HostFeatureAbsent(HostFeature::NoExecute)
            } else if (self.status & 1) == 0 && (self.fail_info & 4) == 0 {
                CapabilityError::HostFeatureAbsent(HostFeature::UnrestrictedGuest)
            } else {
                CapabilityError::MemoryQuotaTooSmall
            },
    {
        if !self.working() {
            if !self.vt_x_enabled() {
                return Err(CapabilityError::HostFeatureAbsent(
                    HostFeature::VirtualMachineExtensions,
                ));
            }
            if !self.nx_enabled() {
                return Err(CapabilityError::HostFeatureAbsent(HostFeature::NoExecute));
            }
            if !self.ug_enabled() {
                return Err(CapabilityError::HostFeatureAbsent(HostFeature::UnrestrictedGuest));
            }
        }

        match self.memory_limit() {
            Some(limit) => {
                if limit <= MINIMUM_MEMORY_QUOTA {
                    Err(CapabilityError::MemoryQuotaTooSmall)
                } else {
                    Ok(())
                }
            },
            None => Ok(()),
        }
    }
}

} // verus!
