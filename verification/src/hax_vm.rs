//! The virtual-machine model of the vendor driver.
//!
//! A machine owns its numbered device handle; memory is handed to it in
//! two steps — an allocation record naming a host block, then a mapping
//! record placing the block at a guest physical address. Both records are
//! built and validated here; the device calls that carry them happen
//! outside the library.

use vstd::prelude::*;

use crate::errors::MemoryError;
use crate::hax_paths::{get_hax_vcpu_path, spec_hax_vcpu_path};
use crate::memory::{MemoryBlock, MemoryRegion};

verus! {

/// Flag bit: the region can only be read by the guest.
pub const MEMORY_REGION_READ_ONLY: u8 = 0x1;

/// Flag bit: the region is unmapped, for memory-mapped I/O holes.
pub const MEMORY_REGION_INVALID: u8 = 0x80;

/// The properties of one mapped guest region.
#[derive(Debug, Clone, Copy, PartialEq, Eq, Structural)]
pub struct MemoryRegionFlags {
    /// The raw flag bits.
    pub bits: u8,
}

impl MemoryRegionFlags {
    /// No flag set: an ordinary writable mapping.
    pub fn empty() -> (r: Self)
        ensures
            r.bits == 0,
    {
        MemoryRegionFlags { bits: 0 }
    }

    /// The raw flag bits.
    pub fn bits(&self) -> (r: u8)
        ensures
            r == self.bits,
    {
        self.bits
    }
}

/// The record that hands a host memory block to the machine.
#[derive(Debug, Clone, Copy, PartialEq, Eq, Structural)]
pub struct AllocateMemoryInfo {
    /// The length of the block in bytes.
    pub size: u32,
    /// Reserved; kept zero.
    pub padding: u32,
    /// The starting host virtual address of the block.
    pub address: u64,
}

/// The record that maps an allocated block at a guest physical address.
#[derive(Debug, Clone, Copy, PartialEq, Eq)]
#[verifier::ext_equal]
pub struct SetMemoryInfo {
    /// The guest physical address of the mapping.
    pub physical_addr: u64,
    /// The length of the mapping in bytes.
    pub size: u32,
    /// The properties of the mapping.
    pub flags: u8,
    /// Reserved; kept zero.
    pub padding: [u8; 3],
    /// The starting host virtual address of the block.
    pub virtual_addr: u64,
}

/// A virtual machine of the vendor driver: its numbered device handle
/// and its id.
#[derive(Debug, Clone, Copy, PartialEq, Eq, Structural)]
pub struct VirtualMachine {
    /// The raw device handle, owned exclusively by this machine.
    pub handle: i64,
    /// The machine's number, assigned by the driver at creation.
    pub id: i32,
}

impl VirtualMachine {
    /// Wraps a machine's freshly opened device handle and its id.
    pub fn new(handle: i64, id: i32) -> (r: Self)
        ensures
            r.handle == handle,
            r.id == id,
    {
        VirtualMachine { handle, id }
    }

    /// The machine's number.
    pub fn id(&self) -> (r: i32)
        ensures
            r == self.id,
    {
        self.id
    }

    /// Builds the allocation record for a host memory block. The driver's
    /// record carries a 32-bit length, so a larger block is rejected.
    ///
    /// The block cannot be reclaimed while the machine is alive; the
    /// caller keeps it valid until the machine is destroyed.
    pub fn allocate_memory(&self, block: &MemoryBlock) -> (r: Result<AllocateMemoryInfo,
        MemoryError>)
        ensures
            r is Ok <==> block.size <= 0xFFFF_FFFF,
            r is Ok ==> r.unwrap() == (AllocateMemoryInfo {
                size: block.size as u32,
                padding: 0,
                address: block.address as u64,
            }),
            r is Err ==> r.unwrap_err() == MemoryError::TooLarge,
    {
        if block.size > 0xFFFF_FFFF {
            return Err(MemoryError::TooLarge);
        }

        Ok(AllocateMemoryInfo { size: block.size as u32, padding: 0, address: block.address as u64 })
    }

    /// Builds the mapping record for an allocated region. The read-only
    /// flag forces the wire size to zero whatever the host range length:
    /// such a mapping is a placeholder for memory-mapped I/O, not backed
    /// memory. For a backed mapping the driver's record carries a 32-bit
    /// length, so a larger region is rejected.
    pub fn map_memory(&self, region: &MemoryRegion, flags: MemoryRegionFlags) -> (r: Result<
        SetMemoryInfo,
        MemoryError,
    >)
        ensures
            r is Ok <==> (flags.bits & MEMORY_REGION_READ_ONLY != 0 || region.size
                <= 0xFFFF_FFFF),
            r is Ok ==> r.unwrap() == (SetMemoryInfo {
                physical_addr: region.guest_addr as u64,
                size: if flags.bits & MEMORY_REGION_READ_ONLY != 0 {
                    0u32
                } else {
                    region.size as u32
                },
                flags: flags.bits,
                padding: [0u8, 0u8, 0u8],
                virtual_addr: region.host_addr as u64,
            }),
            r is Err ==> r.unwrap_err() == MemoryError::TooLarge,
    {
        let read_only: bool = flags.bits & MEMORY_REGION_READ_ONLY != 0;

        if !read_only && region.size > 0xFFFF_FFFF {
            return Err(MemoryError::TooLarge);
        }

        Ok(
            SetMemoryInfo {
                physical_addr: region.guest_addr as u64,
                size: if read_only {
                    0
                } else {
                    region.size as u32
                },
                flags: flags.bits,
                padding: [0u8, 0u8, 0u8],
                virtual_addr: region.host_addr as u64,
            },
        )
    }

    /// The device path of one of this machine's virtual CPUs; the
    /// caller opens it after asking the driver to create the CPU.
    pub fn vcpu_path(&self, id: i32) -> (r: String)
        requires
            0 <= self.id,
            0 <= id,
        ensures
            r@ == spec_hax_vcpu_path(self.id as int, id as int),
    {
        get_hax_vcpu_path(self.id, id)
    }

    /// Gives the machine's device handle up for closing.
    pub fn release(self) -> (h: i64)
        ensures
            h == self.handle,
    {
        self.handle
    }
}

} // verus!
