//! Host memory handed to a virtual machine, described by plain values.
//!
//! The allocation itself — reserving pages from the host and freeing
//! them — is done outside the library; the library carries the block as
//! its starting address and length and builds the records that hand it
//! to a backend.

use vstd::prelude::*;

verus! {

/// A type for host memory addresses.
pub type HostAddress = usize;

/// A type for guest memory addresses.
pub type GuestAddress = usize;

/// A page-aligned block of host memory given to a virtual machine.
#[derive(Debug, Clone, Copy, PartialEq, Eq, Structural)]
pub struct MemoryBlock {
    /// The starting host address of the block.
    pub address: HostAddress,
    /// The length of the block in bytes.
    pub size: usize,
}

impl MemoryBlock {
    /// Describes an allocated block by its starting address and length.
    pub fn from_raw(address: HostAddress, size: usize) -> (r: Self)
        ensures
            r.address == address,
            r.size == size,
    {
        MemoryBlock { address, size }
    }

    /// The length of the block in bytes.
    pub fn size(&self) -> (r: usize)
        ensures
            r == self.size,
    {
        self.size
    }

    /// Gives the block up as a raw address; the caller takes over its
    /// lifetime.
    pub fn into_raw(self) -> (r: HostAddress)
        ensures
            r == self.address,
    {
        self.address
    }

    /// An unmapped region covering this block.
    pub fn as_region(&self) -> (r: MemoryRegion)
        ensures
            r.host_addr == self.address,
            r.guest_addr == 0,
            r.size == self.size,
    {
        MemoryRegion::new(self.address, self.size)
    }
}

/// A region of host memory and the guest physical address it is mapped
/// at.
#[derive(Debug, Clone, Copy, PartialEq, Eq, Structural)]
pub struct MemoryRegion {
    /// The starting host address of the region.
    pub host_addr: HostAddress,
    /// The guest physical address of the mapping; zero while unmapped.
    pub guest_addr: GuestAddress,
    /// The length of the region in bytes.
    pub size: usize,
}

impl MemoryRegion {
    /// A new, unmapped region.
    pub fn new(host_addr: HostAddress, size: usize) -> (r: Self)
        ensures
            r.host_addr == host_addr,
            r.guest_addr == 0,
            r.size == size,
    {
        MemoryRegion { host_addr, guest_addr: 0, size }
    }

    /// Changes the region's guest mapping address.
    pub fn map(&mut self, guest_addr: GuestAddress)
        ensures
            final(self).guest_addr == guest_addr,
            final(self).host_addr == old(self).host_addr,
            final(self).size == old(self).size,
    {
        self.guest_addr = guest_addr;
    }

    /// The starting host address of the region.
    pub fn host_address(&self) -> (r: HostAddress)
        ensures
            r == self.host_addr,
    {
        self.host_addr
    }

    /// The guest physical address of the mapping.
    pub fn guest_address(&self) -> (r: GuestAddress)
        ensures
            r == self.guest_addr,
    {
        self.guest_addr
    }

    /// The length of the region in bytes.
    pub fn size(&self) -> (r: usize)
        ensures
            r == self.size,
    {
        self.size
    }
}

} // verus!
