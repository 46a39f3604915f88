//! The virtual-machine model of the generic-syscall backend.
//!
//! Construction re-checks the required capabilities at machine scope, in
//! order, and fails without leaking the machine handle. The machine owns
//! the guest memory-slot table and the fixed reserved addresses below the
//! firmware range that hosts without unrestricted-guest support need.

use vstd::prelude::*;

use crate::accel::MemoryRegion as PortableRegion;
use crate::errors::Error;
use crate::kvm_global::require_capability;
use crate::kvm_wire::{Capability, MemoryRegion};
use crate::slots::{slot_index, SlotTable};

verus! {

/// The base of the reserved firmware range in the guest address space.
pub const BIOS_BASE: u64 = 0xFF00_0000;

/// The capabilities every machine requires, re-checked at machine
/// scope: an in-kernel interrupt controller, user-space memory, read-only
/// slots, an identity-map address and a task-state-segment address.
pub fn required_vm_capabilities() -> (r: Vec<Capability>)
    ensures
        r@ =~= seq![
            Capability::IrqChip,
            Capability::UserMemory,
            Capability::ReadOnlyMemory,
            Capability::SetIdentityMapAddress,
            Capability::SetTssAddr,
        ],
{
    let mut v: Vec<Capability> = Vec::new();
    v.push(Capability::IrqChip);
    v.push(Capability::UserMemory);
    v.push(Capability::ReadOnlyMemory);
    v.push(Capability::SetIdentityMapAddress);
    v.push(Capability::SetTssAddr);
    v
}

/// The required machine-scoped capabilities as a sequence, for stating
/// which one a failed construction names.
pub open spec fn spec_required_vm_caps() -> Seq<Capability> {
    seq![
        Capability::IrqChip,
        Capability::UserMemory,
        Capability::ReadOnlyMemory,
        Capability::SetIdentityMapAddress,
        Capability::SetTssAddr,
    ]
}

/// The position of the first zero among five queried values, or five
/// when none is zero.
pub open spec fn spec_first_zero(values: [u32; 5]) -> int {
    if values[0] == 0 {
        0
    } else if values[1] == 0 {
        1
    } else if values[2] == 0 {
        2
    } else if values[3] == 0 {
        3
    } else if values[4] == 0 {
        4
    } else {
        5
    }
}

/// A virtual machine of the generic-syscall backend: its kernel handle
/// and its guest memory-slot table.
#[derive(Debug)]
pub struct VirtualMachine {
    /// The raw kernel handle, owned exclusively by this machine.
    pub handle: i64,
    /// The guest memory-slot table.
    pub slots: SlotTable,
}

impl VirtualMachine {
    /// The machine's invariant: its slot table is well formed.
    pub open spec fn wf(self) -> bool {
        self.slots.wf()
    }

    /// Decides a machine from the five machine-scoped capability values
    /// the caller queried, in the order of the required list. On failure
    /// the handle is handed back so the caller can close it —
    /// construction never leaks a kernel handle.
    pub fn establish(handle: i64, values: [u32; 5]) -> (r: Result<VirtualMachine, (Error, i64)>)
        ensures
            r is Ok <==> forall|i: int| 0 <= i < 5 ==> values[i] != 0,
            r is Ok ==> r.unwrap().handle == handle && r.unwrap().slots.slots@.len() == 0
                && r.unwrap().wf(),
            r is Err ==> r.unwrap_err().1 == handle,
            r is Err ==> r.unwrap_err().0 == Error::Capability(
                crate::errors::CapabilityError::MissingCapability(
                    spec_required_vm_caps()[spec_first_zero(values)].spec_code(),
                ),
            ),
    {
        let caps = required_vm_capabilities();
        let mut i: usize = 0;

        while i < 5
            invariant
                i <= 5,
                caps@ =~= spec_required_vm_caps(),
                forall|j: int| 0 <= j < i ==> values[j] != 0,
            decreases 5 - i,
        {
            let value = values[i];
            match require_capability(caps[i], value) {
                Ok(_) => {},
                Err(e) => {
                    proof {
                        assert(spec_first_zero(values) == i as int);
                    }
                    return Err((e, handle));
                },
            }
            i = i + 1;
        }

        Ok(VirtualMachine { handle, slots: SlotTable::new() })
    }

    /// The base of the four reserved pages kept just below the firmware
    /// range for the nested paging structures.
    pub fn ept_address(&self) -> (r: u64)
        ensures
            r == BIOS_BASE - 4 * 4096,
    {
        BIOS_BASE - 4 * 4096
    }

    /// The identity-map address the machine registers: the base of the
    /// reserved pages.
    pub fn identity_map_address(&self) -> (r: u64)
        ensures
            r == BIOS_BASE - 4 * 4096,
    {
        self.ept_address()
    }

    /// The task-state-segment address the machine registers: one page
    /// above the reserved base, leaving a three-page region below the
    /// firmware range. It must not collide with any memory slot.
    pub fn tss_address(&self) -> (r: u64)
        ensures
            r == BIOS_BASE - 4 * 4096 + 0x1000,
    {
        self.ept_address() + 0x1000
    }

    /// Registers a block of host memory at a guest physical address and
    /// returns the wire record to send to the kernel. A range that is
    /// misaligned, wraps the guest address space, changes a live slot's
    /// range, or overlaps another slot is rejected, and the table is
    /// unchanged; a live slot moves only through a zero-length removal
    /// and a fresh registration.
    pub fn allocate_memory(&mut self, memory: PortableRegion) -> (r: Result<MemoryRegion, Error>)
        requires
            old(self).wf(),
        ensures
            final(self).wf(),
            final(self).handle == old(self).handle,
            r is Ok <==> old(self).slots.spec_acceptable(memory.slot as u16, memory.host_addr,
                memory.host_len, memory.guest, false, false),
            r is Ok ==> r.unwrap() == SlotTable::spec_wire_record(memory.slot as u16,
                memory.host_addr, memory.host_len, memory.guest, false, false),
            r is Ok ==> ({
                let entry = SlotTable::spec_entry(memory.slot as u16, memory.host_addr,
                    memory.host_len, memory.guest, false, false);
                let idx = slot_index(old(self).slots.slots@, memory.slot as u16);
                if memory.host_len == 0 {
                    if idx >= 0 {
                        final(self).slots.slots@ =~= old(self).slots.slots@.remove(idx)
                    } else {
                        final(self).slots.slots@ =~= old(self).slots.slots@
                    }
                } else {
                    if idx >= 0 {
                        final(self).slots.slots@ =~= old(self).slots.slots@.update(idx, entry)
                    } else {
                        final(self).slots.slots@ =~= old(self).slots.slots@.push(entry)
                    }
                }
            }),
            r is Err ==> final(self).slots.slots@ =~= old(self).slots.slots@,
            r is Err ==> r.unwrap_err() == Error::Memory(
                old(self).slots.spec_register_error(memory.slot as u16, memory.host_addr,
                    memory.host_len, memory.guest, false, false),
            ),
    {
        match self.slots.register(memory.slot as u16, memory.host_addr, memory.host_len,
            memory.guest, false, false) {
            Ok(record) => Ok(record),
            Err(e) => Err(Error::Memory(e)),
        }
    }

    /// Registers a read-only placeholder slot; its wire record carries a
    /// zero size whatever the host range length.
    pub fn allocate_readonly_memory(&mut self, memory: PortableRegion) -> (r: Result<MemoryRegion,
        Error>)
        requires
            old(self).wf(),
        ensures
            final(self).wf(),
            final(self).handle == old(self).handle,
            r is Ok <==> old(self).slots.spec_acceptable(memory.slot as u16, memory.host_addr,
                memory.host_len, memory.guest, true, false),
            r is Ok ==> r.unwrap() == SlotTable::spec_wire_record(memory.slot as u16,
                memory.host_addr, memory.host_len, memory.guest, true, false),
            r is Ok ==> r.unwrap().memory_size == 0,
            r is Ok ==> ({
                let entry = SlotTable::spec_entry(memory.slot as u16, memory.host_addr,
                    memory.host_len, memory.guest, true, false);
                let idx = slot_index(old(self).slots.slots@, memory.slot as u16);
                if idx >= 0 {
                    final(self).slots.slots@ =~= old(self).slots.slots@.update(idx, entry)
                } else {
                    final(self).slots.slots@ =~= old(self).slots.slots@.push(entry)
                }
            }),
            r is Err ==> final(self).slots.slots@ =~= old(self).slots.slots@,
            r is Err ==> r.unwrap_err() == Error::Memory(
                old(self).slots.spec_register_error(memory.slot as u16, memory.host_addr,
                    memory.host_len, memory.guest, true, false),
            ),
    {
        match self.slots.register(memory.slot as u16, memory.host_addr, memory.host_len,
            memory.guest, true, false) {
            Ok(record) => Ok(record),
            Err(e) => Err(Error::Memory(e)),
        }
    }

    /// The soft limit on virtual CPUs, decided from its capability query:
    /// a failed or unsupported query falls back to a conservative four.
    pub fn max_recommended_vcpus(&self, query: Result<u32, i32>) -> (r: usize)
        ensures
            query is Ok ==> r == query.unwrap() as usize,
            query is Err ==> r == 4,
    {
        match query {
            Ok(value) => value as usize,
            Err(_) => 4,
        }
    }

    /// The hard limit on virtual CPUs, decided from its query, falling
    /// back to the soft limit.
    pub fn max_vcpus(&self, query: Result<u32, i32>, recommended_query: Result<u32, i32>) -> (r:
        usize)
        ensures
            query is Ok ==> r == query.unwrap() as usize,
            query is Err ==> r == self.spec_max_recommended(recommended_query),
    {
        match query {
            Ok(value) => value as usize,
            Err(_) => self.max_recommended_vcpus(recommended_query),
        }
    }

    /// The largest id a virtual CPU may carry, decided from its query,
    /// falling back to the hard limit.
    pub fn max_vcpu_ids(&self, query: Result<u32, i32>, max_query: Result<u32, i32>,
        recommended_query: Result<u32, i32>) -> (r: usize)
        ensures
            query is Ok ==> r == query.unwrap() as usize,
            query is Err && max_query is Ok ==> r == max_query.unwrap() as usize,
            query is Err && max_query is Err ==> r == self.spec_max_recommended(
                recommended_query,
            ),
    {
        match query {
            Ok(value) => value as usize,
            Err(_) => self.max_vcpus(max_query, recommended_query),
        }
    }

    /// The soft virtual-CPU limit a query result decides.
    pub open spec fn spec_max_recommended(self, query: Result<u32, i32>) -> usize {
        if query is Ok {
            query.unwrap() as usize
        } else {
            4
        }
    }

    /// Gives the machine's kernel handle up for closing.
    pub fn release(self) -> (h: i64)
        ensures
            h == self.handle,
    {
        self.handle
    }
}

} // verus!
