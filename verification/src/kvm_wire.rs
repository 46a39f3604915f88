//! Wire records and codes of the generic-syscall backend.
//!
//! This backend is driven through a single device-control system call whose
//! 32-bit codes combine a nominal type tag with a function number. Its
//! records differ from the vendor driver's: general registers stand in a
//! different order and segment access bits arrive split into a type nibble
//! and separate flag fields.

use vstd::prelude::*;

verus! {

/// The nominal type tag of every control code of this backend.
pub const KVM_IO: u8 = 0xAE;

/// Builds a control code for an operation without an argument record:
/// the type tag shifted into the second byte, combined with the function
/// number, with the direction and size fields zero.
pub fn create_kvm_io_code(function: u8) -> (code: u32)
    ensures
        code == ((KVM_IO as u32) << 8u32) | (function as u32),
{
    ((KVM_IO as u32) << 8u32) | (function as u32)
}

/// The direction field of a control code: how the kernel treats the
/// argument record the call carries.
#[derive(Debug, Clone, Copy, PartialEq, Eq, Structural)]
pub enum IoctlDirection {
    /// The call carries no argument record.
    NoData,
    /// The kernel reads the record the caller wrote.
    Write,
    /// The kernel fills the record for the caller to read.
    Read,
    /// The kernel both reads and fills the record.
    ReadWrite,
}

impl IoctlDirection {
    /// The two-bit field value of this direction.
    pub open spec fn spec_bits(self) -> u32 {
        match self {
            IoctlDirection::NoData => 0,
            IoctlDirection::Write => 1,
            IoctlDirection::Read => 2,
            IoctlDirection::ReadWrite => 3,
        }
    }

    /// The two-bit field value of this direction.
    pub fn bits(self) -> (b: u32)
        ensures
            b == self.spec_bits(),
    {
        match self {
            IoctlDirection::NoData => 0,
            IoctlDirection::Write => 1,
            IoctlDirection::Read => 2,
            IoctlDirection::ReadWrite => 3,
        }
    }
}

/// Builds the full control code for an operation that carries an
/// argument record: the direction in the top two bits, the record's
/// size in the fourteen bits below, then the type tag and the function
/// number. The size field is fourteen bits wide, so no larger record
/// can be encoded.
pub fn create_kvm_io_code_sized(direction: IoctlDirection, function: u8, size: u16) -> (code: u32)
    requires
        size < 0x4000,
    ensures
        code == (direction.spec_bits() << 30u32) | ((size as u32) << 16u32) | ((KVM_IO as u32)
            << 8u32) | (function as u32),
{
    (direction.bits() << 30u32) | ((size as u32) << 16u32) | ((KVM_IO as u32) << 8u32) | (
    function as u32)
}

/// Capabilities the backend can be asked about, by their wire code.
#[derive(Debug, Clone, Copy, PartialEq, Eq, Structural)]
pub enum Capability {
    /// Support for in-kernel interrupt-controller models.
    IrqChip,
    /// Support for allocating guest memory from user space; required, as no
    /// current interface allocates it otherwise.
    UserMemory,
    /// Required for legacy-mode execution on hosts without unrestricted
    /// guest support: a task-state-segment address can be set.
    SetTssAddr,
    /// The soft limit on virtual CPUs per machine.
    MaxRecommendedVCpus,
    /// The maximum number of memory slots per machine.
    MaxMemSlots,
    /// An identity-map address can be set.
    SetIdentityMapAddress,
    /// The hard limit on virtual CPUs per machine.
    MaxVCpus,
    /// Support for read-only memory slots.
    ReadOnlyMemory,
    /// The processor-identification table can be queried for emulated
    /// entries.
    EmulateCpuid,
    /// Capability queries can be issued on a machine handle; required for
    /// machine-scoped checks.
    CheckExtensionVM,
    /// Multiple guest address spaces; the value is their maximum number.
    MultiAddressSpace,
    /// The maximum id a virtual CPU may carry.
    MaxVCpuId,
}

impl Capability {
    /// The wire code of this capability.
    pub open spec fn spec_code(self) -> u32 {
        match self {
            Capability::IrqChip => 0,
            Capability::UserMemory => 3,
            Capability::SetTssAddr => 4,
            Capability::MaxRecommendedVCpus => 9,
            Capability::MaxMemSlots => 10,
            Capability::SetIdentityMapAddress => 37,
            Capability::MaxVCpus => 66,
            Capability::ReadOnlyMemory => 81,
            Capability::EmulateCpuid => 95,
            Capability::CheckExtensionVM => 105,
            Capability::MultiAddressSpace => 118,
            Capability::MaxVCpuId => 128,
        }
    }

    /// The wire code of this capability.
    pub fn code(self) -> (c: u32)
        ensures
            c == self.spec_code(),
    {
        match self {
            Capability::IrqChip => 0,
            Capability::UserMemory => 3,
            Capability::SetTssAddr => 4,
            Capability::MaxRecommendedVCpus => 9,
            Capability::MaxMemSlots => 10,
            Capability::SetIdentityMapAddress => 37,
            Capability::MaxVCpus => 66,
            Capability::ReadOnlyMemory => 81,
            Capability::EmulateCpuid => 95,
            Capability::CheckExtensionVM => 105,
            Capability::MultiAddressSpace => 118,
            Capability::MaxVCpuId => 128,
        }
    }
}

/// The stable-interface extensions of the backend that this client knows,
/// a compatibility alias kept for the older query path.
#[derive(Debug, Clone, Copy, PartialEq, Eq, Structural)]
pub enum Extension {
    /// Support for allocating guest memory from user space.
    UserMemory,
    /// The soft limit on virtual CPUs per machine.
    MaxVCPUs,
    /// Support for read-only memory slots.
    ReadOnlyMemory,
}

impl Extension {
    /// The wire code of this extension.
    pub fn code(self) -> (c: u32)
        ensures
            c == match self {
                Extension::UserMemory => 3u32,
                Extension::MaxVCPUs => 9u32,
                Extension::ReadOnlyMemory => 81u32,
            },
    {
        match self {
            Extension::UserMemory => 3,
            Extension::MaxVCPUs => 9,
            Extension::ReadOnlyMemory => 81,
        }
    }
}

/// The general-register record of this backend.
///
/// The wire order differs from the canonical one: accumulator, base,
/// counter, data, source index, destination index, stack pointer, base
/// pointer, then the numbered upper registers.
#[derive(Debug, Clone, Copy, PartialEq, Eq)]
#[verifier::ext_equal]
pub struct Registers {
    /// The sixteen general registers in wire order.
    pub r: [u64; 16],
    /// The instruction pointer.
    pub ip: u64,
    /// The raw flags word.
    pub flags: u64,
}

/// One segment descriptor as this backend carries it: the four type bits
/// packed into a nibble, the remaining access bits as separate fields.
#[derive(Debug, Clone, Copy, PartialEq, Eq, Structural)]
pub struct Segment {
    /// The starting address of the segment.
    pub base: u64,
    /// The size of the memory segment.
    pub limit: u32,
    /// The index of the descriptor in the global descriptor table.
    pub selector: u16,
    /// The descriptor type nibble: accessed, write or read, direction or
    /// conforming, code or data, from bit zero upwards.
    pub type_bits: u8,
    /// True if the segment is present.
    pub present: bool,
    /// The descriptor privilege level.
    pub priv_level: u8,
    /// True for a user segment, false for a system segment.
    pub user_system: bool,
    /// True for a long-mode segment.
    pub long: bool,
    /// Operand size: false for 16-bit, true for 32-bit operands.
    pub op_size: bool,
    /// Granularity: false for bytes, true for 4-KiB units.
    pub granularity: bool,
    /// A bit left available to the operating system.
    pub available: bool,
    /// Set by the kernel for a descriptor that cannot be used.
    pub unusable: bool,
    /// Reserved; kept zero.
    pub padding: u8,
}

/// A descriptor-table register: a base address and a limit.
#[derive(Debug, Clone, Copy, PartialEq, Eq)]
#[verifier::ext_equal]
pub struct DescriptorTable {
    /// The base address of the table.
    pub base: u64,
    /// The table limit in bytes.
    pub limit: u16,
    /// Reserved; kept zero.
    pub padding: [u16; 3],
}

/// The segment, descriptor-table and control-register record of this
/// backend.
#[derive(Debug, Clone, Copy, PartialEq, Eq)]
#[verifier::ext_equal]
pub struct SpecialRegisters {
    /// The code segment.
    pub cs: Segment,
    /// The data segment.
    pub ds: Segment,
    /// The first extra segment.
    pub es: Segment,
    /// The second extra segment.
    pub fs: Segment,
    /// The third extra segment.
    pub gs: Segment,
    /// The stack segment.
    pub ss: Segment,
    /// The task register; not synchronized.
    pub tr: Segment,
    /// The local descriptor table; not synchronized.
    pub ldt: Segment,
    /// The global descriptor table register; not synchronized.
    pub gdt: DescriptorTable,
    /// The interrupt descriptor table register; not synchronized.
    pub idt: DescriptorTable,
    /// Control register 0.
    pub cr0: u64,
    /// Control register 2.
    pub cr2: u64,
    /// Control register 3.
    pub cr3: u64,
    /// Control register 4.
    pub cr4: u64,
    /// The task-priority register.
    pub cr8: u64,
    /// The extended-feature-enable register.
    pub efer: u64,
    /// The local-interrupt-controller base register.
    pub apic_base: u64,
    /// A bitmap of pending external interrupts; at most one bit set.
    pub interrupt_bitmap: [u64; 4],
}

/// The FPU and SSE record of this backend.
#[derive(Debug, Clone, Copy, PartialEq, Eq)]
#[verifier::ext_equal]
pub struct FpuState {
    /// The x87 register stack, each entry in two 64-bit halves.
    pub regs: [[u64; 2]; 8],
    /// The control word.
    pub control_word: u16,
    /// The status word.
    pub status_word: u16,
    /// The tag word in its compact one-byte form.
    pub tag_word: u8,
    /// Reserved; kept zero.
    pub reserved1: u8,
    /// The last opcode; the low eleven bits are meaningful.
    pub last_opcode: u16,
    /// The last instruction pointer.
    pub last_ip: u64,
    /// The last data pointer.
    pub last_dp: u64,
    /// The SSE registers, each in two 64-bit halves.
    pub xmm: [[u64; 2]; 16],
    /// The SSE control and status word.
    pub mxcsr: u32,
    /// Reserved; kept zero.
    pub reserved2: u32,
}

/// A guest physical memory slot record. Regions in one address space must
/// not overlap.
#[derive(Debug, Clone, Copy, PartialEq, Eq, Structural)]
pub struct MemoryRegion {
    /// The slot to be added or changed.
    pub slot: u16,
    /// The address space this region belongs to.
    pub addr_space: u16,
    /// The properties of the region.
    pub flags: u16,
    /// Reserved; kept zero.
    pub padding: u16,
    /// The address in the guest's physical address space.
    pub guest_phys_addr: u64,
    /// The size of the region in bytes; zero when the read-only flag marks
    /// the slot as a placeholder.
    pub memory_size: u64,
    /// The starting address of the host memory backing the region.
    pub host_virt_addr: u64,
}

/// Region flag: the kernel keeps track of writes to the slot.
pub const MEM_LOG_DIRTY_PAGES: u16 = 0x1;
/// Region flag: the slot is read-only and writes notify user space.
pub const MEM_READ_ONLY: u16 = 0x2;

} // verus!
