//! The canonical, backend-neutral processor state.
//!
//! This is the authoritative form of a virtual CPU's state: sixteen general
//! registers in a fixed named order, the instruction pointer, the flags word,
//! six segment descriptors with their access bits broken out as booleans, the
//! control registers, the extended-feature register and the FPU/SSE record.
//! Backend wire layouts are derived from this form and never persisted.

use vstd::prelude::*;

verus! {

// Bits of the flags register. All other bits are reserved.

/// Carry flag, set if the last operation resulted in a carry.
pub const FLAGS_CARRY: u64 = 0x1;
/// Reserved bit that must always be set.
pub const FLAGS_RESERVED_ONE: u64 = 0x2;
/// Parity of the last result.
pub const FLAGS_PARITY: u64 = 0x4;
/// Adjust flag, used for binary-coded decimals.
pub const FLAGS_ADJUST: u64 = 0x10;
/// Set if the last value was zero.
pub const FLAGS_ZERO: u64 = 0x40;
/// Sign of the last result.
pub const FLAGS_SIGN: u64 = 0x80;
/// Stops execution after every instruction, for debugging.
pub const FLAGS_TRAP: u64 = 0x100;
/// Enables or disables external interrupts.
pub const FLAGS_INTERRUPT: u64 = 0x200;
/// If set, repeated string instructions run backwards.
pub const FLAGS_DIRECTION: u64 = 0x400;
/// Set if an operation resulted in an overflow.
pub const FLAGS_OVERFLOW: u64 = 0x800;
/// Privilege level required for port I/O operations, two bits wide.
pub const FLAGS_IO_PRIVILEGE: u64 = 0x3000;
/// Indicates that a system task invoked another through a call.
pub const FLAGS_NESTED_TASK: u64 = 0x4000;
/// Temporarily disables debug exceptions.
pub const FLAGS_RESUME: u64 = 0x1_0000;
/// Virtual real-address compatibility mode.
pub const FLAGS_VIRTUAL_8086: u64 = 0x2_0000;
/// When set, all memory accesses must be aligned.
pub const FLAGS_ALIGNMENT_CHECK: u64 = 0x4_0000;
/// Enables virtual interrupts.
pub const FLAGS_VIRTUAL_INTERRUPT: u64 = 0x8_0000;
/// A virtual interrupt is pending.
pub const FLAGS_VIRTUAL_INTERRUPT_PENDING: u64 = 0x10_0000;
/// The processor supports the identification instruction.
pub const FLAGS_CPUID: u64 = 0x20_0000;

/// Every architecturally defined bit of the flags register.
pub const FLAGS_ALL: u64 = 0x003F_7FD7;

/// The flags register, holding only architecturally defined bits.
#[derive(Debug, Clone, Copy, PartialEq, Eq, Structural)]
pub struct Flags {
    /// The raw flags word.
    pub bits: u64,
}

/// Whether a raw word holds only architecturally defined flag bits.
pub open spec fn flags_bits_valid(bits: u64) -> bool {
    bits & !FLAGS_ALL == 0
}

impl Flags {
    /// Wraps a raw word, rejecting one with reserved bits set.
    pub fn from_bits(bits: u64) -> (r: Option<Flags>)
        ensures
            r is Some <==> flags_bits_valid(bits),
            r is Some ==> r.unwrap().bits == bits,
    {
        if bits & !FLAGS_ALL == 0 {
            Some(Flags { bits })
        } else {
            None
        }
    }

    /// The raw flags word.
    pub fn bits(&self) -> (r: u64)
        ensures
            r == self.bits,
    {
        self.bits
    }
}

impl Default for Flags {
    /// The flags word at processor reset: only the reserved bit is set.
    fn default() -> (r: Self)
        ensures
            r.bits == FLAGS_RESERVED_ONE,
    {
        Flags { bits: FLAGS_RESERVED_ONE }
    }
}

// Bits of control register 0.

/// When set, the processor is in protected mode.
pub const CR0_PROTECTED_MODE: u64 = 0x1;
/// Controls the coprocessor-wait instructions.
pub const CR0_MONITOR_COPROCESSOR: u64 = 0x2;
/// If clear, an x87 FPU is present.
pub const CR0_EMULATION: u64 = 0x4;
/// Allows saving the x87 task context lazily.
pub const CR0_TASK_SWITCHED: u64 = 0x8;
/// Distinguishes the external math coprocessor generation.
pub const CR0_EXTENSION_TYPE: u64 = 0x10;
/// Enables internal x87 floating-point error reporting.
pub const CR0_NUMERIC_ERROR: u64 = 0x20;
/// Prevents ring zero from writing to read-only pages.
pub const CR0_WRITE_PROTECT: u64 = 0x1_0000;
/// Required for alignment checking.
pub const CR0_ALIGNMENT_MASK: u64 = 0x4_0000;
/// Disables write-through caching.
pub const CR0_NOT_WRITE_THROUGH: u64 = 0x2000_0000;
/// Disables memory caching.
pub const CR0_CACHE_DISABLE: u64 = 0x4000_0000;
/// Enables paging.
pub const CR0_PAGING: u64 = 0x8000_0000;

/// Control register 0, carried as a raw word.
#[derive(Debug, Clone, Copy, PartialEq, Eq, Structural)]
pub struct Cr0 {
    /// The raw register value.
    pub bits: u64,
}

impl Default for Cr0 {
    /// The value at processor reset.
    fn default() -> (r: Self)
        ensures
            r.bits == CR0_EXTENSION_TYPE | CR0_NOT_WRITE_THROUGH | CR0_CACHE_DISABLE,
    {
        Cr0 { bits: CR0_EXTENSION_TYPE | CR0_NOT_WRITE_THROUGH | CR0_CACHE_DISABLE }
    }
}

// Bits of control register 4.

/// Enables virtual real-address mode extensions.
pub const CR4_VIRTUAL_8086: u64 = 0x1;
/// Enables protected-mode virtual interrupts.
pub const CR4_VIRTUAL_INTERRUPTS: u64 = 0x2;
/// Restricts the time-stamp counter to ring zero.
pub const CR4_TIME_STAMP_DISABLE: u64 = 0x4;
/// Enables debug-register breaks on I/O access.
pub const CR4_DEBUGGING_EXTENSIONS: u64 = 0x8;
/// Enables large pages outside physical-address extension.
pub const CR4_PAGE_SIZE_EXTENSION: u64 = 0x10;
/// Enables the physical-address extension.
pub const CR4_PHYSICAL_ADDRESS_EXTENSION: u64 = 0x20;
/// Enables machine-check interrupts.
pub const CR4_MACHINE_CHECK_EXCEPTION: u64 = 0x40;
/// Enables global pages.
pub const CR4_PAGE_GLOBAL_ENABLE: u64 = 0x80;
/// Allows performance-monitoring reads at any privilege level.
pub const CR4_PERF_MONITOR_ENABLE: u64 = 0x100;
/// Enables fast FPU state save and restore.
pub const CR4_OS_FXSR: u64 = 0x200;
/// Supports unmasked SIMD floating-point exceptions.
pub const CR4_OS_XMM_EXCEPTIONS: u64 = 0x400;
/// Enables hardware virtual-machine extensions.
pub const CR4_VIRTUAL_MACHINE_EXTENSIONS: u64 = 0x2000;
/// Enables trusted-execution features.
pub const CR4_SAFER_MODE_EXTENSIONS: u64 = 0x4000;
/// Enables the segment-base read and write instructions.
pub const CR4_FS_GS_BASE: u64 = 0x1_0000;
/// Enables process-context identifiers.
pub const CR4_PROCESS_CONTEXT_ID: u64 = 0x2_0000;
/// Supports the extended processor state save area.
pub const CR4_OS_XSAVE: u64 = 0x4_0000;
/// Faults on executing code from a higher ring.
pub const CR4_SM_EXEC_PREVENTION: u64 = 0x10_0000;
/// Faults on accessing data from a higher ring.
pub const CR4_SM_ACCESS_PREVENTION: u64 = 0x20_0000;
/// Enables protection keys.
pub const CR4_PROTECTION_KEY_ENABLE: u64 = 0x40_0000;

/// Control register 4, carried as a raw word.
#[derive(Debug, Clone, Copy, PartialEq, Eq, Structural)]
pub struct Cr4 {
    /// The raw register value.
    pub bits: u64,
}

impl Default for Cr4 {
    /// The value at processor reset: no feature enabled.
    fn default() -> (r: Self)
        ensures
            r.bits == 0,
    {
        Cr4 { bits: 0 }
    }
}

// Bits of the extended-feature-enable register.

/// Enables the fast system-call instructions.
pub const EFER_SYSTEM_CALL: u64 = 0x1;
/// Enables long mode.
pub const EFER_LM_ENABLE: u64 = 0x100;
/// Set while long mode is active.
pub const EFER_LM_ACTIVE: u64 = 0x400;
/// Enables no-execute page protection.
pub const EFER_NX_ENABLE: u64 = 0x800;
/// Enables the secure virtual-machine extensions.
pub const EFER_SVM_ENABLE: u64 = 0x1000;
/// Enables the long-mode segment limit.
pub const EFER_LMSL_ENABLE: u64 = 0x2000;
/// Enables fast FPU save and restore.
pub const EFER_FAST_FXSR: u64 = 0x4000;
/// Enables the translation cache extension.
pub const EFER_TRANSLATION_CACHE: u64 = 0x8000;

/// Every architecturally defined bit of the extended-feature-enable
/// register.
pub const EFER_ALL: u64 = 0xFD01;

/// The extended-feature-enable register, carried as a raw word.
#[derive(Debug, Clone, Copy, PartialEq, Eq, Structural)]
pub struct Efer {
    /// The raw register value.
    pub bits: u64,
}

impl Default for Efer {
    /// The value at processor reset: no feature enabled.
    fn default() -> (r: Self)
        ensures
            r.bits == 0,
    {
        Efer { bits: 0 }
    }
}

/// One segment descriptor with its access bits broken out.
///
/// No backend consumes this form directly; each translator packs or splits
/// the fields into its own wire layout.
#[derive(Debug, Clone, Copy, PartialEq, Eq, Structural)]
pub struct Segment {
    /// The starting address of the segment.
    pub base: u64,
    /// The size of the segment: the range from the base up to the limit
    /// must be valid memory.
    pub limit: u32,
    /// The index of the descriptor in the global descriptor table.
    pub selector: u16,
    /// True if the segment is present.
    pub present: bool,
    /// True for a user segment, false for a system segment.
    pub user_system: bool,
    /// True for code, false for data.
    pub code_data: bool,
    /// Writable for data, readable for code.
    pub write_read: bool,
    /// Direction for data, conforming for code.
    pub direction_conforming: bool,
    /// The descriptor privilege level, two bits wide.
    pub dpl: u8,
    /// True for a long-mode segment.
    pub long: bool,
    /// Operand size: false for 16-bit, true for 32-bit operands.
    pub op_size: bool,
    /// Granularity: false for bytes, true for 4-KiB units.
    pub granularity: bool,
    /// Set by the processor when the segment is accessed.
    pub accessed: bool,
    /// A bit left available to the operating system.
    pub available: bool,
}

impl Segment {
    /// Whether the descriptor is within architectural bounds: the privilege
    /// level fits its two-bit field.
    pub open spec fn wf(self) -> bool {
        self.dpl < 4
    }
}

impl Default for Segment {
    /// A cleared descriptor.
    fn default() -> (r: Self)
        ensures
            r == (Segment {
                base: 0,
                limit: 0,
                selector: 0,
                present: false,
                user_system: false,
                code_data: false,
                write_read: false,
                direction_conforming: false,
                dpl: 0,
                long: false,
                op_size: false,
                granularity: false,
                accessed: false,
                available: false,
            }),
    {
        Segment {
            base: 0,
            limit: 0,
            selector: 0,
            present: false,
            user_system: false,
            code_data: false,
            write_read: false,
            direction_conforming: false,
            dpl: 0,
            long: false,
            op_size: false,
            granularity: false,
            accessed: false,
            available: false,
        }
    }
}

/// The x87 and SSE state, laid out after the standard save area: control,
/// status and compact tag words, the last opcode and pointers, eight stack
/// slots of eighty bits rounded up to one hundred twenty-eight, sixteen
/// SSE registers, and the SSE control and status word with its mask.
#[derive(Debug, Clone, Copy, PartialEq, Eq)]
#[verifier::ext_equal]
pub struct FpuState {
    /// The control word.
    pub control: u16,
    /// The status word.
    pub status: u16,
    /// The tag word in its compact one-byte form.
    pub tag: u8,
    /// The last opcode; the low eleven bits are meaningful.
    pub op: u16,
    /// The last instruction pointer.
    pub ip: u64,
    /// The last data pointer.
    pub data_ptr: u64,
    /// The SSE control and status word.
    pub mxcsr: u32,
    /// The mask of valid bits in the control and status word.
    pub mxcsr_mask: u32,
    /// The x87 register stack, each entry in two 64-bit halves.
    pub st: [[u64; 2]; 8],
    /// The SSE registers, each in two 64-bit halves.
    pub xmm: [[u64; 2]; 16],
}

impl FpuState {
    /// Whether two FPU records hold the same state, element by element.
    pub open spec fn same(self, other: FpuState) -> bool {
        &&& self.control == other.control
        &&& self.status == other.status
        &&& self.tag == other.tag
        &&& self.op == other.op
        &&& self.ip == other.ip
        &&& self.data_ptr == other.data_ptr
        &&& self.mxcsr == other.mxcsr
        &&& self.mxcsr_mask == other.mxcsr_mask
        &&& forall|i: int| 0 <= i < 8 ==> self.st[i] =~= other.st[i]
        &&& forall|i: int| 0 <= i < 16 ==> self.xmm[i] =~= other.xmm[i]
    }
}

impl Default for FpuState {
    /// A cleared FPU record.
    fn default() -> (r: Self)
        ensures
            r.control == 0 && r.status == 0 && r.tag == 0 && r.op == 0,
            r.ip == 0 && r.data_ptr == 0 && r.mxcsr == 0 && r.mxcsr_mask == 0,
            forall|i: int| 0 <= i < 8 ==> r.st[i] =~= [0u64, 0u64],
            forall|i: int| 0 <= i < 16 ==> r.xmm[i] =~= [0u64, 0u64],
    {
        FpuState {
            control: 0,
            status: 0,
            tag: 0,
            op: 0,
            ip: 0,
            data_ptr: 0,
            mxcsr: 0,
            mxcsr_mask: 0,
            st: [[0u64, 0u64]; 8],
            xmm: [[0u64, 0u64]; 16],
        }
    }
}

/// The canonical state of one virtual CPU.
///
/// The general registers are held in a fixed named order: accumulator,
/// counter, data, base, stack pointer, base pointer, source index,
/// destination index, then the eight numbered upper registers.
#[derive(Debug, Clone, Copy, PartialEq, Eq)]
#[verifier::ext_equal]
pub struct State {
    /// The sixteen general registers in canonical order.
    pub r: [u64; 16],
    /// The instruction pointer.
    pub ip: u64,
    /// The flags register.
    pub flags: Flags,
    /// The code segment.
    pub cs: Segment,
    /// The data segment.
    pub ds: Segment,
    /// The stack segment.
    pub ss: Segment,
    /// The first extra segment.
    pub es: Segment,
    /// The second extra segment.
    pub fs: Segment,
    /// The third extra segment.
    pub gs: Segment,
    /// Control register 0.
    pub cr0: Cr0,
    /// The linear address of the last page fault.
    pub cr2: u64,
    /// The physical address of the top-level page table.
    pub cr3: u64,
    /// Control register 4.
    pub cr4: Cr4,
    /// The task-priority register.
    pub cr8: u64,
    /// The extended-feature-enable register.
    pub efer: Efer,
    /// The FPU and SSE state.
    pub fpu: FpuState,
}

/// The canonical index of the data register within the register file.
pub const REGISTER_DATA: usize = 2;

impl State {
    /// Whether the state is within architectural bounds: the flags word
    /// and the extended-feature register hold only defined bits, and
    /// every segment's privilege level fits its field.
    pub open spec fn wf(self) -> bool {
        &&& flags_bits_valid(self.flags.bits)
        &&& self.efer.bits & !EFER_ALL == 0
        &&& self.cs.wf()
        &&& self.ds.wf()
        &&& self.ss.wf()
        &&& self.es.wf()
        &&& self.fs.wf()
        &&& self.gs.wf()
    }
}

impl Default for State {
    /// The processor state after startup: execution begins sixteen bytes
    /// below the top of the legacy address space, in a real-mode code
    /// segment based there, with the data register carrying the processor
    /// identification word.
    fn default() -> (r: Self)
        ensures
            r.r@ =~= seq![
                0u64, 0u64, 0x1_0600u64, 0u64, 0u64, 0u64, 0u64, 0u64,
                0u64, 0u64, 0u64, 0u64, 0u64, 0u64, 0u64, 0u64,
            ],
            r.ip == 0xFFF0,
            r.flags.bits == FLAGS_RESERVED_ONE,
            r.cs == (Segment {
                base: 0xFFFF_0000,
                selector: 0xF000,
                limit: 0xFFFF,
                present: true,
                user_system: true,
                code_data: true,
                ..Segment {
                    base: 0, limit: 0, selector: 0, present: false, user_system: false,
                    code_data: false, write_read: false, direction_conforming: false,
                    dpl: 0, long: false, op_size: false, granularity: false,
                    accessed: false, available: false,
                }
            }),
            r.ds == r.cs.spec_with_base_selector(0, 0),
            r.ss == r.ds && r.es == r.ds && r.fs == r.ds && r.gs == r.ds,
            r.cr0.bits == CR0_EXTENSION_TYPE | CR0_NOT_WRITE_THROUGH | CR0_CACHE_DISABLE,
            r.cr2 == 0 && r.cr3 == 0 && r.cr4.bits == 0 && r.cr8 == 0 && r.efer.bits == 0,
            r.fpu.control == 0 && r.fpu.status == 0 && r.fpu.tag == 0 && r.fpu.op == 0,
            r.fpu.ip == 0 && r.fpu.data_ptr == 0 && r.fpu.mxcsr == 0 && r.fpu.mxcsr_mask == 0,
            forall|i: int| 0 <= i < 8 ==> r.fpu.st[i] =~= [0u64, 0u64],
            forall|i: int| 0 <= i < 16 ==> r.fpu.xmm[i] =~= [0u64, 0u64],
            r.wf(),
    {
        let r: [u64; 16] = [
            0u64, 0u64, 0x1_0600u64, 0u64, 0u64, 0u64, 0u64, 0u64,
            0u64, 0u64, 0u64, 0u64, 0u64, 0u64, 0u64, 0u64,
        ];

        let common = Segment {
            base: 0,
            selector: 0,
            limit: 0xFFFF,
            present: true,
            user_system: true,
            code_data: true,
            write_read: false,
            direction_conforming: false,
            dpl: 0,
            long: false,
            op_size: false,
            granularity: false,
            accessed: false,
            available: false,
        };

        let cs = Segment { base: 0xFFFF_0000, selector: 0xF000, ..common };

        proof {
            assert(0x2u64 & !0x003F_7FD7u64 == 0u64) by (bit_vector);
            assert(0u64 & !0xFD01u64 == 0u64) by (bit_vector);
        }

        State {
            r,
            ip: 0xFFF0,
            flags: Flags { bits: FLAGS_RESERVED_ONE },
            cs,
            ds: common,
            ss: common,
            es: common,
            fs: common,
            gs: common,
            cr0: Cr0 { bits: CR0_EXTENSION_TYPE | CR0_NOT_WRITE_THROUGH | CR0_CACHE_DISABLE },
            cr2: 0,
            cr3: 0,
            cr4: Cr4 { bits: 0 },
            cr8: 0,
            efer: Efer { bits: 0 },
            fpu: FpuState {
                control: 0,
                status: 0,
                tag: 0,
                op: 0,
                ip: 0,
                data_ptr: 0,
                mxcsr: 0,
                mxcsr_mask: 0,
                st: [[0u64, 0u64]; 8],
                xmm: [[0u64, 0u64]; 16],
            },
        }
    }
}

impl Segment {
    /// The same descriptor with another base and selector.
    pub open spec fn spec_with_base_selector(self, base: u64, selector: u16) -> Segment {
        Segment { base, selector, ..self }
    }
}

} // verus!
