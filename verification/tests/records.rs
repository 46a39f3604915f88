use vmcore::bus::Address;
use vmcore::errors::{MemoryError, ProtocolError};
use vmcore::hax_io_codes;
use vmcore::hax_run::{TunnelInfo, TUNNEL_RECORD_BYTES};
use vmcore::hax_version::{HaxVersion, NotifyVersion};
use vmcore::hax_vm::{MemoryRegionFlags, VirtualMachine, MEMORY_REGION_READ_ONLY};
use vmcore::kvm_cpuid::{CpuidEntry, CpuidFlag, CpuidHeader, CPUID_FLAG_SIGNIFICANT_INDEX};
use vmcore::kvm_global::extension_supported_value;
use vmcore::kvm_wire::{create_kvm_io_code, create_kvm_io_code_sized, Extension, IoctlDirection};
use vmcore::vmx::ExitReason;
use vmcore::memory::{MemoryBlock, MemoryRegion};
use vmcore::state::{
    State, CR0_CACHE_DISABLE, CR0_EXTENSION_TYPE, CR0_NOT_WRITE_THROUGH, EFER_ALL,
    EFER_FAST_FXSR, EFER_LMSL_ENABLE, EFER_LM_ACTIVE, EFER_LM_ENABLE, EFER_NX_ENABLE,
    EFER_SVM_ENABLE, EFER_SYSTEM_CALL, EFER_TRANSLATION_CACHE, FLAGS_ADJUST, FLAGS_ALIGNMENT_CHECK,
    FLAGS_ALL, FLAGS_CARRY, FLAGS_CPUID, FLAGS_DIRECTION, FLAGS_INTERRUPT, FLAGS_IO_PRIVILEGE,
    FLAGS_NESTED_TASK, FLAGS_OVERFLOW, FLAGS_PARITY, FLAGS_RESERVED_ONE, FLAGS_RESUME, FLAGS_SIGN,
    FLAGS_TRAP, FLAGS_VIRTUAL_8086, FLAGS_VIRTUAL_INTERRUPT, FLAGS_VIRTUAL_INTERRUPT_PENDING,
    FLAGS_ZERO,
};

#[test]
fn cpuid_entry_debug_simple() {
    let mut entry = CpuidEntry::new();

    entry.function = 1;
    entry.r = [12, 0, 4, 5];

    let s = entry.describe();
    let exp = "CpuidEntry { fn: 1, flags: (empty), regs: [12, 0, 4, 5] }";

    assert_eq!(s, exp);

    entry.function = 10;
    entry.flags = CpuidFlag { bits: entry.flags.bits | CPUID_FLAG_SIGNIFICANT_INDEX };
    entry.index = 12;

    let s = entry.describe();
    let exp = "CpuidEntry { fn: 10, index: 12, flags: (empty), regs: [12, 0, 4, 5] }";

    assert_eq!(s, exp);
}

#[test]
fn cpuid_flag_names() {
    assert_eq!(CpuidFlag { bits: 0 }.describe(), "(empty)");
    assert_eq!(CpuidFlag { bits: 1 }.describe(), "SIGNIFICANT_INDEX");
    assert_eq!(CpuidFlag { bits: 6 }.describe(), "STATEFUL | STATEFUL_READ_NEXT");
    assert_eq!(
        CpuidFlag { bits: 7 }.describe(),
        "SIGNIFICANT_INDEX | STATEFUL | STATEFUL_READ_NEXT"
    );
    assert!(CpuidFlag { bits: 5 }.contains(CpuidFlag { bits: 4 }));
    assert!(!CpuidFlag { bits: 5 }.contains(CpuidFlag { bits: 2 }));
    assert_eq!(CpuidHeader::new(3).len, 3);
}

#[test]
fn hax_io_codes_follow_the_construction_rule() {
    assert_eq!(vmcore::create_io_code(0x900), hax_io_codes::GET_VERSION);
    assert_eq!(vmcore::create_io_code(0x910), hax_io_codes::GET_CAPABILITIES);
    assert_eq!(vmcore::create_io_code(0x901), hax_io_codes::CREATE_VM);
    assert_eq!(vmcore::create_io_code(0x906), hax_io_codes::RUN);
    assert_eq!(hax_io_codes::GET_VERSION, 0x4000_2400);
}

#[test]
fn kvm_io_codes_follow_the_construction_rule() {
    assert_eq!(create_kvm_io_code(0x00), 0xAE00);
    assert_eq!(create_kvm_io_code(0x01), 0xAE01);
    assert_eq!(create_kvm_io_code(0x80), 0xAE80);
}

#[test]
fn sized_kvm_io_codes_carry_direction_and_size() {
    // The memory-slot registration record is 32 bytes and is written to
    // the kernel.
    assert_eq!(
        create_kvm_io_code_sized(IoctlDirection::Write, 0x46, 32),
        0x4020_AE46
    );
    // The general-register record is 144 bytes, read or written.
    assert_eq!(
        create_kvm_io_code_sized(IoctlDirection::Read, 0x81, 144),
        0x8090_AE81
    );
    assert_eq!(
        create_kvm_io_code_sized(IoctlDirection::Write, 0x82, 144),
        0x4090_AE82
    );
    // The identity-map address is one 64-bit word.
    assert_eq!(
        create_kvm_io_code_sized(IoctlDirection::Write, 0x48, 8),
        0x4008_AE48
    );
    assert_eq!(create_kvm_io_code_sized(IoctlDirection::NoData, 0x04, 0), 0xAE04);
}

#[test]
fn flag_masks_cover_exactly_the_named_bits() {
    let all = FLAGS_CARRY | FLAGS_RESERVED_ONE | FLAGS_PARITY | FLAGS_ADJUST | FLAGS_ZERO
        | FLAGS_SIGN | FLAGS_TRAP | FLAGS_INTERRUPT | FLAGS_DIRECTION | FLAGS_OVERFLOW
        | FLAGS_IO_PRIVILEGE | FLAGS_NESTED_TASK | FLAGS_RESUME | FLAGS_VIRTUAL_8086
        | FLAGS_ALIGNMENT_CHECK | FLAGS_VIRTUAL_INTERRUPT | FLAGS_VIRTUAL_INTERRUPT_PENDING
        | FLAGS_CPUID;
    assert_eq!(FLAGS_ALL, all);

    let efer = EFER_SYSTEM_CALL | EFER_LM_ENABLE | EFER_LM_ACTIVE | EFER_NX_ENABLE
        | EFER_SVM_ENABLE | EFER_LMSL_ENABLE | EFER_FAST_FXSR | EFER_TRANSLATION_CACHE;
    assert_eq!(EFER_ALL, efer);
}

#[test]
fn default_state_is_the_reset_state() {
    let s = State::default();

    assert_eq!(s.ip, 0xFFF0);
    assert_eq!(s.r[2], 0x1_0600);
    assert_eq!(s.r[0], 0);
    assert_eq!(s.flags.bits, FLAGS_RESERVED_ONE);
    assert_eq!(s.cs.base, 0xFFFF_0000);
    assert_eq!(s.cs.selector, 0xF000);
    assert_eq!(s.cs.limit, 0xFFFF);
    assert!(s.cs.present && s.cs.user_system && s.cs.code_data);
    assert_eq!(s.ds.base, 0);
    assert_eq!(s.ds.limit, 0xFFFF);
    assert_eq!(s.cr0.bits, CR0_EXTENSION_TYPE | CR0_NOT_WRITE_THROUGH | CR0_CACHE_DISABLE);
    assert_eq!(s.cr4.bits, 0);
    assert_eq!(s.efer.bits, 0);
    assert_eq!(s.fpu.mxcsr, 0);
}

#[test]
fn notify_version_reports_the_client_window() {
    let n = NotifyVersion::new();
    assert_eq!(n.current, 4);
    assert_eq!(n.minimum, 4);
    assert_eq!(HaxVersion::V4.number(), 4);
}

#[test]
fn tunnel_info_is_validated() {
    let good = TunnelInfo { tunnel_addr: 0x1000, io_buffer_addr: 0x2000, size: 64 };
    assert!(good.validate().is_ok());

    let small = TunnelInfo { size: TUNNEL_RECORD_BYTES - 1, ..good };
    assert_eq!(small.validate(), Err(ProtocolError::TunnelTooSmall));

    let null = TunnelInfo { tunnel_addr: 0, ..good };
    assert_eq!(null.validate(), Err(ProtocolError::NullTunnelAddress));

    let null_buffer = TunnelInfo { io_buffer_addr: 0, ..good };
    assert_eq!(null_buffer.validate(), Err(ProtocolError::NullTunnelAddress));
}

#[test]
fn hax_memory_records_are_built_and_bounded() {
    let vm = VirtualMachine::new(5, 1);
    assert_eq!(vm.id(), 1);

    let block = MemoryBlock::from_raw(0x7000_0000, 8192);
    assert_eq!(block.size(), 8192);

    let info = vm.allocate_memory(&block).unwrap();
    assert_eq!(info.size, 8192);
    assert_eq!(info.address, 0x7000_0000);

    let big = MemoryBlock::from_raw(0x7000_0000, 0x1_0000_0000);
    assert_eq!(vm.allocate_memory(&big), Err(MemoryError::TooLarge));

    let mut region = block.as_region();
    assert_eq!(region.host_address(), 0x7000_0000);
    assert_eq!(region.guest_address(), 0);
    region.map(0x10_0000);
    assert_eq!(region.guest_address(), 0x10_0000);

    let set = vm.map_memory(&region, MemoryRegionFlags::empty()).unwrap();
    assert_eq!(set.physical_addr, 0x10_0000);
    assert_eq!(set.size, 8192);
    assert_eq!(set.flags, 0);
    assert_eq!(set.virtual_addr, 0x7000_0000);

    let huge = MemoryRegion::new(0x7000_0000, 0x1_0000_0000);
    assert_eq!(
        vm.map_memory(&huge, MemoryRegionFlags::empty()),
        Err(MemoryError::TooLarge)
    );

    assert_eq!(block.into_raw(), 0x7000_0000);
    assert_eq!(vm.release(), 5);
}

#[test]
fn read_only_mapping_forces_zero_wire_size() {
    let vm = VirtualMachine::new(5, 1);
    let mut region = MemoryRegion::new(0x7000_0000, 4096);
    region.map(0xF_0000);

    let read_only = MemoryRegionFlags { bits: MEMORY_REGION_READ_ONLY };
    let set = vm.map_memory(&region, read_only).unwrap();

    // The read-only bit marks a placeholder: the wire size is zero
    // whatever the host range length.
    assert_eq!(set.size, 0);
    assert_eq!(set.flags, MEMORY_REGION_READ_ONLY);
    assert_eq!(set.physical_addr, 0xF_0000);

    // Even a range too long for the 32-bit size field passes as a
    // placeholder, since no length goes on the wire.
    let huge = MemoryRegion::new(0x7000_0000, 0x1_0000_0000);
    let set = vm.map_memory(&huge, read_only).unwrap();
    assert_eq!(set.size, 0);
}

#[test]
fn hardware_exit_reasons_decode_by_code() {
    assert_eq!(ExitReason::from_code(2), Some(ExitReason::TripleFault));
    assert_eq!(ExitReason::from_code(48), Some(ExitReason::EptViolation));
    assert_eq!(ExitReason::from_code(99), None);
    assert_eq!(ExitReason::EptViolation.code(), 48);
}

#[test]
fn extension_queries_fall_back_to_unsupported() {
    assert_eq!(extension_supported_value(Ok(1)), 1);
    assert_eq!(extension_supported_value(Err(9)), 0);
    assert_eq!(Extension::ReadOnlyMemory.code(), 81);
}

#[test]
fn vm_knows_its_vcpu_paths() {
    let vm = vmcore::hax_vm::VirtualMachine::new(4, 12);
    assert_eq!(vm.vcpu_path(34), r"\\.\hax_vm12_vcpu34");
}

#[test]
fn broadcast_address_is_the_general_call() {
    assert_eq!(Address::broadcast().value, 0);
}
