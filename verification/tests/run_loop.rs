use vmcore::accel::{ExitState, InternalErrorKind, MemoryRegion as PortableRegion};
use vmcore::errors::{Error, FatalVmError, MemoryError};
use vmcore::hax_run::{dispatch_hax_exit, ExitStatus, FastMmio, ProgrammedIo, RunResult, Tunnel};
use vmcore::hax_vcpu::VirtualCPU as HaxVirtualCPU;
use vmcore::hax_run::TunnelInfo;
use vmcore::kvm_run::{dispatch_exit, run_call_step, ExitData, ExitReason, IoState, MmioState,
    RunState, RunStep, EINTR};
use vmcore::kvm_vcpu::VirtualCPU as KvmVirtualCPU;
use vmcore::kvm_vm::VirtualMachine;
use vmcore::slots::SlotTable;
use vmcore::state::State;

fn run_state_with(reason: u32) -> RunState {
    RunState {
        request_interrupt_window: false,
        immediate_exit: false,
        exit_reason: reason,
        ready_for_interrupt_injection: false,
        if_flag: 0,
        flags: 0,
        cr8: 0,
        apic_base: 0,
        exit: ExitData {
            unknown_reason: 0,
            fail_entry_reason: 0,
            io: IoState { direction: false, size: 0, port: 0, count: 0, data_offset: 0 },
            mmio: MmioState { phys_addr: 0, data: [0; 8], len: 0, is_write: false },
            internal_suberror: 0,
        },
    }
}

fn tunnel_with(status: u32) -> Tunnel {
    Tunnel {
        exit_reason: 0,
        flag: 0,
        status,
        user_event_pending: 0,
        ready_for_interrupt_injection: 0,
        request_interrupt_window: 0,
        pio: ProgrammedIo { direction: 0, df: 0, size: 0, port: 0, count: 0, flags: 0, vaddr: 0 },
        gla: 0,
    }
}

fn idle_fast_mmio() -> FastMmio {
    FastMmio {
        gpa: 0,
        gpa2: 0,
        size: 0,
        direction: 0,
        reg_index: 0,
        cr0: 0,
        cr2: 0,
        cr3: 0,
        cr4: 0,
    }
}

#[test]
fn halt_image_exits_with_halt() {
    // A guest image holding only a halt instruction stops with the halt
    // reason on either backend; the run state simulates the kernel's
    // reply to that one run call.
    let mut vcpu = KvmVirtualCPU::new(1);
    let exit = vcpu.run(&run_state_with(5)).unwrap();
    assert_eq!(exit, ExitState::Halt);

    let tunnel = TunnelInfo { tunnel_addr: 0x1000, io_buffer_addr: 0x2000, size: 64 };
    let mut hax_vcpu = HaxVirtualCPU::new(2, &tunnel).unwrap();
    let exit = hax_vcpu.run(&tunnel_with(6), &idle_fast_mmio()).unwrap();
    assert_eq!(exit, ExitState::Halt);
}

#[test]
fn kvm_exit_codes_dispatch_to_their_tags() {
    assert_eq!(dispatch_exit(&run_state_with(8)), ExitState::Shutdown);
    assert_eq!(dispatch_exit(&run_state_with(5)), ExitState::Halt);

    let mut unknown = run_state_with(0);
    unknown.exit.unknown_reason = 48;
    assert_eq!(dispatch_exit(&unknown), ExitState::Unknown(48));

    let mut io = run_state_with(2);
    io.exit.io = IoState { direction: true, size: 2, port: 0x3F8, count: 4, data_offset: 4096 };
    assert_eq!(
        dispatch_exit(&io),
        ExitState::IoPortRequest { port: 0x3F8, output: true, size: 2, count: 4, payload_offset: 4096 }
    );

    let mut mmio = run_state_with(6);
    mmio.exit.mmio = MmioState { phys_addr: 0xFEE0_0000, data: [0; 8], len: 4, is_write: true };
    assert_eq!(
        dispatch_exit(&mmio),
        ExitState::Mmio { guest_addr: 0xFEE0_0000, width: 4, write: true }
    );

    let mut fail = run_state_with(9);
    fail.exit.fail_entry_reason = 33;
    assert_eq!(
        dispatch_exit(&fail),
        ExitState::InternalError(InternalErrorKind::FailedEntry(33))
    );

    let mut internal = run_state_with(17);
    internal.exit.internal_suberror = 1;
    assert_eq!(
        dispatch_exit(&internal),
        ExitState::InternalError(InternalErrorKind::Emulation)
    );

    // A code this client does not model is carried through.
    assert_eq!(dispatch_exit(&run_state_with(7)), ExitState::Unknown(7));
    assert_eq!(ExitReason::InternalError.code(), 17);
}

#[test]
fn hax_exit_codes_dispatch_to_their_tags() {
    let fast = idle_fast_mmio();

    assert_eq!(dispatch_hax_exit(&tunnel_with(7), &fast), ExitState::Shutdown);
    assert_eq!(dispatch_hax_exit(&tunnel_with(6), &fast), ExitState::Halt);

    let mut io = tunnel_with(1);
    io.pio = ProgrammedIo {
        direction: 1,
        df: 0,
        size: 1,
        port: 0x80,
        count: 2,
        flags: 0,
        vaddr: 0x9000,
    };
    assert_eq!(
        dispatch_hax_exit(&io, &fast),
        ExitState::IoPortRequest { port: 0x80, output: true, size: 1, count: 2, payload_offset: 0x9000 }
    );

    let mut unknown = tunnel_with(5);
    unknown.exit_reason = 2;
    assert_eq!(dispatch_hax_exit(&unknown, &fast), ExitState::Unknown(2));

    let mut fast_mmio = idle_fast_mmio();
    fast_mmio.gpa = 0xC000_0000;
    fast_mmio.size = 8;
    fast_mmio.direction = 1;
    assert_eq!(
        dispatch_hax_exit(&tunnel_with(9), &fast_mmio),
        ExitState::Mmio { guest_addr: 0xC000_0000, width: 8, write: true }
    );

    let result = RunResult::from_tunnel(&tunnel_with(6)).unwrap();
    assert_eq!(result.exit_status, ExitStatus::Halt);
    assert!(RunResult::from_tunnel(&tunnel_with(99)).is_err());
}

#[test]
fn shutdown_terminates_the_vcpu() {
    let mut vcpu = KvmVirtualCPU::new(4);

    let exit = vcpu.run(&run_state_with(8)).unwrap();
    assert_eq!(exit, ExitState::Shutdown);

    // No further run call is permitted after a terminal exit.
    assert_eq!(
        vcpu.run(&run_state_with(5)),
        Err(Error::Fatal(FatalVmError::VcpuTerminated))
    );
}

#[test]
fn interrupt_after_termination_is_fatal() {
    let mut vcpu = KvmVirtualCPU::new(8);
    vcpu.run(&run_state_with(8)).unwrap();
    assert_eq!(
        vcpu.interrupt(32),
        Err(Error::Fatal(FatalVmError::VcpuTerminated))
    );
}

#[test]
fn internal_error_terminates_the_vcpu() {
    let mut vcpu = KvmVirtualCPU::new(4);

    let mut internal = run_state_with(17);
    internal.exit.internal_suberror = 2;
    let exit = vcpu.run(&internal).unwrap();
    assert_eq!(
        exit,
        ExitState::InternalError(InternalErrorKind::SimultaneousExceptions)
    );

    assert!(vcpu.run(&run_state_with(5)).is_err());
}

#[test]
fn interrupt_when_not_ready_is_an_error_not_a_queue() {
    let tunnel_info = TunnelInfo { tunnel_addr: 0x1000, io_buffer_addr: 0x2000, size: 64 };
    let mut vcpu = HaxVirtualCPU::new(6, &tunnel_info).unwrap();

    // Fresh virtual CPU: no readiness was ever reported.
    assert_eq!(vcpu.interrupt(32), Err(Error::NotReadyForInterrupt));

    // A run that reports readiness opens the window.
    let mut tunnel = tunnel_with(6);
    tunnel.ready_for_interrupt_injection = 1;
    vcpu.run(&tunnel, &idle_fast_mmio()).unwrap();
    assert_eq!(vcpu.interrupt(32), Ok(32));

    // The next run withdraws it.
    let tunnel = tunnel_with(6);
    vcpu.run(&tunnel, &idle_fast_mmio()).unwrap();
    assert_eq!(vcpu.interrupt(32), Err(Error::NotReadyForInterrupt));
}

#[test]
fn interrupted_run_call_is_retried() {
    assert_eq!(run_call_step(Ok(0)), Ok(RunStep::ReadExit));
    assert_eq!(run_call_step(Err(EINTR)), Ok(RunStep::Retry));
    assert_eq!(run_call_step(Err(11)), Err(Error::Io(11)));
}

#[test]
fn overlapping_guest_ranges_are_rejected() {
    let mut vm = VirtualMachine::establish(3, [1, 1, 1, 1, 1]).unwrap();

    // Slot zero: one page at guest address zero.
    let first = PortableRegion { slot: 0, host_addr: 0x10000, host_len: 4096, guest: 0 };
    let record = vm.allocate_memory(first).unwrap();
    assert_eq!(record.slot, 0);
    assert_eq!(record.memory_size, 4096);
    assert_eq!(record.guest_phys_addr, 0);

    // A second slot overlapping the same guest range is rejected.
    let overlap = PortableRegion { slot: 1, host_addr: 0x20000, host_len: 4096, guest: 0 };
    assert_eq!(vm.allocate_memory(overlap), Err(Error::Memory(MemoryError::Overlap)));

    // A second registration of the same slot id with an overlapping but
    // different guest range is rejected too: a live slot's range is
    // frozen until it is removed.
    let grown = PortableRegion { slot: 0, host_addr: 0x10000, host_len: 8192, guest: 0 };
    assert_eq!(
        vm.allocate_memory(grown),
        Err(Error::Memory(MemoryError::LiveSlotChanged))
    );

    // An identical re-registration of the live slot is a flags-only
    // update and passes.
    assert!(vm.allocate_memory(first).is_ok());

    // Moving the slot takes a removal first.
    let removal = PortableRegion { slot: 0, host_addr: 0, host_len: 0, guest: 0 };
    assert!(vm.allocate_memory(removal).is_ok());
    let moved = PortableRegion { slot: 0, host_addr: 0x30000, host_len: 4096, guest: 8192 };
    assert!(vm.allocate_memory(moved).is_ok());

    // The old range is free again.
    let now_free = PortableRegion { slot: 1, host_addr: 0x20000, host_len: 4096, guest: 0 };
    assert!(vm.allocate_memory(now_free).is_ok());
}

#[test]
fn live_slot_flags_may_change_without_moving_it() {
    let mut table = SlotTable::new();
    table.register(0, 0x10000, 4096, 0, false, false).unwrap();

    // Turning on dirty logging re-registers the same range: accepted.
    let record = table.register(0, 0x10000, 4096, 0, false, true).unwrap();
    assert_eq!(record.flags, 1);
    assert_eq!(table.len(), 1);

    // Moving the guest base, resizing, or moving the host backing while
    // the slot lives is refused.
    assert_eq!(
        table.register(0, 0x10000, 4096, 8192, false, false),
        Err(MemoryError::LiveSlotChanged)
    );
    assert_eq!(
        table.register(0, 0x50000, 4096, 0, false, false),
        Err(MemoryError::LiveSlotChanged)
    );
}

#[test]
fn misaligned_and_wrapping_ranges_are_rejected() {
    let mut vm = VirtualMachine::establish(3, [1, 1, 1, 1, 1]).unwrap();

    let misaligned = PortableRegion { slot: 0, host_addr: 0x10001, host_len: 4096, guest: 0 };
    assert_eq!(
        vm.allocate_memory(misaligned),
        Err(Error::Memory(MemoryError::Misaligned))
    );

    let odd_len = PortableRegion { slot: 0, host_addr: 0x10000, host_len: 100, guest: 0 };
    assert_eq!(
        vm.allocate_memory(odd_len),
        Err(Error::Memory(MemoryError::Misaligned))
    );

    let wrapping = PortableRegion {
        slot: 0,
        host_addr: 0x10000,
        host_len: 8192,
        guest: u64::MAX - 4095,
    };
    assert_eq!(
        vm.allocate_memory(wrapping),
        Err(Error::Memory(MemoryError::TooLarge))
    );
}

#[test]
fn read_only_slots_are_placeholders() {
    let mut vm = VirtualMachine::establish(3, [1, 1, 1, 1, 1]).unwrap();

    let rom = PortableRegion { slot: 2, host_addr: 0x40000, host_len: 4096, guest: 0xF0000 };
    let record = vm.allocate_readonly_memory(rom).unwrap();

    // The read-only flag forces the wire size to zero whatever the host
    // range length.
    assert_eq!(record.memory_size, 0);
    assert_eq!(record.flags, 2);

    // A placeholder occupies no guest range: another slot may map there.
    let ram = PortableRegion { slot: 3, host_addr: 0x50000, host_len: 4096, guest: 0xF0000 };
    assert!(vm.allocate_memory(ram).is_ok());
}

#[test]
fn zero_length_registration_removes_the_slot() {
    let mut vm = VirtualMachine::establish(3, [1, 1, 1, 1, 1]).unwrap();

    let first = PortableRegion { slot: 0, host_addr: 0x10000, host_len: 4096, guest: 0 };
    vm.allocate_memory(first).unwrap();

    let removal = PortableRegion { slot: 0, host_addr: 0, host_len: 0, guest: 0 };
    let record = vm.allocate_memory(removal).unwrap();
    assert_eq!(record.memory_size, 0);

    // The range is free for another slot afterwards.
    let reuse = PortableRegion { slot: 1, host_addr: 0x20000, host_len: 4096, guest: 0 };
    assert!(vm.allocate_memory(reuse).is_ok());
}

#[test]
fn reserved_addresses_sit_below_the_firmware_range() {
    let vm = VirtualMachine::establish(3, [1, 1, 1, 1, 1]).unwrap();
    assert_eq!(vm.ept_address(), 0xFEFF_C000);
    assert_eq!(vm.identity_map_address(), 0xFEFF_C000);
    assert_eq!(vm.tss_address(), 0xFEFF_D000);
}

#[test]
fn vcpu_limits_fall_back_in_order() {
    let vm = VirtualMachine::establish(3, [1, 1, 1, 1, 1]).unwrap();

    assert_eq!(vm.max_recommended_vcpus(Ok(16)), 16);
    assert_eq!(vm.max_recommended_vcpus(Err(25)), 4);

    assert_eq!(vm.max_vcpus(Ok(240), Ok(16)), 240);
    assert_eq!(vm.max_vcpus(Err(25), Ok(16)), 16);
    assert_eq!(vm.max_vcpus(Err(25), Err(25)), 4);

    assert_eq!(vm.max_vcpu_ids(Ok(1023), Ok(240), Ok(16)), 1023);
    assert_eq!(vm.max_vcpu_ids(Err(25), Ok(240), Ok(16)), 240);
    assert_eq!(vm.max_vcpu_ids(Err(25), Err(25), Err(25)), 4);
}

#[test]
fn kvm_sync_surfaces_the_first_failing_sub_sync() {
    let vcpu = KvmVirtualCPU::new(9);
    let s = State::default();
    let records = vcpu.sync_to_kernel(&s);

    let mut target = s;
    let r = vcpu.sync_from_kernel(&mut target, Err(13), Ok(records.sregs), Ok(records.fpu));
    assert_eq!(r, Err(Error::Io(13)));
    assert_eq!(target, s);

    let r = vcpu.sync_from_kernel(&mut target, Ok(records.regs), Err(7), Ok(records.fpu));
    assert_eq!(r, Err(Error::Io(7)));
    assert_eq!(target, s);

    let r = vcpu.sync_from_kernel(&mut target, Ok(records.regs), Ok(records.sregs), Err(9));
    assert_eq!(r, Err(Error::Io(9)));
    assert_eq!(target, s);
}
