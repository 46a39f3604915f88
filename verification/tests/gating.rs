use vmcore::errors::{CapabilityError, ConnectionError, Error, HostFeature, ProtocolError};
use vmcore::hax_caps::CapabilityInfo;
use vmcore::hax_connection::{check_transfer, Connection};
use vmcore::hax_run::TunnelInfo;
use vmcore::hax_vcpu::VirtualCPU as HaxVirtualCPU;
use vmcore::hax_version::GetHaxVersion;
use vmcore::kvm_global::{check_api_version, require_capability, vcpu_mmap_size_ok, Global};
use vmcore::kvm_vcpu::VirtualCPU as KvmVirtualCPU;
use vmcore::kvm_vm::VirtualMachine;
use vmcore::kvm_wire::Capability;

fn working_caps() -> CapabilityInfo {
    CapabilityInfo { status: 1, fail_info: 0, memory_quota: 0 }
}

fn good_version() -> GetHaxVersion {
    GetHaxVersion { compat_version: 4, current_version: 4 }
}

#[test]
fn version_window_is_gated_on_both_ends() {
    assert!(good_version().check().is_ok());
    assert!(GetHaxVersion { compat_version: 1, current_version: 9 }.check().is_ok());

    let old = GetHaxVersion { compat_version: 1, current_version: 3 };
    assert!(old.too_old());
    assert_eq!(old.check(), Err(ConnectionError::UnsupportedVersion));

    let demanding = GetHaxVersion { compat_version: 5, current_version: 9 };
    assert!(demanding.too_new());
    assert_eq!(demanding.check(), Err(ConnectionError::UnsupportedVersion));
}

#[test]
fn exact_version_twelve_connects() {
    assert!(check_api_version(12).is_ok());
}

#[test]
fn version_eleven_is_refused() {
    assert_eq!(
        check_api_version(11),
        Err(Error::Connection(ConnectionError::UnsupportedVersion))
    );
    assert_eq!(
        check_api_version(13),
        Err(Error::Connection(ConnectionError::UnsupportedVersion))
    );
}

#[test]
fn capability_bits_are_read_as_documented() {
    let caps = working_caps();
    assert!(caps.working());
    assert!(caps.vt_x_enabled() && caps.nx_enabled() && caps.ug_enabled());
    assert_eq!(caps.memory_limit(), None);

    let broken = CapabilityInfo { status: 0, fail_info: 0b011, memory_quota: 0 };
    assert!(!broken.working());
    assert!(!broken.vt_x_enabled());
    assert!(!broken.nx_enabled());
    assert!(!broken.ug_enabled());

    let quota = CapabilityInfo { status: 3, fail_info: 0, memory_quota: 0x4000_0000 };
    assert_eq!(quota.memory_limit(), Some(0x4000_0000));
    assert!(quota.check().is_ok());

    let small_quota = CapabilityInfo { status: 3, fail_info: 0, memory_quota: 0x100 };
    assert_eq!(small_quota.check(), Err(CapabilityError::MemoryQuotaTooSmall));
}

#[test]
fn missing_host_features_fail_in_order() {
    let no_vtx = CapabilityInfo { status: 0, fail_info: 0b001, memory_quota: 0 };
    assert_eq!(
        no_vtx.check(),
        Err(CapabilityError::HostFeatureAbsent(HostFeature::VirtualMachineExtensions))
    );

    let no_nx = CapabilityInfo { status: 0, fail_info: 0b110, memory_quota: 0 };
    assert_eq!(
        no_nx.check(),
        Err(CapabilityError::HostFeatureAbsent(HostFeature::NoExecute))
    );

    let no_ug = CapabilityInfo { status: 0, fail_info: 0b000, memory_quota: 0 };
    assert_eq!(
        no_ug.check(),
        Err(CapabilityError::HostFeatureAbsent(HostFeature::UnrestrictedGuest))
    );
}

#[test]
fn forced_missing_capability_leaves_no_handle_behind() {
    let mut open_handles: i64 = 0;

    // A connection attempt against a driver that reports the
    // virtual-machine extensions missing: the handle comes back and is
    // closed, so the count returns to where it started.
    open_handles += 1;
    let broken = CapabilityInfo { status: 0, fail_info: 0b001, memory_quota: 0 };
    match Connection::establish(41, broken, good_version()) {
        Ok(_) => panic!("a broken driver must not connect"),
        Err((e, handle)) => {
            assert!(matches!(e, Error::Capability(_)));
            assert_eq!(handle, 41);
            open_handles -= 1;
        },
    }
    assert_eq!(open_handles, 0);

    // The same discipline at the device level of the other backend.
    open_handles += 1;
    match Global::establish(7, 12, 0, 1) {
        Ok(_) => panic!("a missing required capability must not connect"),
        Err((e, handle)) => {
            assert_eq!(
                e,
                Error::Capability(CapabilityError::MissingCapability(105))
            );
            assert_eq!(handle, 7);
            open_handles -= 1;
        },
    }
    assert_eq!(open_handles, 0);

    // And at machine scope: the third required value (read-only memory)
    // forced to zero.
    open_handles += 1;
    match VirtualMachine::establish(9, [1, 1, 0, 1, 1]) {
        Ok(_) => panic!("a missing machine capability must not construct"),
        Err((e, handle)) => {
            assert_eq!(
                e,
                Error::Capability(CapabilityError::MissingCapability(81))
            );
            assert_eq!(handle, 9);
            open_handles -= 1;
        },
    }
    assert_eq!(open_handles, 0);
}

#[test]
fn successful_negotiation_keeps_the_handle() {
    let conn = Connection::establish(11, working_caps(), good_version()).unwrap();
    assert_eq!(conn.handle, 11);
    assert_eq!(conn.release(), 11);

    let global = Global::establish(3, 12, 1, 1).unwrap();
    assert_eq!(global.release(), 3);

    let vm = VirtualMachine::establish(5, [1, 1, 1, 1, 1]).unwrap();
    assert_eq!(vm.release(), 5);
}

#[test]
fn require_capability_reports_the_code() {
    assert!(require_capability(Capability::IrqChip, 1).is_ok());
    assert_eq!(
        require_capability(Capability::SetTssAddr, 0),
        Err(Error::Capability(CapabilityError::MissingCapability(4)))
    );
    assert_eq!(Capability::MaxVCpuId.code(), 128);
}

#[test]
fn transfer_outcomes_are_classified() {
    assert!(check_transfer(true, 0, 64, 64).is_ok());
    assert_eq!(check_transfer(false, 5, 0, 64), Err(Error::Io(5)));
    assert_eq!(
        check_transfer(true, 0, 32, 64),
        Err(Error::Protocol(ProtocolError::SizeMismatch))
    );
}

#[test]
fn mmap_size_floor_is_checked() {
    assert!(vcpu_mmap_size_ok(4096));
    assert!(vcpu_mmap_size_ok(64));
    assert!(!vcpu_mmap_size_ok(32));
}

#[test]
fn thousand_vcpu_lifecycles_leave_no_handle() {
    let tunnel = TunnelInfo { tunnel_addr: 0x1000, io_buffer_addr: 0x2000, size: 64 };
    let mut open_handles: i64 = 0;

    for i in 0..1000i64 {
        open_handles += 1;
        let vcpu = HaxVirtualCPU::new(i, &tunnel).unwrap();
        let handle = vcpu.release();
        assert_eq!(handle, i);
        open_handles -= 1;
    }
    assert_eq!(open_handles, 0);

    for i in 0..1000i64 {
        open_handles += 1;
        let vcpu = KvmVirtualCPU::new(i);
        let handle = vcpu.release();
        assert_eq!(handle, i);
        open_handles -= 1;
    }
    assert_eq!(open_handles, 0);
}

#[test]
fn failed_vcpu_creation_returns_the_handle() {
    let bad_tunnel = TunnelInfo { tunnel_addr: 0, io_buffer_addr: 0x2000, size: 64 };
    let mut open_handles: i64 = 0;

    open_handles += 1;
    match HaxVirtualCPU::new(77, &bad_tunnel) {
        Ok(_) => panic!("a null tunnel must not construct"),
        Err((e, handle)) => {
            assert_eq!(e, ProtocolError::NullTunnelAddress);
            assert_eq!(handle, 77);
            open_handles -= 1;
        },
    }
    assert_eq!(open_handles, 0);
}
