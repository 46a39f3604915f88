use vmcore::hax_paths::{get_hax_device_path, get_hax_vcpu_path, get_hax_vm_path};

#[test]
fn vm_path() {
    let path = get_hax_vm_path(12);
    assert_eq!(path, r"\\.\hax_vm12");
}

#[test]
fn vcpu_path() {
    let path = get_hax_vcpu_path(12, 34);
    assert_eq!(path, r"\\.\hax_vm12_vcpu34");
}

#[test]
fn device_path() {
    assert_eq!(get_hax_device_path(), r"\\.\HAX");
}

#[test]
fn vm_path_pads_single_digits() {
    assert_eq!(get_hax_vm_path(0), r"\\.\hax_vm00");
    assert_eq!(get_hax_vm_path(5), r"\\.\hax_vm05");
}

#[test]
fn vm_path_keeps_wide_ids() {
    assert_eq!(get_hax_vm_path(123), r"\\.\hax_vm123");
}

#[test]
fn vcpu_path_pads_both_ids() {
    assert_eq!(get_hax_vcpu_path(7, 0), r"\\.\hax_vm07_vcpu00");
    assert_eq!(get_hax_vcpu_path(10, 255), r"\\.\hax_vm10_vcpu255");
}
