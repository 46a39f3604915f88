//! Device paths of the vendor driver.
//!
//! The driver exposes one singleton device for the connection and one
//! numbered device per virtual machine and per virtual CPU; the numbered
//! paths carry their ids as decimal numbers padded to two digits.

use vstd::prelude::*;

use crate::text::{spec_padded2, push_padded2};

verus! {

/// The path of the singleton connection device.
pub open spec fn spec_hax_device_path() -> Seq<char> {
    "\\\\.\\HAX"@
}

/// The path of the singleton connection device.
pub fn get_hax_device_path() -> (r: String)
    ensures
        r@ == spec_hax_device_path(),
{
    String::from_str("\\\\.\\HAX")
}

/// The path of one virtual machine's device: the driver prefix followed
/// by the machine id padded to two digits.
pub open spec fn spec_hax_vm_path(vm_id: int) -> Seq<char> {
    "\\\\.\\hax_vm"@ + spec_padded2(vm_id)
}

/// Builds the device path of a virtual machine from its id.
pub fn get_hax_vm_path(id: i32) -> (r: String)
    requires
        0 <= id,
    ensures
        r@ == spec_hax_vm_path(id as int),
{
    let mut s = String::from_str("\\\\.\\hax_vm");
    push_padded2(&mut s, id as u32);
    s
}

/// The path of one virtual CPU's device: the machine's path followed by
/// a CPU marker and the CPU id padded to two digits.
pub open spec fn spec_hax_vcpu_path(vm_id: int, id: int) -> Seq<char> {
    spec_hax_vm_path(vm_id) + "_vcpu"@ + spec_padded2(id)
}

/// Builds the device path of a virtual CPU from its machine's id and its
/// own.
pub fn get_hax_vcpu_path(vm_id: i32, id: i32) -> (r: String)
    requires
        0 <= vm_id,
        0 <= id,
    ensures
        r@ == spec_hax_vcpu_path(vm_id as int, id as int),
{
    let mut s = get_hax_vm_path(vm_id);
    s.append("_vcpu");
    push_padded2(&mut s, id as u32);
    proof {
        assert(s@ =~= spec_hax_vcpu_path(vm_id as int, id as int));
    }
    s
}

} // verus!
