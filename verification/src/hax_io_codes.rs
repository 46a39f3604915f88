//! Device-control codes for the vendor-driver backend.
//!
//! Each operation is addressed by a 32-bit control code built from the
//! driver's device-type tag and a per-operation function number.

use vstd::prelude::*;

verus! {

/// The device-type tag of the vendor driver, placed in the upper half of
/// every control code.
pub const HAX_DEVICE_TYPE: u32 = 0x4000;

/// Builds the 32-bit device-control code for a function number.
///
/// The code is the device-type tag shifted into the upper 16 bits, combined
/// with the function number shifted left by the two method bits.
pub fn create_io_code(function: u32) -> (code: u32)
    ensures
        code == (HAX_DEVICE_TYPE << 16u32) | (function << 2u32),
{
    (HAX_DEVICE_TYPE << 16u32) | (function << 2u32)
}

// Codes for operations on a connection to the driver.

/// Queries the driver's current and minimum protocol versions.
pub const GET_VERSION: u32 = (0x4000u32 << 16u32) | (0x900u32 << 2u32);

/// Queries the driver's capability snapshot.
pub const GET_CAPABILITIES: u32 = (0x4000u32 << 16u32) | (0x910u32 << 2u32);

/// Creates a virtual machine and returns its numeric id.
pub const CREATE_VM: u32 = (0x4000u32 << 16u32) | (0x901u32 << 2u32);

// Codes for operations on a virtual machine.

/// Reports the client's own protocol window to the driver.
pub const NOTIFY_VERSION: u32 = (0x4000u32 << 16u32) | (0x910u32 << 2u32);

/// Hands a block of host memory to the machine.
pub const ALLOC_RAM: u32 = (0x4000u32 << 16u32) | (0x903u32 << 2u32);

/// Maps an allocated host block at a guest physical address.
pub const SET_RAM_FLAGS: u32 = (0x4000u32 << 16u32) | (0x904u32 << 2u32);

/// Creates a virtual CPU with a given id.
pub const CREATE_VCPU: u32 = (0x4000u32 << 16u32) | (0x902u32 << 2u32);

// Codes for operations on a virtual CPU.

/// Asks the driver for the address and size of the run-state tunnel.
pub const SET_UP_TUNNEL: u32 = (0x4000u32 << 16u32) | (0x90bu32 << 2u32);

/// Runs the virtual CPU until its next exit.
pub const RUN: u32 = (0x4000u32 << 16u32) | (0x906u32 << 2u32);

/// Reads the general, segment and control register record.
pub const GET_VCPU_STATE: u32 = (0x4000u32 << 16u32) | (0x90eu32 << 2u32);

/// Writes the general, segment and control register record.
pub const SET_VCPU_STATE: u32 = (0x4000u32 << 16u32) | (0x90du32 << 2u32);

/// Reads the bounded model-specific-register array.
pub const GET_MSR_STATE: u32 = (0x4000u32 << 16u32) | (0x908u32 << 2u32);

/// Writes the bounded model-specific-register array.
pub const SET_MSR_STATE: u32 = (0x4000u32 << 16u32) | (0x907u32 << 2u32);

/// Reads the FPU and SSE record.
pub const GET_FPU_STATE: u32 = (0x4000u32 << 16u32) | (0x90au32 << 2u32);

/// Writes the FPU and SSE record.
pub const SET_FPU_STATE: u32 = (0x4000u32 << 16u32) | (0x909u32 << 2u32);

/// Requests injection of an external interrupt vector.
pub const INJECT_INTERRUPT: u32 = (0x4000u32 << 16u32) | (0x90cu32 << 2u32);

} // verus!
