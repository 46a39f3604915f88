//! A user-space virtual machine monitor client core.
//!
//! This crate holds the backend-neutral model of a hardware-virtualization
//! client: the canonical CPU state, the bit-exact translation to and from the
//! wire structures of two kernel backends, exit-reason dispatch, version and
//! capability negotiation, and the memory-slot bookkeeping of a virtual
//! machine. Everything here is pure logic over plain values; the actual
//! device-control calls live outside the library and hand it the raw records
//! they read and take back the records it builds.

pub mod accel;
pub mod bus;
pub mod errors;
pub mod hax_caps;
pub mod hax_connection;
pub mod hax_io_codes;
pub mod hax_paths;
pub mod hax_run;
pub mod hax_translate;
pub mod hax_vcpu;
pub mod hax_version;
pub mod hax_vm;
pub mod hax_wire;
pub mod kvm_cpuid;
pub mod kvm_global;
pub mod kvm_irq;
pub mod kvm_run;
pub mod kvm_translate;
pub mod kvm_vcpu;
pub mod kvm_vm;
pub mod kvm_wire;
pub mod memory;
pub mod msr;
pub mod slots;
pub mod state;
pub mod text;
pub mod vmx;

pub use hax_io_codes::create_io_code;
