//! A stub of a peripheral bus: the interface through which emulated
//! devices would interconnect, and the addressing of one serial bus
//! family.

use vstd::prelude::*;

verus! {

/// A computer bus, over which components interconnect and communicate.
pub trait Bus {
    /// The type of the devices that sit on this bus.
    type Child;
}

/// The unique identifier of a device on a two-wire serial bus.
///
/// An address is normally seven bits long, with a ten-bit extension;
/// some values are reserved by the bus specification, among them the
/// general-call address used for broadcasting.
#[derive(Debug, Clone, Copy, PartialEq, Eq, Structural)]
pub struct Address {
    /// The raw address value.
    pub value: u16,
}

impl Address {
    /// The general-call address, which every device on the bus hears.
    pub fn broadcast() -> (r: Self)
        ensures
            r.value == 0,
    {
        Address { value: 0 }
    }
}

} // verus!
