//! Interrupt-controller records of the generic-syscall backend.
//!
//! The in-kernel interrupt-controller model is created with a single
//! parameterless call; these records carry its state when it is read or
//! written. The kernel's record holds a payload union; here the payload
//! is a tagged variant chosen by the chip id.

use vstd::prelude::*;

verus! {

/// Which interrupt-controller chip a record addresses.
#[derive(Debug, Clone, Copy, PartialEq, Eq, Structural)]
pub enum ChipId {
    /// The first programmable interrupt controller.
    PIC1,
    /// The second programmable interrupt controller.
    PIC2,
    /// The I/O interrupt controller.
    IOAPIC,
}

impl ChipId {
    /// The wire code of this chip.
    pub fn code(self) -> (c: u32)
        ensures
            c == match self {
                ChipId::PIC1 => 0u32,
                ChipId::PIC2 => 1u32,
                ChipId::IOAPIC => 2u32,
            },
    {
        match self {
            ChipId::PIC1 => 0,
            ChipId::PIC2 => 1,
            ChipId::IOAPIC => 2,
        }
    }
}

/// The state of one emulated programmable interrupt controller.
#[derive(Debug, Clone, Copy, PartialEq, Eq, Structural)]
pub struct PicState {
    /// The last request-register value, for edge detection.
    pub last_irr: u8,
    /// The interrupt request register.
    pub irr: u8,
    /// The interrupt mask register.
    pub imr: u8,
    /// The interrupt service register.
    pub isr: u8,
    /// The highest request priority.
    pub priority: u8,
    /// The vector base the chip was programmed with.
    pub irq_base: u8,
    /// Which register a read returns.
    pub read_reg_select: u8,
    /// The poll mode flag.
    pub poll: u8,
    /// The special-mask mode flag.
    pub special_mask: u8,
    /// Where the chip stands in its initialization sequence.
    pub init_state: u8,
    /// The automatic end-of-interrupt flag.
    pub auto_eoi: u8,
    /// The rotating automatic end-of-interrupt flag.
    pub rotate_on_auto_eoi: u8,
    /// The special fully-nested mode flag.
    pub special_fully_nested_mode: u8,
    /// True if the guest initialized the chip with four words.
    pub init4: bool,
    /// The edge and level trigger selection.
    pub elcr: u8,
    /// The mask of trigger-selection bits the chip honours.
    pub elcr_mask: u8,
}

/// The state of the emulated I/O interrupt controller.
#[derive(Debug, Clone, Copy, PartialEq, Eq)]
#[verifier::ext_equal]
pub struct IoApicState {
    /// The controller's base physical address.
    pub base_address: u64,
    /// The register-selection value.
    pub reg_sel: u32,
    /// The controller's id.
    pub id: u32,
    /// The interrupt request register.
    pub irr: u32,
    /// Reserved; kept zero.
    pub padding: u32,
    /// One 64-bit redirection register per input.
    pub redir_tbl: [u64; 24],
}

/// The payload of an interrupt-controller record, tagged by the chip it
/// belongs to.
#[derive(Debug, Clone, Copy, PartialEq, Eq)]
#[verifier::ext_equal]
pub enum IrqChipState {
    /// The state of a programmable interrupt controller.
    Pic(PicState),
    /// The state of the I/O interrupt controller.
    IoApic(IoApicState),
}

/// The record that reads or writes one interrupt-controller chip; the
/// chip id names which chip, the payload carries its state.
#[derive(Debug, Clone, Copy, PartialEq, Eq)]
#[verifier::ext_equal]
pub struct IrqChip {
    /// Which chip the record addresses.
    pub id: ChipId,
    /// The chip's state.
    pub state: IrqChipState,
}

} // verus!
