//! Basic hardware exit reasons of the virtual-machine extensions.
//!
//! These are the architecture-specific codes a backend reports when it has
//! no portable reason of its own; the dispatcher carries them through
//! unchanged inside an unknown-exit result.

use vstd::prelude::*;

verus! {

/// A basic hardware exit reason.
#[derive(Debug, Clone, Copy, PartialEq, Eq, Structural)]
pub enum ExitReason {
    /// Guest software caused an exception that requires an exit.
    Exception,
    /// An external interrupt arrived.
    ExternalInterrupt,
    /// An exception occurred while calling the double-fault handler.
    TripleFault,
    /// An initialization signal arrived.
    INITSignal,
    /// A guest-physical access was disallowed by the nested paging
    /// structures.
    EptViolation,
}

impl ExitReason {
    /// The architectural code of this reason.
    pub open spec fn spec_code(self) -> u32 {
        match self {
            ExitReason::Exception => 0,
            ExitReason::ExternalInterrupt => 1,
            ExitReason::TripleFault => 2,
            ExitReason::INITSignal => 3,
            ExitReason::EptViolation => 48,
        }
    }

    /// The architectural code of this reason.
    pub fn code(self) -> (c: u32)
        ensures
            c == self.spec_code(),
    {
        match self {
            ExitReason::Exception => 0,
            ExitReason::ExternalInterrupt => 1,
            ExitReason::TripleFault => 2,
            ExitReason::INITSignal => 3,
            ExitReason::EptViolation => 48,
        }
    }

    /// Decodes an architectural code; codes this client does not model are
    /// rejected.
    pub fn from_code(code: u32) -> (r: Option<ExitReason>)
        ensures
            r is Some <==> (code == 0 || code == 1 || code == 2 || code == 3 || code == 48),
            r is Some ==> r.unwrap().spec_code() == code,
    {
        match code {
            0 => Some(ExitReason::Exception),
            1 => Some(ExitReason::ExternalInterrupt),
            2 => Some(ExitReason::TripleFault),
            3 => Some(ExitReason::INITSignal),
            48 => Some(ExitReason::EptViolation),
            _ => None,
        }
    }
}

} // verus!
