//! Processor-identification records of the generic-syscall backend.
//!
//! The kernel hands back a contiguous array of identification entries
//! under a header naming their count; each entry pairs the queried
//! function and index with the four registers the processor would
//! return.

use vstd::prelude::*;

use crate::text::{spec_decimal, push_decimal};

verus! {

/// Entry flag: the index field of the entry is meaningful.
pub const CPUID_FLAG_SIGNIFICANT_INDEX: u32 = 1;

/// Entry flag: the function returns different values on successive
/// reads; every entry of that function carries the flag.
pub const CPUID_FLAG_STATEFUL: u32 = 2;

/// Entry flag: among the entries of a stateful function, marks the one
/// the processor will read next.
pub const CPUID_FLAG_STATEFUL_READ_NEXT: u32 = 4;

/// The flags of one identification entry.
#[derive(Debug, Clone, Copy, PartialEq, Eq, Structural)]
pub struct CpuidFlag {
    /// The raw flag bits.
    pub bits: u32,
}

/// The text form of a flags word: the names of the set flags joined by
/// a separator, or a marker when none is set. Bits beyond the three
/// defined ones are not rendered.
pub open spec fn spec_cpuid_flags_text(bits: u32) -> Seq<char> {
    let m = bits & 7;
    if m == 0 {
        "(empty)"@
    } else if m == 1 {
        "SIGNIFICANT_INDEX"@
    } else if m == 2 {
        "STATEFUL"@
    } else if m == 3 {
        "SIGNIFICANT_INDEX | STATEFUL"@
    } else if m == 4 {
        "STATEFUL_READ_NEXT"@
    } else if m == 5 {
        "SIGNIFICANT_INDEX | STATEFUL_READ_NEXT"@
    } else if m == 6 {
        "STATEFUL | STATEFUL_READ_NEXT"@
    } else {
        "SIGNIFICANT_INDEX | STATEFUL | STATEFUL_READ_NEXT"@
    }
}

impl CpuidFlag {
    /// An empty flags word.
    pub fn empty() -> (r: Self)
        ensures
            r.bits == 0,
    {
        CpuidFlag { bits: 0 }
    }

    /// Whether every bit of `other` is set in this word.
    pub fn contains(&self, other: CpuidFlag) -> (r: bool)
        ensures
            r == (self.bits & other.bits == other.bits),
    {
        self.bits & other.bits == other.bits
    }

    /// The names of the set flags, joined by a separator, or a marker
    /// when none is set.
    pub fn describe(&self) -> (r: String)
        ensures
            r@ == spec_cpuid_flags_text(self.bits),
    {
        let m: u32 = self.bits & 7;
        if m == 0 {
            String::from_str("(empty)")
        } else if m == 1 {
            String::from_str("SIGNIFICANT_INDEX")
        } else if m == 2 {
            String::from_str("STATEFUL")
        } else if m == 3 {
            String::from_str("SIGNIFICANT_INDEX | STATEFUL")
        } else if m == 4 {
            String::from_str("STATEFUL_READ_NEXT")
        } else if m == 5 {
            String::from_str("SIGNIFICANT_INDEX | STATEFUL_READ_NEXT")
        } else if m == 6 {
            String::from_str("STATEFUL | STATEFUL_READ_NEXT")
        } else {
            String::from_str("SIGNIFICANT_INDEX | STATEFUL | STATEFUL_READ_NEXT")
        }
    }
}

/// The header of an identification-entry array.
#[derive(Debug, Clone, Copy, PartialEq, Eq, Structural)]
pub struct CpuidHeader {
    /// The number of entries in the array that follows.
    pub len: u32,
    /// Reserved; kept zero.
    pub padding: u32,
}

impl CpuidHeader {
    /// A header for an array of the given length.
    pub fn new(len: u32) -> (r: Self)
        ensures
            r.len == len,
            r.padding == 0,
    {
        CpuidHeader { len, padding: 0 }
    }
}

/// One identification entry.
#[derive(Debug, Clone, Copy, PartialEq, Eq)]
#[verifier::ext_equal]
pub struct CpuidEntry {
    /// The function value used to obtain this entry.
    pub function: u32,
    /// The index value used to obtain it, where meaningful.
    pub index: u32,
    /// The entry's flags.
    pub flags: CpuidFlag,
    /// The four registers returned for this function.
    pub r: [u32; 4],
    /// Reserved; kept zero.
    pub padding: [u32; 3],
}

/// The text form of one identification entry: the function, the index
/// when its flag marks it meaningful, the remaining flags and the four
/// registers. When the index is shown, its flag is left out of the
/// rendered flags.
pub open spec fn spec_cpuid_entry_text(e: CpuidEntry) -> Seq<char> {
    "CpuidEntry { fn: "@ + spec_decimal(e.function as int) + ", "@ + (if e.flags.bits & 1 != 0 {
        "index: "@ + spec_decimal(e.index as int) + ", "@
    } else {
        Seq::<char>::empty()
    }) + "flags: "@ + spec_cpuid_flags_text(
        if e.flags.bits & 1 != 0 {
            e.flags.bits & !1
        } else {
            e.flags.bits
        },
    ) + ", regs: ["@ + spec_decimal(e.r[0] as int) + ", "@ + spec_decimal(e.r[1] as int) + ", "@
        + spec_decimal(e.r[2] as int) + ", "@ + spec_decimal(e.r[3] as int) + "] }"@
}

impl CpuidEntry {
    /// A cleared entry.
    pub fn new() -> (r: Self)
        ensures
            r.function == 0,
            r.index == 0,
            r.flags.bits == 0,
            r.r@ =~= seq![0u32, 0u32, 0u32, 0u32],
            r.padding@ =~= seq![0u32, 0u32, 0u32],
    {
        CpuidEntry {
            function: 0,
            index: 0,
            flags: CpuidFlag { bits: 0 },
            r: [0u32, 0u32, 0u32, 0u32],
            padding: [0u32, 0u32, 0u32],
        }
    }

    /// Renders the entry in its text form.
    pub fn describe(&self) -> (r: String)
        ensures
            r@ == spec_cpuid_entry_text(*self),
    {
        let mut s = String::from_str("CpuidEntry { fn: ");
        push_decimal(&mut s, self.function);
        s.append(", ");

        let shown_flags: u32 = if self.flags.bits & 1 != 0 {
            s.append("index: ");
            push_decimal(&mut s, self.index);
            s.append(", ");
            self.flags.bits & !1
        } else {
            self.flags.bits
        };

        s.append("flags: ");
        let flags_text = (CpuidFlag { bits: shown_flags }).describe();
        s.append(flags_text.as_str());

        s.append(", regs: [");
        push_decimal(&mut s, self.r[0]);
        s.append(", ");
        push_decimal(&mut s, self.r[1]);
        s.append(", ");
        push_decimal(&mut s, self.r[2]);
        s.append(", ");
        push_decimal(&mut s, self.r[3]);
        s.append("] }");

        proof {
            assert(s@ =~= spec_cpuid_entry_text(*self));
        }

        s
    }
}

} // verus!
