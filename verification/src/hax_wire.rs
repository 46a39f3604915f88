//! Wire records of the vendor driver.
//!
//! Every structure here mirrors, field for field, a record the driver reads
//! or writes through a device-control call. Reserved fields are carried
//! explicitly and are kept zero on writes; some drivers reject records with
//! non-zero reserved bytes.

use vstd::prelude::*;

use crate::errors::ProtocolError;
use crate::msr::{MSRState, SYSENTER_CS, TSC};

verus! {

/// One segment descriptor as the vendor driver carries it: the access bits
/// packed into a single flags word.
#[derive(Debug, Clone, Copy, PartialEq, Eq, Structural)]
pub struct SegmentDescriptor {
    /// The index of the descriptor in the global descriptor table.
    pub selector: u16,
    /// Reserved; kept zero.
    pub reserved1: u16,
    /// The size of the memory segment.
    pub limit: u32,
    /// The starting address of the segment.
    pub base: u64,
    /// The packed access bits.
    pub flags: u32,
    /// Reserved; kept zero.
    pub reserved2: u32,
}

/// The register record of the vendor driver.
///
/// The general registers stand in the same order as the canonical form:
/// accumulator, counter, data, base, stack pointer, base pointer, source
/// index, destination index, then the numbered upper registers.
#[derive(Debug, Clone, Copy, PartialEq, Eq)]
#[verifier::ext_equal]
pub struct VcpuState {
    /// The sixteen general registers.
    pub r: [u64; 16],
    /// The instruction pointer.
    pub ip: u64,
    /// The raw flags word.
    pub flags: u64,
    /// The code segment.
    pub cs: SegmentDescriptor,
    /// The stack segment.
    pub ss: SegmentDescriptor,
    /// The data segment.
    pub ds: SegmentDescriptor,
    /// The first extra segment.
    pub es: SegmentDescriptor,
    /// The second extra segment.
    pub fs: SegmentDescriptor,
    /// The third extra segment.
    pub gs: SegmentDescriptor,
    /// The local descriptor table register; not synchronized.
    pub ldt: SegmentDescriptor,
    /// The task register; not synchronized.
    pub tr: SegmentDescriptor,
    /// The global descriptor table register; not synchronized.
    pub gdt: SegmentDescriptor,
    /// The interrupt descriptor table register; not synchronized.
    pub idt: SegmentDescriptor,
    /// Control register 0.
    pub cr0: u64,
    /// Control register 2.
    pub cr2: u64,
    /// Control register 3.
    pub cr3: u64,
    /// Control register 4.
    pub cr4: u64,
    /// Debug registers; not synchronized.
    pub dr0: u64,
    /// Debug registers; not synchronized.
    pub dr1: u64,
    /// Debug registers; not synchronized.
    pub dr2: u64,
    /// Debug registers; not synchronized.
    pub dr3: u64,
    /// Debug registers; not synchronized.
    pub dr6: u64,
    /// Debug registers; not synchronized.
    pub dr7: u64,
    /// The page-directory base shadow; not synchronized.
    pub pde: u64,
    /// The extended-feature-enable register, truncated to the driver's
    /// 32-bit field.
    pub efer: u32,
    /// The fast system-call code segment; not synchronized.
    pub sysenter_cs: u32,
    /// The fast system-call instruction pointer; not synchronized.
    pub sysenter_ip: u32,
    /// The fast system-call stack pointer; not synchronized.
    pub sysenter_sp: u32,
    /// The processor activity state; not synchronized.
    pub activity_state: u32,
    /// Reserved; kept zero.
    pub reserved1: u32,
    /// The interruptibility state; not synchronized.
    pub interruptibility_state: u32,
    /// Reserved; kept zero.
    pub reserved2: u64,
}

/// The FPU and SSE record of the vendor driver, after the standard save
/// area layout.
#[derive(Debug, Clone, Copy, PartialEq, Eq)]
#[verifier::ext_equal]
pub struct FPUState {
    /// The control word.
    pub control: u16,
    /// The status word.
    pub status: u16,
    /// The tag word in its compact one-byte form.
    pub tag: u8,
    /// Reserved; kept zero.
    pub reserved1: u8,
    /// The last opcode; the low eleven bits are meaningful.
    pub op: u16,
    /// The last instruction pointer.
    pub ip: u64,
    /// The last data pointer.
    pub data_ptr: u64,
    /// The SSE control and status word.
    pub mxcsr: u32,
    /// The mask of valid control and status bits.
    pub mxcsr_mask: u32,
    /// The x87 register stack, each entry in two 64-bit halves.
    pub st: [[u64; 2]; 8],
    /// The SSE registers, each in two 64-bit halves.
    pub mmx: [[u64; 2]; 16],
    /// Reserved tail of the save area; kept zero.
    pub reserved2: [u64; 12],
}

/// The most entries one bounded register array can carry.
pub const MSR_MAX_COUNT: usize = 32;

/// One numbered register entry of the bounded array.
#[derive(Debug, Clone, Copy, PartialEq, Eq, Structural)]
pub struct MSR {
    /// The register's number.
    pub address: u32,
    /// Reserved; kept zero.
    pub reserved: u32,
    /// The register's value.
    pub value: u64,
}

/// The bounded register-array record. The client states how many entries
/// are meaningful; the driver answers with how many it updated.
#[derive(Debug, Clone, Copy, PartialEq, Eq)]
#[verifier::ext_equal]
pub struct MSRData {
    /// The number of meaningful entries.
    pub count: u16,
    /// The number of entries the driver updated.
    pub done: u16,
    /// Reserved; kept zero.
    pub reserved: [u16; 2],
    /// The entries themselves.
    pub entries: [MSR; 32],
}

/// Whether the client recognizes a register number in a driver reply.
pub open spec fn msr_known(address: u32) -> bool {
    address == TSC || address == SYSENTER_CS
}

/// The register record after one reply entry has been applied.
pub open spec fn apply_msr(prev: MSRState, entry: MSR) -> MSRState {
    if entry.address == TSC {
        MSRState { tsc: entry.value, ..prev }
    } else if entry.address == SYSENTER_CS {
        MSRState { sysenter_cs: entry.value, ..prev }
    } else {
        prev
    }
}

/// The register record after a sequence of reply entries has been applied
/// in order.
pub open spec fn apply_msrs(prev: MSRState, entries: Seq<MSR>) -> MSRState
    decreases entries.len(),
{
    if entries.len() == 0 {
        prev
    } else {
        apply_msr(apply_msrs(prev, entries.drop_last()), entries.last())
    }
}

impl MSRData {
    /// A cleared record with no meaningful entries.
    pub fn new() -> (r: Self)
        ensures
            r.count == 0 && r.done == 0,
            r.reserved@ =~= seq![0u16, 0u16],
            forall|i: int| 0 <= i < 32 ==> r.entries[i] == (MSR {
                address: 0,
                reserved: 0,
                value: 0,
            }),
    {
        MSRData {
            count: 0,
            done: 0,
            reserved: [0u16, 0u16],
            entries: [MSR { address: 0, reserved: 0, value: 0 }; 32],
        }
    }

    /// Appends one entry to the meaningful prefix.
    pub fn push(&mut self, address: u32, value: u64)
        requires
            old(self).count < 32,
        ensures
            final(self).count == old(self).count + 1,
            final(self).done == old(self).done,
            final(self).reserved == old(self).reserved,
            final(self).entries@ =~= old(self).entries@.update(
                old(self).count as int,
                MSR { address, reserved: 0, value },
            ),
    {
        let i: usize = self.count as usize;
        self.entries[i] = MSR { address, reserved: 0, value };
        self.count = self.count + 1;
    }

    /// Builds the request the client sends when reading or writing the
    /// synchronized registers: the time-stamp counter and the fast
    /// system-call code segment, in that order; every entry past the
    /// meaningful prefix stays zero.
    pub fn from(state: &MSRState) -> (r: Self)
        ensures
            r.count == 2,
            r.done == 0,
            r.reserved@ =~= seq![0u16, 0u16],
            r.entries[0] == (MSR { address: TSC, reserved: 0, value: state.tsc }),
            r.entries[1] == (MSR { address: SYSENTER_CS, reserved: 0, value: state.sysenter_cs }),
            forall|i: int|
                2 <= i < 32 ==> #[trigger] r.entries[i] == (MSR {
                    address: 0,
                    reserved: 0,
                    value: 0,
                }),
    {
        let mut data = Self::new();

        data.push(TSC, state.tsc);
        data.push(SYSENTER_CS, state.sysenter_cs);

        data
    }

    /// Whether a reply updated every entry the client asked about and
    /// every returned entry carries a register number the client knows.
    pub open spec fn reply_complete(self) -> bool {
        &&& self.done == self.count
        &&& self.done <= 32
        &&& forall|i: int|
            0 <= i < self.done as int ==> msr_known(#[trigger] self.entries[i].address)
    }

    /// Applies a read reply to the register record.
    ///
    /// A reply that updated fewer entries than requested is a protocol
    /// error and is not applied in part; so is a reply entry with an
    /// unknown register number.
    pub fn into(self, msrs: &mut MSRState) -> (r: Result<(), ProtocolError>)
        ensures
            r is Ok <==> self.reply_complete(),
            r is Ok ==> *final(msrs) == apply_msrs(*old(msrs), self.entries@.take(self.done as int)),
            r is Err ==> *final(msrs) == *old(msrs),
            r is Err ==> (r.unwrap_err() == ProtocolError::MsrCountMismatch <==> (self.done
                != self.count || self.done > 32)),
    {
        if self.done != self.count || self.done > 32 {
            return Err(ProtocolError::MsrCountMismatch);
        }

        let done: usize = self.done as usize;
        let mut staged: MSRState = *msrs;
        let mut i: usize = 0;

        while i < done
            invariant
                i <= done,
                done == self.done as int,
                done <= 32,
                self.done == self.count,
                forall|j: int| 0 <= j < i ==> msr_known(#[trigger] self.entries[j].address),
                staged == apply_msrs(*old(msrs), self.entries@.take(i as int)),
                msrs == old(msrs),
            decreases done - i,
        {
            let entry = self.entries[i];

            proof {
                assert(self.entries@.take(i + 1).drop_last() =~= self.entries@.take(i as int));
                assert(self.entries@.take(i + 1).last() == self.entries[i as int]);
            }

            if entry.address == TSC {
                staged.tsc = entry.value;
            } else if entry.address == SYSENTER_CS {
                staged.sysenter_cs = entry.value;
            } else {
                return Err(ProtocolError::UnknownMsr(entry.address));
            }

            i = i + 1;
        }

        *msrs = staged;
        Ok(())
    }

    /// The two entries the client sends for a register record, echoed in
    /// a complete reply.
    pub open spec fn spec_request_entries(state: MSRState) -> Seq<MSR> {
        seq![
            MSR { address: TSC, reserved: 0, value: state.tsc },
            MSR { address: SYSENTER_CS, reserved: 0, value: state.sysenter_cs },
        ]
    }

    /// Checks the driver's reply to a register write: every entry the
    /// client sent must have been taken, else the write counts as failed.
    pub fn check_write_reply(&self) -> (r: Result<(), ProtocolError>)
        ensures
            r is Ok <==> self.done == self.count,
            r is Err ==> r.unwrap_err() == ProtocolError::MsrCountMismatch,
    {
        if self.done == self.count {
            Ok(())
        } else {
            Err(ProtocolError::MsrCountMismatch)
        }
    }
}

/// Writing the synchronized numbered registers and reading them back
/// yields the same values, whatever record they are applied over: the
/// bounded-array protocol loses nothing on a complete round trip.
pub proof fn lemma_msr_round_trip(state: MSRState, prev: MSRState)
    ensures
        apply_msrs(prev, MSRData::spec_request_entries(state)) == state,
{
    let e0 = MSR { address: TSC, reserved: 0, value: state.tsc };
    let e1 = MSR { address: SYSENTER_CS, reserved: 0, value: state.sysenter_cs };
    let entries = MSRData::spec_request_entries(state);
    let first = seq![e0];

    assert(entries.drop_last() =~= first);
    assert(first.drop_last() =~= Seq::<MSR>::empty());
    assert(apply_msrs(prev, Seq::<MSR>::empty()) == prev);
    assert(apply_msrs(prev, first) == apply_msr(prev, e0));
    assert(apply_msrs(prev, entries) == apply_msr(apply_msr(prev, e0), e1));
    assert(apply_msr(apply_msr(prev, e0), e1) == state);
}

} // verus!
