//! Translation between the canonical state and the vendor driver's wire
//! records.
//!
//! This backend carries the general registers in the same order as the
//! canonical form, so its register table is the identity; the work lies in
//! packing each segment descriptor's boolean access fields into the
//! driver's single flags word and unpacking them again without losing a
//! bit. The round-trip laws at the end state exactly that.

use vstd::prelude::*;

use crate::errors::ProtocolError;
use crate::hax_wire::{FPUState, SegmentDescriptor, VcpuState};
use crate::state::{flags_bits_valid, Cr0, Cr4, Efer, Flags, FpuState, Segment, State, EFER_ALL};

verus! {

/// The packed access word of a segment descriptor: the four type bits,
/// the user bit, the two privilege bits and the present bit in the low
/// byte; the available, long-mode, operand-size and granularity bits in
/// the high nibble.
pub open spec fn spec_pack_access(s: Segment) -> u16 {
    (if s.accessed { 0x1u16 } else { 0u16 })
        | (if s.write_read { 0x2u16 } else { 0u16 })
        | (if s.direction_conforming { 0x4u16 } else { 0u16 })
        | (if s.code_data { 0x8u16 } else { 0u16 })
        | (if s.user_system { 0x10u16 } else { 0u16 })
        | ((s.dpl as u16) << 5u16)
        | (if s.present { 0x80u16 } else { 0u16 })
        | (if s.available { 0x1000u16 } else { 0u16 })
        | (if s.long { 0x2000u16 } else { 0u16 })
        | (if s.op_size { 0x4000u16 } else { 0u16 })
        | (if s.granularity { 0x8000u16 } else { 0u16 })
}

/// The canonical segment described by a wire descriptor: every access
/// field read back from its bit in the packed word.
pub open spec fn spec_segment_of(d: SegmentDescriptor) -> Segment {
    Segment {
        base: d.base,
        limit: d.limit,
        selector: d.selector,
        accessed: (d.flags as u16) & 0x1 != 0,
        write_read: (d.flags as u16) & 0x2 != 0,
        direction_conforming: (d.flags as u16) & 0x4 != 0,
        code_data: (d.flags as u16) & 0x8 != 0,
        user_system: (d.flags as u16) & 0x10 != 0,
        dpl: (((d.flags as u16) >> 5u16) & 3) as u8,
        present: (d.flags as u16) & 0x80 != 0,
        available: (d.flags as u16) & 0x1000 != 0,
        long: (d.flags as u16) & 0x2000 != 0,
        op_size: (d.flags as u16) & 0x4000 != 0,
        granularity: (d.flags as u16) & 0x8000 != 0,
    }
}

/// The wire descriptor that encodes a canonical segment.
pub open spec fn spec_descriptor_of(s: Segment) -> SegmentDescriptor {
    SegmentDescriptor {
        selector: s.selector,
        reserved1: 0,
        limit: s.limit,
        base: s.base,
        flags: spec_pack_access(s) as u32,
        reserved2: 0,
    }
}

impl SegmentDescriptor {
    /// Packs a canonical segment into the driver's descriptor form.
    pub fn from(seg: Segment) -> (r: Self)
        requires
            seg.wf(),
        ensures
            r == spec_descriptor_of(seg),
    {
        let flags: u16 = (if seg.accessed { 0x1u16 } else { 0u16 })
            | (if seg.write_read { 0x2u16 } else { 0u16 })
            | (if seg.direction_conforming { 0x4u16 } else { 0u16 })
            | (if seg.code_data { 0x8u16 } else { 0u16 })
            | (if seg.user_system { 0x10u16 } else { 0u16 })
            | ((seg.dpl as u16) << 5u16)
            | (if seg.present { 0x80u16 } else { 0u16 })
            | (if seg.available { 0x1000u16 } else { 0u16 })
            | (if seg.long { 0x2000u16 } else { 0u16 })
            | (if seg.op_size { 0x4000u16 } else { 0u16 })
            | (if seg.granularity { 0x8000u16 } else { 0u16 });

        SegmentDescriptor {
            selector: seg.selector,
            reserved1: 0,
            limit: seg.limit,
            base: seg.base,
            flags: flags as u32,
            reserved2: 0,
        }
    }

    /// Unpacks this descriptor into the canonical segment form.
    pub fn to_segment(&self) -> (r: Segment)
        ensures
            r == spec_segment_of(*self),
            r.wf(),
    {
        let w: u16 = self.flags as u16;

        proof {
            assert(((w >> 5u16) & 3) < 4) by (bit_vector);
        }

        Segment {
            base: self.base,
            limit: self.limit,
            selector: self.selector,
            accessed: w & 0x1 != 0,
            write_read: w & 0x2 != 0,
            direction_conforming: w & 0x4 != 0,
            code_data: w & 0x8 != 0,
            user_system: w & 0x10 != 0,
            dpl: ((w >> 5u16) & 3) as u8,
            present: w & 0x80 != 0,
            available: w & 0x1000 != 0,
            long: w & 0x2000 != 0,
            op_size: w & 0x4000 != 0,
            granularity: w & 0x8000 != 0,
        }
    }
}

/// No access bit is lost in the packed word: unpacking the descriptor of
/// a segment within architectural bounds gives the segment back, field
/// for field.
pub proof fn lemma_segment_round_trip(s: Segment)
    requires
        s.wf(),
    ensures
        spec_segment_of(spec_descriptor_of(s)) == s,
{
    let a: u16 = if s.accessed { 0x1 } else { 0 };
    let wr: u16 = if s.write_read { 0x2 } else { 0 };
    let dc: u16 = if s.direction_conforming { 0x4 } else { 0 };
    let cd: u16 = if s.code_data { 0x8 } else { 0 };
    let us: u16 = if s.user_system { 0x10 } else { 0 };
    let d: u16 = s.dpl as u16;
    let p: u16 = if s.present { 0x80 } else { 0 };
    let av: u16 = if s.available { 0x1000 } else { 0 };
    let l: u16 = if s.long { 0x2000 } else { 0 };
    let op: u16 = if s.op_size { 0x4000 } else { 0 };
    let g: u16 = if s.granularity { 0x8000 } else { 0 };
    let w: u16 = a | wr | dc | cd | us | (d << 5u16) | p | av | l | op | g;

    assert((w & 0x1 != 0) == (a == 0x1) && (w & 0x2 != 0) == (wr == 0x2) && (w & 0x4 != 0) == (dc
        == 0x4) && (w & 0x8 != 0) == (cd == 0x8) && (w & 0x10 != 0) == (us == 0x10) && ((w
        >> 5u16) & 3) == d && (w & 0x80 != 0) == (p == 0x80) && (w & 0x1000 != 0) == (av == 0x1000)
        && (w & 0x2000 != 0) == (l == 0x2000) && (w & 0x4000 != 0) == (op == 0x4000) && (w & 0x8000
        != 0) == (g == 0x8000)) by (bit_vector)
        requires
            w == a | wr | dc | cd | us | (d << 5u16) | p | av | l | op | g,
            a == 0x1 || a == 0,
            wr == 0x2 || wr == 0,
            dc == 0x4 || dc == 0,
            cd == 0x8 || cd == 0,
            us == 0x10 || us == 0,
            d < 4,
            p == 0x80 || p == 0,
            av == 0x1000 || av == 0,
            l == 0x2000 || l == 0,
            op == 0x4000 || op == 0,
            g == 0x8000 || g == 0,
    ;

    assert(spec_pack_access(s) == w);
    assert((spec_pack_access(s) as u32) as u16 == w);
}

/// The full register record that encodes a canonical state for the
/// driver when no previously read record is at hand: registers in the
/// same order, the flags word and control registers copied bit for bit,
/// each segment packed, and every field the client does not synchronize
/// written as zero. To preserve the driver's values in those fields
/// instead, build over a record read back first.
pub open spec fn spec_wire_state_of(s: State) -> VcpuState {
    VcpuState {
        r: s.r,
        ip: s.ip,
        flags: s.flags.bits,
        cs: spec_descriptor_of(s.cs),
        ss: spec_descriptor_of(s.ss),
        ds: spec_descriptor_of(s.ds),
        es: spec_descriptor_of(s.es),
        fs: spec_descriptor_of(s.fs),
        gs: spec_descriptor_of(s.gs),
        ldt: spec_zero_descriptor(),
        tr: spec_zero_descriptor(),
        gdt: spec_zero_descriptor(),
        idt: spec_zero_descriptor(),
        cr0: s.cr0.bits,
        cr2: s.cr2,
        cr3: s.cr3,
        cr4: s.cr4.bits,
        dr0: 0,
        dr1: 0,
        dr2: 0,
        dr3: 0,
        dr6: 0,
        dr7: 0,
        pde: 0,
        efer: s.efer.bits as u32,
        sysenter_cs: 0,
        sysenter_ip: 0,
        sysenter_sp: 0,
        activity_state: 0,
        reserved1: 0,
        interruptibility_state: 0,
        reserved2: 0,
    }
}

/// A descriptor with every field zero, used for the registers the client
/// does not synchronize.
pub open spec fn spec_zero_descriptor() -> SegmentDescriptor {
    SegmentDescriptor { selector: 0, reserved1: 0, limit: 0, base: 0, flags: 0, reserved2: 0 }
}

/// Builds the register record the client sends to write a canonical state
/// into the driver when no previously read record is at hand; the fields
/// the client does not synchronize are written as zero.
pub fn cpu_state_record(s: &State) -> (w: VcpuState)
    requires
        s.wf(),
    ensures
        w == spec_wire_state_of(*s),
{
    let zero = SegmentDescriptor {
        selector: 0,
        reserved1: 0,
        limit: 0,
        base: 0,
        flags: 0,
        reserved2: 0,
    };

    VcpuState {
        r: s.r,
        ip: s.ip,
        flags: s.flags.bits,
        cs: SegmentDescriptor::from(s.cs),
        ss: SegmentDescriptor::from(s.ss),
        ds: SegmentDescriptor::from(s.ds),
        es: SegmentDescriptor::from(s.es),
        fs: SegmentDescriptor::from(s.fs),
        gs: SegmentDescriptor::from(s.gs),
        ldt: zero,
        tr: zero,
        gdt: zero,
        idt: zero,
        cr0: s.cr0.bits,
        cr2: s.cr2,
        cr3: s.cr3,
        cr4: s.cr4.bits,
        dr0: 0,
        dr1: 0,
        dr2: 0,
        dr3: 0,
        dr6: 0,
        dr7: 0,
        pde: 0,
        efer: s.efer.bits as u32,
        sysenter_cs: 0,
        sysenter_ip: 0,
        sysenter_sp: 0,
        activity_state: 0,
        reserved1: 0,
        interruptibility_state: 0,
        reserved2: 0,
    }
}

/// The register record that encodes a canonical state over a record
/// previously read from the driver: the synchronized fields come from
/// the state, the fields the client does not synchronize keep the values
/// the driver last reported — left untouched, not zeroed — and reserved
/// fields stay zero.
pub open spec fn spec_wire_state_over(prev: VcpuState, s: State) -> VcpuState {
    VcpuState {
        r: s.r,
        ip: s.ip,
        flags: s.flags.bits,
        cs: spec_descriptor_of(s.cs),
        ss: spec_descriptor_of(s.ss),
        ds: spec_descriptor_of(s.ds),
        es: spec_descriptor_of(s.es),
        fs: spec_descriptor_of(s.fs),
        gs: spec_descriptor_of(s.gs),
        cr0: s.cr0.bits,
        cr2: s.cr2,
        cr3: s.cr3,
        cr4: s.cr4.bits,
        efer: s.efer.bits as u32,
        reserved1: 0,
        reserved2: 0,
        ..prev
    }
}

/// Builds the register record the client sends on a read-modify-write
/// synchronization: the record read back from the driver supplies every
/// field the client does not synchronize.
pub fn cpu_state_record_over(prev: &VcpuState, s: &State) -> (w: VcpuState)
    requires
        s.wf(),
    ensures
        w == spec_wire_state_over(*prev, *s),
{
    VcpuState {
        r: s.r,
        ip: s.ip,
        flags: s.flags.bits,
        cs: SegmentDescriptor::from(s.cs),
        ss: SegmentDescriptor::from(s.ss),
        ds: SegmentDescriptor::from(s.ds),
        es: SegmentDescriptor::from(s.es),
        fs: SegmentDescriptor::from(s.fs),
        gs: SegmentDescriptor::from(s.gs),
        cr0: s.cr0.bits,
        cr2: s.cr2,
        cr3: s.cr3,
        cr4: s.cr4.bits,
        efer: s.efer.bits as u32,
        reserved1: 0,
        reserved2: 0,
        ..*prev
    }
}

/// The canonical state after a register record read from the driver has
/// been absorbed: registers, flags, segments and control registers come
/// from the record; everything the record does not carry keeps its
/// previous value.
pub open spec fn spec_absorbed_state(prev: State, w: VcpuState) -> State {
    State {
        r: w.r,
        ip: w.ip,
        flags: Flags { bits: w.flags },
        cs: spec_segment_of(w.cs),
        ss: spec_segment_of(w.ss),
        ds: spec_segment_of(w.ds),
        es: spec_segment_of(w.es),
        fs: spec_segment_of(w.fs),
        gs: spec_segment_of(w.gs),
        cr0: Cr0 { bits: w.cr0 },
        cr2: w.cr2,
        cr3: w.cr3,
        cr4: Cr4 { bits: w.cr4 },
        efer: Efer { bits: w.efer as u64 },
        ..prev
    }
}

/// Absorbs a register record read from the driver into the canonical
/// state.
///
/// A record whose flags word carries bits outside the architectural mask
/// is rejected without touching the state.
pub fn absorb_cpu_state(state: &mut State, w: &VcpuState) -> (r: Result<(), ProtocolError>)
    ensures
        r is Ok <==> flags_bits_valid(w.flags),
        r is Ok ==> *final(state) == spec_absorbed_state(*old(state), *w),
        r is Err ==> *final(state) == *old(state),
        r is Err ==> r.unwrap_err() == ProtocolError::InvalidFlags,
{
    let flags = match Flags::from_bits(w.flags) {
        Some(f) => f,
        None => {
            return Err(ProtocolError::InvalidFlags);
        },
    };

    *state = State {
        r: w.r,
        ip: w.ip,
        flags,
        cs: w.cs.to_segment(),
        ss: w.ss.to_segment(),
        ds: w.ds.to_segment(),
        es: w.es.to_segment(),
        fs: w.fs.to_segment(),
        gs: w.gs.to_segment(),
        cr0: Cr0 { bits: w.cr0 },
        cr2: w.cr2,
        cr3: w.cr3,
        cr4: Cr4 { bits: w.cr4 },
        efer: Efer { bits: w.efer as u64 },
        ..*state
    };

    Ok(())
}

/// Writing a canonical state within architectural bounds to the driver
/// and reading it back yields every register, segment field and control
/// register unchanged; what the driver does not carry keeps its previous
/// value, so the whole state survives the round trip.
pub proof fn lemma_hax_state_round_trip(s: State)
    requires
        s.wf(),
    ensures
        flags_bits_valid(spec_wire_state_of(s).flags),
        spec_absorbed_state(s, spec_wire_state_of(s)) =~= s,
{
    lemma_segment_round_trip(s.cs);
    lemma_segment_round_trip(s.ss);
    lemma_segment_round_trip(s.ds);
    lemma_segment_round_trip(s.es);
    lemma_segment_round_trip(s.fs);
    lemma_segment_round_trip(s.gs);

    let e: u64 = s.efer.bits;
    assert(e & !0xFD01u64 == 0 ==> ((e as u32) as u64) == e) by (bit_vector);
    assert(EFER_ALL == 0xFD01u64);
}

/// The round trip holds over any previously read record as well: what
/// the record built over it absorbs back is the state itself, since the
/// absorbed fields are exactly the synchronized ones.
pub proof fn lemma_hax_state_round_trip_over(prev: VcpuState, s: State)
    requires
        s.wf(),
    ensures
        flags_bits_valid(spec_wire_state_over(prev, s).flags),
        spec_absorbed_state(s, spec_wire_state_over(prev, s)) =~= s,
{
    lemma_segment_round_trip(s.cs);
    lemma_segment_round_trip(s.ss);
    lemma_segment_round_trip(s.ds);
    lemma_segment_round_trip(s.es);
    lemma_segment_round_trip(s.fs);
    lemma_segment_round_trip(s.gs);

    let e: u64 = s.efer.bits;
    assert(e & !0xFD01u64 == 0 ==> ((e as u32) as u64) == e) by (bit_vector);
    assert(EFER_ALL == 0xFD01u64);
}

/// Every register slot of this backend keeps its canonical position: the
/// wire record's register table is the identity permutation.
pub proof fn lemma_hax_register_order(s: State, i: int)
    requires
        0 <= i < 16,
    ensures
        spec_wire_state_of(s).r[i] == s.r[i],
{
}

/// The FPU record that encodes the canonical FPU state, reserved bytes
/// zero.
pub open spec fn spec_wire_fpu_of(f: FpuState) -> FPUState {
    FPUState {
        control: f.control,
        status: f.status,
        tag: f.tag,
        reserved1: 0,
        op: f.op,
        ip: f.ip,
        data_ptr: f.data_ptr,
        mxcsr: f.mxcsr,
        mxcsr_mask: f.mxcsr_mask,
        st: f.st,
        mmx: f.xmm,
        reserved2: [0u64, 0u64, 0u64, 0u64, 0u64, 0u64, 0u64, 0u64, 0u64, 0u64, 0u64, 0u64],
    }
}

/// Builds the FPU record the client sends to write the canonical FPU
/// state into the driver. Reserved bytes are zero; some drivers reject a
/// record with non-zero reserved fields.
pub fn fpu_record(f: &FpuState) -> (w: FPUState)
    ensures
        w == spec_wire_fpu_of(*f),
{
    FPUState {
        control: f.control,
        status: f.status,
        tag: f.tag,
        reserved1: 0,
        op: f.op,
        ip: f.ip,
        data_ptr: f.data_ptr,
        mxcsr: f.mxcsr,
        mxcsr_mask: f.mxcsr_mask,
        st: f.st,
        mmx: f.xmm,
        reserved2: [0u64, 0u64, 0u64, 0u64, 0u64, 0u64, 0u64, 0u64, 0u64, 0u64, 0u64, 0u64],
    }
}

/// The canonical FPU state described by a driver record.
pub open spec fn spec_fpu_of(w: FPUState) -> FpuState {
    FpuState {
        control: w.control,
        status: w.status,
        tag: w.tag,
        op: w.op,
        ip: w.ip,
        data_ptr: w.data_ptr,
        mxcsr: w.mxcsr,
        mxcsr_mask: w.mxcsr_mask,
        st: w.st,
        xmm: w.mmx,
    }
}

/// Reads a driver FPU record back into the canonical form.
pub fn fpu_from_record(w: &FPUState) -> (f: FpuState)
    ensures
        f == spec_fpu_of(*w),
{
    FpuState {
        control: w.control,
        status: w.status,
        tag: w.tag,
        op: w.op,
        ip: w.ip,
        data_ptr: w.data_ptr,
        mxcsr: w.mxcsr,
        mxcsr_mask: w.mxcsr_mask,
        st: w.st,
        xmm: w.mmx,
    }
}

/// The FPU state survives a round trip through the driver record
/// unchanged.
pub proof fn lemma_hax_fpu_round_trip(f: FpuState)
    ensures
        spec_fpu_of(spec_wire_fpu_of(f)) =~= f,
{
}

} // verus!
