//! Translation between the canonical state and the generic-syscall
//! backend's wire records.
//!
//! This backend stores the general registers in a different physical order
//! than the canonical form. The permutation table here is the single most
//! correctness-critical piece of the client: a wrong entry silently swaps
//! two architectural registers without any error from the kernel. The laws
//! at the end state that the table is a bijection and that encoding
//! followed by decoding returns every slot to its place.

use vstd::prelude::*;

use crate::errors::ProtocolError;
use crate::kvm_wire::{DescriptorTable, FpuState as WireFpuState, Registers, Segment as WireSegment,
    SpecialRegisters};
use crate::state::{flags_bits_valid, Cr0, Cr4, Efer, Flags, FpuState, Segment, State};

verus! {

/// The wire position at which canonical slot `i` stands.
///
/// Canonical order: accumulator, counter, data, base, stack pointer, base
/// pointer, source index, destination index. Wire order: accumulator,
/// base, counter, data, source index, destination index, stack pointer,
/// base pointer. The numbered upper registers keep their positions.
pub open spec fn wire_slot(i: int) -> int {
    if i == 0 {
        0
    } else if i == 1 {
        2
    } else if i == 2 {
        3
    } else if i == 3 {
        1
    } else if i == 4 {
        6
    } else if i == 5 {
        7
    } else if i == 6 {
        4
    } else if i == 7 {
        5
    } else {
        i
    }
}

/// The canonical slot that stands at wire position `i`; the inverse of
/// the table above.
pub open spec fn canonical_slot(i: int) -> int {
    if i == 0 {
        0
    } else if i == 1 {
        3
    } else if i == 2 {
        1
    } else if i == 3 {
        2
    } else if i == 4 {
        6
    } else if i == 5 {
        7
    } else if i == 6 {
        4
    } else if i == 7 {
        5
    } else {
        i
    }
}

/// The two register tables are mutually inverse bijections on the sixteen
/// slots: a marker written to canonical slot `i` lands at wire position
/// `wire_slot(i)` and nowhere else, and reading that position back names
/// slot `i` again, never a permuted one.
pub proof fn lemma_register_order(i: int, j: int)
    requires
        0 <= i < 16,
        0 <= j < 16,
    ensures
        0 <= wire_slot(i) < 16,
        0 <= canonical_slot(i) < 16,
        canonical_slot(wire_slot(i)) == i,
        wire_slot(canonical_slot(i)) == i,
        wire_slot(i) == wire_slot(j) ==> i == j,
        canonical_slot(i) == canonical_slot(j) ==> i == j,
{
}

/// The general-register record that encodes a canonical state: each wire
/// position holds the canonical slot its table names, and the flags word
/// is carried bit for bit.
pub open spec fn regs_encoded(s: State, w: Registers) -> bool {
    &&& forall|i: int| 0 <= i < 16 ==> w.r[i] == s.r[canonical_slot(i)]
    &&& w.ip == s.ip
    &&& w.flags == s.flags.bits
}

/// Builds the general-register record the client sends to write a
/// canonical state into the kernel.
pub fn regs_record(s: &State) -> (w: Registers)
    ensures
        regs_encoded(*s, w),
{
    let r: [u64; 16] = [
        s.r[0],
        s.r[3],
        s.r[1],
        s.r[2],
        s.r[6],
        s.r[7],
        s.r[4],
        s.r[5],
        s.r[8],
        s.r[9],
        s.r[10],
        s.r[11],
        s.r[12],
        s.r[13],
        s.r[14],
        s.r[15],
    ];

    let w = Registers { r, ip: s.ip, flags: s.flags.bits };

    proof {
        assert forall|i: int| 0 <= i < 16 implies w.r[i] == s.r[canonical_slot(i)] by {
            lemma_register_order(i, i);
        }
    }

    w
}

/// The canonical state after a general-register record read from the
/// kernel has been absorbed: each canonical slot is taken from the wire
/// position its table names; everything else keeps its previous value.
pub open spec fn regs_absorbed(prev: State, w: Registers, out: State) -> bool {
    &&& forall|i: int| 0 <= i < 16 ==> out.r[i] == w.r[wire_slot(i)]
    &&& out.ip == w.ip
    &&& out.flags.bits == w.flags
    &&& out == (State { r: out.r, ip: out.ip, flags: out.flags, ..prev })
}

/// Absorbs a general-register record read from the kernel into the
/// canonical state.
///
/// A record whose flags word carries bits outside the architectural mask
/// is rejected without touching the state.
pub fn absorb_regs(state: &mut State, w: &Registers) -> (r: Result<(), ProtocolError>)
    ensures
        r is Ok <==> flags_bits_valid(w.flags),
        r is Ok ==> regs_absorbed(*old(state), *w, *final(state)),
        r is Err ==> *final(state) == *old(state),
        r is Err ==> r.unwrap_err() == ProtocolError::InvalidFlags,
{
    let flags = match Flags::from_bits(w.flags) {
        Some(f) => f,
        None => {
            return Err(ProtocolError::InvalidFlags);
        },
    };

    let r: [u64; 16] = [
        w.r[0],
        w.r[2],
        w.r[3],
        w.r[1],
        w.r[6],
        w.r[7],
        w.r[4],
        w.r[5],
        w.r[8],
        w.r[9],
        w.r[10],
        w.r[11],
        w.r[12],
        w.r[13],
        w.r[14],
        w.r[15],
    ];

    *state = State { r, ip: w.ip, flags, ..*state };

    proof {
        assert forall|i: int| 0 <= i < 16 implies state.r[i] == w.r[wire_slot(i)] by {
            lemma_register_order(i, i);
        }
    }

    Ok(())
}

/// A marker value written to any canonical slot comes back from that same
/// slot after a round trip through this backend's record, and the whole
/// register file, instruction pointer and flags survive unchanged.
pub proof fn lemma_kvm_regs_round_trip(s: State, w: Registers, out: State)
    requires
        s.wf(),
        regs_encoded(s, w),
        regs_absorbed(s, w, out),
    ensures
        forall|i: int| 0 <= i < 16 ==> out.r[i] == s.r[i],
        out.ip == s.ip,
        out.flags == s.flags,
        out =~= s,
{
    assert forall|i: int| 0 <= i < 16 implies out.r[i] == s.r[i] by {
        lemma_register_order(i, i);
        assert(out.r[i] == w.r[wire_slot(i)]);
        assert(w.r[wire_slot(i)] == s.r[canonical_slot(wire_slot(i))]);
    }
    assert(out.r =~= s.r);
}

/// The descriptor type nibble of a canonical segment: accessed, write or
/// read, direction or conforming, code or data, from bit zero upwards.
pub open spec fn spec_pack_type(s: Segment) -> u8 {
    (if s.accessed { 0x1u8 } else { 0u8 })
        | (if s.write_read { 0x2u8 } else { 0u8 })
        | (if s.direction_conforming { 0x4u8 } else { 0u8 })
        | (if s.code_data { 0x8u8 } else { 0u8 })
}

/// The wire descriptor that encodes a canonical segment for this backend.
pub open spec fn spec_kvm_descriptor_of(s: Segment) -> WireSegment {
    WireSegment {
        base: s.base,
        limit: s.limit,
        selector: s.selector,
        type_bits: spec_pack_type(s),
        present: s.present,
        priv_level: s.dpl,
        user_system: s.user_system,
        long: s.long,
        op_size: s.op_size,
        granularity: s.granularity,
        available: s.available,
        unusable: false,
        padding: 0,
    }
}

/// The canonical segment described by a wire descriptor of this backend.
/// The privilege level is masked to its two architectural bits.
pub open spec fn spec_segment_of_kvm(w: WireSegment) -> Segment {
    Segment {
        base: w.base,
        limit: w.limit,
        selector: w.selector,
        accessed: w.type_bits & 0x1 != 0,
        write_read: w.type_bits & 0x2 != 0,
        direction_conforming: w.type_bits & 0x4 != 0,
        code_data: w.type_bits & 0x8 != 0,
        user_system: w.user_system,
        dpl: w.priv_level & 3,
        present: w.present,
        long: w.long,
        op_size: w.op_size,
        granularity: w.granularity,
        available: w.available,
    }
}

/// Packs a canonical segment into this backend's descriptor form.
pub fn kvm_descriptor_of(seg: Segment) -> (r: WireSegment)
    requires
        seg.wf(),
    ensures
        r == spec_kvm_descriptor_of(seg),
{
    let type_bits: u8 = (if seg.accessed { 0x1u8 } else { 0u8 })
        | (if seg.write_read { 0x2u8 } else { 0u8 })
        | (if seg.direction_conforming { 0x4u8 } else { 0u8 })
        | (if seg.code_data { 0x8u8 } else { 0u8 });

    WireSegment {
        base: seg.base,
        limit: seg.limit,
        selector: seg.selector,
        type_bits,
        present: seg.present,
        priv_level: seg.dpl,
        user_system: seg.user_system,
        long: seg.long,
        op_size: seg.op_size,
        granularity: seg.granularity,
        available: seg.available,
        unusable: false,
        padding: 0,
    }
}

/// Unpacks a descriptor of this backend into the canonical segment form.
pub fn segment_of_kvm(w: &WireSegment) -> (r: Segment)
    ensures
        r == spec_segment_of_kvm(*w),
        r.wf(),
{
    proof {
        let p: u8 = w.priv_level;
        assert(p & 3 < 4) by (bit_vector);
    }

    Segment {
        base: w.base,
        limit: w.limit,
        selector: w.selector,
        accessed: w.type_bits & 0x1 != 0,
        write_read: w.type_bits & 0x2 != 0,
        direction_conforming: w.type_bits & 0x4 != 0,
        code_data: w.type_bits & 0x8 != 0,
        user_system: w.user_system,
        dpl: w.priv_level & 3,
        present: w.present,
        long: w.long,
        op_size: w.op_size,
        granularity: w.granularity,
        available: w.available,
    }
}

/// No access bit is lost in this backend's descriptor either: unpacking
/// the descriptor of a segment within architectural bounds gives the
/// segment back, field for field.
pub proof fn lemma_kvm_segment_round_trip(s: Segment)
    requires
        s.wf(),
    ensures
        spec_segment_of_kvm(spec_kvm_descriptor_of(s)) == s,
{
    let a: u8 = if s.accessed { 0x1 } else { 0 };
    let wr: u8 = if s.write_read { 0x2 } else { 0 };
    let dc: u8 = if s.direction_conforming { 0x4 } else { 0 };
    let cd: u8 = if s.code_data { 0x8 } else { 0 };
    let t: u8 = a | wr | dc | cd;
    let d: u8 = s.dpl;

    assert((t & 0x1 != 0) == (a == 0x1) && (t & 0x2 != 0) == (wr == 0x2) && (t & 0x4 != 0) == (dc
        == 0x4) && (t & 0x8 != 0) == (cd == 0x8)) by (bit_vector)
        requires
            t == a | wr | dc | cd,
            a == 0x1 || a == 0,
            wr == 0x2 || wr == 0,
            dc == 0x4 || dc == 0,
            cd == 0x8 || cd == 0,
    ;

    assert(d < 4 ==> d & 3 == d) by (bit_vector);
}

/// The segment and control-register record that encodes a canonical
/// state when no previously read record is at hand: each segment in its
/// split form, the control registers bit for bit, and the fields the
/// client does not synchronize written as zero. To preserve the
/// kernel's values in those fields instead, build over a record read
/// back first.
pub open spec fn sregs_encoded(s: State, w: SpecialRegisters) -> bool {
    &&& w.cs == spec_kvm_descriptor_of(s.cs)
    &&& w.ds == spec_kvm_descriptor_of(s.ds)
    &&& w.es == spec_kvm_descriptor_of(s.es)
    &&& w.fs == spec_kvm_descriptor_of(s.fs)
    &&& w.gs == spec_kvm_descriptor_of(s.gs)
    &&& w.ss == spec_kvm_descriptor_of(s.ss)
    &&& w.tr == spec_zero_kvm_descriptor()
    &&& w.ldt == spec_zero_kvm_descriptor()
    &&& w.gdt == spec_zero_descriptor_table()
    &&& w.idt == spec_zero_descriptor_table()
    &&& w.cr0 == s.cr0.bits
    &&& w.cr2 == s.cr2
    &&& w.cr3 == s.cr3
    &&& w.cr4 == s.cr4.bits
    &&& w.cr8 == s.cr8
    &&& w.efer == s.efer.bits
    &&& w.apic_base == 0
    &&& w.interrupt_bitmap =~= [0u64, 0u64, 0u64, 0u64]
}

/// A wire descriptor with every field zero.
pub open spec fn spec_zero_kvm_descriptor() -> WireSegment {
    WireSegment {
        base: 0,
        limit: 0,
        selector: 0,
        type_bits: 0,
        present: false,
        priv_level: 0,
        user_system: false,
        long: false,
        op_size: false,
        granularity: false,
        available: false,
        unusable: false,
        padding: 0,
    }
}

/// A descriptor-table register with every field zero.
pub open spec fn spec_zero_descriptor_table() -> DescriptorTable {
    DescriptorTable { base: 0, limit: 0, padding: [0u16, 0u16, 0u16] }
}

/// Builds the segment and control-register record the client sends to
/// write a canonical state into the kernel.
pub fn sregs_record(s: &State) -> (w: SpecialRegisters)
    requires
        s.wf(),
    ensures
        sregs_encoded(*s, w),
{
    let zero_seg = WireSegment {
        base: 0,
        limit: 0,
        selector: 0,
        type_bits: 0,
        present: false,
        priv_level: 0,
        user_system: false,
        long: false,
        op_size: false,
        granularity: false,
        available: false,
        unusable: false,
        padding: 0,
    };
    let zero_table = DescriptorTable { base: 0, limit: 0, padding: [0u16, 0u16, 0u16] };

    SpecialRegisters {
        cs: kvm_descriptor_of(s.cs),
        ds: kvm_descriptor_of(s.ds),
        es: kvm_descriptor_of(s.es),
        fs: kvm_descriptor_of(s.fs),
        gs: kvm_descriptor_of(s.gs),
        ss: kvm_descriptor_of(s.ss),
        tr: zero_seg,
        ldt: zero_seg,
        gdt: zero_table,
        idt: zero_table,
        cr0: s.cr0.bits,
        cr2: s.cr2,
        cr3: s.cr3,
        cr4: s.cr4.bits,
        cr8: s.cr8,
        efer: s.efer.bits,
        apic_base: 0,
        interrupt_bitmap: [0u64, 0u64, 0u64, 0u64],
    }
}

/// The segment and control-register record that encodes a canonical
/// state over a record previously read from the kernel: the synchronized
/// fields come from the state; the task register, the descriptor tables,
/// the interrupt-controller base and the pending-interrupt bitmap keep
/// the values the kernel last reported — left untouched, not zeroed.
pub open spec fn sregs_encoded_over(prev: SpecialRegisters, s: State, w: SpecialRegisters) -> bool {
    &&& w.cs == spec_kvm_descriptor_of(s.cs)
    &&& w.ds == spec_kvm_descriptor_of(s.ds)
    &&& w.es == spec_kvm_descriptor_of(s.es)
    &&& w.fs == spec_kvm_descriptor_of(s.fs)
    &&& w.gs == spec_kvm_descriptor_of(s.gs)
    &&& w.ss == spec_kvm_descriptor_of(s.ss)
    &&& w.tr == prev.tr
    &&& w.ldt == prev.ldt
    &&& w.gdt =~= prev.gdt
    &&& w.idt =~= prev.idt
    &&& w.cr0 == s.cr0.bits
    &&& w.cr2 == s.cr2
    &&& w.cr3 == s.cr3
    &&& w.cr4 == s.cr4.bits
    &&& w.cr8 == s.cr8
    &&& w.efer == s.efer.bits
    &&& w.apic_base == prev.apic_base
    &&& w.interrupt_bitmap =~= prev.interrupt_bitmap
}

/// Builds the segment and control-register record for a read-modify-write
/// synchronization: the record read back from the kernel supplies every
/// field the client does not synchronize.
pub fn sregs_record_over(prev: &SpecialRegisters, s: &State) -> (w: SpecialRegisters)
    requires
        s.wf(),
    ensures
        sregs_encoded_over(*prev, *s, w),
{
    SpecialRegisters {
        cs: kvm_descriptor_of(s.cs),
        ds: kvm_descriptor_of(s.ds),
        es: kvm_descriptor_of(s.es),
        fs: kvm_descriptor_of(s.fs),
        gs: kvm_descriptor_of(s.gs),
        ss: kvm_descriptor_of(s.ss),
        cr0: s.cr0.bits,
        cr2: s.cr2,
        cr3: s.cr3,
        cr4: s.cr4.bits,
        cr8: s.cr8,
        efer: s.efer.bits,
        ..*prev
    }
}

/// The round trip holds over any previously read record as well: the
/// absorbed fields are exactly the synchronized ones, so what the record
/// built over it absorbs back is the state itself.
pub proof fn lemma_kvm_sregs_round_trip_over(prev: SpecialRegisters, s: State,
    w: SpecialRegisters, out: State)
    requires
        s.wf(),
        sregs_encoded_over(prev, s, w),
        sregs_absorbed(s, w, out),
    ensures
        out =~= s,
{
    lemma_kvm_segment_round_trip(s.cs);
    lemma_kvm_segment_round_trip(s.ds);
    lemma_kvm_segment_round_trip(s.es);
    lemma_kvm_segment_round_trip(s.fs);
    lemma_kvm_segment_round_trip(s.gs);
    lemma_kvm_segment_round_trip(s.ss);
}

/// The canonical state after a segment and control-register record read
/// from the kernel has been absorbed: segments and control registers come
/// from the record, everything else keeps its previous value.
pub open spec fn sregs_absorbed(prev: State, w: SpecialRegisters, out: State) -> bool {
    &&& out.cs == spec_segment_of_kvm(w.cs)
    &&& out.ds == spec_segment_of_kvm(w.ds)
    &&& out.es == spec_segment_of_kvm(w.es)
    &&& out.fs == spec_segment_of_kvm(w.fs)
    &&& out.gs == spec_segment_of_kvm(w.gs)
    &&& out.ss == spec_segment_of_kvm(w.ss)
    &&& out.cr0 == (Cr0 { bits: w.cr0 })
    &&& out.cr2 == w.cr2
    &&& out.cr3 == w.cr3
    &&& out.cr4 == (Cr4 { bits: w.cr4 })
    &&& out.cr8 == w.cr8
    &&& out.efer == (Efer { bits: w.efer })
    &&& out == (State {
        cs: out.cs,
        ds: out.ds,
        es: out.es,
        fs: out.fs,
        gs: out.gs,
        ss: out.ss,
        cr0: out.cr0,
        cr2: out.cr2,
        cr3: out.cr3,
        cr4: out.cr4,
        cr8: out.cr8,
        efer: out.efer,
        ..prev
    })
}

/// Absorbs a segment and control-register record read from the kernel
/// into the canonical state.
pub fn absorb_sregs(state: &mut State, w: &SpecialRegisters)
    ensures
        sregs_absorbed(*old(state), *w, *final(state)),
{
    *state = State {
        cs: segment_of_kvm(&w.cs),
        ds: segment_of_kvm(&w.ds),
        es: segment_of_kvm(&w.es),
        fs: segment_of_kvm(&w.fs),
        gs: segment_of_kvm(&w.gs),
        ss: segment_of_kvm(&w.ss),
        cr0: Cr0 { bits: w.cr0 },
        cr2: w.cr2,
        cr3: w.cr3,
        cr4: Cr4 { bits: w.cr4 },
        cr8: w.cr8,
        efer: Efer { bits: w.efer },
        ..*state
    };
}

/// Every segment field and control register survives a round trip
/// through this backend's record unchanged.
pub proof fn lemma_kvm_sregs_round_trip(s: State, w: SpecialRegisters, out: State)
    requires
        s.wf(),
        sregs_encoded(s, w),
        sregs_absorbed(s, w, out),
    ensures
        out =~= s,
{
    lemma_kvm_segment_round_trip(s.cs);
    lemma_kvm_segment_round_trip(s.ds);
    lemma_kvm_segment_round_trip(s.es);
    lemma_kvm_segment_round_trip(s.fs);
    lemma_kvm_segment_round_trip(s.gs);
    lemma_kvm_segment_round_trip(s.ss);
}

/// The FPU record that encodes the canonical FPU state for this backend,
/// reserved bytes zero. The record does not carry the control and status
/// mask, so that field does not appear.
pub open spec fn kvm_fpu_encoded(f: FpuState, w: WireFpuState) -> bool {
    &&& w.regs =~= f.st
    &&& w.control_word == f.control
    &&& w.status_word == f.status
    &&& w.tag_word == f.tag
    &&& w.reserved1 == 0
    &&& w.last_opcode == f.op
    &&& w.last_ip == f.ip
    &&& w.last_dp == f.data_ptr
    &&& w.xmm =~= f.xmm
    &&& w.mxcsr == f.mxcsr
    &&& w.reserved2 == 0
}

/// Builds the FPU record the client sends to write the canonical FPU
/// state into the kernel.
pub fn kvm_fpu_record(f: &FpuState) -> (w: WireFpuState)
    ensures
        kvm_fpu_encoded(*f, w),
{
    WireFpuState {
        regs: f.st,
        control_word: f.control,
        status_word: f.status,
        tag_word: f.tag,
        reserved1: 0,
        last_opcode: f.op,
        last_ip: f.ip,
        last_dp: f.data_ptr,
        xmm: f.xmm,
        mxcsr: f.mxcsr,
        reserved2: 0,
    }
}

/// The canonical FPU state after a record of this backend has been
/// absorbed; the control and status mask is not carried by the record and
/// keeps its previous value.
pub open spec fn kvm_fpu_absorbed(prev: FpuState, w: WireFpuState, out: FpuState) -> bool {
    out =~= (FpuState {
        control: w.control_word,
        status: w.status_word,
        tag: w.tag_word,
        op: w.last_opcode,
        ip: w.last_ip,
        data_ptr: w.last_dp,
        mxcsr: w.mxcsr,
        mxcsr_mask: prev.mxcsr_mask,
        st: w.regs,
        xmm: w.xmm,
    })
}

/// Absorbs an FPU record read from the kernel into the canonical state.
pub fn absorb_kvm_fpu(state: &mut State, w: &WireFpuState)
    ensures
        kvm_fpu_absorbed(old(state).fpu, *w, final(state).fpu),
        *final(state) == (State { fpu: final(state).fpu, ..*old(state) }),
{
    let fpu = FpuState {
        control: w.control_word,
        status: w.status_word,
        tag: w.tag_word,
        op: w.last_opcode,
        ip: w.last_ip,
        data_ptr: w.last_dp,
        mxcsr: w.mxcsr,
        mxcsr_mask: state.fpu.mxcsr_mask,
        st: w.regs,
        xmm: w.xmm,
    };

    state.fpu = fpu;
}

/// The FPU state survives a round trip through this backend's record
/// unchanged.
pub proof fn lemma_kvm_fpu_round_trip(f: FpuState, w: WireFpuState, out: FpuState)
    requires
        kvm_fpu_encoded(f, w),
        kvm_fpu_absorbed(f, w, out),
    ensures
        out =~= f,
{
}

} // verus!
