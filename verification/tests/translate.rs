use vmcore::hax_translate::{absorb_cpu_state, cpu_state_record, cpu_state_record_over,
    fpu_from_record, fpu_record};
use vmcore::hax_wire::SegmentDescriptor;
use vmcore::kvm_translate::{absorb_regs, absorb_sregs, kvm_descriptor_of, regs_record,
    segment_of_kvm, sregs_record, sregs_record_over};
use vmcore::kvm_vcpu::VirtualCPU;
use vmcore::state::{Cr0, Cr4, Efer, Flags, Segment, State, FLAGS_CARRY, FLAGS_INTERRUPT,
    FLAGS_RESERVED_ONE, FLAGS_ZERO};

fn marked_state() -> State {
    let mut s = State::default();

    for i in 0..16 {
        s.r[i] = 0x1111_0000 + i as u64;
    }
    s.ip = 0xDEAD;
    s.flags = Flags { bits: FLAGS_RESERVED_ONE | FLAGS_CARRY | FLAGS_ZERO | FLAGS_INTERRUPT };

    s.cs = Segment {
        base: 0x1000,
        limit: 0xFFFFF,
        selector: 0x08,
        present: true,
        user_system: true,
        code_data: true,
        write_read: true,
        direction_conforming: false,
        dpl: 0,
        long: true,
        op_size: false,
        granularity: true,
        accessed: true,
        available: false,
    };
    s.ds = Segment {
        base: 0x2000,
        limit: 0xFFFF,
        selector: 0x10,
        present: true,
        user_system: true,
        code_data: false,
        write_read: true,
        direction_conforming: true,
        dpl: 3,
        long: false,
        op_size: true,
        granularity: false,
        accessed: false,
        available: true,
    };
    s.ss = s.ds;
    s.es = s.ds;
    s.fs = s.ds;
    s.gs = s.cs;

    s.cr0 = Cr0 { bits: 0x8000_0011 };
    s.cr2 = 0x1234;
    s.cr3 = 0x5000;
    s.cr4 = Cr4 { bits: 0x20 };
    s.cr8 = 0xF;
    s.efer = Efer { bits: 0x500 };

    s.fpu.control = 0x37F;
    s.fpu.status = 0x1234;
    s.fpu.tag = 0xAB;
    s.fpu.op = 0x7FF;
    s.fpu.ip = 0xDEAD_BEEF;
    s.fpu.data_ptr = 0xFEED_FACE;
    s.fpu.mxcsr = 0x1F80;
    s.fpu.mxcsr_mask = 0xFFFF;
    for i in 0..8 {
        s.fpu.st[i] = [i as u64, 0x80 + i as u64];
    }
    for i in 0..16 {
        s.fpu.xmm[i] = [0x100 + i as u64, 0x200 + i as u64];
    }

    s
}

#[test]
fn hax_state_survives_a_round_trip() {
    let s = marked_state();

    let wire = cpu_state_record(&s);
    let mut back = s;
    absorb_cpu_state(&mut back, &wire).unwrap();

    assert_eq!(back, s);
}

#[test]
fn hax_fpu_survives_a_round_trip() {
    let s = marked_state();

    let wire = fpu_record(&s.fpu);
    assert_eq!(wire.reserved1, 0);
    assert_eq!(wire.reserved2, [0u64; 12]);

    let back = fpu_from_record(&wire);
    assert_eq!(back, s.fpu);
}

#[test]
fn kvm_state_survives_a_full_sync_round_trip() {
    let s = marked_state();
    let vcpu = VirtualCPU::new(3);

    let records = vcpu.sync_to_kernel(&s);
    let mut back = s;
    vcpu.sync_from_kernel(&mut back, Ok(records.regs), Ok(records.sregs), Ok(records.fpu))
        .unwrap();

    assert_eq!(back, s);
}

#[test]
fn kvm_register_table_places_every_marker() {
    let mut s = State::default();
    for i in 0..16 {
        s.r[i] = 100 + i as u64;
    }

    let wire = regs_record(&s);

    // Wire order: accumulator, base, counter, data, source index,
    // destination index, stack pointer, base pointer, then the upper
    // registers unchanged.
    assert_eq!(
        wire.r,
        [100, 103, 101, 102, 106, 107, 104, 105, 108, 109, 110, 111, 112, 113, 114, 115]
    );

    let mut back = State::default();
    absorb_regs(&mut back, &wire).unwrap();
    for i in 0..16 {
        assert_eq!(back.r[i], 100 + i as u64);
    }
}

#[test]
fn hax_register_table_is_the_identity() {
    let mut s = State::default();
    for i in 0..16 {
        s.r[i] = 500 + i as u64;
    }

    let wire = cpu_state_record(&s);
    for i in 0..16 {
        assert_eq!(wire.r[i], 500 + i as u64);
    }
}

#[test]
fn hax_segment_packing_is_exact() {
    let seg = Segment {
        base: 0xFFFF_0000,
        limit: 0xFFFF,
        selector: 0xF000,
        present: true,
        user_system: true,
        code_data: true,
        write_read: false,
        direction_conforming: false,
        dpl: 3,
        long: false,
        op_size: false,
        granularity: true,
        accessed: true,
        available: false,
    };

    let d = SegmentDescriptor::from(seg);
    // accessed, code or data, user, privilege three, present, granularity.
    assert_eq!(d.flags, 0x1 | 0x8 | 0x10 | 0x60 | 0x80 | 0x8000);
    assert_eq!(d.reserved1, 0);
    assert_eq!(d.reserved2, 0);

    assert_eq!(d.to_segment(), seg);
}

#[test]
fn kvm_segment_split_is_exact() {
    let seg = Segment {
        base: 0x1000,
        limit: 0xFFFFF,
        selector: 0x18,
        present: true,
        user_system: true,
        code_data: true,
        write_read: true,
        direction_conforming: true,
        dpl: 2,
        long: true,
        op_size: false,
        granularity: true,
        accessed: false,
        available: true,
    };

    let w = kvm_descriptor_of(seg);
    // Write or read, direction or conforming, code or data in the type
    // nibble; accessed stays clear.
    assert_eq!(w.type_bits, 0x2 | 0x4 | 0x8);
    assert_eq!(w.priv_level, 2);
    assert!(!w.unusable);

    assert_eq!(segment_of_kvm(&w), seg);
}

#[test]
fn kvm_sregs_record_keeps_every_control_register() {
    let s = marked_state();
    let w = sregs_record(&s);

    assert_eq!(w.cr0, 0x8000_0011);
    assert_eq!(w.cr2, 0x1234);
    assert_eq!(w.cr3, 0x5000);
    assert_eq!(w.cr4, 0x20);
    assert_eq!(w.cr8, 0xF);
    assert_eq!(w.efer, 0x500);
    assert_eq!(w.apic_base, 0);
    assert_eq!(w.interrupt_bitmap, [0u64; 4]);

    let mut back = State::default();
    absorb_sregs(&mut back, &w);
    assert_eq!(back.cs, s.cs);
    assert_eq!(back.ds, s.ds);
    assert_eq!(back.ss, s.ss);
    assert_eq!(back.cr8, 0xF);
}

#[test]
fn building_over_a_read_record_leaves_unsynchronized_fields_untouched() {
    let s = marked_state();

    // Simulate a record previously read from the vendor driver, with
    // values in the fields the client does not synchronize.
    let mut prev = cpu_state_record(&s);
    prev.dr7 = 0x400;
    prev.pde = 0x77;
    prev.sysenter_cs = 0x174;
    prev.activity_state = 1;

    let w = cpu_state_record_over(&prev, &s);
    assert_eq!(w.dr7, 0x400);
    assert_eq!(w.pde, 0x77);
    assert_eq!(w.sysenter_cs, 0x174);
    assert_eq!(w.activity_state, 1);
    assert_eq!(w.reserved1, 0);
    assert_eq!(w.reserved2, 0);

    // The synchronized fields still round-trip to the same state.
    let mut back = s;
    absorb_cpu_state(&mut back, &w).unwrap();
    assert_eq!(back, s);

    // Same discipline for the other backend's segment record.
    let mut prev_sregs = sregs_record(&s);
    prev_sregs.apic_base = 0xFEE0_0900;
    prev_sregs.tr.selector = 0x28;
    prev_sregs.gdt.base = 0x9000;
    prev_sregs.interrupt_bitmap = [1, 0, 0, 0];

    let w = sregs_record_over(&prev_sregs, &s);
    assert_eq!(w.apic_base, 0xFEE0_0900);
    assert_eq!(w.tr.selector, 0x28);
    assert_eq!(w.gdt.base, 0x9000);
    assert_eq!(w.interrupt_bitmap, [1, 0, 0, 0]);

    let mut back = State::default();
    absorb_sregs(&mut back, &w);
    assert_eq!(back.cs, s.cs);
    assert_eq!(back.cr0, s.cr0);
}

#[test]
fn absorbing_invalid_flag_bits_is_a_protocol_error() {
    let s = marked_state();
    let mut wire = cpu_state_record(&s);
    wire.flags = 1 << 25;

    let mut back = s;
    assert!(absorb_cpu_state(&mut back, &wire).is_err());
    assert_eq!(back, s);
}
