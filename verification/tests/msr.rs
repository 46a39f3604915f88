use vmcore::errors::ProtocolError;
use vmcore::hax_wire::{MSRData, MSR};
use vmcore::msr::{MSRState, SYSENTER_CS, TSC};

#[test]
fn request_carries_the_two_synchronized_registers() {
    let state = MSRState { tsc: 0x1234_5678, sysenter_cs: 0x10 };
    let data = MSRData::from(&state);

    assert_eq!(data.count, 2);
    assert_eq!(data.done, 0);
    assert_eq!(data.entries[0], MSR { address: TSC, reserved: 0, value: 0x1234_5678 });
    assert_eq!(data.entries[1], MSR { address: SYSENTER_CS, reserved: 0, value: 0x10 });

    // Everything past the meaningful prefix stays zero.
    for i in 2..32 {
        assert_eq!(data.entries[i], MSR { address: 0, reserved: 0, value: 0 });
    }
    assert_eq!(data.reserved, [0, 0]);
}

#[test]
fn push_appends_to_the_meaningful_prefix() {
    let mut data = MSRData::new();
    data.push(TSC, 7);
    data.push(SYSENTER_CS, 9);

    assert_eq!(data.count, 2);
    assert_eq!(data.entries[0].value, 7);
    assert_eq!(data.entries[1].value, 9);
}

#[test]
fn short_reply_fails_with_a_protocol_error() {
    let state = MSRState { tsc: 1, sysenter_cs: 2 };
    let mut reply = MSRData::from(&state);
    reply.done = 1;

    let mut msrs = MSRState { tsc: 0xAA, sysenter_cs: 0xBB };
    let before = msrs;

    assert_eq!(reply.into(&mut msrs), Err(ProtocolError::MsrCountMismatch));
    assert_eq!(msrs, before);

    assert_eq!(reply.check_write_reply(), Err(ProtocolError::MsrCountMismatch));
}

#[test]
fn complete_reply_applies_every_entry() {
    let state = MSRState { tsc: 0x111, sysenter_cs: 0x222 };
    let mut reply = MSRData::from(&state);
    reply.done = reply.count;

    let mut msrs = MSRState { tsc: 0, sysenter_cs: 0 };
    reply.into(&mut msrs).unwrap();
    assert_eq!(msrs, state);

    assert!(reply.check_write_reply().is_ok());
}

#[test]
fn unknown_register_in_a_reply_is_refused() {
    let mut reply = MSRData::new();
    reply.push(TSC, 5);
    reply.push(0x9999, 6);
    reply.done = reply.count;

    let mut msrs = MSRState { tsc: 0, sysenter_cs: 0 };
    let before = msrs;

    assert_eq!(reply.into(&mut msrs), Err(ProtocolError::UnknownMsr(0x9999)));
    assert_eq!(msrs, before);
}

#[test]
fn oversized_reply_count_is_refused() {
    let mut reply = MSRData::new();
    reply.count = 40;
    reply.done = 40;

    let mut msrs = MSRState { tsc: 0, sysenter_cs: 0 };
    assert_eq!(reply.into(&mut msrs), Err(ProtocolError::MsrCountMismatch));
}
