//! The virtual-CPU model of the generic-syscall backend.
//!
//! Synchronization decomposes into independently issued sub-syncs —
//! general registers, segment and control registers, FPU state — each a
//! separate kernel round-trip. A failing sub-sync surfaces as the whole
//! sync's error and nothing of the reply is applied locally; the caller
//! must treat the kernel-side state as unspecified after a failure and
//! re-establish it before running.

use vstd::prelude::*;

use crate::accel::{ExitState, RunLifecycle, VcpuPhase};
use crate::errors::{Error, FatalVmError, ProtocolError};
use crate::kvm_run::{spec_dispatch, dispatch_exit, RunState};
use crate::kvm_translate::{absorb_kvm_fpu, absorb_regs, absorb_sregs, kvm_fpu_absorbed,
    kvm_fpu_record, kvm_fpu_encoded, regs_absorbed, regs_encoded, regs_record, sregs_absorbed,
    sregs_encoded, sregs_encoded_over, sregs_record, sregs_record_over};
use crate::kvm_wire::{FpuState as WireFpuState, Registers, SpecialRegisters};
use crate::state::{flags_bits_valid, State};

verus! {

/// A virtual CPU of the generic-syscall backend: its kernel handle and
/// where it stands in its life. The shared run-state page the kernel
/// maps for it lives with the caller.
#[derive(Debug, Clone, Copy, PartialEq, Eq, Structural)]
pub struct VirtualCPU {
    /// The raw kernel handle, owned exclusively by this virtual CPU.
    pub handle: i64,
    /// The run-loop state machine.
    pub lifecycle: RunLifecycle,
}

/// The records of one outbound synchronization: each sub-sync's wire
/// record, to be issued as its own kernel call.
#[derive(Debug, Clone, Copy, PartialEq, Eq)]
#[verifier::ext_equal]
pub struct SyncRecords {
    /// The general-register record.
    pub regs: Registers,
    /// The segment and control-register record.
    pub sregs: SpecialRegisters,
    /// The FPU record.
    pub fpu: WireFpuState,
}

/// The canonical state after all three inbound sub-syncs have been
/// absorbed in order: registers, then segment and control registers,
/// then FPU state. Everything no record carries keeps its previous
/// value.
pub open spec fn spec_fully_absorbed(prev: State, regs: Registers, sregs: SpecialRegisters,
    fpu: WireFpuState, out: State) -> bool {
    exists|mid1: State, mid2: State|
        {
            &&& #[trigger] regs_absorbed(prev, regs, mid1)
            &&& #[trigger] sregs_absorbed(mid1, sregs, mid2)
            &&& kvm_fpu_absorbed(mid2.fpu, fpu, out.fpu)
            &&& out == (State { fpu: out.fpu, ..mid2 })
        }
}

impl VirtualCPU {
    /// Wraps a virtual CPU's freshly created kernel handle.
    pub fn new(handle: i64) -> (r: Self)
        ensures
            r.handle == handle,
            r.lifecycle.phase == VcpuPhase::Runnable,
            !r.lifecycle.ready_for_interrupt,
    {
        VirtualCPU { handle, lifecycle: RunLifecycle::new() }
    }

    /// Builds the three wire records that write a canonical state into
    /// the kernel, one sub-sync each, when no previously read records
    /// are at hand; the fields the client does not synchronize are
    /// written as zero.
    pub fn sync_to_kernel(&self, state: &State) -> (r: SyncRecords)
        requires
            state.wf(),
        ensures
            regs_encoded(*state, r.regs),
            sregs_encoded(*state, r.sregs),
            kvm_fpu_encoded(state.fpu, r.fpu),
    {
        SyncRecords {
            regs: regs_record(state),
            sregs: sregs_record(state),
            fpu: kvm_fpu_record(&state.fpu),
        }
    }

    /// Builds the three wire records for a read-modify-write
    /// synchronization: the segment and control-register record read
    /// back from the kernel supplies the fields the client does not
    /// synchronize, so they are left untouched rather than zeroed. The
    /// general-register and FPU records carry no such fields.
    pub fn sync_to_kernel_over(&self, prev_sregs: &SpecialRegisters, state: &State) -> (r:
        SyncRecords)
        requires
            state.wf(),
        ensures
            regs_encoded(*state, r.regs),
            sregs_encoded_over(*prev_sregs, *state, r.sregs),
            kvm_fpu_encoded(state.fpu, r.fpu),
    {
        SyncRecords {
            regs: regs_record(state),
            sregs: sregs_record_over(prev_sregs, state),
            fpu: kvm_fpu_record(&state.fpu),
        }
    }

    /// Absorbs the three read replies of one inbound synchronization.
    ///
    /// The first failing sub-sync, in issue order, surfaces as the whole
    /// sync's error, and the canonical state is left untouched — a sync
    /// is never applied in part locally. A reply whose flags word
    /// carries undefined bits is a protocol error.
    pub fn sync_from_kernel(
        &self,
        state: &mut State,
        regs: Result<Registers, i32>,
        sregs: Result<SpecialRegisters, i32>,
        fpu: Result<WireFpuState, i32>,
    ) -> (r: Result<(), Error>)
        ensures
            r is Ok <==> (regs is Ok && sregs is Ok && fpu is Ok && flags_bits_valid(
                regs.unwrap().flags,
            )),
            r is Ok ==> spec_fully_absorbed(*old(state), regs.unwrap(), sregs.unwrap(),
                fpu.unwrap(), *final(state)),
            r is Err ==> *final(state) == *old(state),
            r is Err ==> r.unwrap_err() == if regs is Err {
                Error::Io(regs.unwrap_err())
            } else if regs is Ok && !flags_bits_valid(regs.unwrap().flags) {
                Error::Protocol(ProtocolError::InvalidFlags)
            } else if sregs is Err {
                Error::Io(sregs.unwrap_err())
            } else {
                Error::Io(fpu.unwrap_err())
            },
    {
        let regs_reply = match regs {
            Ok(w) => w,
            Err(errno) => {
                return Err(Error::Io(errno));
            },
        };

        let mut staged: State = *state;

        match absorb_regs(&mut staged, &regs_reply) {
            Ok(_) => {},
            Err(e) => {
                return Err(Error::Protocol(e));
            },
        }

        let sregs_reply = match sregs {
            Ok(w) => w,
            Err(errno) => {
                return Err(Error::Io(errno));
            },
        };

        let fpu_reply = match fpu {
            Ok(w) => w,
            Err(errno) => {
                return Err(Error::Io(errno));
            },
        };

        let ghost mid1 = staged;

        absorb_sregs(&mut staged, &sregs_reply);

        let ghost mid2 = staged;

        absorb_kvm_fpu(&mut staged, &fpu_reply);

        *state = staged;

        proof {
            assert(regs_absorbed(*old(state), regs_reply, mid1));
            assert(sregs_absorbed(mid1, sregs_reply, mid2));
        }

        Ok(())
    }

    /// Decodes the run-state record after one run call and advances the
    /// life of the virtual CPU: a terminal exit forbids every further
    /// run. A run requested after a terminal exit is refused without
    /// reading anything.
    pub fn run(&mut self, run: &RunState) -> (r: Result<ExitState, Error>)
        ensures
            r is Ok <==> old(self).lifecycle.phase == VcpuPhase::Runnable,
            r is Ok ==> r.unwrap() == spec_dispatch(*run),
            r is Ok ==> final(self).lifecycle.phase == if spec_dispatch(
                *run,
            ).spec_is_terminal() {
                VcpuPhase::Terminated
            } else {
                VcpuPhase::Runnable
            },
            r is Ok ==> final(self).lifecycle.ready_for_interrupt
                == run.ready_for_interrupt_injection,
            r is Ok ==> final(self).handle == old(self).handle,
            r is Err ==> *final(self) == *old(self) && r.unwrap_err() == Error::Fatal(
                FatalVmError::VcpuTerminated,
            ),
    {
        if !self.lifecycle.runnable() {
            return Err(Error::Fatal(FatalVmError::VcpuTerminated));
        }

        let exit = dispatch_exit(run);
        self.lifecycle.observe(&exit, run.ready_for_interrupt_injection);

        Ok(exit)
    }

    /// Gates a request to inject an external interrupt: permitted only
    /// when the last run reported readiness; otherwise an error, never a
    /// queued injection.
    pub fn interrupt(&self, vector: u8) -> (r: Result<u8, Error>)
        ensures
            r is Ok <==> (self.lifecycle.phase == VcpuPhase::Runnable
                && self.lifecycle.ready_for_interrupt),
            r is Ok ==> r.unwrap() == vector,
            r is Err ==> r.unwrap_err() == if self.lifecycle.phase != VcpuPhase::Runnable {
                Error::Fatal(FatalVmError::VcpuTerminated)
            } else {
                Error::NotReadyForInterrupt
            },
    {
        self.lifecycle.interrupt_request(vector)
    }

    /// Gives the virtual CPU's kernel handle up for closing.
    pub fn release(self) -> (h: i64)
        ensures
            h == self.handle,
    {
        self.handle
    }
}

/// Writing a canonical state within architectural bounds through all
/// three sub-syncs and reading it back yields the same state: every
/// register, segment field, control register and FPU word survives the
/// round trip.
pub proof fn lemma_kvm_sync_round_trip(s: State, records: SyncRecords, out: State)
    requires
        s.wf(),
        regs_encoded(s, records.regs),
        sregs_encoded(s, records.sregs),
        kvm_fpu_encoded(s.fpu, records.fpu),
        spec_fully_absorbed(s, records.regs, records.sregs, records.fpu, out),
    ensures
        out =~= s,
{
    let (mid1, mid2) = choose|mid1: State, mid2: State|
        {
            &&& #[trigger] regs_absorbed(s, records.regs, mid1)
            &&& #[trigger] sregs_absorbed(mid1, records.sregs, mid2)
            &&& kvm_fpu_absorbed(mid2.fpu, records.fpu, out.fpu)
            &&& out == (State { fpu: out.fpu, ..mid2 })
        };

    crate::kvm_translate::lemma_kvm_regs_round_trip(s, records.regs, mid1);
    assert(mid1 =~= s);

    crate::kvm_translate::lemma_kvm_sregs_round_trip(s, records.sregs, mid2);

    crate::kvm_translate::lemma_kvm_fpu_round_trip(s.fpu, records.fpu, out.fpu);
    assert(out.fpu =~= s.fpu);
    assert(out =~= s);
}

} // verus!
