//! The virtual-CPU model of the vendor driver.
//!
//! A virtual CPU owns its numbered device handle and shares a run-state
//! tunnel with the driver. State synchronization builds and absorbs the
//! driver's records; the run loop's decisions — what a tunnel record
//! means and whether an interrupt may be injected — are made here, while
//! the device calls themselves happen outside the library.

use vstd::prelude::*;

use crate::accel::{ExitState, RunLifecycle, VcpuPhase};
use crate::errors::{Error, FatalVmError, ProtocolError};
use crate::hax_run::{spec_dispatch_hax, dispatch_hax_exit, FastMmio, RunResult, Tunnel,
    TunnelInfo};
use crate::hax_translate::{absorb_cpu_state, cpu_state_record, cpu_state_record_over, fpu_record,
    fpu_from_record, spec_absorbed_state, spec_fpu_of, spec_wire_fpu_of, spec_wire_state_of,
    spec_wire_state_over};
use crate::hax_wire::{apply_msrs, FPUState, MSRData, VcpuState};
use crate::msr::MSRState;
use crate::state::{flags_bits_valid, State};

verus! {

/// A virtual CPU of the vendor driver: its device handle and where it
/// stands in its life.
#[derive(Debug, Clone, Copy, PartialEq, Eq, Structural)]
pub struct VirtualCPU {
    /// The raw device handle, owned exclusively by this virtual CPU.
    pub handle: i64,
    /// The run-loop state machine.
    pub lifecycle: RunLifecycle,
}

impl VirtualCPU {
    /// Wraps a virtual CPU's freshly opened device handle once the
    /// driver has reported its tunnel. A tunnel too small for this
    /// client's record, or one with a null address, fails creation; the
    /// handle is handed back so the caller can close it.
    pub fn new(handle: i64, info: &TunnelInfo) -> (r: Result<VirtualCPU, (ProtocolError, i64)>)
        ensures
            r is Ok <==> (info.size >= crate::hax_run::TUNNEL_RECORD_BYTES && info.tunnel_addr
                != 0 && info.io_buffer_addr != 0),
            r is Ok ==> r.unwrap().handle == handle && r.unwrap().lifecycle.phase
                == VcpuPhase::Runnable && !r.unwrap().lifecycle.ready_for_interrupt,
            r is Err ==> r.unwrap_err().1 == handle,
    {
        match info.validate() {
            Ok(_) => Ok(VirtualCPU { handle, lifecycle: RunLifecycle::new() }),
            Err(e) => Err((e, handle)),
        }
    }

    /// Decodes the tunnel after one run call and advances the life of
    /// the virtual CPU: a terminal exit forbids every further run. A run
    /// requested after a terminal exit is refused without reading
    /// anything.
    pub fn run(&mut self, tunnel: &Tunnel, fast: &FastMmio) -> (r: Result<ExitState, Error>)
        ensures
            r is Ok <==> old(self).lifecycle.phase == VcpuPhase::Runnable,
            r is Ok ==> r.unwrap() == spec_dispatch_hax(*tunnel, *fast),
            r is Ok ==> final(self).lifecycle.phase == if spec_dispatch_hax(*tunnel,
                *fast).spec_is_terminal() {
                VcpuPhase::Terminated
            } else {
                VcpuPhase::Runnable
            },
            r is Ok ==> final(self).lifecycle.ready_for_interrupt == (
            tunnel.ready_for_interrupt_injection != 0),
            r is Ok ==> final(self).handle == old(self).handle,
            r is Err ==> *final(self) == *old(self) && r.unwrap_err() == Error::Fatal(
                FatalVmError::VcpuTerminated,
            ),
    {
        if !self.lifecycle.runnable() {
            return Err(Error::Fatal(FatalVmError::VcpuTerminated));
        }

        let exit = dispatch_hax_exit(tunnel, fast);
        self.lifecycle.observe(&exit, tunnel.ready_for_interrupt_injection != 0);

        Ok(exit)
    }

    /// Reads the status and hardware reason out of a tunnel record.
    pub fn run_result(&self, tunnel: &Tunnel) -> (r: Result<RunResult, ProtocolError>)
        ensures
            r is Ok <==> 1 <= tunnel.status <= 9,
            r is Ok ==> r.unwrap().exit_status.spec_code() == tunnel.status
                && r.unwrap().exit_reason == tunnel.exit_reason,
            r is Err ==> r.unwrap_err() == ProtocolError::UnknownExitStatus(tunnel.status),
    {
        RunResult::from_tunnel(tunnel)
    }

    /// Absorbs a register record read from the driver into the canonical
    /// state; a record with invalid flag bits is rejected untouched.
    pub fn get_cpu_state(&self, state: &mut State, wire: &VcpuState) -> (r: Result<(),
        ProtocolError>)
        ensures
            r is Ok <==> flags_bits_valid(wire.flags),
            r is Ok ==> *final(state) == spec_absorbed_state(*old(state), *wire),
            r is Err ==> *final(state) == *old(state),
    {
        absorb_cpu_state(state, wire)
    }

    /// Builds the register record that writes a canonical state into the
    /// driver when no previously read record is at hand; the fields the
    /// client does not synchronize are written as zero.
    pub fn set_cpu_state(&self, state: &State) -> (w: VcpuState)
        requires
            state.wf(),
        ensures
            w == spec_wire_state_of(*state),
    {
        cpu_state_record(state)
    }

    /// Builds the register record for a read-modify-write
    /// synchronization: the record read back from the driver supplies
    /// every field the client does not synchronize, so those fields are
    /// left untouched rather than zeroed.
    pub fn set_cpu_state_over(&self, prev: &VcpuState, state: &State) -> (w: VcpuState)
        requires
            state.wf(),
        ensures
            w == spec_wire_state_over(*prev, *state),
    {
        cpu_state_record_over(prev, state)
    }

    /// Builds the request for reading the synchronized numbered
    /// registers.
    pub fn get_msr_state_request(&self, msrs: &MSRState) -> (r: MSRData)
        ensures
            r.count == 2,
            r.done == 0,
            r.entries@.take(2) =~= MSRData::spec_request_entries(*msrs),
    {
        let r = MSRData::from(msrs);
        proof {
            assert(r.entries@.take(2) =~= MSRData::spec_request_entries(*msrs));
        }
        r
    }

    /// Applies the driver's reply to a read of the numbered registers; a
    /// reply that updated fewer entries than asked is a protocol error,
    /// never a partial success.
    pub fn get_msr_state(&self, reply: MSRData, msrs: &mut MSRState) -> (r: Result<(),
        ProtocolError>)
        ensures
            r is Ok <==> reply.reply_complete(),
            r is Ok ==> *final(msrs) == apply_msrs(
                *old(msrs),
                reply.entries@.take(reply.done as int),
            ),
            r is Err ==> *final(msrs) == *old(msrs),
            r is Err ==> (r.unwrap_err() == ProtocolError::MsrCountMismatch <==> (reply.done
                != reply.count || reply.done > 32)),
    {
        reply.into(msrs)
    }

    /// Builds the record that writes the numbered registers into the
    /// driver.
    pub fn set_msr_state(&self, msrs: &MSRState) -> (r: MSRData)
        ensures
            r.count == 2,
            r.done == 0,
            r.entries@.take(2) =~= MSRData::spec_request_entries(*msrs),
    {
        self.get_msr_state_request(msrs)
    }

    /// Checks the driver's reply to a write of the numbered registers:
    /// every entry must have been taken.
    pub fn set_msr_state_check(&self, reply: &MSRData) -> (r: Result<(), ProtocolError>)
        ensures
            r is Ok <==> reply.done == reply.count,
            r is Err ==> r.unwrap_err() == ProtocolError::MsrCountMismatch,
    {
        reply.check_write_reply()
    }

    /// Absorbs an FPU record read from the driver into the canonical
    /// state.
    pub fn get_fpu_state(&self, state: &mut State, wire: &FPUState)
        ensures
            final(state).fpu == spec_fpu_of(*wire),
            *final(state) == (State { fpu: final(state).fpu, ..*old(state) }),
    {
        let fpu = fpu_from_record(wire);
        state.fpu = fpu;
    }

    /// Builds the FPU record that writes the canonical FPU state into
    /// the driver; reserved bytes are zero.
    pub fn set_fpu_state(&self, state: &State) -> (w: FPUState)
        ensures
            w == spec_wire_fpu_of(state.fpu),
    {
        fpu_record(&state.fpu)
    }

    /// Gates a request to inject an external interrupt: permitted only
    /// when the last run reported readiness; otherwise an error, never a
    /// queued injection.
    pub fn interrupt(&self, vector: u8) -> (r: Result<u8, Error>)
        ensures
            r is Ok <==> (self.lifecycle.phase == VcpuPhase::Runnable
                && self.lifecycle.ready_for_interrupt),
            r is Ok ==> r.unwrap() == vector,
            r is Err ==> r.unwrap_err() == if self.lifecycle.phase != VcpuPhase::Runnable {
                Error::Fatal(FatalVmError::VcpuTerminated)
            } else {
                Error::NotReadyForInterrupt
            },
    {
        self.lifecycle.interrupt_request(vector)
    }

    /// Gives the virtual CPU's device handle up for closing.
    pub fn release(self) -> (h: i64)
        ensures
            h == self.handle,
    {
        self.handle
    }
}

} // verus!
