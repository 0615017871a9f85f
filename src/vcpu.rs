//! The register context of a guest hart: everything that is saved and
//! restored when control passes between host and guest.
use vstd::prelude::*;
use crate::csrs::{HypervisorCsrs, HSTATUS_SPV, HSTATUS_SPVP, SSTATUS_SPP};
use crate::regs::GeneralPurposeRegisters;

verus! {

/// Guest physical address at which the guest kernel starts.
pub const VM_ENTRY: u64 = 0x8020_0000;

/// Guest state that is loaded on entry and saved on exit.
#[derive(Clone, Copy, Debug)]
pub struct GuestCpuState {
    pub gprs: GeneralPurposeRegisters,
    pub sstatus: u64,
    pub hstatus: u64,
    /// Address of the guest instruction that runs next.
    pub sepc: u64,
}

/// Trap registers captured at every exit from the guest.
#[derive(Clone, Copy, Debug, PartialEq, Eq, Structural)]
pub struct VmCpuTrapState {
    pub scause: u64,
    pub stval: u64,
    /// Guest physical fault address, shifted right by two.
    pub htval: u64,
    pub htinst: u64,
}

/// The whole context of one guest hart.
#[derive(Clone, Copy, Debug)]
pub struct VmCpuRegisters {
    pub guest_regs: GuestCpuState,
    pub trap_csrs: VmCpuTrapState,
}

/// `hstatus` with the two bits set that the first entry into the guest needs.
pub open spec fn guest_entry_hstatus(h: u64) -> u64 {
    h | HSTATUS_SPV | HSTATUS_SPVP
}

/// `sstatus` set to return to supervisor mode.
pub open spec fn guest_entry_sstatus(s: u64) -> u64 {
    s | SSTATUS_SPP
}

impl VmCpuRegisters {
    /// The register file is well formed.
    pub open spec fn wf(&self) -> bool {
        self.guest_regs.gprs.wf()
    }

    /// A context with every register zero.
    pub fn new() -> (r: Self)
        ensures
            r.wf(),
            r.guest_regs.gprs@ == Seq::new(32, |i: int| 0u64),
            r.guest_regs.sstatus == 0,
            r.guest_regs.hstatus == 0,
            r.guest_regs.sepc == 0,
            r.trap_csrs == (VmCpuTrapState { scause: 0, stval: 0, htval: 0, htinst: 0 }),
    {
        VmCpuRegisters {
            guest_regs: GuestCpuState {
                gprs: GeneralPurposeRegisters::new(),
                sstatus: 0,
                hstatus: 0,
                sepc: 0,
            },
            trap_csrs: VmCpuTrapState { scause: 0, stval: 0, htval: 0, htinst: 0 },
        }
    }
}

/// Prepares the first entry into the guest: sets `hstatus.SPV` and
/// `hstatus.SPVP` in the host register and in the context, gives the guest
/// an `sstatus` that returns to supervisor mode, and points `sepc` at the
/// kernel entry.
pub fn prepare_guest_context(ctx: &mut VmCpuRegisters, csrs: &mut HypervisorCsrs)
    ensures
        final(csrs).hstatus == guest_entry_hstatus(old(csrs).hstatus),
        final(csrs).sstatus == old(csrs).sstatus,
        final(csrs).hgatp == old(csrs).hgatp,
        final(csrs).gstage_tlb_stale == old(csrs).gstage_tlb_stale,
        final(ctx).guest_regs.hstatus == guest_entry_hstatus(old(csrs).hstatus),
        final(ctx).guest_regs.hstatus & HSTATUS_SPV != 0,
        final(ctx).guest_regs.hstatus & HSTATUS_SPVP != 0,
        final(ctx).guest_regs.sstatus == guest_entry_sstatus(old(csrs).sstatus),
        final(ctx).guest_regs.sstatus & SSTATUS_SPP != 0,
        final(ctx).guest_regs.sepc == VM_ENTRY,
        final(ctx).guest_regs.gprs == old(ctx).guest_regs.gprs,
        final(ctx).trap_csrs == old(ctx).trap_csrs,
{
    let host_hstatus = csrs.hstatus;
    let hstatus = host_hstatus | HSTATUS_SPV | HSTATUS_SPVP;
    assert(hstatus & 0x80u64 != 0 && hstatus & 0x100u64 != 0) by (bit_vector)
        requires
            hstatus == host_hstatus | 0x80u64 | 0x100u64,
    ;
    csrs.hstatus = hstatus;
    ctx.guest_regs.hstatus = hstatus;
    let host_sstatus = csrs.sstatus;
    let sstatus = host_sstatus | SSTATUS_SPP;
    assert(sstatus & 0x100u64 != 0) by (bit_vector)
        requires
            sstatus == host_sstatus | 0x100u64,
    ;
    ctx.guest_regs.sstatus = sstatus;
    ctx.guest_regs.sepc = VM_ENTRY;
}

} // verus!
