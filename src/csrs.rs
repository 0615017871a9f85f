//! Bit layouts of the hypervisor CSRs that the monitor touches, the decoding
//! of `scause`, and a register file that models the host's view of them.
use vstd::prelude::*;

verus! {

/// `hstatus.SPV`: the next `sret` enters the guest (virtualization mode 1).
pub const HSTATUS_SPV: u64 = 0x80;

/// `hstatus.SPVP`: hypervisor loads and stores reach guest memory with
/// supervisor privilege.
pub const HSTATUS_SPVP: u64 = 0x100;

/// `sstatus.SPP`: the next `sret` returns to supervisor mode.
pub const SSTATUS_SPP: u64 = 0x100;

/// `hgatp.MODE` value selecting Sv39x4 second-stage translation.
pub const HGATP_MODE_SV39X4: u64 = 8;

/// Position of the mode field in `hgatp`.
pub const HGATP_MODE_SHIFT: u64 = 60;

/// log2 of the page size: a physical address shifted right by this is its
/// frame number.
pub const PAGE_SHIFT: u64 = 12;

/// The top bit of `scause`, set for interrupts.
pub const SCAUSE_INTERRUPT_BIT: u64 = 0x8000_0000_0000_0000;

/// Exception code of an illegal instruction.
pub const EXC_ILLEGAL_INSTRUCTION: u64 = 2;

/// Exception code of an environment call from VS-mode.
pub const EXC_VIRTUAL_SUPERVISOR_ENV_CALL: u64 = 10;

/// Exception code of a load guest-page fault.
pub const EXC_LOAD_GUEST_PAGE_FAULT: u64 = 21;

/// Exception code of a store/AMO guest-page fault.
pub const EXC_STORE_GUEST_PAGE_FAULT: u64 = 23;

/// The exception causes that the monitor tells apart; every other code is
/// carried as it came.
#[derive(Clone, Copy, Debug, PartialEq, Eq, Structural)]
pub enum Exception {
    IllegalInstruction,
    VirtualSupervisorEnvCall,
    LoadGuestPageFault,
    StoreGuestPageFault,
    Other(u64),
}

/// What `scause` reports: an interrupt or an exception, with its code.
#[derive(Clone, Copy, Debug, PartialEq, Eq, Structural)]
pub enum Trap {
    Interrupt(u64),
    Exception(Exception),
}

/// The exception that an exception code names.
pub open spec fn exception_of(code: u64) -> Exception {
    if code == EXC_ILLEGAL_INSTRUCTION {
        Exception::IllegalInstruction
    } else if code == EXC_VIRTUAL_SUPERVISOR_ENV_CALL {
        Exception::VirtualSupervisorEnvCall
    } else if code == EXC_LOAD_GUEST_PAGE_FAULT {
        Exception::LoadGuestPageFault
    } else if code == EXC_STORE_GUEST_PAGE_FAULT {
        Exception::StoreGuestPageFault
    } else {
        Exception::Other(code)
    }
}

/// The trap that an `scause` value reports: the top bit tells an interrupt
/// from an exception, the other bits give the code.
pub open spec fn trap_of(scause: u64) -> Trap {
    if scause >= SCAUSE_INTERRUPT_BIT {
        Trap::Interrupt((scause - SCAUSE_INTERRUPT_BIT) as u64)
    } else {
        Trap::Exception(exception_of(scause))
    }
}

/// Decodes an `scause` value.
pub fn decode_scause(scause: u64) -> (r: Trap)
    ensures
        r == trap_of(scause),
{
    if scause >= SCAUSE_INTERRUPT_BIT {
        Trap::Interrupt(scause - SCAUSE_INTERRUPT_BIT)
    } else if scause == EXC_ILLEGAL_INSTRUCTION {
        Trap::Exception(Exception::IllegalInstruction)
    } else if scause == EXC_VIRTUAL_SUPERVISOR_ENV_CALL {
        Trap::Exception(Exception::VirtualSupervisorEnvCall)
    } else if scause == EXC_LOAD_GUEST_PAGE_FAULT {
        Trap::Exception(Exception::LoadGuestPageFault)
    } else if scause == EXC_STORE_GUEST_PAGE_FAULT {
        Trap::Exception(Exception::StoreGuestPageFault)
    } else {
        Trap::Exception(Exception::Other(scause))
    }
}

/// The `hgatp` value that selects Sv39x4 over the table rooted at `root`:
/// the mode in the top four bits, the root's frame number below.
pub open spec fn hgatp_of(root: u64) -> u64 {
    (HGATP_MODE_SV39X4 << HGATP_MODE_SHIFT) | (root >> PAGE_SHIFT)
}

/// Encodes the second-stage translation root for `hgatp`.
pub fn hgatp_value(root: u64) -> (r: u64)
    ensures
        r == hgatp_of(root),
        r >> 60u64 == HGATP_MODE_SV39X4,
        r & 0x0fff_ffff_ffff_ffffu64 == root >> 12u64,
{
    let r = (HGATP_MODE_SV39X4 << HGATP_MODE_SHIFT) | (root >> PAGE_SHIFT);
    assert(r >> 60u64 == 8u64 && r & 0x0fff_ffff_ffff_ffffu64 == root >> 12u64) by (bit_vector)
        requires
            r == (8u64 << 60u64) | (root >> 12u64),
    ;
    r
}

/// The host's view of the hypervisor CSRs that guest setup reads and writes.
/// `gstage_tlb_stale` records whether second-stage translations cached under
/// an earlier `hgatp` may still be in use.
#[derive(Clone, Copy, Debug, PartialEq, Eq, Structural)]
pub struct HypervisorCsrs {
    pub hstatus: u64,
    pub sstatus: u64,
    pub hgatp: u64,
    pub gstage_tlb_stale: bool,
}

/// The CSR file after `hgatp` is pointed at `root` and the second-stage TLB
/// is flushed.
pub open spec fn after_pgtable_setup(c: HypervisorCsrs, root: u64) -> HypervisorCsrs {
    HypervisorCsrs { hgatp: hgatp_of(root), gstage_tlb_stale: false, ..c }
}

impl HypervisorCsrs {
    /// A register file holding the given `hstatus` and `sstatus`, with
    /// second-stage translation off.
    pub fn new(hstatus: u64, sstatus: u64) -> (r: Self)
        ensures
            r == (HypervisorCsrs { hstatus, sstatus, hgatp: 0, gstage_tlb_stale: false }),
    {
        HypervisorCsrs { hstatus, sstatus, hgatp: 0, gstage_tlb_stale: false }
    }

    /// Reads `hgatp`.
    pub fn read_hgatp(&self) -> (r: u64)
        ensures
            r == self.hgatp,
    {
        self.hgatp
    }

    /// Writes `hgatp`; translations cached under the old value go stale.
    pub fn write_hgatp(&mut self, value: u64)
        ensures
            *final(self) == (HypervisorCsrs { hgatp: value, gstage_tlb_stale: true, ..*old(self) }),
    {
        self.hgatp = value;
        self.gstage_tlb_stale = true;
    }

    /// `hfence.gvma` with no operands: drops every cached second-stage
    /// translation and leaves the registers as they are.
    pub fn hfence_gvma_all(&mut self)
        ensures
            *final(self) == (HypervisorCsrs { gstage_tlb_stale: false, ..*old(self) }),
    {
        self.gstage_tlb_stale = false;
    }
}

/// Installs the second-stage page table rooted at `ept_root` and flushes the
/// second-stage TLB right after.
pub fn prepare_vm_pgtable(csrs: &mut HypervisorCsrs, ept_root: u64)
    ensures
        *final(csrs) == after_pgtable_setup(*old(csrs), ept_root),
{
    let hgatp = hgatp_value(ept_root);
    csrs.write_hgatp(hgatp);
    csrs.hfence_gvma_all();
}

/// Setting up second-stage translation and flushing, then reading `hgatp`
/// back, yields the value that was written; doing the setup again with the
/// same root changes nothing.
pub proof fn lemma_pgtable_setup_idempotent(c: HypervisorCsrs, root: u64)
    ensures
        after_pgtable_setup(c, root).hgatp == hgatp_of(root),
        !after_pgtable_setup(c, root).gstage_tlb_stale,
        after_pgtable_setup(after_pgtable_setup(c, root), root) == after_pgtable_setup(c, root),
{
}

} // verus!
