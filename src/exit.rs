//! Handling of guest exits: the cause in `scause` picks the SBI handler, the
//! illegal-instruction emulation or the guest-page-fault emulation; anything
//! else ends the guest. Each emulation resolves a closed set of patterns only.
use vstd::prelude::*;
use crate::csrs::{decode_scause, trap_of, Exception, Trap};
use crate::regs::{gpr_num, GprIndex};
use crate::sbi::{sbi_message_of, SbiError, SbiMessage, SBI_ARG_REGS};
use crate::vcpu::VmCpuRegisters;

verus! {

/// `a0` that a guest passes with the reset call to ask for an orderly shutdown.
pub const SHUTDOWN_HANDSHAKE_A0: u64 = 0x6688;

/// `a1` that a guest passes with the reset call to ask for an orderly shutdown.
pub const SHUTDOWN_HANDSHAKE_A1: u64 = 0x1234;

/// `csrr a1, mhartid`: legal in M-mode, illegal when a virtualized
/// supervisor issues it.
pub const CSRR_A1_MHARTID: u64 = 0xf140_25f3;

/// The hart id that the guest reads through `mhartid`.
pub const EMULATED_HART_ID: u64 = 0x1234;

/// Guest address that a static-backing guest loads from without a mapping.
pub const STATIC_LOAD_ADDR: u64 = 0x40;

/// The value that a load from `STATIC_LOAD_ADDR` yields.
pub const STATIC_LOAD_VALUE: u64 = 0x6688;

/// Width of an uncompressed instruction, by which `sepc` advances past an
/// emulated one.
pub const INSN_WIDTH: u64 = 4;

/// Guest physical base of the flash device (pflash #2) whose page is mapped
/// on demand.
pub const FLASH_BASE: u64 = 0x2200_0000;

/// Size of a guest page.
pub const PAGE_SIZE: u64 = 0x1000;

/// Mapping flags for the flash page: read, write, execute and user access.
pub const MAP_FLAGS_RWXU: u64 = 0xf;

/// How guest page faults are resolved.
#[derive(Clone, Copy, Debug, PartialEq, Eq, Structural)]
pub enum FaultPolicy {
    /// Fixed addresses read as fixed values: the load is replaced and the
    /// guest moves past it.
    StaticBacking,
    /// The flash page is mapped on demand: the access is replayed against
    /// the new mapping.
    DemandMapping,
}

/// What the run loop does after an exit that was resolved.
#[derive(Clone, Copy, Debug, PartialEq, Eq, Structural)]
pub enum ExitAction {
    /// Enter the guest again.
    Resume,
    /// The guest asked for an orderly shutdown.
    Shutdown,
    /// Map and fill the page at `gpa`, then enter the guest again with `sepc`
    /// as it is.
    MapFlashPage { gpa: u64 },
}

/// An exit that the monitor cannot resolve; each ends the guest.
#[derive(Clone, Copy, Debug, PartialEq, Eq, Structural)]
pub enum VmExitError {
    /// The SBI call could not be decoded.
    BadSbiMessage(SbiError),
    /// The SBI call was decoded but is not implemented.
    UnimplementedSbi(SbiMessage),
    /// The reset call came without the shutdown handshake values.
    BadShutdownHandshake { a0: u64, a1: u64 },
    /// An illegal instruction outside the emulated set.
    UnhandledIllegalInstruction { inst: u64, sepc: u64 },
    /// A guest page fault outside the handled addresses.
    UnhandledPageFault { stval: u64, htval: u64, sepc: u64 },
    /// A trap cause that the monitor does not handle.
    UnhandledTrap { scause: u64, sepc: u64, stval: u64 },
}

/// The guest physical fault address: `htval` holds it shifted right by two,
/// `stval` supplies the low two bits.
pub open spec fn guest_fault_gpa(htval: u64, stval: u64) -> u64 {
    (htval << 2u64) | (stval & 3u64)
}

/// The page of the flash device that `gpa` falls in, if it falls in it.
pub open spec fn flash_page_of(gpa: u64) -> Option<u64> {
    if FLASH_BASE <= gpa && gpa < FLASH_BASE + PAGE_SIZE {
        Some(FLASH_BASE)
    } else {
        None
    }
}

/// Whether a faulting load is the one at `STATIC_LOAD_ADDR`, going by the
/// guest virtual address or by the guest physical one.
pub open spec fn is_static_load(stval: u64, htval: u64) -> bool {
    stval == STATIC_LOAD_ADDR || htval == STATIC_LOAD_ADDR >> 2u64
}

/// The register that an emulated instruction writes, and the value, where
/// the exit is one that is resolved by emulating the trapping instruction.
pub open spec fn emulated_write(ctx: VmCpuRegisters, policy: FaultPolicy) -> Option<
    (GprIndex, u64),
> {
    match trap_of(ctx.trap_csrs.scause) {
        Trap::Exception(Exception::IllegalInstruction) => {
            if ctx.trap_csrs.stval == CSRR_A1_MHARTID {
                Some((GprIndex::A1, EMULATED_HART_ID))
            } else {
                None
            }
        },
        Trap::Exception(Exception::LoadGuestPageFault) => {
            if policy == FaultPolicy::StaticBacking && is_static_load(
                ctx.trap_csrs.stval,
                ctx.trap_csrs.htval,
            ) {
                Some((GprIndex::A0, STATIC_LOAD_VALUE))
            } else {
                None
            }
        },
        _ => None,
    }
}

/// The outcome of an SBI call exit.
pub open spec fn sbi_exit_result(ctx: VmCpuRegisters) -> Result<ExitAction, VmExitError> {
    let a0 = ctx.guest_regs.gprs.spec_reg(GprIndex::A0);
    let a1 = ctx.guest_regs.gprs.spec_reg(GprIndex::A1);
    match sbi_message_of(ctx.guest_regs.gprs@.subrange(10, 18)) {
        Ok(SbiMessage::Reset(_)) => {
            if a0 == SHUTDOWN_HANDSHAKE_A0 && a1 == SHUTDOWN_HANDSHAKE_A1 {
                Ok(ExitAction::Shutdown)
            } else {
                Err(VmExitError::BadShutdownHandshake { a0, a1 })
            }
        },
        Ok(m) => Err(VmExitError::UnimplementedSbi(m)),
        Err(e) => Err(VmExitError::BadSbiMessage(e)),
    }
}

/// The outcome of a guest page fault exit.
pub open spec fn page_fault_result(ctx: VmCpuRegisters, policy: FaultPolicy) -> Result<
    ExitAction,
    VmExitError,
> {
    let t = ctx.trap_csrs;
    let err = VmExitError::UnhandledPageFault {
        stval: t.stval,
        htval: t.htval,
        sepc: ctx.guest_regs.sepc,
    };
    match policy {
        FaultPolicy::StaticBacking => {
            if emulated_write(ctx, policy) is Some {
                Ok(ExitAction::Resume)
            } else {
                Err(err)
            }
        },
        FaultPolicy::DemandMapping => match flash_page_of(guest_fault_gpa(t.htval, t.stval)) {
            Some(p) => Ok(ExitAction::MapFlashPage { gpa: p }),
            None => Err(err),
        },
    }
}

/// The outcome of an exit, by its cause.
pub open spec fn exit_result(ctx: VmCpuRegisters, policy: FaultPolicy) -> Result<
    ExitAction,
    VmExitError,
> {
    let t = ctx.trap_csrs;
    match trap_of(t.scause) {
        Trap::Exception(Exception::VirtualSupervisorEnvCall) => sbi_exit_result(ctx),
        Trap::Exception(Exception::IllegalInstruction) => {
            if emulated_write(ctx, policy) is Some {
                Ok(ExitAction::Resume)
            } else {
                Err(
                    VmExitError::UnhandledIllegalInstruction {
                        inst: t.stval,
                        sepc: ctx.guest_regs.sepc,
                    },
                )
            }
        },
        Trap::Exception(Exception::LoadGuestPageFault) => page_fault_result(ctx, policy),
        Trap::Exception(Exception::StoreGuestPageFault) => page_fault_result(ctx, policy),
        _ => Err(
            VmExitError::UnhandledTrap { scause: t.scause, sepc: ctx.guest_regs.sepc, stval: t.stval },
        ),
    }
}

/// How the context changes on an exit: the emulated write lands and `sepc`
/// moves past the instruction; every other exit leaves the context as it is.
pub open spec fn exit_effect(
    before: VmCpuRegisters,
    after: VmCpuRegisters,
    policy: FaultPolicy,
) -> bool {
    &&& after.wf()
    &&& after.trap_csrs == before.trap_csrs
    &&& after.guest_regs.sstatus == before.guest_regs.sstatus
    &&& after.guest_regs.hstatus == before.guest_regs.hstatus
    &&& match emulated_write(before, policy) {
        Some((rd, v)) => {
            &&& after.guest_regs.gprs@ == before.guest_regs.gprs@.update(gpr_num(rd) as int, v)
            &&& after.guest_regs.sepc == before.guest_regs.sepc + INSN_WIDTH
        },
        None => {
            &&& after.guest_regs.gprs@ == before.guest_regs.gprs@
            &&& after.guest_regs.sepc == before.guest_regs.sepc
        },
    }
}

/// The page of the flash device that a guest physical fault address falls
/// in; `None` when it falls outside the device.
pub fn flash_page_for(gpa: u64) -> (r: Option<u64>)
    ensures
        r == flash_page_of(gpa),
{
    if FLASH_BASE <= gpa && gpa < FLASH_BASE + PAGE_SIZE {
        Some(FLASH_BASE)
    } else {
        None
    }
}

/// Resolves an SBI call from the guest.
fn handle_sbi_call(ctx: &VmCpuRegisters) -> (r: Result<ExitAction, VmExitError>)
    requires
        ctx.wf(),
    ensures
        r == sbi_exit_result(*ctx),
{
    let args = ctx.guest_regs.gprs.a_regs();
    let msg = SbiMessage::from_regs(args.as_slice());
    match msg {
        Ok(SbiMessage::Reset(_)) => {
            let a0 = ctx.guest_regs.gprs.reg(GprIndex::A0);
            let a1 = ctx.guest_regs.gprs.reg(GprIndex::A1);
            if a0 == SHUTDOWN_HANDSHAKE_A0 && a1 == SHUTDOWN_HANDSHAKE_A1 {
                Ok(ExitAction::Shutdown)
            } else {
                Err(VmExitError::BadShutdownHandshake { a0, a1 })
            }
        },
        Ok(m) => Err(VmExitError::UnimplementedSbi(m)),
        Err(e) => Err(VmExitError::BadSbiMessage(e)),
    }
}

/// Resolves a load or store guest-page fault under `policy`.
fn handle_guest_page_fault(ctx: &mut VmCpuRegisters, policy: FaultPolicy, is_load: bool) -> (r:
    Result<ExitAction, VmExitError>)
    requires
        old(ctx).wf(),
        is_load ==> trap_of(old(ctx).trap_csrs.scause) == Trap::Exception(
            Exception::LoadGuestPageFault,
        ),
        !is_load ==> trap_of(old(ctx).trap_csrs.scause) == Trap::Exception(
            Exception::StoreGuestPageFault,
        ),
        emulated_write(*old(ctx), policy) is Some ==> old(ctx).guest_regs.sepc <= u64::MAX
            - INSN_WIDTH,
    ensures
        r == page_fault_result(*old(ctx), policy),
        exit_effect(*old(ctx), *final(ctx), policy),
{
    let stval = ctx.trap_csrs.stval;
    let htval = ctx.trap_csrs.htval;
    let sepc = ctx.guest_regs.sepc;
    match policy {
        FaultPolicy::StaticBacking => {
            if is_load && (stval == STATIC_LOAD_ADDR || htval == STATIC_LOAD_ADDR >> 2u64) {
                ctx.guest_regs.gprs.set_reg(GprIndex::A0, STATIC_LOAD_VALUE);
                ctx.guest_regs.sepc = sepc + INSN_WIDTH;
                Ok(ExitAction::Resume)
            } else {
                Err(VmExitError::UnhandledPageFault { stval, htval, sepc })
            }
        },
        FaultPolicy::DemandMapping => {
            let gpa = (htval << 2u64) | (stval & 3u64);
            match flash_page_for(gpa) {
                Some(p) => Ok(ExitAction::MapFlashPage { gpa: p }),
                None => Err(VmExitError::UnhandledPageFault { stval, htval, sepc }),
            }
        },
    }
}

/// Handles one exit from the guest, by the cause that `scause` reports:
/// an SBI call ends the guest when it is the reset call with the shutdown
/// handshake; the allow-listed illegal instruction and, under the static
/// policy, the allow-listed load are emulated and the guest moves past
/// them; under the demand policy a fault on the flash page asks for that
/// page to be mapped, and the guest replays the access. Every other exit is
/// an error, and leaves the context as it is.
pub fn vmexit_handler(ctx: &mut VmCpuRegisters, policy: FaultPolicy) -> (r: Result<
    ExitAction,
    VmExitError,
>)
    requires
        old(ctx).wf(),
        emulated_write(*old(ctx), policy) is Some ==> old(ctx).guest_regs.sepc <= u64::MAX
            - INSN_WIDTH,
    ensures
        r == exit_result(*old(ctx), policy),
        exit_effect(*old(ctx), *final(ctx), policy),
        // the reset call ends the guest exactly when the handshake is right
        trap_of(old(ctx).trap_csrs.scause) == Trap::Exception(Exception::VirtualSupervisorEnvCall)
            && (sbi_message_of(old(ctx).guest_regs.gprs@.subrange(10, 18)) matches Ok(
            SbiMessage::Reset(_),
        )) ==> {
            let a0 = old(ctx).guest_regs.gprs.spec_reg(GprIndex::A0);
            let a1 = old(ctx).guest_regs.gprs.spec_reg(GprIndex::A1);
            &&& (a0 == SHUTDOWN_HANDSHAKE_A0 && a1 == SHUTDOWN_HANDSHAKE_A1) ==> r
                == Ok::<ExitAction, VmExitError>(ExitAction::Shutdown)
            &&& !(a0 == SHUTDOWN_HANDSHAKE_A0 && a1 == SHUTDOWN_HANDSHAKE_A1) ==> r
                == Err::<ExitAction, VmExitError>(VmExitError::BadShutdownHandshake { a0, a1 })
        },
        // the hart-id read is emulated and the guest moves one instruction on
        trap_of(old(ctx).trap_csrs.scause) == Trap::Exception(Exception::IllegalInstruction)
            && old(ctx).trap_csrs.stval == CSRR_A1_MHARTID ==> {
            &&& r == Ok::<ExitAction, VmExitError>(ExitAction::Resume)
            &&& final(ctx).guest_regs.gprs.spec_reg(GprIndex::A1) == EMULATED_HART_ID
            &&& final(ctx).guest_regs.sepc == old(ctx).guest_regs.sepc + INSN_WIDTH
        },
        // the static load is replaced by its value and the guest moves on
        trap_of(old(ctx).trap_csrs.scause) == Trap::Exception(Exception::LoadGuestPageFault)
            && policy == FaultPolicy::StaticBacking && is_static_load(
            old(ctx).trap_csrs.stval,
            old(ctx).trap_csrs.htval,
        ) ==> {
            &&& r == Ok::<ExitAction, VmExitError>(ExitAction::Resume)
            &&& final(ctx).guest_regs.gprs.spec_reg(GprIndex::A0) == STATIC_LOAD_VALUE
            &&& final(ctx).guest_regs.sepc == old(ctx).guest_regs.sepc + INSN_WIDTH
        },
        // a fault on the flash page asks for the page and keeps `sepc`
        (trap_of(old(ctx).trap_csrs.scause) == Trap::Exception(Exception::LoadGuestPageFault)
            || trap_of(old(ctx).trap_csrs.scause) == Trap::Exception(
            Exception::StoreGuestPageFault,
        )) && policy == FaultPolicy::DemandMapping && flash_page_of(
            guest_fault_gpa(old(ctx).trap_csrs.htval, old(ctx).trap_csrs.stval),
        ) is Some ==> {
            &&& r == Ok::<ExitAction, VmExitError>(ExitAction::MapFlashPage { gpa: FLASH_BASE })
            &&& final(ctx).guest_regs.sepc == old(ctx).guest_regs.sepc
            &&& final(ctx).guest_regs.gprs@ == old(ctx).guest_regs.gprs@
        },
        // the registers that the first entry set up stay as they are
        final(ctx).guest_regs.hstatus == old(ctx).guest_regs.hstatus,
{
    let trap = decode_scause(ctx.trap_csrs.scause);
    match trap {
        Trap::Exception(Exception::VirtualSupervisorEnvCall) => handle_sbi_call(ctx),
        Trap::Exception(Exception::IllegalInstruction) => {
            let inst = ctx.trap_csrs.stval;
            let sepc = ctx.guest_regs.sepc;
            if inst == CSRR_A1_MHARTID {
                ctx.guest_regs.gprs.set_reg(GprIndex::A1, EMULATED_HART_ID);
                ctx.guest_regs.sepc = sepc + INSN_WIDTH;
                Ok(ExitAction::Resume)
            } else {
                Err(VmExitError::UnhandledIllegalInstruction { inst, sepc })
            }
        },
        Trap::Exception(Exception::LoadGuestPageFault) => handle_guest_page_fault(
            ctx,
            policy,
            true,
        ),
        Trap::Exception(Exception::StoreGuestPageFault) => handle_guest_page_fault(
            ctx,
            policy,
            false,
        ),
        _ => Err(
            VmExitError::UnhandledTrap {
                scause: ctx.trap_csrs.scause,
                sepc: ctx.guest_regs.sepc,
                stval: ctx.trap_csrs.stval,
            },
        ),
    }
}

/// The bytes "pfld", written to the flash page when its backing image cannot
/// be read.
pub open spec fn flash_placeholder() -> Seq<u8> {
    seq![0x70u8, 0x66u8, 0x6cu8, 0x64u8]
}

/// What the flash page holds once filled: the first page of the backing
/// image, or the placeholder when there is no image.
pub open spec fn flash_payload(backing: Option<Seq<u8>>) -> Seq<u8> {
    match backing {
        None => flash_placeholder(),
        Some(b) => if b.len() <= PAGE_SIZE {
            b
        } else {
            b.subrange(0, PAGE_SIZE as int)
        },
    }
}

/// A page to map into the guest and the bytes to write at its start.
#[derive(Debug)]
pub struct FlashPageFill {
    pub gpa: u64,
    pub size: u64,
    pub flags: u64,
    pub data: Vec<u8>,
}

/// The mapping that resolves a fault on the flash page at `gpa`: one page,
/// readable, writable and executable, filled from `backing`, the bytes read
/// from the start of the flash image (`None` when it could not be opened).
pub fn flash_page_fill(gpa: u64, backing: Option<Vec<u8>>) -> (r: FlashPageFill)
    ensures
        r.gpa == gpa,
        r.size == PAGE_SIZE,
        r.flags == MAP_FLAGS_RWXU,
        r.data@ == flash_payload(
            match backing {
                Some(v) => Some(v@),
                None => None,
            },
        ),
        r.data@.len() <= PAGE_SIZE,
{
    let data = match backing {
        None => {
            let p = vec![0x70u8, 0x66u8, 0x6cu8, 0x64u8];
            assert(p@ =~= flash_placeholder());
            p
        },
        Some(v) => {
            let mut v = v;
            if v.len() > PAGE_SIZE as usize {
                v.truncate(PAGE_SIZE as usize);
            }
            v
        },
    };
    FlashPageFill { gpa, size: PAGE_SIZE, flags: MAP_FLAGS_RWXU, data }
}

} // verus!
