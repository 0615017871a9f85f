use simple_hv::csrs::{
    decode_scause, hgatp_value, prepare_vm_pgtable, Exception, HypervisorCsrs, Trap,
    HSTATUS_SPV, HSTATUS_SPVP, SSTATUS_SPP,
};
use simple_hv::exit::{
    flash_page_fill, flash_page_for, vmexit_handler, ExitAction, FaultPolicy, VmExitError,
    FLASH_BASE, MAP_FLAGS_RWXU, PAGE_SIZE,
};
use simple_hv::regs::GprIndex;
use simple_hv::sbi::{BaseFunction, ResetFunction, SbiError, SbiMessage, EID_BASE, EID_SRST, EID_TIME};
use simple_hv::vcpu::{prepare_guest_context, VmCpuRegisters, VM_ENTRY};

const SCAUSE_ILLEGAL: u64 = 2;
const SCAUSE_VS_ECALL: u64 = 10;
const SCAUSE_LOAD_GPF: u64 = 21;
const SCAUSE_STORE_GPF: u64 = 23;

fn booted() -> VmCpuRegisters {
    let mut ctx = VmCpuRegisters::new();
    let mut csrs = HypervisorCsrs::new(0x2_0000_0000, 0x2_0000_0000);
    prepare_guest_context(&mut ctx, &mut csrs);
    ctx
}

fn ecall(ctx: &mut VmCpuRegisters, eid: u64, fid: u64, a0: u64, a1: u64) {
    ctx.guest_regs.gprs.set_reg(GprIndex::A7, eid);
    ctx.guest_regs.gprs.set_reg(GprIndex::A6, fid);
    ctx.guest_regs.gprs.set_reg(GprIndex::A0, a0);
    ctx.guest_regs.gprs.set_reg(GprIndex::A1, a1);
    ctx.trap_csrs.scause = SCAUSE_VS_ECALL;
}

#[test]
fn reset_call_with_handshake_shuts_down() {
    let mut ctx = booted();
    ecall(&mut ctx, EID_SRST, 0, 0x6688, 0x1234);
    assert_eq!(vmexit_handler(&mut ctx, FaultPolicy::StaticBacking), Ok(ExitAction::Shutdown));
    assert_eq!(ctx.guest_regs.sepc, VM_ENTRY);
}

#[test]
fn reset_call_with_other_values_is_fatal() {
    let mut ctx = booted();
    ecall(&mut ctx, EID_SRST, 0, 0x6688, 0x1235);
    assert_eq!(
        vmexit_handler(&mut ctx, FaultPolicy::StaticBacking),
        Err(VmExitError::BadShutdownHandshake { a0: 0x6688, a1: 0x1235 })
    );
    let mut ctx = booted();
    ecall(&mut ctx, EID_SRST, 0, 0, 0);
    assert_eq!(
        vmexit_handler(&mut ctx, FaultPolicy::DemandMapping),
        Err(VmExitError::BadShutdownHandshake { a0: 0, a1: 0 })
    );
}

#[test]
fn unknown_extension_is_fatal() {
    let mut ctx = booted();
    ecall(&mut ctx, 0x7777, 0, 0x6688, 0x1234);
    assert_eq!(
        vmexit_handler(&mut ctx, FaultPolicy::StaticBacking),
        Err(VmExitError::BadSbiMessage(SbiError::NotSupported))
    );
    let mut ctx = booted();
    ecall(&mut ctx, EID_SRST, 1, 0x6688, 0x1234);
    assert_eq!(
        vmexit_handler(&mut ctx, FaultPolicy::StaticBacking),
        Err(VmExitError::BadSbiMessage(SbiError::InvalidParam))
    );
}

#[test]
fn known_but_unimplemented_call_is_fatal() {
    let mut ctx = booted();
    ecall(&mut ctx, EID_BASE, 3, 0x10, 0);
    assert_eq!(
        vmexit_handler(&mut ctx, FaultPolicy::StaticBacking),
        Err(VmExitError::UnimplementedSbi(SbiMessage::Base(BaseFunction::ProbeSbiExtension(0x10))))
    );
}

#[test]
fn sbi_decoding() {
    let mut args = [0u64; 8];
    args[7] = EID_SRST;
    args[0] = 0x6688;
    args[1] = 0x1234;
    assert_eq!(
        SbiMessage::from_regs(&args),
        Ok(SbiMessage::Reset(ResetFunction::Reset { reset_type: 0x6688, reason: 0x1234 }))
    );
    args[7] = EID_TIME;
    args[0] = 500;
    assert_eq!(SbiMessage::from_regs(&args), Ok(SbiMessage::SetTimer(500)));
    args[6] = 2;
    assert_eq!(SbiMessage::from_regs(&args), Err(SbiError::InvalidParam));
    args[7] = 0x01;
    assert_eq!(SbiMessage::from_regs(&args), Ok(SbiMessage::PutChar(500)));
    args[7] = EID_BASE;
    args[6] = 7;
    assert_eq!(SbiMessage::from_regs(&args), Err(SbiError::InvalidParam));
    args[6] = 0;
    assert_eq!(
        SbiMessage::from_regs(&args),
        Ok(SbiMessage::Base(BaseFunction::GetSpecificationVersion))
    );
}

#[test]
fn hart_id_read_is_emulated() {
    let mut ctx = booted();
    ctx.guest_regs.sepc = 0x8020_0010;
    ctx.trap_csrs.scause = SCAUSE_ILLEGAL;
    ctx.trap_csrs.stval = 0xf14025f3;
    assert_eq!(vmexit_handler(&mut ctx, FaultPolicy::StaticBacking), Ok(ExitAction::Resume));
    assert_eq!(ctx.guest_regs.gprs.reg(GprIndex::A1), 0x1234);
    assert_eq!(ctx.guest_regs.sepc, 0x8020_0014);
    assert_eq!(ctx.guest_regs.gprs.reg(GprIndex::A0), 0);
}

#[test]
fn other_illegal_instruction_is_fatal() {
    let mut ctx = booted();
    ctx.trap_csrs.scause = SCAUSE_ILLEGAL;
    ctx.trap_csrs.stval = 0xf14025f4;
    assert_eq!(
        vmexit_handler(&mut ctx, FaultPolicy::StaticBacking),
        Err(VmExitError::UnhandledIllegalInstruction { inst: 0xf14025f4, sepc: VM_ENTRY })
    );
    assert_eq!(ctx.guest_regs.sepc, VM_ENTRY);
    assert_eq!(ctx.guest_regs.gprs.reg(GprIndex::A1), 0);
}

#[test]
fn static_load_is_emulated() {
    let mut ctx = booted();
    ctx.trap_csrs.scause = SCAUSE_LOAD_GPF;
    ctx.trap_csrs.stval = 0x40;
    ctx.trap_csrs.htval = 0x10;
    assert_eq!(vmexit_handler(&mut ctx, FaultPolicy::StaticBacking), Ok(ExitAction::Resume));
    assert_eq!(ctx.guest_regs.gprs.reg(GprIndex::A0), 0x6688);
    assert_eq!(ctx.guest_regs.sepc, VM_ENTRY + 4);
}

#[test]
fn static_load_matched_by_guest_physical_address() {
    let mut ctx = booted();
    ctx.trap_csrs.scause = SCAUSE_LOAD_GPF;
    ctx.trap_csrs.stval = 0xffff_ffc0_0000_0040;
    ctx.trap_csrs.htval = 0x40 >> 2;
    assert_eq!(vmexit_handler(&mut ctx, FaultPolicy::StaticBacking), Ok(ExitAction::Resume));
    assert_eq!(ctx.guest_regs.gprs.reg(GprIndex::A0), 0x6688);
}

#[test]
fn static_fault_elsewhere_is_fatal() {
    let mut ctx = booted();
    ctx.trap_csrs.scause = SCAUSE_LOAD_GPF;
    ctx.trap_csrs.stval = 0x48;
    ctx.trap_csrs.htval = 0x12;
    assert_eq!(
        vmexit_handler(&mut ctx, FaultPolicy::StaticBacking),
        Err(VmExitError::UnhandledPageFault { stval: 0x48, htval: 0x12, sepc: VM_ENTRY })
    );
    let mut ctx = booted();
    ctx.trap_csrs.scause = SCAUSE_STORE_GPF;
    ctx.trap_csrs.stval = 0x40;
    ctx.trap_csrs.htval = 0x10;
    assert_eq!(
        vmexit_handler(&mut ctx, FaultPolicy::StaticBacking),
        Err(VmExitError::UnhandledPageFault { stval: 0x40, htval: 0x10, sepc: VM_ENTRY })
    );
    assert_eq!(ctx.guest_regs.gprs.reg(GprIndex::A0), 0);
}

#[test]
fn flash_fault_asks_for_the_page_and_keeps_sepc() {
    let mut ctx = booted();
    ctx.trap_csrs.scause = SCAUSE_LOAD_GPF;
    ctx.trap_csrs.stval = 0x2200_0000;
    ctx.trap_csrs.htval = 0x2200_0000 >> 2;
    assert_eq!(
        vmexit_handler(&mut ctx, FaultPolicy::DemandMapping),
        Ok(ExitAction::MapFlashPage { gpa: FLASH_BASE })
    );
    assert_eq!(ctx.guest_regs.sepc, VM_ENTRY);
    let mut ctx = booted();
    ctx.trap_csrs.scause = SCAUSE_STORE_GPF;
    ctx.trap_csrs.stval = 0x2200_0013;
    ctx.trap_csrs.htval = 0x2200_0010 >> 2;
    assert_eq!(
        vmexit_handler(&mut ctx, FaultPolicy::DemandMapping),
        Ok(ExitAction::MapFlashPage { gpa: FLASH_BASE })
    );
    assert_eq!(ctx.guest_regs.sepc, VM_ENTRY);
}

#[test]
fn fault_outside_flash_is_fatal() {
    let mut ctx = booted();
    ctx.trap_csrs.scause = SCAUSE_LOAD_GPF;
    ctx.trap_csrs.stval = 0x40;
    ctx.trap_csrs.htval = 0x10;
    assert_eq!(
        vmexit_handler(&mut ctx, FaultPolicy::DemandMapping),
        Err(VmExitError::UnhandledPageFault { stval: 0x40, htval: 0x10, sepc: VM_ENTRY })
    );
    assert_eq!(ctx.guest_regs.gprs.reg(GprIndex::A0), 0);
    assert_eq!(flash_page_for(0x2200_1000), None);
    assert_eq!(flash_page_for(0x21ff_ffff), None);
    assert_eq!(flash_page_for(0x2200_0fff), Some(FLASH_BASE));
}

#[test]
fn flash_page_from_backing_image() {
    let image: Vec<u8> = (0..5000u32).map(|i| (i % 251) as u8).collect();
    let fill = flash_page_fill(FLASH_BASE, Some(image.clone()));
    assert_eq!(fill.gpa, FLASH_BASE);
    assert_eq!(fill.size, PAGE_SIZE);
    assert_eq!(fill.flags, MAP_FLAGS_RWXU);
    assert_eq!(fill.data, image[..4096].to_vec());
    let short = vec![1u8, 2, 3];
    assert_eq!(flash_page_fill(FLASH_BASE, Some(short.clone())).data, short);
    assert_eq!(flash_page_fill(FLASH_BASE, Some(Vec::new())).data, Vec::<u8>::new());
}

#[test]
fn flash_page_placeholder_without_image() {
    let fill = flash_page_fill(FLASH_BASE, None);
    assert_eq!(fill.data, b"pfld".to_vec());
    assert_eq!(fill.flags, 0xf);
}

#[test]
fn other_traps_are_fatal() {
    let mut ctx = booted();
    ctx.trap_csrs.scause = 0x8000_0000_0000_0005;
    ctx.trap_csrs.stval = 7;
    assert_eq!(
        vmexit_handler(&mut ctx, FaultPolicy::StaticBacking),
        Err(VmExitError::UnhandledTrap { scause: 0x8000_0000_0000_0005, sepc: VM_ENTRY, stval: 7 })
    );
    ctx.trap_csrs.scause = 13;
    assert_eq!(
        vmexit_handler(&mut ctx, FaultPolicy::DemandMapping),
        Err(VmExitError::UnhandledTrap { scause: 13, sepc: VM_ENTRY, stval: 7 })
    );
}

#[test]
fn scause_decoding() {
    assert_eq!(decode_scause(2), Trap::Exception(Exception::IllegalInstruction));
    assert_eq!(decode_scause(10), Trap::Exception(Exception::VirtualSupervisorEnvCall));
    assert_eq!(decode_scause(21), Trap::Exception(Exception::LoadGuestPageFault));
    assert_eq!(decode_scause(23), Trap::Exception(Exception::StoreGuestPageFault));
    assert_eq!(decode_scause(9), Trap::Exception(Exception::Other(9)));
    assert_eq!(decode_scause(0x8000_0000_0000_0009), Trap::Interrupt(9));
}

#[test]
fn guest_context_setup() {
    let mut ctx = VmCpuRegisters::new();
    let mut csrs = HypervisorCsrs::new(0x2_0000_0000, 0x6000);
    prepare_guest_context(&mut ctx, &mut csrs);
    assert_eq!(csrs.hstatus, 0x2_0000_0180);
    assert_eq!(ctx.guest_regs.hstatus, 0x2_0000_0180);
    assert_ne!(ctx.guest_regs.hstatus & HSTATUS_SPV, 0);
    assert_ne!(ctx.guest_regs.hstatus & HSTATUS_SPVP, 0);
    assert_eq!(ctx.guest_regs.sstatus, 0x6100);
    assert_ne!(ctx.guest_regs.sstatus & SSTATUS_SPP, 0);
    assert_eq!(csrs.sstatus, 0x6000);
    assert_eq!(ctx.guest_regs.sepc, 0x8020_0000);
}

#[test]
fn hstatus_bits_survive_exits() {
    let mut ctx = booted();
    let h = ctx.guest_regs.hstatus;
    ctx.trap_csrs.scause = SCAUSE_ILLEGAL;
    ctx.trap_csrs.stval = 0xf14025f3;
    vmexit_handler(&mut ctx, FaultPolicy::StaticBacking).unwrap();
    assert_eq!(ctx.guest_regs.hstatus, h);
}

#[test]
fn hgatp_encoding() {
    assert_eq!(hgatp_value(0x8000_0000), 0x8000_0000_0008_0000);
    assert_eq!(hgatp_value(0x8123_4fff), 0x8000_0000_0008_1234);
    assert_eq!(hgatp_value(0), 8 << 60);
}

#[test]
fn pgtable_setup_reads_back() {
    let mut csrs = HypervisorCsrs::new(0, 0);
    prepare_vm_pgtable(&mut csrs, 0x8040_0000);
    assert_eq!(csrs.read_hgatp(), 0x8000_0000_0008_0400);
    assert!(!csrs.gstage_tlb_stale);
    let once = csrs;
    prepare_vm_pgtable(&mut csrs, 0x8040_0000);
    assert_eq!(csrs, once);
    csrs.write_hgatp(5);
    assert!(csrs.gstage_tlb_stale);
    csrs.hfence_gvma_all();
    assert_eq!(csrs.read_hgatp(), 5);
}

#[test]
fn boot_then_reset_on_first_exit() {
    let mut ctx = booted();
    // The guest's first instructions load the handshake and call SRST.
    ecall(&mut ctx, EID_SRST, 0, 0x6688, 0x1234);
    let mut exits = 0;
    let outcome = loop {
        exits += 1;
        match vmexit_handler(&mut ctx, FaultPolicy::StaticBacking) {
            Ok(ExitAction::Resume) => continue,
            other => break other,
        }
    };
    assert_eq!(outcome, Ok(ExitAction::Shutdown));
    assert_eq!(exits, 1);
}

/// A guest that reads `mhartid` into a1, loads from address 0x40 into a0,
/// and calls SRST with what it read: the exits it makes, in order.
fn next_exit(ctx: &mut VmCpuRegisters) {
    match ctx.guest_regs.sepc - VM_ENTRY {
        0 => {
            ctx.trap_csrs.scause = SCAUSE_ILLEGAL;
            ctx.trap_csrs.stval = 0xf14025f3;
        }
        4 => {
            ctx.trap_csrs.scause = SCAUSE_LOAD_GPF;
            ctx.trap_csrs.stval = 0x40;
            ctx.trap_csrs.htval = 0x10;
        }
        _ => {
            ctx.guest_regs.gprs.set_reg(GprIndex::A7, EID_SRST);
            ctx.guest_regs.gprs.set_reg(GprIndex::A6, 0);
            ctx.trap_csrs.scause = SCAUSE_VS_ECALL;
        }
    }
}

#[test]
fn synthesized_values_reach_the_reset_call() {
    let mut ctx = booted();
    let mut exits = 0;
    let outcome = loop {
        next_exit(&mut ctx);
        exits += 1;
        match vmexit_handler(&mut ctx, FaultPolicy::StaticBacking) {
            Ok(ExitAction::Resume) => continue,
            other => break other,
        }
    };
    assert_eq!(outcome, Ok(ExitAction::Shutdown));
    assert_eq!(exits, 3);
    assert_eq!(ctx.guest_regs.gprs.reg(GprIndex::A0), 0x6688);
    assert_eq!(ctx.guest_regs.gprs.reg(GprIndex::A1), 0x1234);
}

#[test]
fn register_file() {
    let mut ctx = VmCpuRegisters::new();
    ctx.guest_regs.gprs.set_reg(GprIndex::Zero, 9);
    assert_eq!(ctx.guest_regs.gprs.reg(GprIndex::Zero), 0);
    ctx.guest_regs.gprs.set_reg(GprIndex::T6, 9);
    assert_eq!(ctx.guest_regs.gprs.reg(GprIndex::T6), 9);
    ctx.guest_regs.gprs.set_reg(GprIndex::A3, 3);
    let a = ctx.guest_regs.gprs.a_regs();
    assert_eq!(a, [0, 0, 0, 3, 0, 0, 0, 0]);
    assert_eq!(GprIndex::from_raw(11), Some(GprIndex::A1));
    assert_eq!(GprIndex::from_raw(32), None);
    assert_eq!(GprIndex::A7.num(), 17);
}
