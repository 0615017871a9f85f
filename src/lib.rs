//! Guest execution and VM-exit handling for a RISC-V hypervisor with the
//! H extension, together with the bump allocator used before the real
//! allocators come up.

pub mod csrs;
pub mod early_alloc;
pub mod exit;
pub mod hash_state;
pub mod regs;
pub mod sbi;
pub mod vcpu;

