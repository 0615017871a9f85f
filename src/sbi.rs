//! Decoding of SBI calls made by the guest. The extension id is in `a7`, the
//! function id in `a6`, and the arguments from `a0` on.
use vstd::prelude::*;

verus! {

/// Legacy console putchar extension.
pub const EID_LEGACY_PUTCHAR: u64 = 0x01;

/// Base extension.
pub const EID_BASE: u64 = 0x10;

/// Timer extension ("TIME").
pub const EID_TIME: u64 = 0x5449_4D45;

/// System reset extension ("SRST").
pub const EID_SRST: u64 = 0x5352_5354;

/// Function of the system reset extension that resets the system.
pub const FID_SYSTEM_RESET: u64 = 0;

/// Function of the timer extension that programs the next timer event.
pub const FID_SET_TIMER: u64 = 0;

/// Number of argument registers, `a0` to `a7`.
pub const SBI_ARG_REGS: usize = 8;

/// Functions of the base extension.
#[derive(Clone, Copy, Debug, PartialEq, Eq, Structural)]
pub enum BaseFunction {
    GetSpecificationVersion,
    GetImplementationId,
    GetImplementationVersion,
    ProbeSbiExtension(u64),
    GetMachineVendorId,
    GetMachineArchitectureId,
    GetMachineImplementationId,
}

/// Functions of the system reset extension: the reset type from `a0` and
/// the reason from `a1`, as the guest passed them.
#[derive(Clone, Copy, Debug, PartialEq, Eq, Structural)]
pub enum ResetFunction {
    Reset { reset_type: u64, reason: u64 },
}

/// A decoded SBI call.
#[derive(Clone, Copy, Debug, PartialEq, Eq, Structural)]
pub enum SbiMessage {
    Base(BaseFunction),
    PutChar(u64),
    SetTimer(u64),
    Reset(ResetFunction),
}

/// Why an SBI call could not be decoded.
#[derive(Clone, Copy, Debug, PartialEq, Eq, Structural)]
pub enum SbiError {
    /// The extension id is not one that is known.
    NotSupported,
    /// The extension is known, the function id is not.
    InvalidParam,
}

/// The base-extension function with id `fid`, whose argument is `a0`.
pub open spec fn base_function_of(fid: u64, a0: u64) -> Result<BaseFunction, SbiError> {
    if fid == 0 {
        Ok(BaseFunction::GetSpecificationVersion)
    } else if fid == 1 {
        Ok(BaseFunction::GetImplementationId)
    } else if fid == 2 {
        Ok(BaseFunction::GetImplementationVersion)
    } else if fid == 3 {
        Ok(BaseFunction::ProbeSbiExtension(a0))
    } else if fid == 4 {
        Ok(BaseFunction::GetMachineVendorId)
    } else if fid == 5 {
        Ok(BaseFunction::GetMachineArchitectureId)
    } else if fid == 6 {
        Ok(BaseFunction::GetMachineImplementationId)
    } else {
        Err(SbiError::InvalidParam)
    }
}

/// The call that the argument registers `a0..=a7` describe.
pub open spec fn sbi_message_of(args: Seq<u64>) -> Result<SbiMessage, SbiError> {
    let eid = args[7];
    let fid = args[6];
    if eid == EID_LEGACY_PUTCHAR {
        Ok(SbiMessage::PutChar(args[0]))
    } else if eid == EID_BASE {
        match base_function_of(fid, args[0]) {
            Ok(f) => Ok(SbiMessage::Base(f)),
            Err(e) => Err(e),
        }
    } else if eid == EID_TIME {
        if fid == FID_SET_TIMER {
            Ok(SbiMessage::SetTimer(args[0]))
        } else {
            Err(SbiError::InvalidParam)
        }
    } else if eid == EID_SRST {
        if fid == FID_SYSTEM_RESET {
            Ok(SbiMessage::Reset(ResetFunction::Reset { reset_type: args[0], reason: args[1] }))
        } else {
            Err(SbiError::InvalidParam)
        }
    } else {
        Err(SbiError::NotSupported)
    }
}

impl BaseFunction {
    /// Decodes a base-extension call.
    pub fn from_regs(fid: u64, a0: u64) -> (r: Result<BaseFunction, SbiError>)
        ensures
            r == base_function_of(fid, a0),
    {
        match fid {
            0 => Ok(BaseFunction::GetSpecificationVersion),
            1 => Ok(BaseFunction::GetImplementationId),
            2 => Ok(BaseFunction::GetImplementationVersion),
            3 => Ok(BaseFunction::ProbeSbiExtension(a0)),
            4 => Ok(BaseFunction::GetMachineVendorId),
            5 => Ok(BaseFunction::GetMachineArchitectureId),
            6 => Ok(BaseFunction::GetMachineImplementationId),
            _ => Err(SbiError::InvalidParam),
        }
    }
}

impl SbiMessage {
    /// Decodes the call held in the argument registers `a0..=a7`.
    pub fn from_regs(args: &[u64]) -> (r: Result<SbiMessage, SbiError>)
        requires
            args@.len() == SBI_ARG_REGS,
        ensures
            r == sbi_message_of(args@),
    {
        let eid = args[7];
        let fid = args[6];
        if eid == EID_LEGACY_PUTCHAR {
            Ok(SbiMessage::PutChar(args[0]))
        } else if eid == EID_BASE {
            match BaseFunction::from_regs(fid, args[0]) {
                Ok(f) => Ok(SbiMessage::Base(f)),
                Err(e) => Err(e),
            }
        } else if eid == EID_TIME {
            if fid == FID_SET_TIMER {
                Ok(SbiMessage::SetTimer(args[0]))
            } else {
                Err(SbiError::InvalidParam)
            }
        } else if eid == EID_SRST {
            if fid == FID_SYSTEM_RESET {
                Ok(SbiMessage::Reset(ResetFunction::Reset { reset_type: args[0], reason: args[1] }))
            } else {
                Err(SbiError::InvalidParam)
            }
        } else {
            Err(SbiError::NotSupported)
        }
    }
}

} // verus!
