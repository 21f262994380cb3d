//! The device's error flags, and the best-effort check that drains them.
//!
//! A pending flag is information for a log, never a reason to stop: nothing
//! here can reach the state of the render loop.

use vstd::prelude::*;
use crate::device::Reply;

verus! {

/// The flag that reports that no error is pending.
pub const NO_ERROR: u32 = 0;

pub const INVALID_ENUM: u32 = 0x0500;

pub const INVALID_VALUE: u32 = 0x0501;

pub const INVALID_OPERATION: u32 = 0x0502;

pub const STACK_OVERFLOW: u32 = 0x0503;

pub const STACK_UNDERFLOW: u32 = 0x0504;

pub const OUT_OF_MEMORY: u32 = 0x0505;

pub const INVALID_FRAMEBUFFER_OPERATION: u32 = 0x0506;

/// An error the device has flagged.
#[derive(Clone, Copy, Debug, PartialEq, Eq, Structural)]
pub enum DeviceFault {
    InvalidEnum,
    InvalidValue,
    InvalidOperation,
    InvalidFramebufferOperation,
    OutOfMemory,
    StackUnderflow,
    StackOverflow,
    /// A flag this crate has no name for.
    Unknown(u32),
}

/// The fault that an error flag stands for; none for [`NO_ERROR`].
pub open spec fn fault_of(code: u32) -> Option<DeviceFault> {
    if code == NO_ERROR {
        None
    } else if code == INVALID_ENUM {
        Some(DeviceFault::InvalidEnum)
    } else if code == INVALID_VALUE {
        Some(DeviceFault::InvalidValue)
    } else if code == INVALID_OPERATION {
        Some(DeviceFault::InvalidOperation)
    } else if code == INVALID_FRAMEBUFFER_OPERATION {
        Some(DeviceFault::InvalidFramebufferOperation)
    } else if code == OUT_OF_MEMORY {
        Some(DeviceFault::OutOfMemory)
    } else if code == STACK_UNDERFLOW {
        Some(DeviceFault::StackUnderflow)
    } else if code == STACK_OVERFLOW {
        Some(DeviceFault::StackOverflow)
    } else {
        Some(DeviceFault::Unknown(code))
    }
}

impl DeviceFault {
    /// The flag with which the device reports the fault.
    pub open spec fn flag(self) -> u32 {
        match self {
            DeviceFault::InvalidEnum => INVALID_ENUM,
            DeviceFault::InvalidValue => INVALID_VALUE,
            DeviceFault::InvalidOperation => INVALID_OPERATION,
            DeviceFault::InvalidFramebufferOperation => INVALID_FRAMEBUFFER_OPERATION,
            DeviceFault::OutOfMemory => OUT_OF_MEMORY,
            DeviceFault::StackUnderflow => STACK_UNDERFLOW,
            DeviceFault::StackOverflow => STACK_OVERFLOW,
            DeviceFault::Unknown(code) => code,
        }
    }

    /// The name under which the fault is logged.
    pub open spec fn label(self) -> Seq<char> {
        match self {
            DeviceFault::InvalidEnum => "GL_INVALID_ENUM"@,
            DeviceFault::InvalidValue => "GL_INVALID_VALUE"@,
            DeviceFault::InvalidOperation => "GL_INVALID_OPERATION"@,
            DeviceFault::InvalidFramebufferOperation => "GL_INVALID_FRAMEBUFFER_OPERATION"@,
            DeviceFault::OutOfMemory => "GL_OUT_OF_MEMORY"@,
            DeviceFault::StackUnderflow => "GL_STACK_UNDERFLOW"@,
            DeviceFault::StackOverflow => "GL_STACK_OVERFLOW"@,
            DeviceFault::Unknown(_) => "unknown error"@,
        }
    }

    /// The flag with which the device reports the fault.
    pub fn code(&self) -> (code: u32)
        ensures
            code == self.flag(),
    {
        match self {
            DeviceFault::InvalidEnum => INVALID_ENUM,
            DeviceFault::InvalidValue => INVALID_VALUE,
            DeviceFault::InvalidOperation => INVALID_OPERATION,
            DeviceFault::InvalidFramebufferOperation => INVALID_FRAMEBUFFER_OPERATION,
            DeviceFault::OutOfMemory => OUT_OF_MEMORY,
            DeviceFault::StackUnderflow => STACK_UNDERFLOW,
            DeviceFault::StackOverflow => STACK_OVERFLOW,
            DeviceFault::Unknown(code) => *code,
        }
    }

    /// The name under which the fault is logged.
    pub fn name(&self) -> (name: &'static str)
        ensures
            name@ == self.label(),
    {
        match self {
            DeviceFault::InvalidEnum => "GL_INVALID_ENUM",
            DeviceFault::InvalidValue => "GL_INVALID_VALUE",
            DeviceFault::InvalidOperation => "GL_INVALID_OPERATION",
            DeviceFault::InvalidFramebufferOperation => "GL_INVALID_FRAMEBUFFER_OPERATION",
            DeviceFault::OutOfMemory => "GL_OUT_OF_MEMORY",
            DeviceFault::StackUnderflow => "GL_STACK_UNDERFLOW",
            DeviceFault::StackOverflow => "GL_STACK_OVERFLOW",
            DeviceFault::Unknown(_) => "unknown error",
        }
    }
}

/// Reads the device's answer to one query of its error flags.
///
/// A fault is to be logged and the device queried again; `None` means that
/// no flag is pending and the check is over. A reply that carries no flag
/// ends the check as well.
pub fn check_error(reply: &Reply) -> (fault: Option<DeviceFault>)
    ensures
        fault == fault_of(reply@.code()),
        fault is None <==> reply@.code() == NO_ERROR,
{
    let code = reply.code();
    if code == NO_ERROR {
        None
    } else if code == INVALID_ENUM {
        Some(DeviceFault::InvalidEnum)
    } else if code == INVALID_VALUE {
        Some(DeviceFault::InvalidValue)
    } else if code == INVALID_OPERATION {
        Some(DeviceFault::InvalidOperation)
    } else if code == INVALID_FRAMEBUFFER_OPERATION {
        Some(DeviceFault::InvalidFramebufferOperation)
    } else if code == OUT_OF_MEMORY {
        Some(DeviceFault::OutOfMemory)
    } else if code == STACK_UNDERFLOW {
        Some(DeviceFault::StackUnderflow)
    } else if code == STACK_OVERFLOW {
        Some(DeviceFault::StackOverflow)
    } else {
        Some(DeviceFault::Unknown(code))
    }
}

/// The name under which an error flag is logged: that of its fault, and
/// `NO_ERROR` for the flag that reports none.
pub fn error_name(code: u32) -> (name: &'static str)
    ensures
        name@ == match fault_of(code) {
            Some(fault) => fault.label(),
            None => "NO_ERROR"@,
        },
{
    match check_error(&Reply::Code(code)) {
        Some(fault) => fault.name(),
        None => "NO_ERROR",
    }
}

/// The faults that a check logs when the device answers its queries with
/// `codes`, in order: those before the first [`NO_ERROR`].
pub open spec fn logged(codes: Seq<u32>) -> Seq<DeviceFault>
    decreases codes.len(),
{
    if codes.len() == 0 {
        Seq::empty()
    } else {
        match fault_of(codes.first()) {
            Some(fault) => seq![fault] + logged(codes.drop_first()),
            None => Seq::empty(),
        }
    }
}

/// A fault keeps the flag it was read from, and only [`NO_ERROR`] reads as
/// no fault.
pub proof fn fault_keeps_its_flag(code: u32)
    ensures
        fault_of(code) matches Some(fault) ==> fault.flag() == code,
        fault_of(code) is None <==> code == NO_ERROR,
{
}

/// The check logs every flag that is pending when it starts: as many faults
/// as there are flags before the first [`NO_ERROR`], each with its own flag.
pub proof fn check_drains_every_flag(codes: Seq<u32>, pending: int)
    requires
        0 <= pending <= codes.len(),
        forall|i: int| 0 <= i < pending ==> #[trigger] codes[i] != NO_ERROR,
        pending < codes.len() ==> codes[pending] == NO_ERROR,
    ensures
        logged(codes).len() == pending,
        forall|i: int| 0 <= i < pending ==> (#[trigger] logged(codes)[i]).flag() == codes[i],
    decreases codes.len(),
{
    if codes.len() > 0 && pending > 0 {
        let rest = codes.drop_first();
        check_drains_every_flag(rest, pending - 1);
        fault_keeps_its_flag(codes[0]);
    }
}

} // verus!
