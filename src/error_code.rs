//! DOS error codes, as returned in AX when a call sets the carry flag.
use vstd::prelude::*;

verus! {

#[derive(Clone, Copy, Debug, PartialEq, Eq, Structural)]
pub enum ErrorCode {
    /// 0x01
    InvalidFunction,
    /// 0x02
    FileNotFound,
    /// 0x03
    PathNotFound,
    /// 0x04
    TooManyOpenFiles,
    /// 0x05
    AccessDenied,
    /// 0x06
    InvalidHandle,
    /// 0x07
    MemoryControlBlocksDestroyed,
    /// 0x08
    InsufficientMemory,
    /// 0x09
    InvalidMemoryBlockAddress,
    /// 0x0A
    InvalidEnvironment,
    /// 0x0B
    InvalidFormat,
    /// 0x0C
    InvalidAccessMode,
    /// 0x0D
    InvalidData,
    /// 0x0F
    InvalidDrive,
    /// 0x10
    RemoveCurrentDirectory,
    /// 0x11
    NotSameDevice,
    /// 0x12
    NoMoreFiles,
    /// 0x57
    InvalidParameter,
    /// A code this library does not know.
    UnknownError,
}

/// The error that DOS code `code` stands for, if it is one of the known codes.
pub open spec fn error_of(code: u8) -> Option<ErrorCode> {
    if code == 0x01 {
        Some(ErrorCode::InvalidFunction)
    } else if code == 0x02 {
        Some(ErrorCode::FileNotFound)
    } else if code == 0x03 {
        Some(ErrorCode::PathNotFound)
    } else if code == 0x04 {
        Some(ErrorCode::TooManyOpenFiles)
    } else if code == 0x05 {
        Some(ErrorCode::AccessDenied)
    } else if code == 0x06 {
        Some(ErrorCode::InvalidHandle)
    } else if code == 0x07 {
        Some(ErrorCode::MemoryControlBlocksDestroyed)
    } else if code == 0x08 {
        Some(ErrorCode::InsufficientMemory)
    } else if code == 0x09 {
        Some(ErrorCode::InvalidMemoryBlockAddress)
    } else if code == 0x0A {
        Some(ErrorCode::InvalidEnvironment)
    } else if code == 0x0B {
        Some(ErrorCode::InvalidFormat)
    } else if code == 0x0C {
        Some(ErrorCode::InvalidAccessMode)
    } else if code == 0x0D {
        Some(ErrorCode::InvalidData)
    } else if code == 0x0F {
        Some(ErrorCode::InvalidDrive)
    } else if code == 0x10 {
        Some(ErrorCode::RemoveCurrentDirectory)
    } else if code == 0x11 {
        Some(ErrorCode::NotSameDevice)
    } else if code == 0x12 {
        Some(ErrorCode::NoMoreFiles)
    } else if code == 0x57 {
        Some(ErrorCode::InvalidParameter)
    } else {
        None
    }
}

impl ErrorCode {
    /// The error for DOS code `code`, or `None` for an unknown code.
    pub fn from_u8(code: u8) -> (r: Option<ErrorCode>)
        ensures
            r == error_of(code),
    {
        match code {
            0x01 => Some(ErrorCode::InvalidFunction),
            0x02 => Some(ErrorCode::FileNotFound),
            0x03 => Some(ErrorCode::PathNotFound),
            0x04 => Some(ErrorCode::TooManyOpenFiles),
            0x05 => Some(ErrorCode::AccessDenied),
            0x06 => Some(ErrorCode::InvalidHandle),
            0x07 => Some(ErrorCode::MemoryControlBlocksDestroyed),
            0x08 => Some(ErrorCode::InsufficientMemory),
            0x09 => Some(ErrorCode::InvalidMemoryBlockAddress),
            0x0A => Some(ErrorCode::InvalidEnvironment),
            0x0B => Some(ErrorCode::InvalidFormat),
            0x0C => Some(ErrorCode::InvalidAccessMode),
            0x0D => Some(ErrorCode::InvalidData),
            0x0F => Some(ErrorCode::InvalidDrive),
            0x10 => Some(ErrorCode::RemoveCurrentDirectory),
            0x11 => Some(ErrorCode::NotSameDevice),
            0x12 => Some(ErrorCode::NoMoreFiles),
            0x57 => Some(ErrorCode::InvalidParameter),
            _ => None,
        }
    }

    /// The error for a code DOS returned, `UnknownError` when it is not known.
    pub fn from_dos(code: u8) -> (r: ErrorCode)
        ensures
            r == (match error_of(code) {
                Some(e) => e,
                None => ErrorCode::UnknownError,
            }),
    {
        match ErrorCode::from_u8(code) {
            Some(e) => e,
            None => ErrorCode::UnknownError,
        }
    }
}

/// The result of a DOS call from its carry flag and the AX and CX it
/// returned: on carry, the error whose code is the low byte of AX; else the
/// two registers.
pub fn call_outcome(carry: bool, ax: u16, cx: u16) -> (r: Result<(u16, u16), ErrorCode>)
    ensures
        !carry ==> r == Ok::<(u16, u16), ErrorCode>((ax, cx)),
        carry ==> r == Err::<(u16, u16), ErrorCode>(match error_of((ax % 256) as u8) {
            Some(e) => e,
            None => ErrorCode::UnknownError,
        }),
{
    if carry {
        return Err(ErrorCode::from_dos((ax % 256) as u8));
    }
    Ok((ax, cx))
}

} // verus!
