//! DOS version information and real-mode address arithmetic.
use vstd::prelude::*;

verus! {

/// The DOS version and flags that the version call returns.
#[derive(Clone, Copy, Debug, Default, PartialEq, Eq, Structural)]
pub struct VersionInfo {
    pub major: u8,
    pub minor: u8,
    pub flags: u8,
}

/// Flag bit set when DOS runs from ROM.
pub const VERSION_IN_ROM: u8 = 0b0000_0100;

impl VersionInfo {
    pub fn new(major: u8, minor: u8, flags: u8) -> (r: VersionInfo)
        ensures
            r == (VersionInfo { major, minor, flags }),
    {
        VersionInfo { major, minor, flags }
    }

    /// Whether DOS runs from ROM; only versions before 5 report it.
    pub fn in_rom(&self) -> (r: bool)
        ensures
            r == (self.major < 5 && self.flags & VERSION_IN_ROM != 0),
    {
        self.major < 5 && self.flags & VERSION_IN_ROM != 0
    }
}

/// Splits a linear address into a 16-byte paragraph number (kept to 16
/// bits) and the offset inside the paragraph.
pub fn ptr_to_segments(value: u32) -> (r: (u16, u16))
    ensures
        r.0 == (value / 16) % 65536,
        r.1 == value % 16,
{
    let segment = (value / 16) % 65536;
    let offset = value % 16;
    (segment as u16, offset as u16)
}

} // verus!
