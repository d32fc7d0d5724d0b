//! Values exchanged with the video BIOS: mode numbers, VESA mode words and
//! status codes, and DAC palette colours.
use vstd::prelude::*;

verus! {

/// Video modes that the BIOS mode-set call accepts.
#[derive(Clone, Copy, Debug, PartialEq, Eq, Structural)]
pub enum VideoMode {
    /// Text 40x25, 16 shades of grey.
    Text40_25B,
    /// Text 40x25, 16 colours.
    Text40_25C,
    /// Text 80x25, 16 shades of grey.
    Text80_25B,
    /// Text 80x25, 16 colours.
    Text80_25C,
    /// Graphics 320x200, 4 colours.
    Graphics320_200C2,
    /// Graphics 320x200, 4 shades of grey.
    Graphics320_200B,
    /// Graphics 640x200, 2 shades of grey.
    Graphics640_200B,
    /// Text 80x25, 2 shades of grey (MDA).
    Text20x25B2,
    /// Graphics 640x480, 16 colours (VGA).
    Graphics640x480C4,
    /// Graphics 320x200, 16 colours.
    Graphics320_200C4,
    /// Graphics 320x200, 256 colours (VGA).
    Graphics320_200C8,
}

impl VideoMode {
    pub open spec fn spec_code(self) -> u8 {
        match self {
            VideoMode::Text40_25B => 0x00,
            VideoMode::Text40_25C => 0x01,
            VideoMode::Text80_25B => 0x02,
            VideoMode::Text80_25C => 0x03,
            VideoMode::Graphics320_200C2 => 0x04,
            VideoMode::Graphics320_200B => 0x05,
            VideoMode::Graphics640_200B => 0x06,
            VideoMode::Text20x25B2 => 0x07,
            VideoMode::Graphics640x480C4 => 0x12,
            VideoMode::Graphics320_200C4 => 0x0d,
            VideoMode::Graphics320_200C8 => 0x13,
        }
    }

    /// The mode number passed to the BIOS in AL.
    pub fn code(&self) -> (r: u8)
        ensures
            r == self.spec_code(),
    {
        match self {
            VideoMode::Text40_25B => 0x00,
            VideoMode::Text40_25C => 0x01,
            VideoMode::Text80_25B => 0x02,
            VideoMode::Text80_25C => 0x03,
            VideoMode::Graphics320_200C2 => 0x04,
            VideoMode::Graphics320_200B => 0x05,
            VideoMode::Graphics640_200B => 0x06,
            VideoMode::Text20x25B2 => 0x07,
            VideoMode::Graphics640x480C4 => 0x12,
            VideoMode::Graphics320_200C4 => 0x0d,
            VideoMode::Graphics320_200C8 => 0x13,
        }
    }
}

/// Bit 11 of a VESA mode word: use a custom refresh rate.
pub const VESA_CUSTOM_REFRESH: u16 = 0x0800;

/// Bit 14 of a VESA mode word: linear frame buffer.
pub const VESA_LINEAR_MEMORY: u16 = 0x4000;

/// Bit 15 of a VESA mode word: keep the display memory.
pub const VESA_PRESERVE_BUFFERS: u16 = 0x8000;

/// Bits of a VESA mode word that hold the mode number.
pub const VESA_MODE_MASK: u16 = 0x01FF;

/// A VESA mode word: a mode number and option bits.
pub struct VesaMode {
    mode: u16,
}

impl View for VesaMode {
    type V = u16;

    closed spec fn view(&self) -> u16 {
        self.mode
    }
}

impl VesaMode {
    /// The mode word for mode number `mode` (its low nine bits) with the
    /// chosen option bits set.
    pub fn new(mode: u16, custom_refresh_rate: bool, linear_memory: bool, preserve_buffers: bool) -> (r: VesaMode)
        ensures
            r@ == (mode & VESA_MODE_MASK) | (if custom_refresh_rate { VESA_CUSTOM_REFRESH } else { 0 }) | (
            if linear_memory { VESA_LINEAR_MEMORY } else { 0 }) | (if preserve_buffers {
                VESA_PRESERVE_BUFFERS
            } else {
                0
            }),
    {
        let mut value = VesaMode { mode: 0 };
        value.set_mode(mode);
        proof {
            assert(0u16 | (mode & VESA_MODE_MASK) == mode & VESA_MODE_MASK) by (bit_vector);
        }
        if custom_refresh_rate {
            value.mode = value.mode | VESA_CUSTOM_REFRESH;
        }
        if linear_memory {
            value.mode = value.mode | VESA_LINEAR_MEMORY;
        }
        if preserve_buffers {
            value.mode = value.mode | VESA_PRESERVE_BUFFERS;
        }
        proof {
            assert(forall|a: u16| #[trigger] (a | 0u16) == a) by (bit_vector);
        }
        value
    }

    /// Adds the mode number `mode` (its low nine bits) to the mode word.
    pub fn set_mode(&mut self, mode: u16)
        ensures
            final(self)@ == old(self)@ | (mode & VESA_MODE_MASK),
    {
        self.mode = self.mode | (mode & VESA_MODE_MASK);
    }

    /// The mode word passed to the BIOS in BX.
    pub fn bits(&self) -> (r: u16)
        ensures
            r == self@,
    {
        self.mode
    }
}

/// Status that a VESA BIOS call returns in AX.
#[derive(Clone, Copy, Debug, PartialEq, Eq, Structural)]
pub enum VesaReturnStatus {
    /// Function is supported (0x4f).
    Supported,
    /// Function call successful (0x00).
    Successful,
    /// Function call failed (0x01).
    Failed,
    /// Function not supported in the current mode (0x02).
    ModeFailure,
    /// Function call invalid in the current mode (0x03).
    ModeInvalid,
    /// Any other code.
    Unknown,
}

pub open spec fn vesa_status_of(value: u16) -> VesaReturnStatus {
    if value == 0x4f {
        VesaReturnStatus::Supported
    } else if value == 0x00 {
        VesaReturnStatus::Successful
    } else if value == 0x01 {
        VesaReturnStatus::Failed
    } else if value == 0x02 {
        VesaReturnStatus::ModeFailure
    } else if value == 0x03 {
        VesaReturnStatus::ModeInvalid
    } else {
        VesaReturnStatus::Unknown
    }
}

impl From<u16> for VesaReturnStatus {
    fn from(value: u16) -> (r: Self) {
        match value {
            0x4f => VesaReturnStatus::Supported,
            0x00 => VesaReturnStatus::Successful,
            0x01 => VesaReturnStatus::Failed,
            0x02 => VesaReturnStatus::ModeFailure,
            0x03 => VesaReturnStatus::ModeInvalid,
            _ => VesaReturnStatus::Unknown,
        }
    }
}

impl vstd::std_specs::convert::FromSpecImpl<u16> for VesaReturnStatus {
    open spec fn obeys_from_spec() -> bool {
        true
    }

    open spec fn from_spec(v: u16) -> VesaReturnStatus {
        vesa_status_of(v)
    }
}

/// The outcome of a VESA mode-set call from the AX it returned: success
/// when the function reports itself supported, else the status.
pub fn vesa_outcome(result: u16) -> (r: Result<(), VesaReturnStatus>)
    ensures
        result == 0x4f ==> r is Ok,
        result != 0x4f ==> r == Err::<(), VesaReturnStatus>(vesa_status_of(result)),
{
    if result == 0x4f {
        return Ok(());
    }
    Err(VesaReturnStatus::from(result))
}

/// Which CGA colour register a palette call sets.
#[derive(Clone, Copy, Debug, PartialEq, Eq, Structural)]
pub enum ColorTarget {
    Background,
    Palette,
}

impl ColorTarget {
    /// The selector passed to the BIOS in BH.
    pub fn code(&self) -> (r: u8)
        ensures
            r == (if *self == ColorTarget::Background { 0u8 } else { 1u8 }),
    {
        match self {
            ColorTarget::Background => 0,
            ColorTarget::Palette => 1,
        }
    }
}

/// One VGA DAC register: 6-bit red, green and blue.
#[derive(Clone, Copy, Debug, PartialEq, Eq, Structural)]
pub struct VgaDacColour {
    pub red: u8,
    pub green: u8,
    pub blue: u8,
}

} // verus!
