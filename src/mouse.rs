//! Requests for the mouse driver (interrupt 0x33) and decoding of its replies.
use vstd::prelude::*;

verus! {

/// One call of the mouse driver: the function number in AX and the
/// arguments in CX and DX.
#[derive(Clone, Copy, Debug, PartialEq, Eq, Structural)]
pub struct MouseCall {
    pub function: u16,
    pub cx: u16,
    pub dx: u16,
}

/// The button configuration the driver reports on reset.
#[derive(Clone, Copy, Debug, PartialEq, Eq, Structural)]
pub enum MouseButtons {
    /// BX = 0xFFFF
    Two,
    /// BX = 0x0000
    NotTwo,
    /// BX = 0x0003
    Logitech,
    /// Any other value.
    Unknown,
}

/// Button state bits: left, right, centre.
#[derive(Clone, Copy, Debug, Default, PartialEq, Eq, Structural)]
pub struct Buttons {
    bits: u16,
}

/// The left button's bit.
pub const BUTTON_LEFT: u16 = 1;

/// The right button's bit.
pub const BUTTON_RIGHT: u16 = 2;

/// The centre button's bit.
pub const BUTTON_CENTER: u16 = 4;

impl View for Buttons {
    type V = u16;

    closed spec fn view(&self) -> u16 {
        self.bits
    }
}

impl Buttons {
    /// The button bits of `bits` (the BX the driver returned); others dropped.
    pub fn from_bits_truncate(bits: u16) -> (r: Buttons)
        ensures
            r@ == bits & 7,
    {
        Buttons { bits: bits & 7 }
    }

    pub fn bits(&self) -> (r: u16)
        ensures
            r == self@,
    {
        self.bits
    }

    /// Whether every button of `mask` is down.
    pub fn contains(&self, mask: u16) -> (r: bool)
        ensures
            r == (self@ & mask == mask),
    {
        self.bits & mask == mask
    }
}

/// The mouse driver.
pub struct Mouse {}

impl Mouse {
    /// The outcome of a driver reset from the AX and BX it returned: AX = 0
    /// means no driver is installed.
    pub fn initialize_outcome(status: u16, buttons: u16) -> (r: Result<MouseButtons, ()>)
        ensures
            status == 0 ==> r is Err,
            status != 0 ==> r == Ok::<MouseButtons, ()>(
                if buttons == 0xffff {
                    MouseButtons::Two
                } else if buttons == 0 {
                    MouseButtons::NotTwo
                } else if buttons == 3 {
                    MouseButtons::Logitech
                } else {
                    MouseButtons::Unknown
                },
            ),
    {
        if status == 0 {
            return Err(());
        }
        Ok(match buttons {
            0xffff => MouseButtons::Two,
            0x0000 => MouseButtons::NotTwo,
            0x0003 => MouseButtons::Logitech,
            _ => MouseButtons::Unknown,
        })
    }

    /// Show the mouse cursor (function 1).
    pub fn cursor_show() -> (r: MouseCall)
        ensures
            r == (MouseCall { function: 0x0001, cx: 0, dx: 0 }),
    {
        MouseCall { function: 0x0001, cx: 0, dx: 0 }
    }

    /// Hide the mouse cursor (function 2).
    pub fn cursor_hide() -> (r: MouseCall)
        ensures
            r == (MouseCall { function: 0x0002, cx: 0, dx: 0 }),
    {
        MouseCall { function: 0x0002, cx: 0, dx: 0 }
    }

    /// Move the cursor to (`x`, `y`) (function 4).
    pub fn set_position(x: u16, y: u16) -> (r: MouseCall)
        ensures
            r == (MouseCall { function: 0x0004, cx: x, dx: y }),
    {
        MouseCall { function: 0x0004, cx: x, dx: y }
    }

    /// Limit the cursor's horizontal range (function 7).
    pub fn set_range_horizontal(x_min: u16, x_max: u16) -> (r: MouseCall)
        ensures
            r == (MouseCall { function: 0x0007, cx: x_min, dx: x_max }),
    {
        MouseCall { function: 0x0007, cx: x_min, dx: x_max }
    }

    /// Limit the cursor's vertical range (function 8).
    pub fn set_range_vertical(y_min: u16, y_max: u16) -> (r: MouseCall)
        ensures
            r == (MouseCall { function: 0x0008, cx: y_min, dx: y_max }),
    {
        MouseCall { function: 0x0008, cx: y_min, dx: y_max }
    }
}

} // verus!
