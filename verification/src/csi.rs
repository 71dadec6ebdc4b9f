//! ANSI color-code enumerations for building escape sequences.

use vstd::prelude::*;

use crate::vga::Color16;

verus! {

/// ANSI SGR foreground color codes.
#[derive(Clone, Copy, Debug, PartialEq, Eq, Structural)]
pub enum ColorFg {
    Reset,
    Black,
    Blue,
    Green,
    Cyan,
    Red,
    Magenta,
    Brown,
    LightGray,
    DarkGray,
    LightBlue,
    LightGreen,
    LightCyan,
    LightRed,
    Pink,
    Yellow,
    White,
}

/// ANSI SGR background color codes: the foreground codes shifted by ten.
#[derive(Clone, Copy, Debug, PartialEq, Eq, Structural)]
pub enum ColorBg {
    Reset,
    Black,
    Blue,
    Green,
    Cyan,
    Red,
    Magenta,
    Brown,
    LightGray,
    DarkGray,
    LightBlue,
    LightGreen,
    LightCyan,
    LightRed,
    Pink,
    Yellow,
    White,
}

impl ColorFg {
    /// The numeric SGR code of the variant.
    pub open spec fn spec_code(self) -> u8 {
        match self {
            ColorFg::Reset => 0,
            ColorFg::Black => 30,
            ColorFg::Blue => 31,
            ColorFg::Green => 32,
            ColorFg::Cyan => 33,
            ColorFg::Red => 34,
            ColorFg::Magenta => 35,
            ColorFg::Brown => 36,
            ColorFg::LightGray => 37,
            ColorFg::DarkGray => 90,
            ColorFg::LightBlue => 91,
            ColorFg::LightGreen => 92,
            ColorFg::LightCyan => 93,
            ColorFg::LightRed => 94,
            ColorFg::Pink => 95,
            ColorFg::Yellow => 96,
            ColorFg::White => 97,
        }
    }

    /// The numeric SGR code of the variant.
    pub fn code(&self) -> (v: u8)
        ensures
            v == self.spec_code(),
    {
        match self {
            ColorFg::Reset => 0,
            ColorFg::Black => 30,
            ColorFg::Blue => 31,
            ColorFg::Green => 32,
            ColorFg::Cyan => 33,
            ColorFg::Red => 34,
            ColorFg::Magenta => 35,
            ColorFg::Brown => 36,
            ColorFg::LightGray => 37,
            ColorFg::DarkGray => 90,
            ColorFg::LightBlue => 91,
            ColorFg::LightGreen => 92,
            ColorFg::LightCyan => 93,
            ColorFg::LightRed => 94,
            ColorFg::Pink => 95,
            ColorFg::Yellow => 96,
            ColorFg::White => 97,
        }
    }

    /// The hardware color the code's table entry names.
    pub fn as_color16(&self) -> (c: Color16)
        ensures
            c == Color16::spec_from_ansi(self.spec_code()),
    {
        Color16::from_ansi(self.code())
    }
}

impl ColorBg {
    /// The numeric SGR code of the variant.
    pub open spec fn spec_code(self) -> u8 {
        match self {
            ColorBg::Reset => 0,
            ColorBg::Black => 40,
            ColorBg::Blue => 41,
            ColorBg::Green => 42,
            ColorBg::Cyan => 43,
            ColorBg::Red => 44,
            ColorBg::Magenta => 45,
            ColorBg::Brown => 46,
            ColorBg::LightGray => 47,
            ColorBg::DarkGray => 100,
            ColorBg::LightBlue => 101,
            ColorBg::LightGreen => 102,
            ColorBg::LightCyan => 103,
            ColorBg::LightRed => 104,
            ColorBg::Pink => 105,
            ColorBg::Yellow => 106,
            ColorBg::White => 107,
        }
    }

    /// The numeric SGR code of the variant.
    pub fn code(&self) -> (v: u8)
        ensures
            v == self.spec_code(),
    {
        match self {
            ColorBg::Reset => 0,
            ColorBg::Black => 40,
            ColorBg::Blue => 41,
            ColorBg::Green => 42,
            ColorBg::Cyan => 43,
            ColorBg::Red => 44,
            ColorBg::Magenta => 45,
            ColorBg::Brown => 46,
            ColorBg::LightGray => 47,
            ColorBg::DarkGray => 100,
            ColorBg::LightBlue => 101,
            ColorBg::LightGreen => 102,
            ColorBg::LightCyan => 103,
            ColorBg::LightRed => 104,
            ColorBg::Pink => 105,
            ColorBg::Yellow => 106,
            ColorBg::White => 107,
        }
    }

    /// The hardware color the code's table entry names, read through the
    /// foreground table after undoing the shift of ten.
    pub fn as_color16(&self) -> (c: Color16)
        ensures
            self.spec_code() >= 10 ==> c == Color16::spec_from_ansi(
                (self.spec_code() - 10) as u8,
            ),
            self.spec_code() < 10 ==> c == Color16::spec_from_ansi(self.spec_code()),
    {
        let code = self.code();
        if code >= 10 {
            Color16::from_ansi(code - 10)
        } else {
            Color16::from_ansi(code)
        }
    }
}

} // verus!
