//! The text-mode display buffer: a fixed 80 by 25 grid of character cells.
//!
//! The grid is held as an explicit row-major vector of cells; an embedder
//! mirrors every cell into the memory-mapped video buffer with volatile
//! stores, and performs the cursor port writes that [`crate::tty`]
//! computes.

use vstd::prelude::*;

use crate::err::{Axis, KernelError, KernelResult};

verus! {

/// Cells per row.
pub const BUFFER_WIDTH: usize = 80;
/// Rows on screen.
pub const BUFFER_HEIGHT: usize = 25;

/// CRT controller index port, used for cursor positioning.
pub const CRTC_ADDR: u16 = 0x3D4;
/// CRT controller data port, used for cursor positioning.
pub const CRTC_DATA: u16 = 0x3D5;

/// The 16 hardware colors of the text mode.
#[derive(Clone, Copy, Debug, PartialEq, Eq, Structural)]
pub enum Color16 {
    Black,
    Blue,
    Green,
    Cyan,
    Red,
    Magenta,
    Brown,
    LightGray,
    DarkGray,
    LightBlue,
    LightGreen,
    LightCyan,
    LightRed,
    Pink,
    Yellow,
    White,
}

impl Color16 {
    /// The hardware palette index of the color, 0 to 15.
    pub open spec fn spec_u8(self) -> u8 {
        match self {
            Color16::Black => 0,
            Color16::Blue => 1,
            Color16::Green => 2,
            Color16::Cyan => 3,
            Color16::Red => 4,
            Color16::Magenta => 5,
            Color16::Brown => 6,
            Color16::LightGray => 7,
            Color16::DarkGray => 8,
            Color16::LightBlue => 9,
            Color16::LightGreen => 10,
            Color16::LightCyan => 11,
            Color16::LightRed => 12,
            Color16::Pink => 13,
            Color16::Yellow => 14,
            Color16::White => 15,
        }
    }

    /// The color a palette index names; indices 16 and above name no
    /// color and fall back to black, but every caller stays below 16.
    pub open spec fn spec_from(value: u8) -> Color16 {
        match value {
            0 => Color16::Black,
            1 => Color16::Blue,
            2 => Color16::Green,
            3 => Color16::Cyan,
            4 => Color16::Red,
            5 => Color16::Magenta,
            6 => Color16::Brown,
            7 => Color16::LightGray,
            8 => Color16::DarkGray,
            9 => Color16::LightBlue,
            10 => Color16::LightGreen,
            11 => Color16::LightCyan,
            12 => Color16::LightRed,
            13 => Color16::Pink,
            14 => Color16::Yellow,
            15 => Color16::White,
            _ => Color16::Black,
        }
    }

    /// The color an ANSI SGR foreground code selects: 30 to 37 name the
    /// dim half of the palette, 90 to 97 the bright half; any other code
    /// falls back to black.
    pub open spec fn spec_from_ansi(code: u8) -> Color16 {
        match code {
            30 => Color16::Black,
            31 => Color16::Red,
            32 => Color16::Green,
            33 => Color16::Brown,
            34 => Color16::Blue,
            35 => Color16::Magenta,
            36 => Color16::Cyan,
            37 => Color16::LightGray,
            90 => Color16::DarkGray,
            91 => Color16::LightRed,
            92 => Color16::LightGreen,
            93 => Color16::Yellow,
            94 => Color16::LightBlue,
            95 => Color16::Pink,
            96 => Color16::LightCyan,
            97 => Color16::White,
            _ => Color16::Black,
        }
    }

    /// Palette index of the color.
    pub fn as_u8(&self) -> (v: u8)
        ensures
            v == self.spec_u8(),
    {
        match self {
            Color16::Black => 0,
            Color16::Blue => 1,
            Color16::Green => 2,
            Color16::Cyan => 3,
            Color16::Red => 4,
            Color16::Magenta => 5,
            Color16::Brown => 6,
            Color16::LightGray => 7,
            Color16::DarkGray => 8,
            Color16::LightBlue => 9,
            Color16::LightGreen => 10,
            Color16::LightCyan => 11,
            Color16::LightRed => 12,
            Color16::Pink => 13,
            Color16::Yellow => 14,
            Color16::White => 15,
        }
    }

    /// Color of a palette index. An index past 15 would mean corrupted
    /// internal state — a fatal condition, not a caller mistake — so it
    /// is ruled out here.
    pub fn from(value: u8) -> (c: Color16)
        requires
            value < 16,
        ensures
            c == Color16::spec_from(value),
    {
        match value {
            0 => Color16::Black,
            1 => Color16::Blue,
            2 => Color16::Green,
            3 => Color16::Cyan,
            4 => Color16::Red,
            5 => Color16::Magenta,
            6 => Color16::Brown,
            7 => Color16::LightGray,
            8 => Color16::DarkGray,
            9 => Color16::LightBlue,
            10 => Color16::LightGreen,
            11 => Color16::LightCyan,
            12 => Color16::LightRed,
            13 => Color16::Pink,
            14 => Color16::Yellow,
            _ => Color16::White,
        }
    }

    /// Color of an ANSI SGR foreground code; unknown codes give black.
    pub fn from_ansi(code: u8) -> (c: Color16)
        ensures
            c == Color16::spec_from_ansi(code),
    {
        match code {
            30 => Color16::Black,
            31 => Color16::Red,
            32 => Color16::Green,
            33 => Color16::Brown,
            34 => Color16::Blue,
            35 => Color16::Magenta,
            36 => Color16::Cyan,
            37 => Color16::LightGray,
            90 => Color16::DarkGray,
            91 => Color16::LightRed,
            92 => Color16::LightGreen,
            93 => Color16::Yellow,
            94 => Color16::LightBlue,
            95 => Color16::Pink,
            96 => Color16::LightCyan,
            97 => Color16::White,
            _ => Color16::Black,
        }
    }
}

/// A packed color attribute: 4-bit foreground in the low nibble, 4-bit
/// background in the high nibble.
#[derive(Clone, Copy, Debug, PartialEq, Eq, Structural)]
pub struct ColorAttrib(pub u8);

impl ColorAttrib {
    /// The attribute that packs `fg` and `bg`.
    pub open spec fn spec_from_color16(fg: Color16, bg: Color16) -> ColorAttrib {
        ColorAttrib((bg.spec_u8() * 16 + fg.spec_u8()) as u8)
    }

    /// The foreground the attribute holds: its low nibble, as a color.
    pub open spec fn spec_fg(self) -> Color16 {
        Color16::spec_from(self.0 & 0x0F)
    }

    /// The background the attribute holds: its high nibble, as a color.
    pub open spec fn spec_bg(self) -> Color16 {
        Color16::spec_from((self.0 & 0xF0) >> 4)
    }

    /// Attribute with the given raw byte value.
    pub fn new(value: u8) -> (c: ColorAttrib)
        ensures
            c.0 == value,
    {
        ColorAttrib(value)
    }

    /// Packs a foreground and a background color into one attribute byte.
    pub fn from_color16(fg: Color16, bg: Color16) -> (c: ColorAttrib)
        ensures
            c == ColorAttrib::spec_from_color16(fg, bg),
    {
        let f = fg.as_u8();
        let b = bg.as_u8();
        let mut value: u8 = 0;
        value |= b;
        value = value << 4;
        value |= f;
        proof {
            assert(value == (b * 16 + f) as u8) by (bit_vector)
                requires
                    f < 16 && b < 16 && value == ((0u8 | b) << 4) | f,
            ;
        }
        ColorAttrib(value)
    }

    /// The raw attribute byte.
    pub fn as_u8(&self) -> (v: u8)
        ensures
            v == self.0,
    {
        self.0
    }

    /// The foreground color.
    pub fn fg(&self) -> (c: Color16)
        ensures
            c == self.spec_fg(),
    {
        let v = self.as_u8();
        let f = v & 0x0F;
        proof {
            assert(v & 0x0F < 16) by (bit_vector);
        }
        Color16::from(f)
    }

    /// The background color.
    pub fn bg(&self) -> (c: Color16)
        ensures
            c == self.spec_bg(),
    {
        let v = self.as_u8();
        let b = (v & 0xF0) >> 4;
        proof {
            assert((v & 0xF0) >> 4 < 16) by (bit_vector);
        }
        Color16::from(b)
    }
}

/// One screen cell: a code point and its packed color attribute.
#[derive(Clone, Copy, Debug, PartialEq, Eq, Structural)]
pub struct Character {
    /// The glyph's code point, as the hardware stores it.
    pub code_point: u8,
    /// The cell's packed color attribute.
    pub color: ColorAttrib,
}

impl Character {
    /// Cell holding `chr`'s low byte with the given attribute.
    pub fn new(chr: char, color: ColorAttrib) -> (c: Character)
        ensures
            c.code_point == chr as u8,
            c.color == color,
    {
        Character { code_point: chr as u8, color }
    }

    /// The cell's color attribute.
    pub fn color(&self) -> (c: ColorAttrib)
        ensures
            c == self.color,
    {
        self.color
    }

    /// The cell's code point, widened back to a `char`.
    pub fn code_point(&self) -> (c: char)
        ensures
            c == self.code_point as char,
    {
        self.code_point as char
    }
}

/// A blank cell rendered with `style`.
pub open spec fn blank_cell(style: ColorAttrib) -> Character {
    Character { code_point: 0x20, color: style }
}

/// Row-major index of cell (`x`, `y`).
pub open spec fn cell_index(x: int, y: int) -> int {
    y * 80 + x
}

/// The character grid. The embedder owns the single long-lived handle and
/// mirrors each cell into video memory.
pub struct ScreenBuffer {
    /// The cells, row-major, `BUFFER_WIDTH` per row.
    pub data: Vec<Character>,
}

impl ScreenBuffer {
    /// The grid holds exactly width times height cells.
    pub open spec fn wf(self) -> bool {
        self.data@.len() == 2000
    }

    /// The cell at (`x`, `y`).
    pub open spec fn spec_cell(self, x: int, y: int) -> Character {
        self.data@[cell_index(x, y)]
    }

    /// A fresh grid, every cell blank with a zero attribute.
    pub fn new() -> (s: ScreenBuffer)
        ensures
            s.wf(),
            forall|i: int| 0 <= i < 2000 ==> s.data@[i] == blank_cell(ColorAttrib(0)),
    {
        let mut data: Vec<Character> = Vec::new();
        let blank = Character { code_point: 0x20, color: ColorAttrib(0) };
        let mut i: usize = 0;
        while i < 2000
            invariant
                i <= 2000,
                data@.len() == i,
                blank == blank_cell(ColorAttrib(0)),
                forall|j: int| 0 <= j < i ==> data@[j] == blank_cell(ColorAttrib(0)),
            decreases 2000 - i,
        {
            data.push(blank);
            i += 1;
        }
        ScreenBuffer { data }
    }

    /// Writes one cell. `x` is checked before `y`, so an oversized `x` is
    /// reported even when `y` is out of range too; an out-of-range access
    /// leaves the grid untouched.
    pub fn put_char(&mut self, x: usize, y: usize, chr: Character) -> (r: KernelResult<()>)
        requires
            old(self).wf(),
        ensures
            final(self).wf(),
            x >= 80 ==> r == Err::<(), KernelError>(
                (KernelError::CoordinateOutOfRange { axis: Axis::X, value: x }),
            ) && *final(self) == *old(self),
            x < 80 && y >= 25 ==> r == Err::<(), KernelError>(
                (KernelError::CoordinateOutOfRange { axis: Axis::Y, value: y }),
            ) && *final(self) == *old(self),
            x < 80 && y < 25 ==> r == Ok::<(), KernelError>(()) && final(self).data@ == old(
                self,
            ).data@.update(cell_index(x as int, y as int), chr),
    {
        if x >= BUFFER_WIDTH {
            Err(KernelError::CoordinateOutOfRange { axis: Axis::X, value: x })
        } else if y >= BUFFER_HEIGHT {
            Err(KernelError::CoordinateOutOfRange { axis: Axis::Y, value: y })
        } else {
            self.data.set(y * BUFFER_WIDTH + x, chr);
            Ok(())
        }
    }

    /// Reads one cell, with the same bounds checks and check order as
    /// [`ScreenBuffer::put_char`].
    pub fn char(&self, x: usize, y: usize) -> (r: KernelResult<Character>)
        requires
            self.wf(),
        ensures
            x >= 80 ==> r == Err::<Character, KernelError>(
                (KernelError::CoordinateOutOfRange { axis: Axis::X, value: x }),
            ),
            x < 80 && y >= 25 ==> r == Err::<Character, KernelError>(
                (KernelError::CoordinateOutOfRange { axis: Axis::Y, value: y }),
            ),
            x < 80 && y < 25 ==> r == Ok::<Character, KernelError>(
                self.spec_cell(x as int, y as int),
            ),
    {
        if x >= BUFFER_WIDTH {
            Err(KernelError::CoordinateOutOfRange { axis: Axis::X, value: x })
        } else if y >= BUFFER_HEIGHT {
            Err(KernelError::CoordinateOutOfRange { axis: Axis::Y, value: y })
        } else {
            Ok(self.data[y * BUFFER_WIDTH + x])
        }
    }
}

/// Width of the grid in cells.
pub fn width() -> (w: usize)
    ensures
        w == 80,
{
    BUFFER_WIDTH
}

/// Height of the grid in rows.
pub fn height() -> (h: usize)
    ensures
        h == 25,
{
    BUFFER_HEIGHT
}

/// Packing a foreground and a background into an attribute and unpacking
/// it again returns the original pair, for every pair of colors.
pub proof fn lemma_pack_unpack(fg: Color16, bg: Color16)
    ensures
        ColorAttrib::spec_from_color16(fg, bg).spec_fg() == fg,
        ColorAttrib::spec_from_color16(fg, bg).spec_bg() == bg,
{
    let f = fg.spec_u8();
    let b = bg.spec_u8();
    assert(f < 16 && b < 16);
    let v = (b * 16 + f) as u8;
    assert(v & 0x0F == f && (v & 0xF0) >> 4 == b) by (bit_vector)
        requires
            f < 16 && b < 16 && v == (b * 16 + f) as u8,
    ;
}

/// Writing a cell in range and reading the same coordinates back gives
/// exactly that cell, and no other cell of the grid changes. Together
/// with the error clauses of [`ScreenBuffer::put_char`] and
/// [`ScreenBuffer::char`], this pins the round trip down for every
/// coordinate pair.
pub proof fn lemma_put_then_get(cells: Seq<Character>, x: usize, y: usize, c: Character)
    requires
        cells.len() == 2000,
        x < 80,
        y < 25,
    ensures
        cells.update(cell_index(x as int, y as int), c)[cell_index(x as int, y as int)] == c,
        forall|i: int|
            0 <= i < 2000 && i != cell_index(x as int, y as int) ==> cells.update(
                cell_index(x as int, y as int),
                c,
            )[i] == cells[i],
{
}

} // verus!
