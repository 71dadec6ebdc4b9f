//! The terminal emulator: a VT100-subset state machine over a byte
//! stream.
//!
//! [`TTY`] keeps the logical cursor, the current style and the
//! escape-parser state; glyphs and colors go through the bounds-checked
//! display driver, never to memory directly. The whole behaviour is
//! specified by the step function [`spec_step`], one byte at a time, and
//! [`spec_run`], its fold over a stream.
//!
//! Cursor-move sequences clamp to the grid: a move past an edge stops at
//! that edge rather than wrapping or failing.

use vstd::prelude::*;

use vstd::pervasive::unreached;
use vstd::string::StrSliceExecFns;

use crate::port::PortOp;
use crate::vga::{blank_cell, cell_index, Character, Color16, ColorAttrib, ScreenBuffer,
    BUFFER_HEIGHT, BUFFER_WIDTH, CRTC_ADDR, CRTC_DATA};

verus! {

/// The parser's mode: ground, just after an escape byte, or collecting
/// the numeric parameters of a control sequence.
#[derive(Clone, Copy, Debug, PartialEq, Eq, Structural)]
pub enum ParserState {
    /// Ordinary output.
    Ground,
    /// An escape byte was seen; a `[` must follow.
    Escape,
    /// Inside a control sequence, collecting parameters.
    Csi,
}

/// Ghost view of the parser: in the collecting state it carries the
/// parameters finished so far and the one being accumulated.
#[verifier::ext_equal]
pub enum ParserModel {
    Ground,
    Escape,
    Csi { params: Seq<u16>, current: u16 },
}

/// Ghost view of the whole terminal state.
#[verifier::ext_equal]
pub struct TtyModel {
    pub column: int,
    pub row: int,
    pub style: ColorAttrib,
    pub parser: ParserModel,
}

/// The terminal state: logical cursor, current style, parser state.
/// Created once by the embedder and mutated on every print call, under
/// its critical-section discipline.
pub struct TTY {
    /// Current packed color attribute.
    pub style: ColorAttrib,
    /// Cursor column, always below the grid width.
    pub column: usize,
    /// Cursor row, always below the grid height.
    pub row: usize,
    /// Parser mode.
    pub mode: ParserState,
    /// Parameters finished so far; meaningful only while collecting.
    pub params: Vec<u16>,
    /// Parameter being accumulated; meaningful only while collecting.
    pub current: u16,
}

impl View for TTY {
    type V = TtyModel;

    open spec fn view(&self) -> TtyModel {
        TtyModel {
            column: self.column as int,
            row: self.row as int,
            style: self.style,
            parser: match self.mode {
                ParserState::Ground => ParserModel::Ground,
                ParserState::Escape => ParserModel::Escape,
                ParserState::Csi => ParserModel::Csi {
                    params: self.params@,
                    current: self.current,
                },
            },
        }
    }
}

/// Whether a byte's character is in the printable ASCII range.
pub open spec fn printable(c: char) -> bool {
    0x20 <= (c as u32) && (c as u32) <= 0x7E
}

/// The grid after a scroll: every row moved up one, the bottom row blank
/// with `style`.
pub open spec fn spec_scrolled(s: Seq<Character>, style: ColorAttrib) -> Seq<Character> {
    Seq::new(2000, |i: int| if i < 1920 { s[i + 80] } else { blank_cell(style) })
}

/// A line feed: below the bottom margin the cursor moves down one row;
/// at the bottom margin the grid scrolls and the row holds. The column
/// returns to 0 either way.
pub open spec fn spec_newline(t: TtyModel, s: Seq<Character>) -> (TtyModel, Seq<Character>) {
    if t.row + 1 < 25 {
        (TtyModel { column: 0, row: t.row + 1, ..t }, s)
    } else {
        (TtyModel { column: 0, ..t }, spec_scrolled(s, t.style))
    }
}

/// One character in ground mode: a printable glyph lands at the cursor
/// with the current style and the cursor advances, wrapping like a line
/// feed when it reaches the width; a line feed and a carriage return move
/// the cursor; anything else is ignored.
pub open spec fn spec_print_char(t: TtyModel, s: Seq<Character>, c: char) -> (
    TtyModel,
    Seq<Character>,
) {
    if printable(c) {
        let s1 = s.update(cell_index(t.column, t.row), Character { code_point: c as u8, color: t.style });
        if t.column + 1 < 80 {
            (TtyModel { column: t.column + 1, ..t }, s1)
        } else {
            spec_newline(t, s1)
        }
    } else if c == '\n' {
        spec_newline(t, s)
    } else if c == '\r' {
        (TtyModel { column: 0, ..t }, s)
    } else {
        (t, s)
    }
}

/// One select-graphic-rendition parameter applied to a style: 0 resets to
/// the default white-on-blue pair, 30 to 37 and 90 to 97 set the
/// foreground, 40 to 47 and 100 to 107 set the background through the
/// same table shifted by ten, anything else is ignored.
pub open spec fn spec_apply_sgr_param(style: ColorAttrib, p: u16) -> ColorAttrib {
    if p == 0 {
        ColorAttrib::spec_from_color16(Color16::White, Color16::Blue)
    } else if (30 <= p && p <= 37) || (90 <= p && p <= 97) {
        ColorAttrib::spec_from_color16(Color16::spec_from_ansi(p as u8), style.spec_bg())
    } else if (40 <= p && p <= 47) || (100 <= p && p <= 107) {
        ColorAttrib::spec_from_color16(style.spec_fg(), Color16::spec_from_ansi((p - 10) as u8))
    } else {
        style
    }
}

/// Select-graphic-rendition parameters applied in order; later ones win.
pub open spec fn spec_apply_sgr(style: ColorAttrib, ps: Seq<u16>) -> ColorAttrib
    decreases ps.len(),
{
    if ps.len() == 0 {
        style
    } else {
        spec_apply_sgr_param(spec_apply_sgr(style, ps.drop_last()), ps.last())
    }
}

/// The single numeric parameter of a cursor-move sequence: the last one
/// supplied, or 0 when there is none.
pub open spec fn spec_last_param(ps: Seq<u16>) -> u16 {
    if ps.len() == 0 {
        0
    } else {
        ps.last()
    }
}

/// A completed control sequence acting on the terminal. `m` restyles;
/// `A`, `B`, `C` and `D` move the cursor up, down, forward and back by
/// the parameter, clamped to the grid; every other action is ignored.
pub open spec fn spec_csi_dispatch(t: TtyModel, ps: Seq<u16>, action: u8, s: Seq<Character>) -> (
    TtyModel,
    Seq<Character>,
) {
    let n = spec_last_param(ps) as int;
    if action == 0x6D {  // m
        (TtyModel { style: spec_apply_sgr(t.style, ps), ..t }, s)
    } else if action == 0x41 {  // A
        (TtyModel { row: if n <= t.row { t.row - n } else { 0 }, ..t }, s)
    } else if action == 0x42 {  // B
        (TtyModel { row: if t.row + n < 25 { t.row + n } else { 24 }, ..t }, s)
    } else if action == 0x43 {  // C
        (TtyModel { column: if t.column + n < 80 { t.column + n } else { 79 }, ..t }, s)
    } else if action == 0x44 {  // D
        (TtyModel { column: if n <= t.column { t.column - n } else { 0 }, ..t }, s)
    } else {
        (t, s)
    }
}

/// One byte fed to the emulator. In ground mode an escape byte arms the
/// parser and everything else prints; after an escape only `[` opens a
/// control sequence; while collecting, digits extend the current
/// parameter (saturating), `;` finishes it, a final byte in `@..~`
/// dispatches the sequence, and any other byte abandons it with no side
/// effect.
pub open spec fn spec_step(t: TtyModel, s: Seq<Character>, b: u8) -> (TtyModel, Seq<Character>) {
    match t.parser {
        ParserModel::Ground => {
            if b == 0x1B {
                (TtyModel { parser: ParserModel::Escape, ..t }, s)
            } else {
                spec_print_char(t, s, b as char)
            }
        },
        ParserModel::Escape => {
            if b == 0x5B {  // [
                (TtyModel { parser: ParserModel::Csi { params: Seq::empty(), current: 0 }, ..t }, s)
            } else {
                (TtyModel { parser: ParserModel::Ground, ..t }, s)
            }
        },
        ParserModel::Csi { params, current } => {
            if 0x30 <= b && b <= 0x39 {  // digit
                let v = current * 10 + (b - 0x30);
                let cur = if v > 65535 { 65535 as u16 } else { v as u16 };
                (TtyModel { parser: ParserModel::Csi { params, current: cur }, ..t }, s)
            } else if b == 0x3B {  // ;
                (
                    TtyModel {
                        parser: ParserModel::Csi { params: params.push(current), current: 0 },
                        ..t
                    },
                    s,
                )
            } else if 0x40 <= b && b <= 0x7E {
                spec_csi_dispatch(
                    TtyModel { parser: ParserModel::Ground, ..t },
                    params.push(current),
                    b,
                    s,
                )
            } else {
                (TtyModel { parser: ParserModel::Ground, ..t }, s)
            }
        },
    }
}

/// A whole byte stream folded through [`spec_step`].
pub open spec fn spec_run(t: TtyModel, s: Seq<Character>, bs: Seq<u8>) -> (TtyModel, Seq<Character>)
    decreases bs.len(),
{
    if bs.len() == 0 {
        (t, s)
    } else {
        let stepped = spec_step(t, s, bs.first());
        spec_run(stepped.0, stepped.1, bs.drop_first())
    }
}

/// The byte stream a string feeds to the emulator: each character's low
/// byte, in order.
pub open spec fn spec_bytes_of(cs: Seq<char>) -> Seq<u8> {
    cs.map_values(|c: char| c as u8)
}

/// The four port writes that move the hardware cursor to the model's
/// position: the linear offset, low byte then high byte, through the CRT
/// controller's index/data pair.
pub open spec fn spec_cursor_ops(t: TtyModel) -> Seq<PortOp> {
    let pos = t.row * 80 + t.column;
    seq![
        PortOp::Out { port: CRTC_ADDR, value: 0x0F },
        PortOp::Out { port: CRTC_DATA, value: (pos % 256) as u8 },
        PortOp::Out { port: CRTC_ADDR, value: 0x0E },
        PortOp::Out { port: CRTC_DATA, value: ((pos / 256) % 256) as u8 },
    ]
}

impl TTY {
    /// The cursor sits inside the grid.
    pub open spec fn wf(self) -> bool {
        self.column < 80 && self.row < 25
    }

    /// A fresh terminal: cursor at the origin, white on blue, parser in
    /// ground mode.
    pub fn new() -> (t: TTY)
        ensures
            t.wf(),
            t@.column == 0,
            t@.row == 0,
            t@.style == ColorAttrib(0x1F),
            t@.parser == ParserModel::Ground,
    {
        TTY {
            style: ColorAttrib::new(0x1F),
            column: 0,
            row: 0,
            mode: ParserState::Ground,
            params: Vec::new(),
            current: 0,
        }
    }

    /// Current column.
    #[inline(always)]
    pub fn column(&self) -> (c: usize)
        ensures
            c == self@.column,
    {
        self.column
    }

    /// Current row.
    #[inline(always)]
    pub fn row(&self) -> (r: usize)
        ensures
            r == self@.row,
    {
        self.row
    }

    /// Current style.
    #[inline(always)]
    pub fn style(&self) -> (s: ColorAttrib)
        ensures
            s == self@.style,
    {
        self.style
    }

    /// Sets the foreground, keeping the background.
    pub fn set_fg(&mut self, fg: Color16)
        ensures
            final(self)@ == (TtyModel {
                style: ColorAttrib::spec_from_color16(fg, old(self)@.style.spec_bg()),
                ..old(self)@
            }),
            final(self).wf() == old(self).wf(),
    {
        let color = ColorAttrib::from_color16(fg, self.style.bg());
        self.style = color;
    }

    /// Sets the background, keeping the foreground.
    pub fn set_bg(&mut self, bg: Color16)
        ensures
            final(self)@ == (TtyModel {
                style: ColorAttrib::spec_from_color16(old(self)@.style.spec_fg(), bg),
                ..old(self)@
            }),
            final(self).wf() == old(self).wf(),
    {
        let color = ColorAttrib::from_color16(self.style.fg(), bg);
        self.style = color;
    }

    /// Moves the cursor to row `y`.
    pub fn set_row(&mut self, y: usize)
        requires
            y < 25,
        ensures
            final(self)@ == (TtyModel { row: y as int, ..old(self)@ }),
            old(self).column < 80 ==> final(self).wf(),
    {
        self.row = y;
    }

    /// Moves the cursor to column `x`.
    pub fn set_column(&mut self, x: usize)
        requires
            x < 80,
        ensures
            final(self)@ == (TtyModel { column: x as int, ..old(self)@ }),
            old(self).row < 25 ==> final(self).wf(),
    {
        self.column = x;
    }

    /// Returns the column to 0.
    pub fn carriage_return(&mut self)
        ensures
            final(self)@ == (TtyModel { column: 0, ..old(self)@ }),
            old(self).row < 25 ==> final(self).wf(),
    {
        self.set_column(0);
    }

    /// The port writes that resynchronize the hardware cursor to the
    /// logical position.
    pub fn update_cursor(&self) -> (ops: Vec<PortOp>)
        requires
            self.wf(),
        ensures
            ops@ == spec_cursor_ops(self@),
    {
        let pos: usize = self.row * BUFFER_WIDTH + self.column;
        let lo: u8 = (pos & 0x00FF) as u8;
        let hi: u8 = ((pos >> 8) & 0xFF) as u8;
        proof {
            assert(pos & 0x00FF == pos % 256) by (bit_vector);
            assert((pos >> 8) & 0xFF == (pos / 256) % 256) by (bit_vector);
        }
        let mut ops: Vec<PortOp> = Vec::new();
        ops.push(PortOp::Out { port: CRTC_ADDR, value: 0x0F });
        ops.push(PortOp::Out { port: CRTC_DATA, value: lo });
        ops.push(PortOp::Out { port: CRTC_ADDR, value: 0x0E });
        ops.push(PortOp::Out { port: CRTC_DATA, value: hi });
        proof {
            assert(ops@ =~= spec_cursor_ops(self@));
        }
        ops
    }

    /// Scrolls the grid: copies every row one up, then fills the bottom
    /// row with blanks in the current style. The copies are per-cell
    /// driver calls, as the concurrency discipline demands.
    pub fn shift_up(&self, screen: &mut ScreenBuffer)
        requires
            old(screen).wf(),
        ensures
            final(screen).wf(),
            final(screen).data@ == spec_scrolled(old(screen).data@, self.style),
    {
        let mut y: usize = 1;
        while y < BUFFER_HEIGHT
            invariant
                1 <= y <= 25,
                screen.wf(),
                forall|i: int|
                    0 <= i < (y - 1) * 80 ==> screen.data@[i] == old(screen).data@[i + 80],
                forall|i: int| (y - 1) * 80 <= i < 2000 ==> screen.data@[i] == old(screen).data@[i],
            decreases 25 - y,
        {
            let mut x: usize = 0;
            while x < BUFFER_WIDTH
                invariant
                    1 <= y < 25,
                    x <= 80,
                    screen.wf(),
                    forall|i: int|
                        0 <= i < (y - 1) * 80 + x ==> screen.data@[i] == old(screen).data@[i + 80],
                    forall|i: int|
                        (y - 1) * 80 + x <= i < 2000 ==> screen.data@[i] == old(screen).data@[i],
                decreases 80 - x,
            {
                let chr = match screen.char(x, y) {
                    Ok(c) => c,
                    Err(_) => unreached(),
                };
                let _ = screen.put_char(x, y - 1, chr);
                x += 1;
            }
            y += 1;
        }
        let blank = Character::new(' ', self.style);
        let mut x: usize = 0;
        while x < BUFFER_WIDTH
            invariant
                x <= 80,
                screen.wf(),
                blank == blank_cell(self.style),
                forall|i: int| 0 <= i < 1920 ==> screen.data@[i] == old(screen).data@[i + 80],
                forall|i: int| 1920 <= i < 1920 + x ==> screen.data@[i] == blank_cell(self.style),
                forall|i: int| 1920 + x <= i < 2000 ==> screen.data@[i] == old(screen).data@[i],
            decreases 80 - x,
        {
            let _ = screen.put_char(x, BUFFER_HEIGHT - 1, blank);
            x += 1;
        }
        proof {
            assert(screen.data@ =~= spec_scrolled(old(screen).data@, self.style));
        }
    }

    /// A line feed: moves to the start of the next row, scrolling when
    /// the cursor already sits on the bottom row.
    pub fn newline(&mut self, screen: &mut ScreenBuffer)
        requires
            old(self).row < 25,
            old(screen).wf(),
        ensures
            final(self).wf(),
            final(screen).wf(),
            final(self)@ == spec_newline(old(self)@, old(screen).data@).0,
            final(screen).data@ == spec_newline(old(self)@, old(screen).data@).1,
    {
        if self.row + 1 < BUFFER_HEIGHT {
            self.row = self.row + 1;
            self.carriage_return();
        } else {
            self.shift_up(screen);
            self.carriage_return();
        }
    }

    /// One character in ground mode: prints a printable glyph at the
    /// cursor and advances, wrapping at the width; handles line feed and
    /// carriage return; ignores everything else.
    pub fn print_char(&mut self, screen: &mut ScreenBuffer, chr: char)
        requires
            old(self).wf(),
            old(screen).wf(),
        ensures
            final(self).wf(),
            final(screen).wf(),
            final(self)@ == spec_print_char(old(self)@, old(screen).data@, chr).0,
            final(screen).data@ == spec_print_char(old(self)@, old(screen).data@, chr).1,
    {
        let code = chr as u32;
        if 0x20 <= code && code <= 0x7E {
            let cell = Character::new(chr, self.style);
            let _ = screen.put_char(self.column, self.row, cell);
            self.column = self.column + 1;
            if self.column >= BUFFER_WIDTH {
                self.newline(screen);
            }
        } else if chr == '\n' {
            self.newline(screen);
        } else if chr == '\r' {
            self.carriage_return();
        }
    }

    /// The single parameter of a cursor-move sequence.
    fn last_param(&self) -> (n: u16)
        ensures
            n == spec_last_param(self.params@),
    {
        if self.params.len() == 0 {
            0
        } else {
            self.params[self.params.len() - 1]
        }
    }

    /// Acts on a completed control sequence whose parameters sit in the
    /// parser state and whose final byte is `action`.
    pub fn csi_dispatch(&mut self, screen: &mut ScreenBuffer, action: u8)
        requires
            old(self).wf(),
            old(screen).wf(),
            old(self)@.parser is Ground,
        ensures
            final(self).wf(),
            final(screen).wf(),
            final(self)@ == spec_csi_dispatch(
                old(self)@,
                old(self).params@,
                action,
                old(screen).data@,
            ).0,
            final(screen).data@ == spec_csi_dispatch(
                old(self)@,
                old(self).params@,
                action,
                old(screen).data@,
            ).1,
    {
        if action == 0x6D {  // m
            let mut style = self.style;
            let n = self.params.len();
            let mut i: usize = 0;
            while i < n
                invariant
                    i <= n,
                    *self == *old(self),
                    n == self.params@.len(),
                    style == spec_apply_sgr(old(self).style, self.params@.take(i as int)),
                decreases n - i,
            {
                let p = self.params[i];
                style = apply_sgr_param(style, p);
                proof {
                    assert(self.params@.take(i + 1).drop_last() =~= self.params@.take(i as int));
                }
                i += 1;
            }
            proof {
                assert(self.params@.take(n as int) =~= self.params@);
            }
            self.style = style;
        } else if action == 0x41 {  // A: cursor up, clamped at the top
            let n = self.last_param() as usize;
            if n <= self.row {
                self.row = self.row - n;
            } else {
                self.row = 0;
            }
        } else if action == 0x42 {  // B: cursor down, clamped at the bottom
            let n = self.last_param() as usize;
            let target = self.row + n;
            self.row = if target < BUFFER_HEIGHT {
                target
            } else {
                BUFFER_HEIGHT - 1
            };
        } else if action == 0x43 {  // C: cursor forward, clamped at the edge
            let n = self.last_param() as usize;
            let target = self.column + n;
            self.column = if target < BUFFER_WIDTH {
                target
            } else {
                BUFFER_WIDTH - 1
            };
        } else if action == 0x44 {  // D: cursor back, clamped at the edge
            let n = self.last_param() as usize;
            if n <= self.column {
                self.column = self.column - n;
            } else {
                self.column = 0;
            }
        }
    }

    /// Feeds one byte of the stream to the emulator.
    pub fn advance(&mut self, screen: &mut ScreenBuffer, b: u8)
        requires
            old(self).wf(),
            old(screen).wf(),
        ensures
            final(self).wf(),
            final(screen).wf(),
            final(self)@ == spec_step(old(self)@, old(screen).data@, b).0,
            final(screen).data@ == spec_step(old(self)@, old(screen).data@, b).1,
    {
        match self.mode {
            ParserState::Ground => {
                if b == 0x1B {
                    self.mode = ParserState::Escape;
                } else {
                    self.print_char(screen, b as char);
                }
            },
            ParserState::Escape => {
                if b == 0x5B {
                    self.mode = ParserState::Csi;
                    self.params = Vec::new();
                    self.current = 0;
                } else {
                    self.mode = ParserState::Ground;
                }
            },
            ParserState::Csi => {
                if 0x30 <= b && b <= 0x39 {
                    let d = (b - 0x30) as u16;
                    let v: u32 = (self.current as u32) * 10 + (d as u32);
                    self.current = if v > 65535 {
                        65535
                    } else {
                        v as u16
                    };
                } else if b == 0x3B {
                    let cur = self.current;
                    self.params.push(cur);
                    self.current = 0;
                } else if 0x40 <= b && b <= 0x7E {
                    let cur = self.current;
                    self.params.push(cur);
                    self.mode = ParserState::Ground;
                    self.csi_dispatch(screen, b);
                } else {
                    self.mode = ParserState::Ground;
                }
            },
        }
    }

    /// Feeds a whole string to the emulator, character by character.
    pub fn print_str(&mut self, screen: &mut ScreenBuffer, text: &str)
        requires
            old(self).wf(),
            old(screen).wf(),
        ensures
            final(self).wf(),
            final(screen).wf(),
            final(self)@ == spec_run(old(self)@, old(screen).data@, spec_bytes_of(text@)).0,
            final(screen).data@ == spec_run(old(self)@, old(screen).data@, spec_bytes_of(text@)).1,
    {
        let len = text.unicode_len();
        let mut i: usize = 0;
        while i < len
            invariant
                i <= len,
                len == text@.len(),
                self.wf(),
                screen.wf(),
                self@ == spec_run(
                    old(self)@,
                    old(screen).data@,
                    spec_bytes_of(text@.take(i as int)),
                ).0,
                screen.data@ == spec_run(
                    old(self)@,
                    old(screen).data@,
                    spec_bytes_of(text@.take(i as int)),
                ).1,
            decreases len - i,
        {
            let c = text.get_char(i);
            self.advance(screen, c as u8);
            proof {
                let cs = text@;
                assert(spec_bytes_of(cs.take(i + 1)) =~= spec_bytes_of(cs.take(i as int)).push(
                    cs[i as int] as u8,
                ));
                lemma_run_snoc(
                    old(self)@,
                    old(screen).data@,
                    spec_bytes_of(cs.take(i as int)),
                    cs[i as int] as u8,
                );
            }
            i += 1;
        }
        proof {
            assert(text@.take(len as int) =~= text@);
        }
    }
}

/// One select-graphic-rendition parameter applied to a style.
fn apply_sgr_param(style: ColorAttrib, p: u16) -> (r: ColorAttrib)
    ensures
        r == spec_apply_sgr_param(style, p),
{
    if p == 0 {
        ColorAttrib::from_color16(Color16::White, Color16::Blue)
    } else if (30 <= p && p <= 37) || (90 <= p && p <= 97) {
        ColorAttrib::from_color16(Color16::from_ansi(p as u8), style.bg())
    } else if (40 <= p && p <= 47) || (100 <= p && p <= 107) {
        ColorAttrib::from_color16(style.fg(), Color16::from_ansi((p - 10) as u8))
    } else {
        style
    }
}

/// Appending one byte to a stream runs the stream and then steps once.
pub proof fn lemma_run_snoc(t: TtyModel, s: Seq<Character>, bs: Seq<u8>, b: u8)
    ensures
        spec_run(t, s, bs.push(b)) == ({
            let r = spec_run(t, s, bs);
            spec_step(r.0, r.1, b)
        }),
    decreases bs.len(),
{
    if bs.len() == 0 {
        let stepped = spec_step(t, s, b);
        assert(bs.push(b).first() == b);
        assert(bs.push(b).drop_first() =~= Seq::<u8>::empty());
        assert(stepped =~~= (stepped.0, stepped.1));
        assert(spec_run(t, s, bs) == (t, s));
        assert(spec_run(stepped.0, stepped.1, bs.push(b).drop_first()) == (stepped.0, stepped.1));
    } else {
        let stepped = spec_step(t, s, bs.first());
        assert(bs.push(b).first() == bs.first());
        assert(bs.push(b).drop_first() =~= bs.drop_first().push(b));
        lemma_run_snoc(stepped.0, stepped.1, bs.drop_first(), b);
    }
}

/// Printing through the emulator: feeds the string's byte stream.
pub fn print(t: &mut TTY, screen: &mut ScreenBuffer, text: &str)
    requires
        old(t).wf(),
        old(screen).wf(),
    ensures
        final(t).wf(),
        final(screen).wf(),
        final(t)@ == spec_run(old(t)@, old(screen).data@, spec_bytes_of(text@)).0,
        final(screen).data@ == spec_run(old(t)@, old(screen).data@, spec_bytes_of(text@)).1,
{
    t.print_str(screen, text);
}

/// What error printing does: the stream runs with the error background,
/// and the prior background is restored afterwards.
pub open spec fn spec_eprint(t: TtyModel, s: Seq<Character>, bs: Seq<u8>) -> (
    TtyModel,
    Seq<Character>,
) {
    let armed = TtyModel {
        style: ColorAttrib::spec_from_color16(t.style.spec_fg(), Color16::Red),
        ..t
    };
    let r = spec_run(armed, s, bs);
    (
        TtyModel {
            style: ColorAttrib::spec_from_color16(r.0.style.spec_fg(), t.style.spec_bg()),
            ..r.0
        },
        r.1,
    )
}

/// Printing against the error background: the red background holds for
/// the duration of the call, then the prior background returns.
pub fn eprint(t: &mut TTY, screen: &mut ScreenBuffer, text: &str)
    requires
        old(t).wf(),
        old(screen).wf(),
    ensures
        final(t).wf(),
        final(screen).wf(),
        final(t)@ == spec_eprint(old(t)@, old(screen).data@, spec_bytes_of(text@)).0,
        final(screen).data@ == spec_eprint(old(t)@, old(screen).data@, spec_bytes_of(text@)).1,
{
    let prior = t.style().bg();
    t.set_bg(Color16::Red);
    t.print_str(screen, text);
    t.set_bg(prior);
}

/// A line feed fed with the cursor on the bottom row shifts every row up
/// by one, blanks the new bottom row with the current style, and discards
/// the top row's prior content; the cursor returns to column 0 with the
/// row held at the bottom margin.
pub proof fn lemma_bottom_newline_scrolls(t: TtyModel, s: Seq<Character>)
    requires
        t.parser is Ground,
        t.row == 24,
        s.len() == 2000,
    ensures
        spec_step(t, s, 0x0A).0 == (TtyModel { column: 0, ..t }),
        forall|x: int, y: int|
            0 <= x < 80 && 0 <= y < 24 ==> spec_step(t, s, 0x0A).1[cell_index(x, y)] == s[cell_index(
                x,
                y + 1,
            )],
        forall|x: int|
            0 <= x < 80 ==> spec_step(t, s, 0x0A).1[cell_index(x, 24)] == blank_cell(t.style),
{
    assert(!printable(0x0A as char));
    assert(0x0A as char == '\n');
    let scrolled = spec_scrolled(s, t.style);
    assert forall|x: int, y: int| 0 <= x < 80 && 0 <= y < 24 implies scrolled[cell_index(x, y)]
        == s[cell_index(x, y + 1)] by {
        assert(0 <= y * 80 + x < 1920);
        assert(cell_index(x, y + 1) == y * 80 + x + 80);
    }
    assert forall|x: int| 0 <= x < 80 implies scrolled[cell_index(x, 24)] == blank_cell(
        t.style,
    ) by {
        assert(1920 <= 24 * 80 + x < 2000);
    }
}

/// A run of printable bytes in ground mode, short enough to reach the
/// width at most exactly: the glyphs land left to right on the cursor's
/// row in the current style, nothing else changes, and the cursor either
/// advances within the row or, on reaching the width, wraps to the start
/// of the next row.
pub proof fn lemma_printable_run(t: TtyModel, s: Seq<Character>, bs: Seq<u8>)
    requires
        t.parser is Ground,
        s.len() == 2000,
        0 <= t.column,
        0 <= t.row < 24,
        t.column + bs.len() <= 80,
        forall|j: int| 0 <= j < bs.len() ==> 0x20 <= #[trigger] bs[j] <= 0x7E,
    ensures
        ({
            let r = spec_run(t, s, bs);
            &&& r.0.style == t.style
            &&& r.0.parser is Ground
            &&& r.1.len() == 2000
            &&& (t.column + bs.len() < 80 ==> r.0.column == t.column + bs.len() && r.0.row
                == t.row)
            &&& (t.column + bs.len() == 80 && bs.len() > 0 ==> r.0.column == 0 && r.0.row == t.row
                + 1)
            &&& (forall|j: int|
                0 <= j < bs.len() ==> r.1[cell_index(t.column + j, t.row)] == (Character {
                    code_point: bs[j],
                    color: t.style,
                }))
            &&& (forall|i: int|
                0 <= i < 2000 && !(t.row * 80 + t.column <= i < t.row * 80 + t.column + bs.len())
                    ==> r.1[i] == s[i])
        }),
    decreases bs.len(),
{
    if bs.len() == 0 {
    } else {
        let b = bs.first();
        assert(0x20 <= b <= 0x7E);
        let c = b as char;
        assert(printable(c));
        assert(c as u8 == b);
        let idx = cell_index(t.column, t.row);
        let glyph = Character { code_point: b, color: t.style };
        let s1 = s.update(idx, glyph);
        assert(0 <= idx < 1920);
        let r = spec_run(t, s, bs);
        if t.column + 1 < 80 {
            let t1 = TtyModel { column: t.column + 1, ..t };
            assert(spec_step(t, s, b) == (t1, s1));
            lemma_printable_run(t1, s1, bs.drop_first());
            let r1 = spec_run(t1, s1, bs.drop_first());
            assert(r == r1);
            assert forall|j: int| 0 <= j < bs.len() implies r.1[cell_index(t.column + j, t.row)]
                == (Character { code_point: bs[j], color: t.style }) by {
                if j == 0 {
                    assert(!(t.row * 80 + t1.column <= idx < t.row * 80 + t1.column + bs.len()
                        - 1));
                    assert(r1.1[idx] == s1[idx]);
                } else {
                    assert(bs.drop_first()[j - 1] == bs[j]);
                    assert(r1.1[cell_index(t1.column + (j - 1), t.row)] == (Character {
                        code_point: bs.drop_first()[j - 1],
                        color: t.style,
                    }));
                    assert(cell_index(t1.column + (j - 1), t.row) == cell_index(
                        t.column + j,
                        t.row,
                    ));
                }
            }
            assert forall|i: int|
                0 <= i < 2000 && !(t.row * 80 + t.column <= i < t.row * 80 + t.column
                    + bs.len()) implies r.1[i] == s[i] by {
                assert(!(t.row * 80 + t1.column <= i < t.row * 80 + t1.column + bs.len() - 1));
                assert(r1.1[i] == s1[i]);
                assert(i != idx);
            }
        } else {
            // The glyph lands in the last cell of the row and the cursor
            // wraps; the width bound forces this byte to be the last.
            assert(t.column == 79);
            assert(bs.len() == 1);
            let t1 = TtyModel { column: 0, row: t.row + 1, ..t };
            assert(spec_newline(TtyModel { column: t.column, ..t }, s1) == (t1, s1));
            assert(spec_step(t, s, b) == (t1, s1));
            let stepped = spec_step(t, s, bs.first());
            assert(bs.drop_first() =~= Seq::<u8>::empty());
            assert(spec_run(stepped.0, stepped.1, Seq::<u8>::empty()) == (stepped.0, stepped.1));
            assert(spec_run(t, s, bs) == spec_run(stepped.0, stepped.1, bs.drop_first()));
            assert(r == (t1, s1));
        }
    }
}

/// Writing 80 printable bytes from the start of a row advances through
/// exactly one implicit wrap — the row increments by one and the column
/// returns to 0 — and an 81st printable byte lands at the start of that
/// next row.
pub proof fn lemma_line_wrap(t: TtyModel, s: Seq<Character>, bs: Seq<u8>, b: u8)
    requires
        t.parser is Ground,
        s.len() == 2000,
        t.column == 0,
        0 <= t.row < 24,
        bs.len() == 80,
        forall|j: int| 0 <= j < 80 ==> 0x20 <= #[trigger] bs[j] <= 0x7E,
        0x20 <= b <= 0x7E,
    ensures
        spec_run(t, s, bs).0.column == 0,
        spec_run(t, s, bs).0.row == t.row + 1,
        spec_run(t, s, bs.push(b)).0.column == 1,
        spec_run(t, s, bs.push(b)).0.row == t.row + 1,
        spec_run(t, s, bs.push(b)).1[cell_index(0, t.row + 1)] == (Character {
            code_point: b,
            color: t.style,
        }),
{
    lemma_printable_run(t, s, bs);
    lemma_run_snoc(t, s, bs, b);
    let r = spec_run(t, s, bs);
    let c = b as char;
    assert(printable(c));
    assert(c as u8 == b);
    let idx = cell_index(0, t.row + 1);
    assert(0 <= idx < 2000);
    assert(spec_run(t, s, bs.push(b)) == spec_step(r.0, r.1, b));
    assert(spec_step(r.0, r.1, b).1 == r.1.update(idx, Character { code_point: b, color: t.style }));
}

} // verus!
