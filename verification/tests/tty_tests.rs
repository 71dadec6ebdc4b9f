use colonel::csi::{ColorBg, ColorFg};
use colonel::port::PortOp;
use colonel::tty::{eprint, print, TTY};
use colonel::vga::{Character, Color16, ColorAttrib, ScreenBuffer};

fn fresh() -> (TTY, ScreenBuffer) {
    (TTY::new(), ScreenBuffer::new())
}

fn cell(screen: &ScreenBuffer, x: usize, y: usize) -> Character {
    screen.char(x, y).unwrap()
}

#[test]
fn new_terminal_is_white_on_blue_at_the_origin() {
    let (t, _) = fresh();
    assert_eq!(t.column(), 0);
    assert_eq!(t.row(), 0);
    assert_eq!(t.style().as_u8(), 0x1F);
    assert_eq!(t.style().fg(), Color16::White);
    assert_eq!(t.style().bg(), Color16::Blue);
}

#[test]
fn green_sgr_then_a_glyph_lands_in_green() {
    let (mut t, mut screen) = fresh();
    t.print_str(&mut screen, "\x1b[32m");
    assert_eq!(t.style().fg(), Color16::Green);
    assert_eq!(t.style().bg(), Color16::Blue);
    t.print_str(&mut screen, "A");
    let c = cell(&screen, 0, 0);
    assert_eq!(c.code_point(), 'A');
    assert_eq!(c.color().fg(), Color16::Green);
    assert_eq!(c.color().bg(), Color16::Blue);
}

#[test]
fn sgr_zero_resets_to_the_default_pair() {
    let (mut t, mut screen) = fresh();
    t.print_str(&mut screen, "\x1b[32m\x1b[44m");
    assert_ne!(t.style().as_u8(), 0x1F);
    t.print_str(&mut screen, "\x1b[0m");
    assert_eq!(t.style().as_u8(), 0x1F);
    assert_eq!(t.style().fg(), Color16::White);
    assert_eq!(t.style().bg(), Color16::Blue);
}

#[test]
fn sgr_parameters_apply_in_order_and_later_ones_win() {
    let (mut t, mut screen) = fresh();
    t.print_str(&mut screen, "\x1b[31;32m");
    assert_eq!(t.style().fg(), Color16::Green);
    t.print_str(&mut screen, "\x1b[41m");
    assert_eq!(t.style().bg(), Color16::Red);
    assert_eq!(t.style().fg(), Color16::Green);
    t.print_str(&mut screen, "\x1b[99m");
    assert_eq!(t.style().fg(), Color16::Green);
    assert_eq!(t.style().bg(), Color16::Red);
}

#[test]
fn filling_the_screen_then_a_newline_scrolls_everything_up() {
    let (mut t, mut screen) = fresh();
    // fill all 25 rows through the driver with a distinct letter per row
    for y in 0usize..25 {
        for x in 0usize..80 {
            let glyph = Character::new((b'A' + y as u8) as char, ColorAttrib::new(0x1F));
            screen.put_char(x, y, glyph).unwrap();
        }
    }
    t.set_row(24);
    t.set_column(3);
    t.print_char(&mut screen, '\n');
    assert_eq!(t.row(), 24);
    assert_eq!(t.column(), 0);
    // every row moved up one; row 0's prior content ('A') is gone
    for y in 0usize..24 {
        for x in 0usize..80 {
            assert_eq!(cell(&screen, x, y).code_point(), (b'A' + (y + 1) as u8) as char);
        }
    }
    // the new bottom row is blank in the current style
    for x in 0usize..80 {
        let c = cell(&screen, x, 24);
        assert_eq!(c.code_point(), ' ');
        assert_eq!(c.color().as_u8(), 0x1F);
    }
}

#[test]
fn eighty_glyphs_wrap_exactly_once_and_the_next_lands_on_the_new_row() {
    let (mut t, mut screen) = fresh();
    let line: String = std::iter::repeat('x').take(80).collect();
    t.print_str(&mut screen, &line);
    assert_eq!(t.row(), 1);
    assert_eq!(t.column(), 0);
    t.print_str(&mut screen, "y");
    assert_eq!(t.row(), 1);
    assert_eq!(t.column(), 1);
    assert_eq!(cell(&screen, 0, 1).code_point(), 'y');
    assert_eq!(cell(&screen, 79, 0).code_point(), 'x');
}

#[test]
fn carriage_return_only_resets_the_column() {
    let (mut t, mut screen) = fresh();
    t.print_str(&mut screen, "abc\rd");
    assert_eq!(t.row(), 0);
    assert_eq!(t.column(), 1);
    assert_eq!(cell(&screen, 0, 0).code_point(), 'd');
    assert_eq!(cell(&screen, 1, 0).code_point(), 'b');
}

#[test]
fn newline_below_the_margin_moves_down_one_row() {
    let (mut t, mut screen) = fresh();
    t.print_str(&mut screen, "ab\ncd");
    assert_eq!(cell(&screen, 0, 0).code_point(), 'a');
    assert_eq!(cell(&screen, 0, 1).code_point(), 'c');
    assert_eq!(t.row(), 1);
    assert_eq!(t.column(), 2);
}

#[test]
fn cursor_moves_follow_the_single_parameter() {
    let (mut t, mut screen) = fresh();
    t.print_str(&mut screen, "\x1b[5B");
    assert_eq!(t.row(), 5);
    t.print_str(&mut screen, "\x1b[2A");
    assert_eq!(t.row(), 3);
    t.print_str(&mut screen, "\x1b[10C");
    assert_eq!(t.column(), 10);
    t.print_str(&mut screen, "\x1b[4D");
    assert_eq!(t.column(), 6);
}

#[test]
fn cursor_moves_clamp_at_the_edges() {
    let (mut t, mut screen) = fresh();
    t.print_str(&mut screen, "\x1b[99A");
    assert_eq!(t.row(), 0);
    t.print_str(&mut screen, "\x1b[99B");
    assert_eq!(t.row(), 24);
    t.print_str(&mut screen, "\x1b[999C");
    assert_eq!(t.column(), 79);
    t.print_str(&mut screen, "\x1b[999D");
    assert_eq!(t.column(), 0);
}

#[test]
fn a_cursor_move_without_parameters_moves_by_zero() {
    let (mut t, mut screen) = fresh();
    t.print_str(&mut screen, "\x1b[5B\x1b[B");
    assert_eq!(t.row(), 5);
}

#[test]
fn an_invalid_escape_resets_without_side_effects() {
    let (mut t, mut screen) = fresh();
    t.print_str(&mut screen, "\x1bZA");
    assert_eq!(cell(&screen, 0, 0).code_point(), 'A');
    assert_eq!(t.column(), 1);
}

#[test]
fn an_invalid_byte_inside_a_sequence_abandons_it() {
    let (mut t, mut screen) = fresh();
    t.print_str(&mut screen, "\x1b[31\x08B");
    // the sequence died on the control byte; 'B' prints as a glyph
    assert_eq!(cell(&screen, 0, 0).code_point(), 'B');
    assert_eq!(t.style().fg(), Color16::White);
}

#[test]
fn the_hardware_cursor_follows_the_logical_position() {
    let (mut t, mut screen) = fresh();
    t.set_row(1);
    t.set_column(5);
    let ops = t.update_cursor();
    assert_eq!(
        ops,
        vec![
            PortOp::Out { port: 0x3D4, value: 0x0F },
            PortOp::Out { port: 0x3D5, value: 85 },
            PortOp::Out { port: 0x3D4, value: 0x0E },
            PortOp::Out { port: 0x3D5, value: 0 },
        ]
    );
    t.set_row(24);
    t.set_column(79);
    let ops = t.update_cursor();
    assert_eq!(ops[1], PortOp::Out { port: 0x3D5, value: ((24 * 80 + 79) % 256) as u8 });
    assert_eq!(ops[3], PortOp::Out { port: 0x3D5, value: ((24 * 80 + 79) / 256) as u8 });
}

#[test]
fn print_feeds_the_stream_through_the_emulator() {
    let (mut t, mut screen) = fresh();
    print(&mut t, &mut screen, "hi");
    assert_eq!(cell(&screen, 0, 0).code_point(), 'h');
    assert_eq!(cell(&screen, 1, 0).code_point(), 'i');
}

#[test]
fn eprint_renders_on_red_and_restores_the_prior_background() {
    let (mut t, mut screen) = fresh();
    eprint(&mut t, &mut screen, "E");
    let c = cell(&screen, 0, 0);
    assert_eq!(c.code_point(), 'E');
    assert_eq!(c.color().bg(), Color16::Red);
    assert_eq!(c.color().fg(), Color16::White);
    assert_eq!(t.style().bg(), Color16::Blue);
}

#[test]
fn setters_and_getters_agree() {
    let (mut t, _) = fresh();
    t.set_fg(Color16::Yellow);
    assert_eq!(t.style().fg(), Color16::Yellow);
    assert_eq!(t.style().bg(), Color16::Blue);
    t.set_bg(Color16::Green);
    assert_eq!(t.style().bg(), Color16::Green);
    assert_eq!(t.style().fg(), Color16::Yellow);
    t.set_row(7);
    t.set_column(11);
    assert_eq!(t.row(), 7);
    assert_eq!(t.column(), 11);
}

#[test]
fn multi_digit_parameters_accumulate() {
    let (mut t, mut screen) = fresh();
    t.print_str(&mut screen, "\x1b[12B");
    assert_eq!(t.row(), 12);
    t.print_str(&mut screen, "\x1b[1C\x1b[23C");
    assert_eq!(t.column(), 24);
}

#[test]
fn an_oversized_parameter_saturates_and_clamps() {
    let (mut t, mut screen) = fresh();
    t.print_str(&mut screen, "\x1b[99999999999B");
    assert_eq!(t.row(), 24);
    assert_eq!(t.column(), 0);
}

#[test]
fn a_sequence_split_across_calls_still_dispatches() {
    let (mut t, mut screen) = fresh();
    t.print_str(&mut screen, "\x1b[3");
    t.print_str(&mut screen, "2m");
    assert_eq!(t.style().fg(), Color16::Green);
}

#[test]
fn ansi_enum_codes_map_into_the_hardware_palette() {
    assert_eq!(ColorFg::Green.as_color16(), Color16::Green);
    assert_eq!(ColorFg::White.as_color16(), Color16::White);
    assert_eq!(ColorFg::Black.as_color16(), Color16::Black);
    assert_eq!(ColorFg::DarkGray.as_color16(), Color16::DarkGray);
    assert_eq!(ColorBg::Black.as_color16(), Color16::Black);
    assert_eq!(ColorBg::Green.as_color16(), Color16::Green);
    assert_eq!(ColorBg::White.as_color16(), Color16::White);
}
