use colonel::err::{Axis, KernelError};
use colonel::vga::{height, width, Character, Color16, ColorAttrib, ScreenBuffer};

#[test]
fn dimensions_are_fixed() {
    assert_eq!(width(), 80);
    assert_eq!(height(), 25);
}

#[test]
fn put_then_get_round_trips_every_cell() {
    let mut screen = ScreenBuffer::new();
    for y in 0usize..25 {
        for x in 0usize..80 {
            let cell = Character::new('Q', ColorAttrib::new(((x + y) % 256) as u8));
            assert_eq!(screen.put_char(x, y, cell), Ok(()));
            assert_eq!(screen.char(x, y), Ok(cell));
        }
    }
}

#[test]
fn out_of_range_x_is_reported_first() {
    let mut screen = ScreenBuffer::new();
    let cell = Character::new('Z', ColorAttrib::new(7));
    for (x, y) in [(80usize, 0usize), (81, 10), (200, 30), (80, 25)] {
        assert_eq!(
            screen.put_char(x, y, cell),
            Err(KernelError::CoordinateOutOfRange { axis: Axis::X, value: x })
        );
        assert_eq!(
            screen.char(x, y),
            Err(KernelError::CoordinateOutOfRange { axis: Axis::X, value: x })
        );
    }
}

#[test]
fn out_of_range_y_is_reported_when_x_is_valid() {
    let mut screen = ScreenBuffer::new();
    let cell = Character::new('Z', ColorAttrib::new(7));
    for (x, y) in [(0usize, 25usize), (79, 26), (40, 1000)] {
        assert_eq!(
            screen.put_char(x, y, cell),
            Err(KernelError::CoordinateOutOfRange { axis: Axis::Y, value: y })
        );
        assert_eq!(
            screen.char(x, y),
            Err(KernelError::CoordinateOutOfRange { axis: Axis::Y, value: y })
        );
    }
}

#[test]
fn out_of_range_writes_leave_the_grid_alone() {
    let mut screen = ScreenBuffer::new();
    let marker = Character::new('M', ColorAttrib::new(0x1F));
    assert_eq!(screen.put_char(0, 0, marker), Ok(()));
    let _ = screen.put_char(80, 0, Character::new('X', ColorAttrib::new(1)));
    let _ = screen.put_char(0, 25, Character::new('X', ColorAttrib::new(1)));
    assert_eq!(screen.char(0, 0), Ok(marker));
}

#[test]
fn packing_then_unpacking_returns_every_pair() {
    for f in 0u8..16 {
        for b in 0u8..16 {
            let fg = Color16::from(f);
            let bg = Color16::from(b);
            let attrib = ColorAttrib::from_color16(fg, bg);
            assert_eq!(attrib.fg(), fg);
            assert_eq!(attrib.bg(), bg);
            assert_eq!(attrib.as_u8(), (b << 4) | f);
        }
    }
}

#[test]
fn palette_indices_round_trip() {
    for v in 0u8..16 {
        assert_eq!(Color16::from(v).as_u8(), v);
    }
}

#[test]
fn ansi_codes_name_the_fixed_table() {
    assert_eq!(Color16::from_ansi(30), Color16::Black);
    assert_eq!(Color16::from_ansi(31), Color16::Red);
    assert_eq!(Color16::from_ansi(32), Color16::Green);
    assert_eq!(Color16::from_ansi(33), Color16::Brown);
    assert_eq!(Color16::from_ansi(34), Color16::Blue);
    assert_eq!(Color16::from_ansi(35), Color16::Magenta);
    assert_eq!(Color16::from_ansi(36), Color16::Cyan);
    assert_eq!(Color16::from_ansi(37), Color16::LightGray);
    assert_eq!(Color16::from_ansi(90), Color16::DarkGray);
    assert_eq!(Color16::from_ansi(91), Color16::LightRed);
    assert_eq!(Color16::from_ansi(92), Color16::LightGreen);
    assert_eq!(Color16::from_ansi(93), Color16::Yellow);
    assert_eq!(Color16::from_ansi(94), Color16::LightBlue);
    assert_eq!(Color16::from_ansi(95), Color16::Pink);
    assert_eq!(Color16::from_ansi(96), Color16::LightCyan);
    assert_eq!(Color16::from_ansi(97), Color16::White);
    assert_eq!(Color16::from_ansi(38), Color16::Black);
    assert_eq!(Color16::from_ansi(0), Color16::Black);
}

#[test]
fn characters_keep_their_code_point_and_color() {
    let attrib = ColorAttrib::from_color16(Color16::Yellow, Color16::Red);
    let c = Character::new('K', attrib);
    assert_eq!(c.code_point(), 'K');
    assert_eq!(c.color().as_u8(), attrib.as_u8());
}
