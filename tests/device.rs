use spinning_top::Spinlock;
use vga::colors::{Color16Bit, TextModeColor};
use vga::modes::{mode_register_table, MemoryLayout, VideoMode};
use vga::registers::{RegisterBank, Registers};
use vga::vga::{FrameBufferLayout, FONT_SIZE, PALETTE_SIZE};
use vga::writers::{ScreenCharacter, WriteError, BLANK_ATTRIBUTE, BLANK_CHARACTER};
use vga::{Graphics640x480x16, Text40x25, Text40x50, Text80x25, Vga};

fn default_palette() -> Vec<u8> {
    (0..PALETTE_SIZE).map(|i| (i % 64) as u8).collect()
}

fn default_font() -> Vec<u8> {
    (0..FONT_SIZE).map(|i| (i * 7 % 256) as u8).collect()
}

fn device() -> Vga {
    Vga::new(default_palette(), default_font())
}

#[test]
fn it_works() {
    assert_eq!(2 + 2, 4);
}

#[test]
fn layout_matches_each_mode() {
    let mut vga = device();
    let cases = [
        (VideoMode::Mode40x25, 0xB8000, 40, 25, MemoryLayout::CharacterCell),
        (VideoMode::Mode40x50, 0xB8000, 40, 50, MemoryLayout::CharacterCell),
        (VideoMode::Mode80x25, 0xB8000, 80, 25, MemoryLayout::CharacterCell),
        (VideoMode::Mode640x480x16, 0xA0000, 640, 480, MemoryLayout::Planar),
    ];
    for (mode, address, width, height, layout) in cases {
        vga.apply_mode(mode);
        assert_eq!(
            vga.frame_buffer_base(),
            FrameBufferLayout { address, width, height, layout }
        );
        assert_eq!(vga.mode(), mode);
    }
}

#[test]
fn switch_never_shows_previous_geometry() {
    let mut vga = device();
    vga.apply_mode(VideoMode::Mode640x480x16);
    vga.apply_mode(VideoMode::Mode40x50);
    let layout = vga.frame_buffer_base();
    assert_eq!((layout.width, layout.height), (40, 50));
    assert_eq!(layout.address, 0xB8000);
    vga.apply_mode(VideoMode::Mode640x480x16);
    let layout = vga.frame_buffer_base();
    assert_eq!((layout.width, layout.height), (640, 480));
    assert_eq!(layout.address, 0xA0000);
}

#[test]
fn apply_mode_writes_whole_table_even_when_locked() {
    let mut vga = device();
    // the power-on mode leaves the CRTC protect bit set
    vga.apply_mode(VideoMode::Mode80x25);
    vga.apply_mode(VideoMode::Mode40x25);
    let table = mode_register_table(VideoMode::Mode40x25);
    assert_eq!(table.len(), 61);
    assert_eq!(table[0], 0x2D);
    assert_eq!(table[17], 0x8E);
    assert_eq!(table[60], 0x67);
}

#[test]
fn protected_register_ignores_writes_while_locked() {
    let mut regs = Registers::new();
    regs.write(RegisterBank::Crtc, 0, 0x5F);
    assert_eq!(regs.read(RegisterBank::Crtc, 0), 0x5F);
    regs.set_bits(RegisterBank::Crtc, 0x11, 0x80, 0xFF);
    assert_eq!(regs.read(RegisterBank::Crtc, 0x11), 0x80);
    regs.write(RegisterBank::Crtc, 0, 0x2D);
    assert_eq!(regs.read(RegisterBank::Crtc, 0), 0x5F);
    regs.write(RegisterBank::Crtc, 8, 0x12);
    assert_eq!(regs.read(RegisterBank::Crtc, 8), 0x12);
    regs.set_bits(RegisterBank::Crtc, 0x11, 0x80, 0x00);
    regs.write(RegisterBank::Crtc, 0, 0x2D);
    assert_eq!(regs.read(RegisterBank::Crtc, 0), 0x2D);
}

#[test]
fn set_bits_keeps_other_bits() {
    let mut regs = Registers::new();
    regs.write(RegisterBank::Graphics, 6, 0b1010_0101);
    regs.set_bits(RegisterBank::Graphics, 6, 0b0000_1100, 0b0000_1000);
    assert_eq!(regs.read(RegisterBank::Graphics, 6), 0b1010_1001);
    assert_eq!(regs.read(RegisterBank::General, 0), 0);
}

#[test]
fn palette_round_trip_of_256_distinct_entries() {
    let mut vga = device();
    let palette: Vec<u8> = (0..PALETTE_SIZE).map(|i| (i / 3) as u8).collect();
    vga.load_palette(&palette);
    assert_eq!(vga.read_palette(), palette);
}

#[test]
fn partial_palette_keeps_later_entries() {
    let mut vga = device();
    vga.load_default_palette();
    vga.load_palette(&[1, 2, 3, 4, 5, 6]);
    let read = vga.read_palette();
    assert_eq!(&read[..6], &[1, 2, 3, 4, 5, 6]);
    assert_eq!(read[6..], default_palette()[6..]);
}

#[test]
fn font_rows_land_in_their_glyphs() {
    let mut vga = device();
    vga.apply_mode(VideoMode::Mode40x25);
    let before = vga.frame_buffer_base();
    let font: Vec<u8> = (0..FONT_SIZE).map(|i| (i % 251) as u8).collect();
    vga.load_font(&font);
    assert_eq!(vga.read_glyph_row(0, 0), font[0]);
    assert_eq!(vga.read_glyph_row(b'A', 5), font[65 * 16 + 5]);
    assert_eq!(vga.read_glyph_row(255, 15), font[255 * 16 + 15]);
    // the memory access registers are back as they were
    assert_eq!(vga.frame_buffer_base(), before);
}

#[test]
fn text_writer_sets_mode_palette_and_font() {
    let mut vga = device();
    vga.apply_mode(VideoMode::Mode640x480x16);
    let text = Text80x25::new();
    text.set_mode(&mut vga);
    assert_eq!(vga.mode(), VideoMode::Mode80x25);
    assert_eq!(vga.read_palette(), default_palette());
    assert_eq!(vga.read_glyph_row(3, 4), default_font()[3 * 16 + 4]);
    assert_eq!((text.get_width(), text.get_height()), (80, 25));
}

#[test]
fn text_40x50_set_mode_only_switches() {
    let mut vga = device();
    let text = Text40x50::new();
    text.set_mode(&mut vga);
    assert_eq!(vga.mode(), VideoMode::Mode40x50);
    assert_eq!(vga.read_palette(), vec![0u8; PALETTE_SIZE]);
    assert_eq!(vga.read_glyph_row(3, 4), 0);
}

#[test]
fn character_round_trip_at_corners() {
    let mut vga = device();
    let text = Text40x50::new();
    text.set_mode(&mut vga);
    let c = ScreenCharacter::new(b'Q', Color16Bit::LightCyan, Color16Bit::Red);
    for (x, y) in [(0, 0), (39, 0), (0, 49), (39, 49), (17, 23)] {
        text.write_character(&mut vga, x, y, c);
        assert_eq!(text.read_character(&vga, x, y), c);
    }
}

#[test]
fn out_of_bounds_write_changes_nothing() {
    let mut vga = device();
    let text = Text40x25::new();
    text.set_mode(&mut vga);
    text.clear_screen(&mut vga);
    let sentinel = ScreenCharacter::new(b'S', Color16Bit::White, Color16Bit::Blue);
    text.write_character(&mut vga, 39, 24, sentinel);
    text.write_character(&mut vga, 0, 1, sentinel);
    let c = ScreenCharacter::new(b'X', Color16Bit::Green, Color16Bit::Black);
    assert_eq!(text.try_write_character(&mut vga, 40, 0, c), Err(WriteError::OutOfBounds));
    assert_eq!(text.try_write_character(&mut vga, 0, 25, c), Err(WriteError::OutOfBounds));
    assert_eq!(text.read_character(&vga, 39, 24), sentinel);
    assert_eq!(text.read_character(&vga, 0, 1), sentinel);
    assert_eq!(text.read_character(&vga, 39, 0).character, BLANK_CHARACTER);
}

#[test]
fn write_in_wrong_mode_is_refused() {
    let mut vga = device();
    let text = Text40x25::new();
    let c = ScreenCharacter::new(b'X', Color16Bit::Green, Color16Bit::Black);
    assert_eq!(text.try_write_character(&mut vga, 0, 0, c), Err(WriteError::ModeMismatch));
    assert_eq!(text.read_character(&vga, 0, 0).character, 0);
    text.set_mode(&mut vga);
    assert_eq!(text.try_write_character(&mut vga, 0, 0, c), Ok(()));
    assert_eq!(text.read_character(&vga, 0, 0), c);
}

#[test]
fn text_color_packs_background_high() {
    let color = TextModeColor::new(Color16Bit::Yellow, Color16Bit::Black);
    assert_eq!(color.value, 0x0E);
    assert_eq!(color.value, BLANK_ATTRIBUTE);
    let color = TextModeColor::new(Color16Bit::White, Color16Bit::Blue);
    assert_eq!(color.value, 0x1F);
}

#[test]
fn end_to_end_40x25() {
    let mut vga = device();
    let text = Text40x25::new();
    text.set_mode(&mut vga);
    text.clear_screen(&mut vga);
    let t = ScreenCharacter::new(b'T', Color16Bit::Yellow, Color16Bit::Black);
    text.write_character(&mut vga, 0, 0, t);
    let read = text.read_character(&vga, 0, 0);
    assert_eq!(read.character, b'T');
    assert_eq!(read.color, TextModeColor::new(Color16Bit::Yellow, Color16Bit::Black));
    let blank = text.read_character(&vga, 1, 0);
    assert_eq!(blank.character, b' ');
    assert_eq!(blank.color.value, 0x0E);
}

#[test]
fn clear_screen_covers_exactly_the_screen() {
    let mut vga = device();
    let text = Text80x25::new();
    text.set_mode(&mut vga);
    text.clear_screen(&mut vga);
    for (x, y) in [(0, 0), (79, 0), (0, 24), (79, 24)] {
        let c = text.read_character(&vga, x, y);
        assert_eq!((c.character, c.color.value), (BLANK_CHARACTER, BLANK_ATTRIBUTE));
    }
}

#[test]
fn pixel_round_trip_every_color() {
    let mut vga = device();
    let g = Graphics640x480x16::new();
    g.set_mode(&mut vga);
    let colors = [
        Color16Bit::Black,
        Color16Bit::Blue,
        Color16Bit::Green,
        Color16Bit::Cyan,
        Color16Bit::Red,
        Color16Bit::Magenta,
        Color16Bit::Brown,
        Color16Bit::LightGrey,
        Color16Bit::DarkGrey,
        Color16Bit::LightBlue,
        Color16Bit::LightGreen,
        Color16Bit::LightCyan,
        Color16Bit::LightRed,
        Color16Bit::Pink,
        Color16Bit::Yellow,
        Color16Bit::White,
    ];
    for (i, color) in colors.iter().enumerate() {
        let x = 3 + 37 * i;
        g.write_pixel(&mut vga, x, 479 - i, *color);
        assert_eq!(g.read_pixel(&vga, x, 479 - i), i as u8);
    }
    // neighbours in the same byte keep their colors
    g.write_pixel(&mut vga, 8, 0, Color16Bit::White);
    g.write_pixel(&mut vga, 9, 0, Color16Bit::Red);
    assert_eq!(g.read_pixel(&vga, 8, 0), 15);
    assert_eq!(g.read_pixel(&vga, 9, 0), 4);
    assert_eq!(g.read_pixel(&vga, 10, 0), 0);
}

#[test]
fn pixel_out_of_bounds_is_refused() {
    let mut vga = device();
    let g = Graphics640x480x16::new();
    assert_eq!(
        g.try_write_pixel(&mut vga, 0, 0, Color16Bit::Red),
        Err(WriteError::ModeMismatch)
    );
    g.set_mode(&mut vga);
    g.write_pixel(&mut vga, 639, 479, Color16Bit::Pink);
    assert_eq!(
        g.try_write_pixel(&mut vga, 640, 479, Color16Bit::Red),
        Err(WriteError::OutOfBounds)
    );
    assert_eq!(
        g.try_write_pixel(&mut vga, 639, 480, Color16Bit::Red),
        Err(WriteError::OutOfBounds)
    );
    assert_eq!(g.read_pixel(&vga, 639, 479), 13);
    assert_eq!(g.try_write_pixel(&mut vga, 1, 1, Color16Bit::Red), Ok(()));
    assert_eq!(g.read_pixel(&vga, 1, 1), 4);
    assert_eq!((g.get_width(), g.get_height()), (640, 480));
}

#[test]
fn graphics_clear_screen_fills_every_pixel() {
    let mut vga = device();
    let g = Graphics640x480x16::new();
    g.set_mode(&mut vga);
    g.clear_screen(&mut vga, Color16Bit::LightGreen);
    for (x, y) in [(0, 0), (639, 0), (0, 479), (639, 479), (321, 200)] {
        assert_eq!(g.read_pixel(&vga, x, y), 10);
    }
    assert_eq!(vga.read_palette(), default_palette());
}

#[test]
fn acquisition_is_mutually_exclusive() {
    let device = Spinlock::new(device());
    let first = device.try_lock();
    assert!(first.is_some());
    assert!(device.try_lock().is_none());
    let mut guard = first.unwrap();
    Text40x25::new().set_mode(&mut guard);
    drop(guard);
    let second = device.try_lock();
    assert!(second.is_some());
    assert_eq!(second.unwrap().mode(), VideoMode::Mode40x25);
}
