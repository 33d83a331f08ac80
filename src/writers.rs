//! Writers for each fixed screen geometry. Each takes the device that the
//! caller has exclusive access to, and checks nothing at run time that its
//! contract already demands.
use vstd::prelude::*;
use crate::colors::{Color16Bit, TextModeColor};
use crate::modes::{mode_registers, VideoMode};
use crate::vga::{
    cell, font_loaded, is_cell_byte, is_plane_byte, lemma_filled_pixel, pixel_color, switched,
    with_cell, with_pixel, Vga, VgaState, MAX_TEXT_CELLS, MEMORY_SIZE, PLANAR_PLANE_BYTES,
};

verus! {

/// One text cell: a character code and its attribute.
#[derive(Clone, Copy, Debug, PartialEq, Eq, Structural)]
pub struct ScreenCharacter {
    pub character: u8,
    pub color: TextModeColor,
}

impl ScreenCharacter {
    /// `character` in `foreground` on `background`.
    pub fn new(character: u8, foreground: Color16Bit, background: Color16Bit) -> (r:
        ScreenCharacter)
        ensures
            r.character == character,
            r.color.value == background.spec_index() * 16 + foreground.spec_index(),
    {
        ScreenCharacter { character, color: TextModeColor::new(foreground, background) }
    }
}

/// Why a checked write did nothing.
#[derive(Clone, Copy, Debug, PartialEq, Eq, Structural)]
pub enum WriteError {
    /// The coordinates lie outside the writer's geometry.
    OutOfBounds,
    /// The device is not in the writer's mode.
    ModeMismatch,
}

/// The attribute of a cleared cell: yellow on black.
pub const BLANK_ATTRIBUTE: u8 = 0x0E;

/// The character of a cleared cell.
pub const BLANK_CHARACTER: u8 = 0x20;

/// `new` is `old` switched to `mode`, with the default palette and the
/// default font loaded again.
pub open spec fn switched_with_defaults(old: VgaState, new: VgaState, mode: VideoMode) -> bool {
    &&& new.registers == mode_registers(mode)
    &&& new.mode == mode
    &&& new.palette == old.default_palette
    &&& font_loaded(old.memory, new.memory, old.default_font)
    &&& new.default_palette == old.default_palette
    &&& new.default_font == old.default_font
}

/// `new` is `old` with the first `count` text cells cleared and every other
/// byte kept.
pub open spec fn cleared(old: VgaState, new: VgaState, count: int) -> bool {
    &&& new == (VgaState { memory: new.memory, ..old })
    &&& new.memory.len() == old.memory.len()
    &&& forall|i: int|
        0 <= i < count ==> #[trigger] cell(new.memory, i) == (BLANK_CHARACTER, BLANK_ATTRIBUTE)
    &&& forall|k: int|
        0 <= k < old.memory.len() && !is_cell_byte(k, count) ==> new.memory[k] == old.memory[k]
}

/// `old` with `c` written to the text cell at (x, y) of a screen `width`
/// cells wide.
pub open spec fn character_written(
    old: VgaState,
    width: int,
    x: int,
    y: int,
    c: ScreenCharacter,
) -> VgaState {
    VgaState { memory: with_cell(old.memory, y * width + x, c.character, c.color.value), ..old }
}

/// The text cell at (x, y) of a screen `width` cells wide.
pub open spec fn character_at(s: VgaState, width: int, x: int, y: int) -> ScreenCharacter {
    let (character, attribute) = cell(s.memory, y * width + x);
    ScreenCharacter { character, color: TextModeColor { value: attribute } }
}

/// A character written at (x, y) is read back unchanged from (x, y), and
/// every other cell of the screen keeps what it held.
pub proof fn lemma_character_round_trip(s: VgaState, width: int, x: int, y: int, c: ScreenCharacter)
    requires
        s.wf(),
        0 <= x < width,
        0 <= y,
        y * width + x < MAX_TEXT_CELLS,
    ensures
        character_at(character_written(s, width, x, y, c), width, x, y) == c,
        forall|x2: int, y2: int|
            0 <= x2 < width && 0 <= y2 && y2 * width + x2 < MAX_TEXT_CELLS && (x2 != x || y2 != y)
                ==> #[trigger] character_at(character_written(s, width, x, y, c), width, x2, y2)
                == character_at(s, width, x2, y2),
{
    assert forall|x2: int, y2: int|
        0 <= x2 < width && 0 <= y2 && y2 * width + x2 < MAX_TEXT_CELLS && (x2 != x || y2 != y)
            implies #[trigger] character_at(character_written(s, width, x, y, c), width, x2, y2)
            == character_at(s, width, x2, y2) by {
        if y2 * width + x2 == y * width + x {
            if y2 < y {
                assert(y2 * width + width <= y * width) by (nonlinear_arith)
                    requires
                        y2 < y,
                        width > 0,
                ;
            } else if y2 > y {
                assert(y * width + width <= y2 * width) by (nonlinear_arith)
                    requires
                        y < y2,
                        width > 0,
                ;
            }
        }
    }
}

/// Switches to a text mode and reloads the default palette and font.
fn switch_with_defaults(vga: &mut Vga, mode: VideoMode)
    requires
        old(vga).inv(),
    ensures
        final(vga).inv(),
        switched_with_defaults(old(vga)@, final(vga)@, mode),
{
    vga.apply_mode(mode);
    vga.load_default_palette();
    vga.load_default_font();
}

/// Clears the first `count` text cells.
fn clear_cells(vga: &mut Vga, count: usize)
    requires
        old(vga).inv(),
        count <= MAX_TEXT_CELLS,
    ensures
        final(vga).inv(),
        cleared(old(vga)@, final(vga)@, count as int),
{
    vga.fill_text(count, BLANK_CHARACTER, BLANK_ATTRIBUTE);
}

/// Writes `c` to the text cell at (x, y) of a screen `width` cells wide.
fn put_character(vga: &mut Vga, width: usize, x: usize, y: usize, c: ScreenCharacter)
    requires
        old(vga).inv(),
        x < width,
        y * width + x < MAX_TEXT_CELLS,
    ensures
        final(vga).inv(),
        final(vga)@ == character_written(old(vga)@, width as int, x as int, y as int, c),
{
    vga.write_text_cell(y * width + x, c.character, c.color.value);
}

/// The text cell at (x, y) of a screen `width` cells wide.
fn get_character(vga: &Vga, width: usize, x: usize, y: usize) -> (r: ScreenCharacter)
    requires
        vga.inv(),
        x < width,
        y * width + x < MAX_TEXT_CELLS,
    ensures
        r == character_at(vga@, width as int, x as int, y as int),
{
    let (character, attribute) = vga.read_text_cell(y * width + x);
    ScreenCharacter { character, color: TextModeColor { value: attribute } }
}

/// A writer for text mode 40x25.
#[derive(Clone, Copy, Debug, Default)]
pub struct Text40x25;

impl Text40x25 {
    /// Creates a new `Text40x25`.
    pub fn new() -> (r: Text40x25) {
        Text40x25 {}
    }

    /// Columns: 40.
    pub fn get_width(&self) -> (w: usize)
        ensures
            w == 40,
    {
        40
    }

    /// Rows: 25.
    pub fn get_height(&self) -> (h: usize)
        ensures
            h == 25,
    {
        25
    }

    /// Switches the device to Mode40x25, then loads the default palette and
    /// the default font again, since some firmware disturbs them on a switch.
    pub fn set_mode(&self, vga: &mut Vga)
        requires
            old(vga).inv(),
        ensures
            final(vga).inv(),
            switched_with_defaults(old(vga)@, final(vga)@, VideoMode::Mode40x25),
    {
        switch_with_defaults(vga, VideoMode::Mode40x25);
    }

    /// Clears the 40 x 25 cells to a blank in yellow on black.
    pub fn clear_screen(&self, vga: &mut Vga)
        requires
            old(vga).inv(),
            old(vga)@.mode == VideoMode::Mode40x25,
        ensures
            final(vga).inv(),
            cleared(old(vga)@, final(vga)@, (40 * 25) as int),
    {
        clear_cells(vga, 40 * 25);
    }

    /// Writes `c` to cell (x, y).
    pub fn write_character(&self, vga: &mut Vga, x: usize, y: usize, c: ScreenCharacter)
        requires
            old(vga).inv(),
            old(vga)@.mode == VideoMode::Mode40x25,
            x < 40,
            y < 25,
        ensures
            final(vga).inv(),
            final(vga)@ == character_written(old(vga)@, 40, x as int, y as int, c),
    {
        put_character(vga, 40, x, y, c);
    }

    /// Writes `c` to cell (x, y) if it lies on the screen and the device is
    /// in this writer's mode; otherwise the device is left untouched.
    pub fn try_write_character(&self, vga: &mut Vga, x: usize, y: usize, c: ScreenCharacter) -> (r:
        Result<(), WriteError>)
        requires
            old(vga).inv(),
        ensures
            final(vga).inv(),
            (x >= 40 || y >= 25) ==> r == Err::<(), WriteError>(WriteError::OutOfBounds)
                && final(vga)@ == old(vga)@,
            (x < 40 && y < 25 && old(vga)@.mode != VideoMode::Mode40x25) ==> r == Err::<
                (),
                WriteError,
            >(WriteError::ModeMismatch) && final(vga)@ == old(vga)@,
            (x < 40 && y < 25 && old(vga)@.mode == VideoMode::Mode40x25) ==> r == Ok::<
                (),
                WriteError,
            >(()) && final(vga)@ == character_written(old(vga)@, 40, x as int, y as int, c),
    {
        if x >= 40 || y >= 25 {
            return Err(WriteError::OutOfBounds);
        }
        if vga.mode() != VideoMode::Mode40x25 {
            return Err(WriteError::ModeMismatch);
        }
        put_character(vga, 40, x, y, c);
        Ok(())
    }

    /// The cell at (x, y).
    pub fn read_character(&self, vga: &Vga, x: usize, y: usize) -> (r: ScreenCharacter)
        requires
            vga.inv(),
            x < 40,
            y < 25,
        ensures
            r == character_at(vga@, 40, x as int, y as int),
    {
        get_character(vga, 40, x, y)
    }
}

/// A writer for text mode 40x50.
#[derive(Clone, Copy, Debug, Default)]
pub struct Text40x50;

impl Text40x50 {
    /// Creates a new `Text40x50`.
    pub fn new() -> (r: Text40x50) {
        Text40x50 {}
    }

    /// Columns: 40.
    pub fn get_width(&self) -> (w: usize)
        ensures
            w == 40,
    {
        40
    }

    /// Rows: 50.
    pub fn get_height(&self) -> (h: usize)
        ensures
            h == 50,
    {
        50
    }

    /// Switches the device to Mode40x50.
    pub fn set_mode(&self, vga: &mut Vga)
        requires
            old(vga).inv(),
        ensures
            final(vga).inv(),
            final(vga)@ == switched(old(vga)@, VideoMode::Mode40x50),
    {
        vga.apply_mode(VideoMode::Mode40x50);
    }

    /// Clears the 40 x 50 cells to a blank in yellow on black.
    pub fn clear_screen(&self, vga: &mut Vga)
        requires
            old(vga).inv(),
            old(vga)@.mode == VideoMode::Mode40x50,
        ensures
            final(vga).inv(),
            cleared(old(vga)@, final(vga)@, (40 * 50) as int),
    {
        clear_cells(vga, 40 * 50);
    }

    /// Writes `c` to cell (x, y).
    pub fn write_character(&self, vga: &mut Vga, x: usize, y: usize, c: ScreenCharacter)
        requires
            old(vga).inv(),
            old(vga)@.mode == VideoMode::Mode40x50,
            x < 40,
            y < 50,
        ensures
            final(vga).inv(),
            final(vga)@ == character_written(old(vga)@, 40, x as int, y as int, c),
    {
        put_character(vga, 40, x, y, c);
    }

    /// Writes `c` to cell (x, y) if it lies on the screen and the device is
    /// in this writer's mode; otherwise the device is left untouched.
    pub fn try_write_character(&self, vga: &mut Vga, x: usize, y: usize, c: ScreenCharacter) -> (r:
        Result<(), WriteError>)
        requires
            old(vga).inv(),
        ensures
            final(vga).inv(),
            (x >= 40 || y >= 50) ==> r == Err::<(), WriteError>(WriteError::OutOfBounds)
                && final(vga)@ == old(vga)@,
            (x < 40 && y < 50 && old(vga)@.mode != VideoMode::Mode40x50) ==> r == Err::<
                (),
                WriteError,
            >(WriteError::ModeMismatch) && final(vga)@ == old(vga)@,
            (x < 40 && y < 50 && old(vga)@.mode == VideoMode::Mode40x50) ==> r == Ok::<
                (),
                WriteError,
            >(()) && final(vga)@ == character_written(old(vga)@, 40, x as int, y as int, c),
    {
        if x >= 40 || y >= 50 {
            return Err(WriteError::OutOfBounds);
        }
        if vga.mode() != VideoMode::Mode40x50 {
            return Err(WriteError::ModeMismatch);
        }
        put_character(vga, 40, x, y, c);
        Ok(())
    }

    /// The cell at (x, y).
    pub fn read_character(&self, vga: &Vga, x: usize, y: usize) -> (r: ScreenCharacter)
        requires
            vga.inv(),
            x < 40,
            y < 50,
        ensures
            r == character_at(vga@, 40, x as int, y as int),
    {
        get_character(vga, 40, x, y)
    }
}

/// A writer for text mode 80x25.
#[derive(Clone, Copy, Debug, Default)]
pub struct Text80x25;

impl Text80x25 {
    /// Creates a new `Text80x25`.
    pub fn new() -> (r: Text80x25) {
        Text80x25 {}
    }

    /// Columns: 80.
    pub fn get_width(&self) -> (w: usize)
        ensures
            w == 80,
    {
        80
    }

    /// Rows: 25.
    pub fn get_height(&self) -> (h: usize)
        ensures
            h == 25,
    {
        25
    }

    /// Switches the device to Mode80x25, then loads the default palette and
    /// the default font again, since some firmware disturbs them on a switch.
    pub fn set_mode(&self, vga: &mut Vga)
        requires
            old(vga).inv(),
        ensures
            final(vga).inv(),
            switched_with_defaults(old(vga)@, final(vga)@, VideoMode::Mode80x25),
    {
        switch_with_defaults(vga, VideoMode::Mode80x25);
    }

    /// Clears the 80 x 25 cells to a blank in yellow on black.
    pub fn clear_screen(&self, vga: &mut Vga)
        requires
            old(vga).inv(),
            old(vga)@.mode == VideoMode::Mode80x25,
        ensures
            final(vga).inv(),
            cleared(old(vga)@, final(vga)@, (80 * 25) as int),
    {
        clear_cells(vga, 80 * 25);
    }

    /// Writes `c` to cell (x, y).
    pub fn write_character(&self, vga: &mut Vga, x: usize, y: usize, c: ScreenCharacter)
        requires
            old(vga).inv(),
            old(vga)@.mode == VideoMode::Mode80x25,
            x < 80,
            y < 25,
        ensures
            final(vga).inv(),
            final(vga)@ == character_written(old(vga)@, 80, x as int, y as int, c),
    {
        put_character(vga, 80, x, y, c);
    }

    /// Writes `c` to cell (x, y) if it lies on the screen and the device is
    /// in this writer's mode; otherwise the device is left untouched.
    pub fn try_write_character(&self, vga: &mut Vga, x: usize, y: usize, c: ScreenCharacter) -> (r:
        Result<(), WriteError>)
        requires
            old(vga).inv(),
        ensures
            final(vga).inv(),
            (x >= 80 || y >= 25) ==> r == Err::<(), WriteError>(WriteError::OutOfBounds)
                && final(vga)@ == old(vga)@,
            (x < 80 && y < 25 && old(vga)@.mode != VideoMode::Mode80x25) ==> r == Err::<
                (),
                WriteError,
            >(WriteError::ModeMismatch) && final(vga)@ == old(vga)@,
            (x < 80 && y < 25 && old(vga)@.mode == VideoMode::Mode80x25) ==> r == Ok::<
                (),
                WriteError,
            >(()) && final(vga)@ == character_written(old(vga)@, 80, x as int, y as int, c),
    {
        if x >= 80 || y >= 25 {
            return Err(WriteError::OutOfBounds);
        }
        if vga.mode() != VideoMode::Mode80x25 {
            return Err(WriteError::ModeMismatch);
        }
        put_character(vga, 80, x, y, c);
        Ok(())
    }

    /// The cell at (x, y).
    pub fn read_character(&self, vga: &Vga, x: usize, y: usize) -> (r: ScreenCharacter)
        requires
            vga.inv(),
            x < 80,
            y < 25,
        ensures
            r == character_at(vga@, 80, x as int, y as int),
    {
        get_character(vga, 80, x, y)
    }
}

/// A writer for the 640x480 graphics mode in 16 colors, over four bit planes.
#[derive(Clone, Copy, Debug, Default)]
pub struct Graphics640x480x16;

impl Graphics640x480x16 {
    /// Creates a new `Graphics640x480x16`.
    pub fn new() -> (r: Graphics640x480x16) {
        Graphics640x480x16 {}
    }

    /// Pixels per line: 640.
    pub fn get_width(&self) -> (w: usize)
        ensures
            w == 640,
    {
        640
    }

    /// Lines: 480.
    pub fn get_height(&self) -> (h: usize)
        ensures
            h == 480,
    {
        480
    }

    /// Switches the device to the planar mode and loads the default palette
    /// again.
    pub fn set_mode(&self, vga: &mut Vga)
        requires
            old(vga).inv(),
        ensures
            final(vga).inv(),
            final(vga)@ == (VgaState {
                palette: old(vga)@.default_palette,
                ..switched(old(vga)@, VideoMode::Mode640x480x16)
            }),
    {
        vga.apply_mode(VideoMode::Mode640x480x16);
        vga.load_default_palette();
    }

    /// Gives every pixel the color `color`.
    pub fn clear_screen(&self, vga: &mut Vga, color: Color16Bit)
        requires
            old(vga).inv(),
            old(vga)@.mode == VideoMode::Mode640x480x16,
        ensures
            final(vga).inv(),
            final(vga)@ == (VgaState { memory: final(vga)@.memory, ..old(vga)@ }),
            forall|x: int, y: int|
                0 <= x < 640 && 0 <= y < 480 ==> #[trigger] pixel_color(final(vga)@.memory, x, y)
                    == color.spec_index(),
            forall|k: int|
                0 <= k < MEMORY_SIZE && !is_plane_byte(k, PLANAR_PLANE_BYTES as int)
                    ==> final(vga)@.memory[k] == old(vga)@.memory[k],
    {
        let c = color.index();
        vga.fill_planes(c);
        proof {
            assert forall|x: int, y: int| 0 <= x < 640 && 0 <= y < 480 implies #[trigger] pixel_color(
                vga@.memory,
                x,
                y,
            ) == c by {
                lemma_filled_pixel(vga@.memory, c, x, y);
            }
        }
    }

    /// Writes `color` to pixel (x, y): one bit in each of the four planes.
    pub fn write_pixel(&self, vga: &mut Vga, x: usize, y: usize, color: Color16Bit)
        requires
            old(vga).inv(),
            old(vga)@.mode == VideoMode::Mode640x480x16,
            x < 640,
            y < 480,
        ensures
            final(vga).inv(),
            final(vga)@ == (VgaState {
                memory: with_pixel(old(vga)@.memory, x as int, y as int, color.spec_index()),
                ..old(vga)@
            }),
    {
        vga.write_pixel(x, y, color.index());
    }

    /// Writes `color` to pixel (x, y) if it lies on the screen and the device
    /// is in the planar mode; otherwise the device is left untouched.
    pub fn try_write_pixel(&self, vga: &mut Vga, x: usize, y: usize, color: Color16Bit) -> (r:
        Result<(), WriteError>)
        requires
            old(vga).inv(),
        ensures
            final(vga).inv(),
            (x >= 640 || y >= 480) ==> r == Err::<(), WriteError>(WriteError::OutOfBounds)
                && final(vga)@ == old(vga)@,
            (x < 640 && y < 480 && old(vga)@.mode != VideoMode::Mode640x480x16) ==> r == Err::<
                (),
                WriteError,
            >(WriteError::ModeMismatch) && final(vga)@ == old(vga)@,
            (x < 640 && y < 480 && old(vga)@.mode == VideoMode::Mode640x480x16) ==> r == Ok::<
                (),
                WriteError,
            >(()) && final(vga)@ == (VgaState {
                memory: with_pixel(old(vga)@.memory, x as int, y as int, color.spec_index()),
                ..old(vga)@
            }),
    {
        if x >= 640 || y >= 480 {
            return Err(WriteError::OutOfBounds);
        }
        if vga.mode() != VideoMode::Mode640x480x16 {
            return Err(WriteError::ModeMismatch);
        }
        vga.write_pixel(x, y, color.index());
        Ok(())
    }

    /// The color of pixel (x, y).
    pub fn read_pixel(&self, vga: &Vga, x: usize, y: usize) -> (r: u8)
        requires
            vga.inv(),
            x < 640,
            y < 480,
        ensures
            r == pixel_color(vga@.memory, x as int, y as int),
    {
        vga.read_pixel(x, y)
    }
}

} // verus!
