//! The supported video modes: their geometry, their memory layout and the
//! register values that put the controller into each of them.
use vstd::prelude::*;

verus! {

/// One supported display configuration.
#[derive(Clone, Copy, Debug, PartialEq, Eq, Structural)]
pub enum VideoMode {
    /// Text, 40 columns by 25 rows of 8x16 cells.
    Mode40x25,
    /// Text, 40 columns by 50 rows of 8x8 cells.
    Mode40x50,
    /// Text, 80 columns by 25 rows of 8x16 cells.
    Mode80x25,
    /// Graphics, 640 by 480 pixels in 16 colors over four bit planes.
    Mode640x480x16,
}

/// How the frame buffer of a mode is organised.
#[derive(Clone, Copy, Debug, PartialEq, Eq, Structural)]
pub enum MemoryLayout {
    /// Each cell holds a character code and an attribute byte.
    CharacterCell,
    /// Each pixel's color bits are spread over four bit planes.
    Planar,
}

impl VideoMode {
    /// Columns (text) or pixels (graphics) per line.
    pub open spec fn spec_width(self) -> usize {
        match self {
            VideoMode::Mode40x25 => 40,
            VideoMode::Mode40x50 => 40,
            VideoMode::Mode80x25 => 80,
            VideoMode::Mode640x480x16 => 640,
        }
    }

    /// Rows (text) or lines of pixels (graphics).
    pub open spec fn spec_height(self) -> usize {
        match self {
            VideoMode::Mode40x25 => 25,
            VideoMode::Mode40x50 => 50,
            VideoMode::Mode80x25 => 25,
            VideoMode::Mode640x480x16 => 480,
        }
    }

    pub open spec fn spec_layout(self) -> MemoryLayout {
        match self {
            VideoMode::Mode640x480x16 => MemoryLayout::Planar,
            _ => MemoryLayout::CharacterCell,
        }
    }

    /// Columns (text) or pixels (graphics) per line.
    #[verifier::when_used_as_spec(spec_width)]
    pub fn width(self) -> (w: usize)
        ensures
            w == self.spec_width(),
    {
        match self {
            VideoMode::Mode40x25 => 40,
            VideoMode::Mode40x50 => 40,
            VideoMode::Mode80x25 => 80,
            VideoMode::Mode640x480x16 => 640,
        }
    }

    /// Rows (text) or lines of pixels (graphics).
    #[verifier::when_used_as_spec(spec_height)]
    pub fn height(self) -> (h: usize)
        ensures
            h == self.spec_height(),
    {
        match self {
            VideoMode::Mode40x25 => 25,
            VideoMode::Mode40x50 => 50,
            VideoMode::Mode80x25 => 25,
            VideoMode::Mode640x480x16 => 480,
        }
    }

    /// How the frame buffer of the mode is organised.
    #[verifier::when_used_as_spec(spec_layout)]
    pub fn layout(self) -> (l: MemoryLayout)
        ensures
            l == self.spec_layout(),
    {
        match self {
            VideoMode::Mode640x480x16 => MemoryLayout::Planar,
            _ => MemoryLayout::CharacterCell,
        }
    }
}

/// The start of the frame buffer selected by the memory map bits (3 and 2)
/// of the graphics controller's miscellaneous register.
pub open spec fn memory_map_base(graphics_misc: u8) -> u32 {
    let select = (graphics_misc >> 2u8) & 3u8;
    if select == 2 {
        0xB0000u32
    } else if select == 3 {
        0xB8000u32
    } else {
        0xA0000u32
    }
}

/// The register file that puts the controller into `mode`, slot by slot:
/// CRTC, sequencer, graphics controller, attribute controller, miscellaneous
/// output.
pub open spec fn mode_registers(mode: VideoMode) -> Seq<u8> {
    match mode {
        VideoMode::Mode40x25 => seq![
            0x2D, 0x27, 0x28, 0x90, 0x2B, 0xA0, 0xBF, 0x1F,
            0x00, 0x4F, 0x0D, 0x0E, 0x00, 0x00, 0x00, 0xA0,
            0x9C, 0x8E, 0x8F, 0x14, 0x1F, 0x96, 0xB9, 0xA3,
            0xFF, 0x03, 0x08, 0x03, 0x00, 0x02, 0x00, 0x00,
            0x00, 0x00, 0x00, 0x10, 0x0E, 0x00, 0xFF, 0x00,
            0x01, 0x02, 0x03, 0x04, 0x05, 0x14, 0x07, 0x38,
            0x39, 0x3A, 0x3B, 0x3C, 0x3D, 0x3E, 0x3F, 0x0C,
            0x00, 0x0F, 0x08, 0x00, 0x67,
        ],
        VideoMode::Mode40x50 => seq![
            0x2D, 0x27, 0x28, 0x90, 0x2B, 0xA0, 0xBF, 0x1F,
            0x00, 0x47, 0x06, 0x07, 0x00, 0x00, 0x04, 0x60,
            0x9C, 0x8E, 0x8F, 0x14, 0x1F, 0x96, 0xB9, 0xA3,
            0xFF, 0x03, 0x08, 0x03, 0x00, 0x02, 0x00, 0x00,
            0x00, 0x00, 0x00, 0x10, 0x0E, 0x00, 0xFF, 0x00,
            0x01, 0x02, 0x03, 0x04, 0x05, 0x14, 0x07, 0x38,
            0x39, 0x3A, 0x3B, 0x3C, 0x3D, 0x3E, 0x3F, 0x0C,
            0x00, 0x0F, 0x08, 0x00, 0x67,
        ],
        VideoMode::Mode80x25 => seq![
            0x5F, 0x4F, 0x50, 0x82, 0x55, 0x81, 0xBF, 0x1F,
            0x00, 0x4F, 0x0D, 0x0E, 0x00, 0x00, 0x00, 0x50,
            0x9C, 0x8E, 0x8F, 0x28, 0x1F, 0x96, 0xB9, 0xA3,
            0xFF, 0x03, 0x00, 0x03, 0x00, 0x02, 0x00, 0x00,
            0x00, 0x00, 0x00, 0x10, 0x0E, 0x00, 0xFF, 0x00,
            0x01, 0x02, 0x03, 0x04, 0x05, 0x14, 0x07, 0x38,
            0x39, 0x3A, 0x3B, 0x3C, 0x3D, 0x3E, 0x3F, 0x0C,
            0x00, 0x0F, 0x08, 0x00, 0x67,
        ],
        VideoMode::Mode640x480x16 => seq![
            0x5F, 0x4F, 0x50, 0x82, 0x54, 0x80, 0x0B, 0x3E,
            0x00, 0x40, 0x00, 0x00, 0x00, 0x00, 0x00, 0x00,
            0xEA, 0x0C, 0xDF, 0x28, 0x00, 0xE7, 0x04, 0xE3,
            0xFF, 0x03, 0x01, 0x08, 0x00, 0x06, 0x00, 0x00,
            0x00, 0x00, 0x00, 0x00, 0x05, 0x0F, 0xFF, 0x00,
            0x01, 0x02, 0x03, 0x04, 0x05, 0x14, 0x07, 0x38,
            0x39, 0x3A, 0x3B, 0x3C, 0x3D, 0x3E, 0x3F, 0x01,
            0x00, 0x0F, 0x00, 0x00, 0xE3,
        ],
    }
}

/// The register file that puts the controller into `mode`.
pub fn mode_register_table(mode: VideoMode) -> (t: Vec<u8>)
    ensures
        t@ == mode_registers(mode),
{
    match mode {
        VideoMode::Mode40x25 => vec![
            0x2D, 0x27, 0x28, 0x90, 0x2B, 0xA0, 0xBF, 0x1F,
            0x00, 0x4F, 0x0D, 0x0E, 0x00, 0x00, 0x00, 0xA0,
            0x9C, 0x8E, 0x8F, 0x14, 0x1F, 0x96, 0xB9, 0xA3,
            0xFF, 0x03, 0x08, 0x03, 0x00, 0x02, 0x00, 0x00,
            0x00, 0x00, 0x00, 0x10, 0x0E, 0x00, 0xFF, 0x00,
            0x01, 0x02, 0x03, 0x04, 0x05, 0x14, 0x07, 0x38,
            0x39, 0x3A, 0x3B, 0x3C, 0x3D, 0x3E, 0x3F, 0x0C,
            0x00, 0x0F, 0x08, 0x00, 0x67,
        ],
        VideoMode::Mode40x50 => vec![
            0x2D, 0x27, 0x28, 0x90, 0x2B, 0xA0, 0xBF, 0x1F,
            0x00, 0x47, 0x06, 0x07, 0x00, 0x00, 0x04, 0x60,
            0x9C, 0x8E, 0x8F, 0x14, 0x1F, 0x96, 0xB9, 0xA3,
            0xFF, 0x03, 0x08, 0x03, 0x00, 0x02, 0x00, 0x00,
            0x00, 0x00, 0x00, 0x10, 0x0E, 0x00, 0xFF, 0x00,
            0x01, 0x02, 0x03, 0x04, 0x05, 0x14, 0x07, 0x38,
            0x39, 0x3A, 0x3B, 0x3C, 0x3D, 0x3E, 0x3F, 0x0C,
            0x00, 0x0F, 0x08, 0x00, 0x67,
        ],
        VideoMode::Mode80x25 => vec![
            0x5F, 0x4F, 0x50, 0x82, 0x55, 0x81, 0xBF, 0x1F,
            0x00, 0x4F, 0x0D, 0x0E, 0x00, 0x00, 0x00, 0x50,
            0x9C, 0x8E, 0x8F, 0x28, 0x1F, 0x96, 0xB9, 0xA3,
            0xFF, 0x03, 0x00, 0x03, 0x00, 0x02, 0x00, 0x00,
            0x00, 0x00, 0x00, 0x10, 0x0E, 0x00, 0xFF, 0x00,
            0x01, 0x02, 0x03, 0x04, 0x05, 0x14, 0x07, 0x38,
            0x39, 0x3A, 0x3B, 0x3C, 0x3D, 0x3E, 0x3F, 0x0C,
            0x00, 0x0F, 0x08, 0x00, 0x67,
        ],
        VideoMode::Mode640x480x16 => vec![
            0x5F, 0x4F, 0x50, 0x82, 0x54, 0x80, 0x0B, 0x3E,
            0x00, 0x40, 0x00, 0x00, 0x00, 0x00, 0x00, 0x00,
            0xEA, 0x0C, 0xDF, 0x28, 0x00, 0xE7, 0x04, 0xE3,
            0xFF, 0x03, 0x01, 0x08, 0x00, 0x06, 0x00, 0x00,
            0x00, 0x00, 0x00, 0x00, 0x05, 0x0F, 0xFF, 0x00,
            0x01, 0x02, 0x03, 0x04, 0x05, 0x14, 0x07, 0x38,
            0x39, 0x3A, 0x3B, 0x3C, 0x3D, 0x3E, 0x3F, 0x01,
            0x00, 0x0F, 0x00, 0x00, 0xE3,
        ],
    }
}

} // verus!
