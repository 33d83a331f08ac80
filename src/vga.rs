//! The device: the register file, the color lookup unit, the four planes of
//! video memory and the active mode, with the operations that a holder of
//! exclusive access may perform on them.
//!
//! Every operation takes `&mut Vga` or `&Vga`, so it can only be reached
//! through whatever grants exclusive access to the one device value.
use vstd::prelude::*;
use crate::modes::{mode_register_table, mode_registers, memory_map_base, MemoryLayout, VideoMode};
use crate::registers::{
    is_locked, merge_bits, reg, slot, RegisterBank, Registers, CRTC_PROTECT_BIT,
    CRTC_VERTICAL_RETRACE_END, GRAPHICS_MISC, GRAPHICS_MODE, GRAPHICS_READ_MAP_SELECT,
    REGISTER_COUNT, SEQUENCER_MAP_MASK, SEQUENCER_MEMORY_MODE,
};

verus! {

/// Bytes in the color lookup table: 256 entries of three channels.
pub const PALETTE_SIZE: usize = 768;

/// Bytes in one plane of video memory.
pub const PLANE_SIZE: usize = 65536;

/// Bytes of video memory over all four planes.
pub const MEMORY_SIZE: usize = 262144;

/// Rows of one glyph.
pub const GLYPH_HEIGHT: usize = 16;

/// Bytes of a font: 256 glyphs of `GLYPH_HEIGHT` rows.
pub const FONT_SIZE: usize = 4096;

/// Distance between two glyphs in the character generator plane.
pub const GLYPH_STRIDE: usize = 32;

/// Bytes per line of one plane in the planar graphics mode.
pub const PLANAR_LINE_BYTES: usize = 80;

/// The largest number of character cells of a text mode.
pub const MAX_TEXT_CELLS: usize = 2000;

/// What the device holds.
pub struct VgaState {
    pub registers: Seq<u8>,
    pub palette: Seq<u8>,
    pub memory: Seq<u8>,
    pub mode: VideoMode,
    pub default_palette: Seq<u8>,
    pub default_font: Seq<u8>,
}

impl VgaState {
    pub open spec fn wf(self) -> bool {
        &&& self.registers.len() == REGISTER_COUNT
        &&& self.palette.len() == PALETTE_SIZE
        &&& self.memory.len() == MEMORY_SIZE
        &&& self.default_palette.len() == PALETTE_SIZE
        &&& self.default_font.len() == FONT_SIZE
    }
}

/// Where the frame buffer starts and how it is organised.
#[derive(Clone, Copy, Debug, PartialEq, Eq, Structural)]
pub struct FrameBufferLayout {
    pub address: u32,
    pub width: usize,
    pub height: usize,
    pub layout: MemoryLayout,
}

/// The frame buffer start of each mode.
pub open spec fn mode_base_address(mode: VideoMode) -> u32 {
    match mode {
        VideoMode::Mode640x480x16 => 0xA0000u32,
        _ => 0xB8000u32,
    }
}

/// The frame buffer view of a device: the address that the graphics
/// controller selects and the geometry of the active mode.
pub open spec fn layout_of(s: VgaState) -> FrameBufferLayout {
    FrameBufferLayout {
        address: memory_map_base(reg(s.registers, RegisterBank::Graphics, GRAPHICS_MISC as int)),
        width: s.mode.spec_width(),
        height: s.mode.spec_height(),
        layout: s.mode.spec_layout(),
    }
}

/// The device after a switch to `mode`.
pub open spec fn switched(s: VgaState, mode: VideoMode) -> VgaState {
    VgaState { registers: mode_registers(mode), mode, ..s }
}

/// The color lookup table after streaming `p` into it from entry 0.
pub open spec fn palette_loaded(old: Seq<u8>, p: Seq<u8>) -> Seq<u8> {
    p + old.skip(p.len() as int)
}

/// Where row `row` of the glyph for `code` lies in video memory (plane 2).
pub open spec fn glyph_address(code: int, row: int) -> int {
    2 * PLANE_SIZE + code * GLYPH_STRIDE + row
}

/// Whether video memory byte `a` holds a glyph row.
pub open spec fn is_glyph_byte(a: int) -> bool {
    exists|c: int, r: int| 0 <= c < 256 && 0 <= r < GLYPH_HEIGHT && a == glyph_address(c, r)
}

/// `new` is `old` with `font` uploaded into the character generator plane:
/// row `r` of glyph `c` is byte `c * 16 + r` of `font`, and no other byte
/// changes.
pub open spec fn font_loaded(old: Seq<u8>, new: Seq<u8>, font: Seq<u8>) -> bool {
    &&& new.len() == old.len()
    &&& forall|c: int, r: int|
        0 <= c < 256 && 0 <= r < GLYPH_HEIGHT ==> #[trigger] new[glyph_address(c, r)] == font[c
            * GLYPH_HEIGHT + r]
    &&& forall|a: int| 0 <= a < old.len() && !is_glyph_byte(a) ==> new[a] == old[a]
}

/// Where the character code of text cell `i` lies (plane 0).
pub open spec fn char_address(i: int) -> int {
    2 * i
}

/// Where the attribute of text cell `i` lies (plane 1).
pub open spec fn attribute_address(i: int) -> int {
    PLANE_SIZE + 2 * i + 1
}

/// The character code and attribute of text cell `i`.
pub open spec fn cell(mem: Seq<u8>, i: int) -> (u8, u8) {
    (mem[char_address(i)], mem[attribute_address(i)])
}

/// Video memory after writing a character and an attribute to text cell `i`.
pub open spec fn with_cell(mem: Seq<u8>, i: int, character: u8, attribute: u8) -> Seq<u8> {
    mem.update(char_address(i), character).update(attribute_address(i), attribute)
}

/// The byte offset, within each plane, of the byte holding pixel (x, y).
pub open spec fn pixel_offset(x: int, y: int) -> int {
    y * PLANAR_LINE_BYTES + x / 8
}

/// The bit, within its byte, of pixel (x, y): the leftmost pixel is bit 7.
pub open spec fn pixel_bit(x: int) -> u8 {
    (7 - x % 8) as u8
}

/// `byte` with bit `b` set to `v` (0 or 1).
pub open spec fn with_bit(byte: u8, b: u8, v: u8) -> u8 {
    (byte & !(1u8 << b)) | (v << b)
}

/// Bit `b` of `byte`.
pub open spec fn bit_of(byte: u8, b: u8) -> u8 {
    (byte >> b) & 1u8
}

/// The bit that plane `p` holds for pixel (x, y).
pub open spec fn plane_bit(mem: Seq<u8>, p: int, x: int, y: int) -> u8 {
    bit_of(mem[p * PLANE_SIZE + pixel_offset(x, y)], pixel_bit(x))
}

/// The 4-bit color of pixel (x, y): bit p comes from plane p.
pub open spec fn pixel_color(mem: Seq<u8>, x: int, y: int) -> u8 {
    plane_bit(mem, 0, x, y) | (plane_bit(mem, 1, x, y) << 1u8) | (plane_bit(mem, 2, x, y) << 2u8)
        | (plane_bit(mem, 3, x, y) << 3u8)
}

/// Plane `p`'s byte of pixel (x, y) after writing `color` there.
pub open spec fn plane_byte_with(mem: Seq<u8>, p: int, x: int, y: int, color: u8) -> u8 {
    with_bit(mem[p * PLANE_SIZE + pixel_offset(x, y)], pixel_bit(x), bit_of(color, p as u8))
}

/// Video memory after writing `color` to pixel (x, y): in each plane p only
/// the pixel's bit changes, to bit p of `color`.
pub open spec fn with_pixel(mem: Seq<u8>, x: int, y: int, color: u8) -> Seq<u8> {
    let o = pixel_offset(x, y);
    mem.update(o, plane_byte_with(mem, 0, x, y, color)).update(
        PLANE_SIZE + o,
        plane_byte_with(mem, 1, x, y, color),
    ).update(2 * PLANE_SIZE + o, plane_byte_with(mem, 2, x, y, color)).update(
        3 * PLANE_SIZE + o,
        plane_byte_with(mem, 3, x, y, color),
    )
}

/// Whether video memory byte `k` belongs to one of the first `count` text
/// cells.
pub open spec fn is_cell_byte(k: int, count: int) -> bool {
    exists|i: int| 0 <= i < count && (k == char_address(i) || k == attribute_address(i))
}

/// Bytes per plane that the planar graphics mode shows.
pub const PLANAR_PLANE_BYTES: usize = 38400;

/// Whether byte `k` is one of the first `count` bytes of one of the four
/// planes.
pub open spec fn is_plane_byte(k: int, count: int) -> bool {
    exists|p: int, o: int| 0 <= p < 4 && 0 <= o < count && k == #[trigger] plane_address(p, o)
}

/// Where byte `o` of plane `p` lies in video memory.
pub open spec fn plane_address(p: int, o: int) -> int {
    p * PLANE_SIZE + o
}

/// The byte that fills plane `p` when every pixel has `color`.
pub open spec fn plane_fill(color: u8, p: int) -> u8 {
    if bit_of(color, p as u8) == 1 {
        0xFFu8
    } else {
        0u8
    }
}

/// Whether every shown byte of plane `p` holds the fill for `color`.
pub open spec fn planes_filled(mem: Seq<u8>, color: u8) -> bool {
    forall|p: int, o: int|
        0 <= p < 4 && 0 <= o < PLANAR_PLANE_BYTES ==> #[trigger] mem[p * PLANE_SIZE + o]
            == plane_fill(color, p)
}

/// The color lookup unit: 256 entries of three channels, reached through a
/// write cursor and a read cursor that advance by one channel per access.
struct ColorLookup {
    values: Vec<u8>,
    write_cursor: usize,
    read_cursor: usize,
}

impl ColorLookup {
    spec fn inv(&self) -> bool {
        &&& self.values@.len() == PALETTE_SIZE
        &&& self.write_cursor < PALETTE_SIZE
        &&& self.read_cursor < PALETTE_SIZE
    }

    /// Makes entry `index` the next one written.
    fn set_write_index(&mut self, index: u8)
        requires
            old(self).inv(),
        ensures
            final(self).inv(),
            final(self).values@ == old(self).values@,
            final(self).write_cursor == 3 * index,
    {
        self.write_cursor = 3 * index as usize;
    }

    /// Makes entry `index` the next one read.
    fn set_read_index(&mut self, index: u8)
        requires
            old(self).inv(),
        ensures
            final(self).inv(),
            final(self).values@ == old(self).values@,
            final(self).read_cursor == 3 * index,
    {
        self.read_cursor = 3 * index as usize;
    }

    /// Writes one channel at the write cursor and advances it.
    fn write_data(&mut self, value: u8)
        requires
            old(self).inv(),
        ensures
            final(self).inv(),
            final(self).values@ == old(self).values@.update(old(self).write_cursor as int, value),
            final(self).write_cursor == (old(self).write_cursor + 1) % (PALETTE_SIZE as int),
    {
        self.values.set(self.write_cursor, value);
        self.write_cursor = if self.write_cursor + 1 == PALETTE_SIZE {
            0
        } else {
            self.write_cursor + 1
        };
    }

    /// Reads one channel at the read cursor and advances it.
    fn read_data(&mut self) -> (r: u8)
        requires
            old(self).inv(),
        ensures
            final(self).inv(),
            final(self).values@ == old(self).values@,
            r == old(self).values@[old(self).read_cursor as int],
            final(self).read_cursor == (old(self).read_cursor + 1) % (PALETTE_SIZE as int),
    {
        let r = self.values[self.read_cursor];
        self.read_cursor = if self.read_cursor + 1 == PALETTE_SIZE {
            0
        } else {
            self.read_cursor + 1
        };
        r
    }

    /// Streams `palette` in from entry 0.
    fn stream_in(&mut self, palette: &[u8])
        requires
            old(self).inv(),
            palette@.len() <= PALETTE_SIZE,
        ensures
            final(self).inv(),
            final(self).values@ == palette_loaded(old(self).values@, palette@),
    {
        let ghost start = self.values@;
        self.set_write_index(0);
        let mut i: usize = 0;
        while i < palette.len()
            invariant
                self.inv(),
                palette@.len() <= PALETTE_SIZE,
                i <= palette@.len(),
                i < PALETTE_SIZE ==> self.write_cursor == i,
                start.len() == PALETTE_SIZE,
                self.values@ =~= palette@.subrange(0, i as int) + start.skip(i as int),
            decreases palette@.len() - i,
        {
            self.write_data(palette[i]);
            i = i + 1;
            assert(self.values@ =~= palette@.subrange(0, i as int) + start.skip(i as int));
        }
        assert(palette@.subrange(0, i as int) =~= palette@);
    }

    /// Reads every channel back from entry 0.
    fn read_all(&mut self) -> (r: Vec<u8>)
        requires
            old(self).inv(),
        ensures
            final(self).inv(),
            final(self).values@ == old(self).values@,
            r@ == old(self).values@,
    {
        self.set_read_index(0);
        let mut out: Vec<u8> = Vec::new();
        let mut i: usize = 0;
        while i < PALETTE_SIZE
            invariant
                self.inv(),
                self.values@ == old(self).values@,
                i <= PALETTE_SIZE,
                i < PALETTE_SIZE ==> self.read_cursor == i,
                out@ =~= self.values@.subrange(0, i as int),
            decreases PALETTE_SIZE - i,
        {
            let b = self.read_data();
            out.push(b);
            i = i + 1;
            assert(out@ =~= self.values@.subrange(0, i as int));
        }
        assert(out@ =~= self.values@);
        out
    }
}

/// Slots of the registers that decide how the host reaches video memory.
spec fn is_memory_access_slot(s: int) -> bool {
    s == slot(RegisterBank::Sequencer, SEQUENCER_MAP_MASK as int) || s == slot(
        RegisterBank::Sequencer,
        SEQUENCER_MEMORY_MODE as int,
    ) || s == slot(RegisterBank::Graphics, GRAPHICS_READ_MAP_SELECT as int) || s == slot(
        RegisterBank::Graphics,
        GRAPHICS_MODE as int,
    ) || s == slot(RegisterBank::Graphics, GRAPHICS_MISC as int)
}

/// The memory access registers as they were before the character generator
/// plane was exposed; `restore` puts them back.
struct FontAccess {
    map_mask: u8,
    memory_mode: u8,
    read_map: u8,
    graphics_mode: u8,
    graphics_misc: u8,
    saved: Ghost<Seq<u8>>,
}

impl FontAccess {
    spec fn holds(&self) -> bool {
        let regs = self.saved@;
        &&& regs.len() == REGISTER_COUNT
        &&& self.map_mask == reg(regs, RegisterBank::Sequencer, SEQUENCER_MAP_MASK as int)
        &&& self.memory_mode == reg(regs, RegisterBank::Sequencer, SEQUENCER_MEMORY_MODE as int)
        &&& self.read_map == reg(regs, RegisterBank::Graphics, GRAPHICS_READ_MAP_SELECT as int)
        &&& self.graphics_mode == reg(regs, RegisterBank::Graphics, GRAPHICS_MODE as int)
        &&& self.graphics_misc == reg(regs, RegisterBank::Graphics, GRAPHICS_MISC as int)
    }

    /// Saves the memory access registers, then exposes plane 2 alone,
    /// addressed linearly, at 0xA0000.
    fn enter(regs: &mut Registers) -> (t: FontAccess)
        requires
            old(regs)@.len() == REGISTER_COUNT,
        ensures
            t.holds(),
            t.saved@ == old(regs)@,
            final(regs)@.len() == REGISTER_COUNT,
            forall|s: int|
                0 <= s < REGISTER_COUNT && !is_memory_access_slot(s) ==> final(regs)@[s] == old(
                    regs,
                )@[s],
    {
        let t = FontAccess {
            map_mask: regs.read(RegisterBank::Sequencer, SEQUENCER_MAP_MASK),
            memory_mode: regs.read(RegisterBank::Sequencer, SEQUENCER_MEMORY_MODE),
            read_map: regs.read(RegisterBank::Graphics, GRAPHICS_READ_MAP_SELECT),
            graphics_mode: regs.read(RegisterBank::Graphics, GRAPHICS_MODE),
            graphics_misc: regs.read(RegisterBank::Graphics, GRAPHICS_MISC),
            saved: Ghost(regs@),
        };
        regs.write(RegisterBank::Sequencer, SEQUENCER_MAP_MASK, 0x04);
        regs.write(RegisterBank::Sequencer, SEQUENCER_MEMORY_MODE, 0x06);
        regs.write(RegisterBank::Graphics, GRAPHICS_READ_MAP_SELECT, 0x02);
        regs.write(RegisterBank::Graphics, GRAPHICS_MODE, 0x00);
        regs.write(RegisterBank::Graphics, GRAPHICS_MISC, 0x04);
        t
    }

    /// Puts the saved memory access registers back.
    fn restore(self, regs: &mut Registers)
        requires
            self.holds(),
            old(regs)@.len() == REGISTER_COUNT,
            forall|s: int|
                0 <= s < REGISTER_COUNT && !is_memory_access_slot(s) ==> old(regs)@[s]
                    == self.saved@[s],
        ensures
            final(regs)@ == self.saved@,
    {
        regs.write(RegisterBank::Sequencer, SEQUENCER_MAP_MASK, self.map_mask);
        regs.write(RegisterBank::Sequencer, SEQUENCER_MEMORY_MODE, self.memory_mode);
        regs.write(RegisterBank::Graphics, GRAPHICS_READ_MAP_SELECT, self.read_map);
        regs.write(RegisterBank::Graphics, GRAPHICS_MODE, self.graphics_mode);
        regs.write(RegisterBank::Graphics, GRAPHICS_MISC, self.graphics_misc);
        assert forall|s: int| 0 <= s < REGISTER_COUNT implies regs@[s] == self.saved@[s] by {
            if s == 27 || s == 29 || s == 34 || s == 35 || s == 36 {
            } else {
                assert(!is_memory_access_slot(s));
            }
        }
        assert(regs@ =~= self.saved@);
    }
}

/// Writes every glyph row of `font` to its place in the character generator
/// plane.
fn write_glyphs(mem: &mut Vec<u8>, font: &[u8])
    requires
        old(mem)@.len() == MEMORY_SIZE,
        font@.len() == FONT_SIZE,
    ensures
        font_loaded(old(mem)@, final(mem)@, font@),
{
    let ghost start = mem@;
    let mut c: usize = 0;
    while c < 256
        invariant
            c <= 256,
            mem@.len() == MEMORY_SIZE,
            font@.len() == FONT_SIZE,
            forall|c2: int, r2: int|
                0 <= c2 < c && 0 <= r2 < GLYPH_HEIGHT ==> #[trigger] mem@[glyph_address(c2, r2)]
                    == font@[c2 * GLYPH_HEIGHT + r2],
            forall|a: int| 0 <= a < MEMORY_SIZE && !is_glyph_byte(a) ==> mem@[a] == start[a],
        decreases 256 - c,
    {
        let mut r: usize = 0;
        while r < GLYPH_HEIGHT
            invariant
                c < 256,
                r <= GLYPH_HEIGHT,
                mem@.len() == MEMORY_SIZE,
                font@.len() == FONT_SIZE,
                forall|c2: int, r2: int|
                    ((0 <= c2 < c && 0 <= r2 < GLYPH_HEIGHT) || (c2 == c && 0 <= r2 < r))
                        ==> #[trigger] mem@[glyph_address(c2, r2)] == font@[c2 * GLYPH_HEIGHT
                        + r2],
                forall|a: int| 0 <= a < MEMORY_SIZE && !is_glyph_byte(a) ==> mem@[a] == start[a],
            decreases GLYPH_HEIGHT - r,
        {
            let address = 2 * PLANE_SIZE + c * GLYPH_STRIDE + r;
            let value = font[c * GLYPH_HEIGHT + r];
            let ghost before = mem@;
            mem.set(address, value);
            proof {
                assert(is_glyph_byte(address as int)) by {
                    assert(address as int == glyph_address(c as int, r as int));
                }
                assert forall|c2: int, r2: int|
                    ((0 <= c2 < c && 0 <= r2 < GLYPH_HEIGHT) || (c2 == c && 0 <= r2 < r + 1))
                        implies #[trigger] mem@[glyph_address(c2, r2)] == font@[c2 * GLYPH_HEIGHT
                        + r2] by {
                    if c2 != c || r2 != r {
                        assert(glyph_address(c2, r2) != address as int);
                        assert(mem@[glyph_address(c2, r2)] == before[glyph_address(c2, r2)]);
                    }
                }
            }
            r = r + 1;
        }
        c = c + 1;
    }
}

/// Sets bit `b` of plane `plane`'s byte at `offset` to `v`.
fn set_plane_bit(mem: &mut Vec<u8>, plane: usize, offset: usize, b: u8, v: u8)
    requires
        old(mem)@.len() == MEMORY_SIZE,
        plane < 4,
        offset < PLANE_SIZE,
        b < 8,
    ensures
        final(mem)@ == old(mem)@.update(
            plane * PLANE_SIZE + offset,
            with_bit(old(mem)@[plane * PLANE_SIZE + offset], b, v),
        ),
{
    let k = plane * PLANE_SIZE + offset;
    let byte = mem[k];
    mem.set(k, (byte & !(1u8 << b)) | (v << b));
}

/// The display controller.
pub struct Vga {
    registers: Registers,
    color_lookup: ColorLookup,
    memory: Vec<u8>,
    mode: VideoMode,
    default_palette: Vec<u8>,
    default_font: Vec<u8>,
}

impl View for Vga {
    type V = VgaState;

    closed spec fn view(&self) -> VgaState {
        VgaState {
            registers: self.registers@,
            palette: self.color_lookup.values@,
            memory: self.memory@,
            mode: self.mode,
            default_palette: self.default_palette@,
            default_font: self.default_font@,
        }
    }
}

/// Fills a byte vector of `n` zeros.
fn zeroed(n: usize) -> (v: Vec<u8>)
    ensures
        v@ == Seq::new(n as nat, |i: int| 0u8),
{
    let mut v: Vec<u8> = Vec::new();
    let mut i: usize = 0;
    while i < n
        invariant
            i <= n,
            v@ == Seq::new(i as nat, |j: int| 0u8),
        decreases n - i,
    {
        v.push(0u8);
        i = i + 1;
        assert(v@ =~= Seq::new(i as nat, |j: int| 0u8));
    }
    v
}

/// The value that the table's slot `s` holds while the table is written:
/// the protect bit stays clear until the end.
spec fn unlocked_value(t: Seq<u8>, s: int) -> u8 {
    if s == CRTC_VERTICAL_RETRACE_END as int {
        t[s] & 0x7fu8
    } else {
        t[s]
    }
}

/// Writes the registers of `bank` from the table, in index order, with the
/// protect bit held clear.
fn write_bank(regs: &mut Registers, table: &Vec<u8>, bank: RegisterBank)
    requires
        old(regs)@.len() == REGISTER_COUNT,
        table@.len() == REGISTER_COUNT,
        !is_locked(old(regs)@),
    ensures
        final(regs)@.len() == REGISTER_COUNT,
        !is_locked(final(regs)@),
        forall|s: int|
            bank.spec_first_slot() <= s < bank.spec_first_slot() + bank.spec_size()
                ==> final(regs)@[s] == unlocked_value(table@, s),
        forall|s: int|
            0 <= s < REGISTER_COUNT && !(bank.spec_first_slot() <= s < bank.spec_first_slot()
                + bank.spec_size()) ==> final(regs)@[s] == old(regs)@[s],
{
    let ghost start = regs@;
    let first = bank.first_slot();
    let size = bank.size();
    let mut i: usize = 0;
    while i < size
        invariant
            first == bank.spec_first_slot(),
            size == bank.spec_size(),
            i <= size,
            table@.len() == REGISTER_COUNT,
            regs@.len() == REGISTER_COUNT,
            !is_locked(regs@),
            forall|s: int| first <= s < first + i ==> regs@[s] == unlocked_value(table@, s),
            forall|s: int|
                0 <= s < REGISTER_COUNT && !(first <= s < first + i) ==> regs@[s] == start[s],
        decreases size - i,
    {
        let s = first + i;
        let value = if s == CRTC_VERTICAL_RETRACE_END as usize {
            table[s] & 0x7f
        } else {
            table[s]
        };
        proof {
            let t = table@[s as int];
            assert(t & 0x7fu8 & 0x80u8 == 0u8) by (bit_vector);
        }
        regs.write(bank, i as u8, value);
        i = i + 1;
    }
}

impl Vga {
    /// The invariant: sizes of every store, and the internal invariant.
    pub open spec fn inv(&self) -> bool {
        &&& self@.wf()
        &&& self.cursors_in_range()
    }

    /// The color lookup unit's cursors stay within its table.
    pub closed spec fn cursors_in_range(&self) -> bool {
        self.color_lookup.inv()
    }

    /// Switches the controller to `mode`: clears the CRTC protect bit, writes
    /// the mode's whole register table (miscellaneous output, sequencer,
    /// CRTC, graphics controller, attribute controller, each in index order),
    /// sets the protect bit again where the table asks for it, and records the
    /// new mode. Nothing is read back.
    pub fn apply_mode(&mut self, mode: VideoMode)
        requires
            old(self).inv(),
        ensures
            final(self).inv(),
            final(self)@ == switched(old(self)@, mode),
    {
        let table = mode_register_table(mode);
        let ghost before = self.registers@;
        self.registers.set_bits(RegisterBank::Crtc, CRTC_VERTICAL_RETRACE_END, CRTC_PROTECT_BIT, 0);
        proof {
            let v = before[17];
            assert(merge_bits(v, 0x80u8, 0u8) & 0x80u8 == 0u8) by (bit_vector);
        }
        let ghost unlocked = self.registers@;
        write_bank(&mut self.registers, &table, RegisterBank::General);
        write_bank(&mut self.registers, &table, RegisterBank::Sequencer);
        write_bank(&mut self.registers, &table, RegisterBank::Crtc);
        write_bank(&mut self.registers, &table, RegisterBank::Graphics);
        write_bank(&mut self.registers, &table, RegisterBank::Attribute);
        assert forall|s: int| 0 <= s < REGISTER_COUNT implies self.registers@[s] == unlocked_value(
            table@,
            s,
        ) by {
            if s < 25 {
            } else if s < 30 {
            } else if s < 39 {
            } else if s < 60 {
            } else {
            }
        }
        let ghost written = self.registers@;
        assert(written[17] == unlocked_value(table@, 17));
        assert(written[17] == table@[17] & 0x7fu8);
        let final_protect = table[CRTC_VERTICAL_RETRACE_END as usize];
        self.registers.set_bits(
            RegisterBank::Crtc,
            CRTC_VERTICAL_RETRACE_END,
            CRTC_PROTECT_BIT,
            final_protect,
        );
        proof {
            let v = table@[17];
            assert(merge_bits(v & 0x7fu8, 0x80u8, v) == v) by (bit_vector);
            assert(self.registers@ == written.update(17, merge_bits(v & 0x7fu8, 0x80u8, v)));
            assert forall|s: int| 0 <= s < REGISTER_COUNT implies self.registers@[s] == table@[s] by {
                if s != 17 {
                    assert(written[s] == unlocked_value(table@, s));
                }
            }
            assert(self.registers@ =~= table@);
        }
        self.mode = mode;
    }

    /// The active mode.
    pub fn mode(&self) -> (m: VideoMode)
        ensures
            m == self@.mode,
    {
        self.mode
    }

    /// The frame buffer view: the start address that the graphics
    /// controller's memory map select gives, and the active mode's geometry.
    pub fn frame_buffer_base(&self) -> (r: FrameBufferLayout)
        requires
            self.inv(),
        ensures
            r == layout_of(self@),
    {
        let misc = self.registers.read(RegisterBank::Graphics, GRAPHICS_MISC);
        let select = (misc >> 2u8) & 3u8;
        let address: u32 = if select == 2 {
            0xB0000
        } else if select == 3 {
            0xB8000
        } else {
            0xA0000
        };
        FrameBufferLayout {
            address,
            width: self.mode.width(),
            height: self.mode.height(),
            layout: self.mode.layout(),
        }
    }

    /// Streams `palette` into the color lookup unit from entry 0: byte `i`
    /// becomes channel `i % 3` of entry `i / 3`. Entries past the end of
    /// `palette` keep their values.
    pub fn load_palette(&mut self, palette: &[u8])
        requires
            old(self).inv(),
            palette@.len() <= PALETTE_SIZE,
        ensures
            final(self).inv(),
            final(self)@ == (VgaState {
                palette: palette_loaded(old(self)@.palette, palette@),
                ..old(self)@
            }),
    {
        self.color_lookup.stream_in(palette);
    }

    /// Reads the whole color lookup table back, entry by entry from entry 0.
    pub fn read_palette(&mut self) -> (r: Vec<u8>)
        requires
            old(self).inv(),
        ensures
            final(self).inv(),
            final(self)@ == old(self)@,
            r@ == old(self)@.palette,
    {
        self.color_lookup.read_all()
    }

    /// Loads the palette given when the device was made.
    pub fn load_default_palette(&mut self)
        requires
            old(self).inv(),
        ensures
            final(self).inv(),
            final(self)@ == (VgaState { palette: old(self)@.default_palette, ..old(self)@ }),
    {
        let palette = self.default_palette.clone();
        self.load_palette(palette.as_slice());
        assert(palette_loaded(old(self)@.palette, palette@) =~= palette@);
    }

    /// Uploads `font` into the character generator plane: row `r` of glyph
    /// `c` comes from byte `c * 16 + r`. The memory access registers are saved
    /// first, switched to expose plane 2 linearly, and put back before the
    /// call returns; nothing in between can fail, so they are restored on
    /// every path.
    pub fn load_font(&mut self, font: &[u8])
        requires
            old(self).inv(),
            font@.len() == FONT_SIZE,
        ensures
            final(self).inv(),
            font_loaded(old(self)@.memory, final(self)@.memory, font@),
            final(self)@ == (VgaState { memory: final(self)@.memory, ..old(self)@ }),
    {
        let access = FontAccess::enter(&mut self.registers);
        write_glyphs(&mut self.memory, font);
        access.restore(&mut self.registers);
    }

    /// Uploads the font given when the device was made.
    pub fn load_default_font(&mut self)
        requires
            old(self).inv(),
        ensures
            final(self).inv(),
            font_loaded(old(self)@.memory, final(self)@.memory, old(self)@.default_font),
            final(self)@ == (VgaState { memory: final(self)@.memory, ..old(self)@ }),
    {
        let font = self.default_font.clone();
        self.load_font(font.as_slice());
    }

    /// Row `row` of the glyph for `code` in the character generator plane.
    pub fn read_glyph_row(&self, code: u8, row: usize) -> (r: u8)
        requires
            self.inv(),
            row < GLYPH_HEIGHT,
        ensures
            r == self@.memory[glyph_address(code as int, row as int)],
    {
        self.memory[2 * PLANE_SIZE + code as usize * GLYPH_STRIDE + row]
    }

    /// Writes a character code and an attribute to text cell `index`.
    pub fn write_text_cell(&mut self, index: usize, character: u8, attribute: u8)
        requires
            old(self).inv(),
            index < MAX_TEXT_CELLS,
        ensures
            final(self).inv(),
            final(self)@ == (VgaState {
                memory: with_cell(old(self)@.memory, index as int, character, attribute),
                ..old(self)@
            }),
    {
        self.memory.set(2 * index, character);
        self.memory.set(PLANE_SIZE + 2 * index + 1, attribute);
    }

    /// The character code and attribute of text cell `index`.
    pub fn read_text_cell(&self, index: usize) -> (r: (u8, u8))
        requires
            self.inv(),
            index < MAX_TEXT_CELLS,
        ensures
            r == cell(self@.memory, index as int),
    {
        (self.memory[2 * index], self.memory[PLANE_SIZE + 2 * index + 1])
    }

    /// Writes the same character code and attribute to the first `count`
    /// text cells.
    pub fn fill_text(&mut self, count: usize, character: u8, attribute: u8)
        requires
            old(self).inv(),
            count <= MAX_TEXT_CELLS,
        ensures
            final(self).inv(),
            final(self)@ == (VgaState { memory: final(self)@.memory, ..old(self)@ }),
            final(self)@.memory.len() == MEMORY_SIZE,
            forall|i: int| 0 <= i < count ==> #[trigger] cell(final(self)@.memory, i) == (
                character,
                attribute,
            ),
            forall|k: int|
                0 <= k < MEMORY_SIZE && !is_cell_byte(k, count as int) ==> final(self)@.memory[k]
                    == old(self)@.memory[k],
    {
        let mut i: usize = 0;
        while i < count
            invariant
                self.inv(),
                count <= MAX_TEXT_CELLS,
                i <= count,
                self@ == (VgaState { memory: self@.memory, ..old(self)@ }),
                forall|j: int| 0 <= j < i ==> #[trigger] cell(self@.memory, j) == (
                    character,
                    attribute,
                ),
                forall|k: int|
                    0 <= k < MEMORY_SIZE && !is_cell_byte(k, i as int) ==> self@.memory[k]
                        == old(self)@.memory[k],
            decreases count - i,
        {
            let ghost before = self@.memory;
            self.write_text_cell(i, character, attribute);
            proof {
                assert forall|j: int| 0 <= j < i + 1 implies #[trigger] cell(self@.memory, j) == (
                    character,
                    attribute,
                ) by {
                    if j < i {
                        assert(cell(before, j) == (character, attribute));
                    }
                }
                assert forall|k: int|
                    0 <= k < MEMORY_SIZE && !is_cell_byte(k, i + 1) implies self@.memory[k]
                        == old(self)@.memory[k] by {
                    assert(k != char_address(i as int) && k != attribute_address(i as int));
                    assert(!is_cell_byte(k, i as int));
                }
            }
            i = i + 1;
        }
    }

    /// Writes `color` to pixel (x, y) of the planar layout. This costs one
    /// read and one write in each of the four planes: bit p of `color` goes
    /// to plane p.
    pub fn write_pixel(&mut self, x: usize, y: usize, color: u8)
        requires
            old(self).inv(),
            x < 640,
            y < 480,
        ensures
            final(self).inv(),
            final(self)@ == (VgaState {
                memory: with_pixel(old(self)@.memory, x as int, y as int, color),
                ..old(self)@
            }),
    {
        let offset = y * PLANAR_LINE_BYTES + x / 8;
        let b = (7 - x % 8) as u8;
        let ghost start = self.memory@;
        proof {
            assert(color >> 0u8 == color) by (bit_vector);
        }
        set_plane_bit(&mut self.memory, 0, offset, b, color & 1);
        set_plane_bit(&mut self.memory, 1, offset, b, (color >> 1u8) & 1);
        set_plane_bit(&mut self.memory, 2, offset, b, (color >> 2u8) & 1);
        set_plane_bit(&mut self.memory, 3, offset, b, (color >> 3u8) & 1);
        assert(self.memory@ =~= with_pixel(start, x as int, y as int, color));
    }

    /// The color of pixel (x, y) of the planar layout, gathered from the
    /// four planes.
    pub fn read_pixel(&self, x: usize, y: usize) -> (r: u8)
        requires
            self.inv(),
            x < 640,
            y < 480,
        ensures
            r == pixel_color(self@.memory, x as int, y as int),
    {
        let offset = y * PLANAR_LINE_BYTES + x / 8;
        let b = (7 - x % 8) as u8;
        let plane0 = (self.memory[offset] >> b) & 1;
        let plane1 = (self.memory[PLANE_SIZE + offset] >> b) & 1;
        let plane2 = (self.memory[2 * PLANE_SIZE + offset] >> b) & 1;
        let plane3 = (self.memory[3 * PLANE_SIZE + offset] >> b) & 1;
        plane0 | (plane1 << 1u8) | (plane2 << 2u8) | (plane3 << 3u8)
    }

    /// Gives every pixel of the planar layout the color `color`: each shown
    /// byte of plane p becomes all ones or all zeros after bit p of `color`.
    pub fn fill_planes(&mut self, color: u8)
        requires
            old(self).inv(),
        ensures
            final(self).inv(),
            final(self)@ == (VgaState { memory: final(self)@.memory, ..old(self)@ }),
            planes_filled(final(self)@.memory, color),
            forall|k: int|
                0 <= k < MEMORY_SIZE && !is_plane_byte(k, PLANAR_PLANE_BYTES as int)
                    ==> final(self)@.memory[k] == old(self)@.memory[k],
    {
        let mut fills: [u8; 4] = [0u8; 4];
        let mut p: usize = 0;
        while p < 4
            invariant
                p <= 4,
                forall|q: int| 0 <= q < p ==> fills@[q] == plane_fill(color, q),
            decreases 4 - p,
        {
            let bit = (color >> p as u8) & 1;
            fills[p] = if bit == 1 { 0xFF } else { 0 };
            p = p + 1;
        }
        let mut o: usize = 0;
        while o < PLANAR_PLANE_BYTES
            invariant
                self.inv(),
                self@ == (VgaState { memory: self@.memory, ..old(self)@ }),
                o <= PLANAR_PLANE_BYTES,
                forall|q: int| 0 <= q < 4 ==> fills@[q] == plane_fill(color, q),
                forall|q: int, o2: int|
                    0 <= q < 4 && 0 <= o2 < o ==> #[trigger] self@.memory[q * PLANE_SIZE + o2]
                        == plane_fill(color, q),
                forall|k: int|
                    0 <= k < MEMORY_SIZE && !is_plane_byte(k, o as int) ==> self@.memory[k]
                        == old(self)@.memory[k],
            decreases PLANAR_PLANE_BYTES - o,
        {
            let ghost before = self@.memory;
            self.memory.set(o, fills[0]);
            self.memory.set(PLANE_SIZE + o, fills[1]);
            self.memory.set(2 * PLANE_SIZE + o, fills[2]);
            self.memory.set(3 * PLANE_SIZE + o, fills[3]);
            proof {
                assert forall|q: int, o2: int|
                    0 <= q < 4 && 0 <= o2 < o + 1 implies #[trigger] self@.memory[q * PLANE_SIZE
                    + o2] == plane_fill(color, q) by {
                    if o2 < o {
                        assert(before[q * PLANE_SIZE + o2] == plane_fill(color, q));
                    }
                }
                assert forall|k: int|
                    0 <= k < MEMORY_SIZE && !is_plane_byte(k, o + 1) implies self@.memory[k]
                        == old(self)@.memory[k] by {
                    assert(k != plane_address(0, o as int));
                    assert(k != plane_address(1, o as int));
                    assert(k != plane_address(2, o as int));
                    assert(k != plane_address(3, o as int));
                    assert(!is_plane_byte(k, o as int));
                }
            }
            o = o + 1;
        }
    }

    /// A device in text mode 80x25 with a cleared palette and video memory,
    /// keeping `default_palette` and `default_font` for the writers that
    /// reload them on a mode switch.
    pub fn new(default_palette: Vec<u8>, default_font: Vec<u8>) -> (r: Vga)
        requires
            default_palette@.len() == PALETTE_SIZE,
            default_font@.len() == FONT_SIZE,
        ensures
            r.inv(),
            r@.mode == VideoMode::Mode80x25,
            r@.registers == mode_registers(VideoMode::Mode80x25),
            r@.palette == Seq::new(PALETTE_SIZE as nat, |i: int| 0u8),
            r@.memory == Seq::new(MEMORY_SIZE as nat, |i: int| 0u8),
            r@.default_palette == default_palette@,
            r@.default_font == default_font@,
    {
        let mut vga = Vga {
            registers: Registers::new(),
            color_lookup: ColorLookup {
                values: zeroed(PALETTE_SIZE),
                write_cursor: 0,
                read_cursor: 0,
            },
            memory: zeroed(MEMORY_SIZE),
            mode: VideoMode::Mode80x25,
            default_palette,
            default_font,
        };
        assert(!is_locked(vga.registers@)) by {
            assert(vga.registers@[CRTC_VERTICAL_RETRACE_END as int] == 0u8);
            assert(0u8 & 0x80u8 == 0u8) by (bit_vector);
        }
        vga.apply_mode(VideoMode::Mode80x25);
        vga
    }
}

} // verus!

verus! {

/// After a switch to `mode`, the frame buffer view reports exactly `mode`'s
/// geometry, layout and base address, whatever mode was active before.
pub proof fn lemma_layout_after_switch(s: VgaState, mode: VideoMode)
    requires
        s.wf(),
    ensures
        layout_of(switched(s, mode)) == (FrameBufferLayout {
            address: mode_base_address(mode),
            width: mode.spec_width(),
            height: mode.spec_height(),
            layout: mode.spec_layout(),
        }),
{
    let misc = mode_registers(mode)[36];
    match mode {
        VideoMode::Mode640x480x16 => {
            assert(misc == 0x05u8);
            assert((0x05u8 >> 2u8) & 3u8 == 1u8) by (bit_vector);
        },
        _ => {
            assert(misc == 0x0Eu8);
            assert((0x0Eu8 >> 2u8) & 3u8 == 3u8) by (bit_vector);
        },
    }
}

/// A text cell reads back what was last written to it, and a write to one
/// cell leaves every other cell as it was.
pub proof fn lemma_cell_round_trip(mem: Seq<u8>, i: int, character: u8, attribute: u8)
    requires
        mem.len() == MEMORY_SIZE,
        0 <= i < MAX_TEXT_CELLS,
    ensures
        cell(with_cell(mem, i, character, attribute), i) == (character, attribute),
        forall|j: int|
            0 <= j < MAX_TEXT_CELLS && j != i ==> #[trigger] cell(
                with_cell(mem, i, character, attribute),
                j,
            ) == cell(mem, j),
{
}

/// `with_bit` then `bit_of` on the same bit gives back the bit written, and
/// leaves the other bits alone.
proof fn lemma_bit_round_trip(byte: u8, b: u8, v: u8)
    requires
        b < 8,
        v <= 1,
    ensures
        bit_of(with_bit(byte, b, v), b) == v,
        forall|c: u8| c < 8 && c != b ==> bit_of(with_bit(byte, b, v), c) == bit_of(byte, c),
{
    assert(((byte & !(1u8 << b)) | (v << b)) >> b & 1u8 == v) by (bit_vector)
        requires
            b < 8,
            v <= 1,
    ;
    assert forall|c: u8| c < 8 && c != b implies bit_of(with_bit(byte, b, v), c) == bit_of(
        byte,
        c,
    ) by {
        assert(((byte & !(1u8 << b)) | (v << b)) >> c & 1u8 == (byte >> c) & 1u8) by (bit_vector)
            requires
                b < 8,
                v <= 1,
                c < 8,
                c != b,
        ;
    }
}

/// A pixel of the planar layout reads back the 4-bit color last written to
/// it.
pub proof fn lemma_pixel_round_trip(mem: Seq<u8>, x: int, y: int, color: u8)
    requires
        mem.len() == MEMORY_SIZE,
        0 <= x < 640,
        0 <= y < 480,
        color < 16,
    ensures
        pixel_color(with_pixel(mem, x, y, color), x, y) == color,
{
    let m = with_pixel(mem, x, y, color);
    let b = pixel_bit(x);
    assert(b < 8);
    assert forall|p: int| 0 <= p < 4 implies plane_bit(m, p, x, y) == bit_of(color, p as u8) by {
        assert(bit_of(color, p as u8) <= 1) by {
            let q = p as u8;
            assert((color >> q) & 1u8 <= 1u8) by (bit_vector);
        }
        lemma_bit_round_trip(mem[p * PLANE_SIZE + pixel_offset(x, y)], b, bit_of(color, p as u8));
    }
    assert(plane_bit(m, 0, x, y) == bit_of(color, 0u8));
    assert(plane_bit(m, 1, x, y) == bit_of(color, 1u8));
    assert(plane_bit(m, 2, x, y) == bit_of(color, 2u8));
    assert(plane_bit(m, 3, x, y) == bit_of(color, 3u8));
    assert(((color >> 0u8) & 1u8) | (((color >> 1u8) & 1u8) << 1u8) | (((color >> 2u8) & 1u8)
        << 2u8) | (((color >> 3u8) & 1u8) << 3u8) == color) by (bit_vector)
        requires
            color < 16,
    ;
}

/// Loading a whole table of 256 entries and reading the table back gives the
/// same entries in the same order, whatever the table held before.
pub proof fn lemma_palette_round_trip(before: Seq<u8>, palette: Seq<u8>)
    requires
        before.len() == PALETTE_SIZE,
        palette.len() == PALETTE_SIZE,
    ensures
        palette_loaded(before, palette) == palette,
{
    assert(palette_loaded(before, palette) =~= palette);
}

} // verus!

verus! {

/// When every shown plane byte holds the fill for `color`, every pixel of
/// the planar layout has the color `color`.
pub proof fn lemma_filled_pixel(mem: Seq<u8>, color: u8, x: int, y: int)
    requires
        mem.len() == MEMORY_SIZE,
        planes_filled(mem, color),
        color < 16,
        0 <= x < 640,
        0 <= y < 480,
    ensures
        pixel_color(mem, x, y) == color,
{
    let b = pixel_bit(x);
    let o = pixel_offset(x, y);
    assert(0 <= o < PLANAR_PLANE_BYTES);
    assert(b < 8);
    assert forall|p: int| 0 <= p < 4 implies plane_bit(mem, p, x, y) == bit_of(color, p as u8) by {
        assert(mem[p * PLANE_SIZE + o] == plane_fill(color, p));
        let q = p as u8;
        assert((color >> q) & 1u8 == 1u8 || (color >> q) & 1u8 == 0u8) by (bit_vector);
        assert((0xFFu8 >> b) & 1u8 == 1u8) by (bit_vector)
            requires
                b < 8,
        ;
        assert((0u8 >> b) & 1u8 == 0u8) by (bit_vector);
    }
    assert(plane_bit(mem, 0, x, y) == bit_of(color, 0u8));
    assert(plane_bit(mem, 1, x, y) == bit_of(color, 1u8));
    assert(plane_bit(mem, 2, x, y) == bit_of(color, 2u8));
    assert(plane_bit(mem, 3, x, y) == bit_of(color, 3u8));
    assert(((color >> 0u8) & 1u8) | (((color >> 1u8) & 1u8) << 1u8) | (((color >> 2u8) & 1u8)
        << 2u8) | (((color >> 3u8) & 1u8) << 3u8) == color) by (bit_vector)
        requires
            color < 16,
    ;
}

} // verus!
