//! The VIC-II: the raster counter, and the frame as a list of drawing
//! commands for a host surface.
//!
//! The VIC never touches pixels. A frame is the sequence of commands that
//! paints it (set the colour, clear, fill a rectangle, present), with every
//! coordinate and size multiplied by the scale.

use vstd::prelude::*;
use crate::bits::{bit, bit_pair, lo_byte, spec_bit, spec_bit_pair, spec_lo};
use crate::emu::{BORDER_HEIGHT, BORDER_WIDTH, VIEWABLE_HEIGHT, VIEWABLE_WIDTH};
use crate::memc64::{spec_read_register, MemC64, MemView, VicIO};

verus! {

pub const VIC_SCROLX: u16 = 0xD016;

pub const VIC_SCROLY: u16 = 0xD011;

pub const VIC_RASTER: u16 = 0xD012;

pub const VIC_SPRITE_ENABLED: u16 = 0xD015;

pub const VIC_MEMORY: u16 = 0xD018;

pub const VIC_BORDER_COLOR: u16 = 0xD020;

pub const VIC_BACKGROUND_COLOR_0: u16 = 0xD021;

pub const VIC_BACKGROUND_COLOR_1: u16 = 0xD022;

pub const VIC_BACKGROUND_COLOR_2: u16 = 0xD023;

pub const VIC_SPRITE_POS_BASE: u16 = 0xD000;

pub const VIC_SPRITE_CLR_BASE: u16 = 0xD027;

pub const VIC_SPRITE_XPOS_MSB: u16 = 0xD010;

pub const VIC_SPRITE_PTR_OFFSET: u16 = 0x03F8;

pub const VIC_SPRITE_POS_X_OFFSET: i32 = 24;

pub const VIC_SPRITE_POS_Y_OFFSET: i32 = 50;

/// NTSC timing.
pub const CYCLES_PER_LINE: u16 = 65;

pub const MAX_LINES: u16 = 263;

/// One call of the host surface.
#[derive(Clone, Copy, Debug, PartialEq, Eq)]
pub enum DrawCommand {
    /// Draw in the palette entry with this number, 0 to 15, from here on.
    SetColor(u8),
    /// Fill the whole surface.
    Clear,
    /// Fill a rectangle, in surface pixels.
    FillRect { x: i32, y: i32, w: u32, h: u32 },
    /// Show what was drawn.
    Present,
}

/// The red, green and blue of a palette entry.
pub open spec fn spec_palette(index: u8) -> (u8, u8, u8) {
    match index {
        0 => (0x00, 0x00, 0x00),
        1 => (0xff, 0xff, 0xff),
        2 => (0x68, 0x37, 0x2b),
        3 => (0x70, 0xa4, 0xb2),
        4 => (0x6f, 0x3d, 0x86),
        5 => (0x58, 0x8d, 0x43),
        6 => (0x35, 0x28, 0x79),
        7 => (0xb8, 0xc7, 0x6f),
        8 => (0x6f, 0x4f, 0x25),
        9 => (0x43, 0x39, 0x00),
        10 => (0x9a, 0x67, 0x59),
        11 => (0x44, 0x44, 0x44),
        12 => (0x6c, 0x6c, 0x6c),
        13 => (0x9a, 0xd2, 0x84),
        14 => (0x6c, 0x5e, 0xb5),
        _ => (0x95, 0x95, 0x95),
    }
}

/// The sixteen colours: black, white, red, cyan, purple, green, blue,
/// yellow, orange, brown, light red, dark gray, gray, light green, light
/// blue, light gray.
pub fn palette(index: u8) -> (rgb: (u8, u8, u8))
    ensures
        rgb == spec_palette(index),
{
    match index {
        0 => (0x00, 0x00, 0x00),
        1 => (0xff, 0xff, 0xff),
        2 => (0x68, 0x37, 0x2b),
        3 => (0x70, 0xa4, 0xb2),
        4 => (0x6f, 0x3d, 0x86),
        5 => (0x58, 0x8d, 0x43),
        6 => (0x35, 0x28, 0x79),
        7 => (0xb8, 0xc7, 0x6f),
        8 => (0x6f, 0x4f, 0x25),
        9 => (0x43, 0x39, 0x00),
        10 => (0x9a, 0x67, 0x59),
        11 => (0x44, 0x44, 0x44),
        12 => (0x6c, 0x6c, 0x6c),
        13 => (0x9a, 0xd2, 0x84),
        14 => (0x6c, 0x5e, 0xb5),
        _ => (0x95, 0x95, 0x95),
    }
}

/// The palette entry that a colour register selects: its low four bits.
pub open spec fn spec_color_from_reg<M: VicIO>(m: M::V, clr: u16) -> u8 {
    M::spec_vic_read_register(m, clr) % 16
}

/// A rectangle given in C64 pixels, from the top left of the border.
pub open spec fn spec_rect(scale: u8, x: int, y: int, w: int, h: int) -> DrawCommand {
    DrawCommand::FillRect {
        x: (x * scale) as i32,
        y: (y * scale) as i32,
        w: (w * scale) as u32,
        h: (h * scale) as u32,
    }
}

/// The first `n` pixels of one row of a bitmap byte, highest bit first: a
/// pixel-sized rectangle for each bit that is set.
pub open spec fn spec_pixel_row(scale: u8, x: int, y: int, byte: u8, n: nat) -> Seq<DrawCommand>
    decreases n,
{
    if n == 0 {
        Seq::empty()
    } else {
        let rest = spec_pixel_row(scale, x, y, byte, (n - 1) as nat);
        if spec_bit(byte, 8 - n) {
            rest.push(spec_rect(scale, x + n - 1, y, 1, 1))
        } else {
            rest
        }
    }
}

/// The first `n` rows of a glyph whose bitmap starts at `start`.
pub open spec fn spec_glyph_rows<M: VicIO>(
    m: M::V,
    scale: u8,
    x: int,
    y: int,
    start: u16,
    n: nat,
) -> Seq<DrawCommand>
    decreases n,
{
    if n == 0 {
        Seq::empty()
    } else {
        spec_glyph_rows::<M>(m, scale, x, y, start, (n - 1) as nat) + spec_pixel_row(
            scale,
            x,
            y + n - 1,
            M::spec_vic_read_byte(m, (start + n - 1) as u16),
            8,
        )
    }
}

/// A standard character cell: the cell filled with the background, then the
/// set bits of its eight rows in the foreground.
pub open spec fn spec_draw_char<M: VicIO>(
    m: M::V,
    scale: u8,
    row: int,
    col: int,
    start: u16,
    bg: u8,
    fg: u8,
) -> Seq<DrawCommand> {
    seq![
        DrawCommand::SetColor(bg % 16),
        spec_rect(scale, BORDER_WIDTH + col * 8, BORDER_HEIGHT + row * 8, 8, 8),
        DrawCommand::SetColor(fg),
    ] + spec_glyph_rows::<M>(m, scale, BORDER_WIDTH + col * 8, BORDER_HEIGHT + row * 8, start, 8)
}

/// The colour that a two-bit group selects.
pub open spec fn spec_pick(sel: u8, c0: u8, c1: u8, c2: u8, c3: u8) -> u8 {
    if sel == 0 {
        c0
    } else if sel == 1 {
        c1
    } else if sel == 2 {
        c2
    } else {
        c3
    }
}

/// The first `n` double-width pixels of one row of a multi-colour byte,
/// highest pair first.
pub open spec fn spec_pair_row(
    scale: u8,
    x: int,
    y: int,
    byte: u8,
    c0: u8,
    c1: u8,
    c2: u8,
    c3: u8,
    n: nat,
) -> Seq<DrawCommand>
    decreases n,
{
    if n == 0 {
        Seq::empty()
    } else {
        spec_pair_row(scale, x, y, byte, c0, c1, c2, c3, (n - 1) as nat) + seq![
            DrawCommand::SetColor(spec_pick(spec_bit_pair(byte, 8 - 2 * n), c0, c1, c2, c3) % 16),
            spec_rect(scale, x + 2 * (n - 1), y, 2, 1),
        ]
    }
}

/// The first `n` rows of a multi-colour cell whose bitmap starts at `start`.
pub open spec fn spec_multicolor_rows<M: VicIO>(
    m: M::V,
    scale: u8,
    x: int,
    y: int,
    start: u16,
    c0: u8,
    c1: u8,
    c2: u8,
    c3: u8,
    n: nat,
) -> Seq<DrawCommand>
    decreases n,
{
    if n == 0 {
        Seq::empty()
    } else {
        spec_multicolor_rows::<M>(m, scale, x, y, start, c0, c1, c2, c3, (n - 1) as nat)
            + spec_pair_row(
            scale,
            x,
            y + n - 1,
            M::spec_vic_read_byte(m, (start + n - 1) as u16),
            c0,
            c1,
            c2,
            c3,
            4,
        )
    }
}

/// A multi-colour character cell.
pub open spec fn spec_draw_char_multicolor<M: VicIO>(
    m: M::V,
    scale: u8,
    row: int,
    col: int,
    start: u16,
    c0: u8,
    c1: u8,
    c2: u8,
    c3: u8,
) -> Seq<DrawCommand> {
    spec_multicolor_rows::<M>(m, scale, BORDER_WIDTH + col * 8, BORDER_HEIGHT + row * 8, start, c0, c1, c2, c3, 8)
}

/// Where the video matrix starts in the VIC's window: the high nibble of
/// $D018 times 1024.
pub open spec fn spec_vmatrix_start<M: VicIO>(m: M::V) -> int {
    (M::spec_vic_read_register(m, VIC_MEMORY) / 16) * 1024
}

/// Where the character bitmaps start: bits 1 to 3 of $D018 times 2048.
pub open spec fn spec_charrom_start<M: VicIO>(m: M::V) -> int {
    ((M::spec_vic_read_register(m, VIC_MEMORY) / 2) % 8) * 2048
}

/// Where the bitmap starts in bitmap mode: 8192 where bit 3 of $D018 is set.
pub open spec fn spec_bitmap_start<M: VicIO>(m: M::V) -> int {
    if spec_bit(M::spec_vic_read_register(m, VIC_MEMORY), 3) {
        8192
    } else {
        0
    }
}

/// Bit 4 of $D016 selects multi-colour.
pub open spec fn spec_multi_color<M: VicIO>(m: M::V) -> bool {
    spec_bit(M::spec_vic_read_register(m, VIC_SCROLX), 4)
}

/// Bit 6 of $D011 selects extended background colour.
pub open spec fn spec_extended_color<M: VicIO>(m: M::V) -> bool {
    spec_bit(M::spec_vic_read_register(m, VIC_SCROLY), 6)
}

/// Bit 5 of $D011 selects bitmap mode.
pub open spec fn spec_bitmap_mode<M: VicIO>(m: M::V) -> bool {
    spec_bit(M::spec_vic_read_register(m, VIC_SCROLY), 5)
}

/// Cell `i` of the text screen, counted row by row.
pub open spec fn spec_text_cell<M: VicIO>(m: M::V, scale: u8, i: int) -> Seq<DrawCommand> {
    let (ch, fg) = M::spec_vic_read_vm(m, (spec_vmatrix_start::<M>(m) + i) as u16);
    let start = (spec_charrom_start::<M>(m) + ch * 8) as u16;
    let bg = if spec_extended_color::<M>(m) {
        M::spec_vic_read_register(m, (VIC_BACKGROUND_COLOR_0 + ch / 64) as u16)
    } else {
        M::spec_vic_read_register(m, VIC_BACKGROUND_COLOR_0)
    };
    if spec_multi_color::<M>(m) && fg >= 8 {
        spec_draw_char_multicolor::<M>(
            m,
            scale,
            i / 40,
            i % 40,
            start,
            M::spec_vic_read_register(m, VIC_BACKGROUND_COLOR_0),
            M::spec_vic_read_register(m, VIC_BACKGROUND_COLOR_1),
            M::spec_vic_read_register(m, VIC_BACKGROUND_COLOR_2),
            fg % 8,
        )
    } else {
        spec_draw_char::<M>(m, scale, i / 40, i % 40, start, bg, fg)
    }
}

/// The first `n` cells of the text screen.
pub open spec fn spec_text_cells<M: VicIO>(m: M::V, scale: u8, n: nat) -> Seq<DrawCommand>
    decreases n,
{
    if n == 0 {
        Seq::empty()
    } else {
        spec_text_cells::<M>(m, scale, (n - 1) as nat) + spec_text_cell::<M>(m, scale, n - 1)
    }
}

/// Cell `i` of the bitmap screen, counted row by row.
pub open spec fn spec_bitmap_cell<M: VicIO>(m: M::V, scale: u8, i: int) -> Seq<DrawCommand> {
    let (cb, cmem) = M::spec_vic_read_vm(m, (spec_vmatrix_start::<M>(m) + i) as u16);
    let start = (spec_bitmap_start::<M>(m) + i * 8) as u16;
    if spec_multi_color::<M>(m) {
        spec_draw_char_multicolor::<M>(
            m,
            scale,
            i / 40,
            i % 40,
            start,
            M::spec_vic_read_register(m, VIC_BACKGROUND_COLOR_0),
            cb / 16,
            cb % 16,
            cmem % 16,
        )
    } else {
        spec_draw_char::<M>(m, scale, i / 40, i % 40, start, cb % 16, cb / 16)
    }
}

/// The first `n` cells of the bitmap screen.
pub open spec fn spec_bitmap_cells<M: VicIO>(m: M::V, scale: u8, n: nat) -> Seq<DrawCommand>
    decreases n,
{
    if n == 0 {
        Seq::empty()
    } else {
        spec_bitmap_cells::<M>(m, scale, (n - 1) as nat) + spec_bitmap_cell::<M>(m, scale, n - 1)
    }
}

/// The first `n` bytes of a sprite's 63, three to a row: the set bits as
/// pixels, with the sprite's origin 24 pixels left of and 50 above the
/// picture's.
pub open spec fn spec_sprite_bytes<M: VicIO>(
    m: M::V,
    scale: u8,
    addr: u16,
    sx: int,
    sy: int,
    n: nat,
) -> Seq<DrawCommand>
    decreases n,
{
    if n == 0 {
        Seq::empty()
    } else {
        spec_sprite_bytes::<M>(m, scale, addr, sx, sy, (n - 1) as nat) + spec_pixel_row(
            scale,
            BORDER_WIDTH + sx + ((n - 1) % 3) * 8 - VIC_SPRITE_POS_X_OFFSET,
            BORDER_HEIGHT + sy + (n - 1) / 3 - VIC_SPRITE_POS_Y_OFFSET,
            M::spec_vic_read_byte(m, (addr + n - 1) as u16),
            8,
        )
    }
}

/// The X coordinate of sprite `k`: its position register, with bit `k` of
/// $D010 as the ninth bit.
pub open spec fn spec_sprite_x<M: VicIO>(m: M::V, k: int) -> int {
    M::spec_vic_read_register(m, (VIC_SPRITE_POS_BASE + 2 * k) as u16) + if spec_bit(
        M::spec_vic_read_register(m, VIC_SPRITE_XPOS_MSB),
        k,
    ) {
        256int
    } else {
        0int
    }
}

/// Sprite `k`, where bit `k` of $D015 enables it: its colour, then its pixels.
pub open spec fn spec_sprite<M: VicIO>(m: M::V, scale: u8, k: int) -> Seq<DrawCommand> {
    if spec_bit(M::spec_vic_read_register(m, VIC_SPRITE_ENABLED), k) {
        let ptr = M::spec_vic_read_byte(
            m,
            (spec_vmatrix_start::<M>(m) + VIC_SPRITE_PTR_OFFSET + k) as u16,
        );
        seq![
            DrawCommand::SetColor(
                M::spec_vic_read_register(m, (VIC_SPRITE_CLR_BASE + k) as u16) % 16,
            ),
        ] + spec_sprite_bytes::<M>(
            m,
            scale,
            (ptr * 64) as u16,
            spec_sprite_x::<M>(m, k),
            M::spec_vic_read_register(m, (VIC_SPRITE_POS_BASE + 2 * k + 1) as u16) as int,
            63,
        )
    } else {
        Seq::empty()
    }
}

/// The first `n` sprites.
pub open spec fn spec_sprites<M: VicIO>(m: M::V, scale: u8, n: nat) -> Seq<DrawCommand>
    decreases n,
{
    if n == 0 {
        Seq::empty()
    } else {
        spec_sprites::<M>(m, scale, (n - 1) as nat) + spec_sprite::<M>(m, scale, n - 1)
    }
}

/// One frame: the border, the background of the picture, the text or the
/// bitmap screen, the sprites, and the presentation.
pub open spec fn spec_frame<M: VicIO>(m: M::V, scale: u8) -> Seq<DrawCommand> {
    seq![
        DrawCommand::SetColor(spec_color_from_reg::<M>(m, VIC_BORDER_COLOR)),
        DrawCommand::Clear,
        DrawCommand::SetColor(spec_color_from_reg::<M>(m, VIC_BACKGROUND_COLOR_0)),
        spec_rect(
            scale,
            BORDER_WIDTH as int,
            BORDER_HEIGHT as int,
            VIEWABLE_WIDTH as int,
            VIEWABLE_HEIGHT as int,
        ),
    ] + (if spec_bitmap_mode::<M>(m) {
        spec_bitmap_cells::<M>(m, scale, 1000)
    } else {
        spec_text_cells::<M>(m, scale, 1000)
    }) + spec_sprites::<M>(m, scale, 8) + seq![DrawCommand::Present]
}

/// The raster state.
pub struct VicState {
    pub cycles_per_line: u16,
    pub max_lines: u16,
    pub scale: u8,
    pub curr_line: u16,
    pub curr_cycle: u16,
}

impl VicState {
    /// NTSC timing, and the raster position within it.
    pub open spec fn wf(self) -> bool {
        &&& self.cycles_per_line == CYCLES_PER_LINE
        &&& self.max_lines == MAX_LINES
        &&& self.curr_cycle < self.cycles_per_line
        &&& self.curr_line < self.max_lines
    }

    /// The raster position one cycle later.
    pub open spec fn tick(self) -> VicState {
        let cycle = ((self.curr_cycle + 1) % (self.cycles_per_line as int)) as u16;
        VicState {
            curr_cycle: cycle,
            curr_line: if cycle == 0 {
                ((self.curr_line + 1) % (self.max_lines as int)) as u16
            } else {
                self.curr_line
            },
            ..self
        }
    }
}

/// $D011 with its bit 7 replaced by the ninth bit of the raster line.
pub open spec fn spec_scroly_with_line(scroly: u8, line: u16) -> u8 {
    if line > 255 {
        (scroly & 0x7F) | 0x80
    } else {
        scroly & 0x7F
    }
}

/// The registers after the raster line was published: its low byte in $D012
/// and its ninth bit in bit 7 of $D011.
pub open spec fn spec_publish_line<M: VicIO>(m: M::V, line: u16) -> M::V {
    let m1 = M::spec_vic_write_register(m, VIC_RASTER, spec_lo(line));
    M::spec_vic_write_register(
        m1,
        VIC_SCROLY,
        spec_scroly_with_line(M::spec_vic_read_register(m1, VIC_SCROLY), line),
    )
}

/// One cycle of the VIC: on the first cycle of a line the raster line is
/// published, and the raster position moves on.
pub open spec fn spec_clock<M: VicIO>(v: VicState, m: M::V) -> (VicState, M::V) {
    (
        v.tick(),
        if v.curr_cycle == 0 {
            spec_publish_line::<M>(m, v.curr_line)
        } else {
            m
        },
    )
}

/// The registers after `init`: the video matrix at $0400 and the character
/// bitmaps at $1000 of the VIC's window, and the display switched on.
pub open spec fn spec_init<M: VicIO>(m: M::V) -> M::V {
    M::spec_vic_write_register(M::spec_vic_write_register(m, VIC_MEMORY, 0x14), VIC_SCROLX, 0x08)
}

/// The raster position stays inside the frame: from a position below 65
/// cycles and 263 lines a tick leads to another such position.
pub proof fn lemma_tick_stays_in_frame(v: VicState)
    requires
        v.wf(),
    ensures
        v.tick().wf(),
        v.tick().curr_cycle < 65,
        v.tick().curr_line < 263,
{
}

/// On the C64 bus, publishing the raster line leaves its low byte in $D012,
/// its ninth bit in bit 7 of $D011, and the other bits of $D011 as they were.
pub proof fn lemma_published_line_reads_back(m: MemView, line: u16)
    requires
        m.wf(),
    ensures
        ({
            let m1 = spec_publish_line::<MemC64>(m, line);
            &&& m1.wf()
            &&& spec_read_register(m1, VIC_RASTER) == line % 256
            &&& (spec_read_register(m1, VIC_SCROLY) & 0x80 != 0) == (line > 255)
            &&& spec_read_register(m1, VIC_SCROLY) & 0x7F == spec_read_register(m, VIC_SCROLY)
                & 0x7F
        }),
{
    let b = spec_read_register(m, VIC_SCROLY);
    assert((b & 0x7F) & 0x80 == 0 && ((b & 0x7F) | 0x80) & 0x80 != 0 && (b & 0x7F) & 0x7F == b
        & 0x7F && ((b & 0x7F) | 0x80) & 0x7F == b & 0x7F) by (bit_vector);
}

/// The VIC-II: its timing, the scale of its picture, and its raster position.
pub struct VIC {
    cycles_per_line: u16,
    max_lines: u16,
    scale: u8,
    curr_line: u16,
    curr_cycle: u16,
}

impl View for VIC {
    type V = VicState;

    closed spec fn view(&self) -> VicState {
        VicState {
            cycles_per_line: self.cycles_per_line,
            max_lines: self.max_lines,
            scale: self.scale,
            curr_line: self.curr_line,
            curr_cycle: self.curr_cycle,
        }
    }
}

fn color_from_reg<M: VicIO>(mem: &M, clr: u16) -> (c: u8)
    requires
        0xD000 <= clr <= 0xD02E,
    ensures
        c == spec_color_from_reg::<M>(mem@, clr),
        c < 16,
{
    mem.vic_read_register(clr) % 16
}

fn rect(scale: u8, x: i32, y: i32, w: u32, h: u32) -> (c: DrawCommand)
    requires
        -1024 <= x <= 1024,
        -1024 <= y <= 1024,
        w <= 1024,
        h <= 1024,
    ensures
        c == spec_rect(scale, x as int, y as int, w as int, h as int),
{
    let s = scale as i32;
    let su = scale as u32;
    assert(-1024 * 255 <= x * s <= 1024 * 255) by (nonlinear_arith)
        requires
            -1024 <= x <= 1024,
            0 <= s <= 255,
    ;
    assert(-1024 * 255 <= y * s <= 1024 * 255) by (nonlinear_arith)
        requires
            -1024 <= y <= 1024,
            0 <= s <= 255,
    ;
    assert(0 <= w * su <= 1024 * 255) by (nonlinear_arith)
        requires
            0 <= w <= 1024,
            0 <= su <= 255,
    ;
    assert(0 <= h * su <= 1024 * 255) by (nonlinear_arith)
        requires
            0 <= h <= 1024,
            0 <= su <= 255,
    ;
    DrawCommand::FillRect { x: x * s, y: y * s, w: w * su, h: h * su }
}

fn draw_pixel_row(cmds: &mut Vec<DrawCommand>, scale: u8, x: i32, y: i32, byte: u8)
    requires
        -1000 <= x <= 1000,
        -1000 <= y <= 1000,
    ensures
        final(cmds)@ == old(cmds)@ + spec_pixel_row(scale, x as int, y as int, byte, 8),
{
    let mut i: u8 = 0;
    assert(cmds@ =~= old(cmds)@ + spec_pixel_row(scale, x as int, y as int, byte, 0));
    while i < 8
        invariant
            i <= 8,
            -1000 <= x <= 1000,
            -1000 <= y <= 1000,
            cmds@ == old(cmds)@ + spec_pixel_row(scale, x as int, y as int, byte, i as nat),
        decreases 8 - i,
    {
        if bit(byte, 7 - i) {
            cmds.push(rect(scale, x + i as i32, y, 1, 1));
        }
        assert(cmds@ =~= old(cmds)@ + spec_pixel_row(
            scale,
            x as int,
            y as int,
            byte,
            (i + 1) as nat,
        ));
        i = i + 1;
    }
}

fn pick(sel: u8, c0: u8, c1: u8, c2: u8, c3: u8) -> (c: u8)
    ensures
        c == spec_pick(sel, c0, c1, c2, c3),
{
    match sel {
        0 => c0,
        1 => c1,
        2 => c2,
        _ => c3,
    }
}

impl VIC {
    /// A VIC at the top left of the frame, with NTSC timing: 65 cycles to a
    /// line and 263 lines to a frame.
    pub fn new(scale: u8) -> (vic: VIC)
        ensures
            vic@ == (VicState {
                cycles_per_line: CYCLES_PER_LINE,
                max_lines: MAX_LINES,
                scale,
                curr_line: 0,
                curr_cycle: 0,
            }),
            vic@.wf(),
    {
        VIC {
            cycles_per_line: CYCLES_PER_LINE,
            max_lines: MAX_LINES,
            scale,
            curr_line: 0,
            curr_cycle: 0,
        }
    }

    #[verifier::type_invariant]
    spec fn inv(self) -> bool {
        self@.wf()
    }

    /// The raster line; always below 263.
    pub fn curr_line(&self) -> (line: u16)
        ensures
            line == self@.curr_line,
            line < MAX_LINES,
            self@.wf(),
    {
        proof {
            use_type_invariant(self);
        }
        self.curr_line
    }

    /// The cycle within the raster line; always below 65.
    pub fn curr_cycle(&self) -> (cycle: u16)
        ensures
            cycle == self@.curr_cycle,
            cycle < CYCLES_PER_LINE,
            self@.wf(),
    {
        proof {
            use_type_invariant(self);
        }
        self.curr_cycle
    }

    /// Sets the memory pointers and switches the display on.
    pub fn init<M: VicIO>(&mut self, mem: &mut M)
        ensures
            final(self)@ == old(self)@,
            final(mem)@ == spec_init::<M>(old(mem)@),
    {
        mem.vic_write_register(VIC_MEMORY, 0x14);
        mem.vic_write_register(VIC_SCROLX, 0x08);
    }

    /// Advances the VIC by one cycle.
    pub fn clock<M: VicIO>(&mut self, mem: &mut M)
        ensures
            (final(self)@, final(mem)@) == spec_clock::<M>(old(self)@, old(mem)@),
            final(self)@.wf(),
    {
        proof {
            use_type_invariant(&*self);
        }
        if self.curr_cycle == 0 {
            mem.vic_write_register(VIC_RASTER, lo_byte(self.curr_line));
            let mut b = mem.vic_read_register(VIC_SCROLY);
            b = b & 0x7F;
            if self.curr_line > 255 {
                b = b | 0x80;
            }
            mem.vic_write_register(VIC_SCROLY, b);
        }
        self.curr_cycle = (self.curr_cycle + 1) % self.cycles_per_line;
        if self.curr_cycle == 0 {
            self.curr_line = (self.curr_line + 1) % self.max_lines;
        }
    }

    /// Paints one frame: the commands that draw it, in order.
    pub fn refresh<M: VicIO>(&self, mem: &M) -> (cmds: Vec<DrawCommand>)
        ensures
            cmds@ == spec_frame::<M>(mem@, self@.scale),
    {
        let mut cmds: Vec<DrawCommand> = Vec::new();
        cmds.push(DrawCommand::SetColor(color_from_reg(mem, VIC_BORDER_COLOR)));
        cmds.push(DrawCommand::Clear);
        cmds.push(DrawCommand::SetColor(color_from_reg(mem, VIC_BACKGROUND_COLOR_0)));
        cmds.push(
            rect(
                self.scale,
                BORDER_WIDTH as i32,
                BORDER_HEIGHT as i32,
                VIEWABLE_WIDTH,
                VIEWABLE_HEIGHT,
            ),
        );

        let bitmap_mode = bit(mem.vic_read_register(VIC_SCROLY), 5);
        if bitmap_mode {
            self.draw_bitmap(&mut cmds, mem);
        } else {
            self.draw_text(&mut cmds, mem);
        }
        self.draw_sprites(&mut cmds, mem);
        cmds.push(DrawCommand::Present);
        assert(cmds@ =~= spec_frame::<M>(mem@, self@.scale));
        cmds
    }

    fn vmatrix_start<M: VicIO>(mem: &M) -> (start: u16)
        ensures
            start == spec_vmatrix_start::<M>(mem@),
            start <= 15 * 1024,
    {
        (mem.vic_read_register(VIC_MEMORY) / 16) as u16 * 1024
    }

    fn draw_text<M: VicIO>(&self, cmds: &mut Vec<DrawCommand>, mem: &M)
        ensures
            final(cmds)@ == old(cmds)@ + spec_text_cells::<M>(mem@, self@.scale, 1000),
    {
        let vmatrix_start = Self::vmatrix_start(mem);
        let charrom_start: u16 = ((mem.vic_read_register(VIC_MEMORY) / 2) % 8) as u16 * 2048;
        let multi_color: bool = bit(mem.vic_read_register(VIC_SCROLX), 4);
        let extended_color: bool = bit(mem.vic_read_register(VIC_SCROLY), 6);

        let c0 = mem.vic_read_register(VIC_BACKGROUND_COLOR_0);
        let c1 = mem.vic_read_register(VIC_BACKGROUND_COLOR_1);
        let c2 = mem.vic_read_register(VIC_BACKGROUND_COLOR_2);

        let mut i: u16 = 0;
        assert(cmds@ =~= old(cmds)@ + spec_text_cells::<M>(mem@, self@.scale, 0));
        while i < 1000
            invariant
                i <= 1000,
                vmatrix_start == spec_vmatrix_start::<M>(mem@),
                vmatrix_start <= 15 * 1024,
                charrom_start == spec_charrom_start::<M>(mem@),
                multi_color == spec_multi_color::<M>(mem@),
                extended_color == spec_extended_color::<M>(mem@),
                c0 == M::spec_vic_read_register(mem@, VIC_BACKGROUND_COLOR_0),
                c1 == M::spec_vic_read_register(mem@, VIC_BACKGROUND_COLOR_1),
                c2 == M::spec_vic_read_register(mem@, VIC_BACKGROUND_COLOR_2),
                cmds@ == old(cmds)@ + spec_text_cells::<M>(mem@, self@.scale, i as nat),
            decreases 1000 - i,
        {
            let row = (i / 40) as u8;
            let col = (i % 40) as u8;
            let (ch, fg_color) = mem.vic_read_vm(vmatrix_start + i);
            let char_start = charrom_start + (ch as u16) * 8;

            let bg_color = if extended_color {
                let bg_clr_index = ch / 64;
                mem.vic_read_register(VIC_BACKGROUND_COLOR_0 + bg_clr_index as u16)
            } else {
                mem.vic_read_register(VIC_BACKGROUND_COLOR_0)
            };

            if multi_color && (fg_color >= 8) {
                let c3 = fg_color % 8;
                self.draw_char_multicolor(cmds, row, col, mem, char_start, c0, c1, c2, c3);
            } else {
                self.draw_char(cmds, row, col, mem, char_start, bg_color, fg_color);
            }
            assert(cmds@ =~= old(cmds)@ + spec_text_cells::<M>(mem@, self@.scale, (i + 1) as nat));
            i = i + 1;
        }
    }

    fn draw_sprites<M: VicIO>(&self, cmds: &mut Vec<DrawCommand>, mem: &M)
        ensures
            final(cmds)@ == old(cmds)@ + spec_sprites::<M>(mem@, self@.scale, 8),
    {
        let vmatrix_start = Self::vmatrix_start(mem);
        let sprites_enabled = mem.vic_read_register(VIC_SPRITE_ENABLED);
        let sprite_ptrs = vmatrix_start + VIC_SPRITE_PTR_OFFSET;

        let mut sprite: u8 = 0;
        assert(cmds@ =~= old(cmds)@ + spec_sprites::<M>(mem@, self@.scale, 0));
        while sprite < 8
            invariant
                sprite <= 8,
                vmatrix_start == spec_vmatrix_start::<M>(mem@),
                sprite_ptrs == vmatrix_start + VIC_SPRITE_PTR_OFFSET,
                vmatrix_start <= 15 * 1024,
                sprites_enabled == M::spec_vic_read_register(mem@, VIC_SPRITE_ENABLED),
                cmds@ == old(cmds)@ + spec_sprites::<M>(mem@, self@.scale, sprite as nat),
            decreases 8 - sprite,
        {
            if bit(sprites_enabled, sprite) {
                let sprite_addr = mem.vic_read_byte(sprite_ptrs + sprite as u16) as u16 * 64;
                let sprite_clr = mem.vic_read_register(VIC_SPRITE_CLR_BASE + sprite as u16) % 16;
                let mut sprite_x = mem.vic_read_register(
                    VIC_SPRITE_POS_BASE + (sprite as u16 * 2),
                ) as u16;
                let sprite_x_msb = mem.vic_read_register(VIC_SPRITE_XPOS_MSB);
                if bit(sprite_x_msb, sprite) {
                    sprite_x = sprite_x + 0x100;
                }
                let sprite_y = mem.vic_read_register(VIC_SPRITE_POS_BASE + (sprite as u16 * 2) + 1);
                cmds.push(DrawCommand::SetColor(sprite_clr));
                self.draw_sprite(cmds, sprite_addr, sprite_x, sprite_y, mem);
            }
            assert(cmds@ =~= old(cmds)@ + spec_sprites::<M>(
                mem@,
                self@.scale,
                (sprite + 1) as nat,
            ));
            sprite = sprite + 1;
        }
    }

    fn draw_bitmap<M: VicIO>(&self, cmds: &mut Vec<DrawCommand>, mem: &M)
        ensures
            final(cmds)@ == old(cmds)@ + spec_bitmap_cells::<M>(mem@, self@.scale, 1000),
    {
        let bitmap_start: u16 = if bit(mem.vic_read_register(VIC_MEMORY), 3) {
            8192
        } else {
            0
        };
        let color_start = Self::vmatrix_start(mem);
        let multi_color: bool = bit(mem.vic_read_register(VIC_SCROLX), 4);

        let mut i: u16 = 0;
        assert(cmds@ =~= old(cmds)@ + spec_bitmap_cells::<M>(mem@, self@.scale, 0));
        while i < 1000
            invariant
                i <= 1000,
                color_start == spec_vmatrix_start::<M>(mem@),
                color_start <= 15 * 1024,
                bitmap_start == spec_bitmap_start::<M>(mem@),
                multi_color == spec_multi_color::<M>(mem@),
                cmds@ == old(cmds)@ + spec_bitmap_cells::<M>(mem@, self@.scale, i as nat),
            decreases 1000 - i,
        {
            let row = (i / 40) as u8;
            let col = (i % 40) as u8;
            let char_start = bitmap_start + i * 8;
            let (color_byte, color_mem_byte) = mem.vic_read_vm(color_start + i);
            let bg_color = color_byte % 16;
            let fg_color = color_byte / 16;

            if multi_color {
                let c0 = mem.vic_read_register(VIC_BACKGROUND_COLOR_0);
                let c1 = color_byte / 16;
                let c2 = color_byte % 16;
                let c3 = color_mem_byte % 16;
                self.draw_char_multicolor(cmds, row, col, mem, char_start, c0, c1, c2, c3);
            } else {
                self.draw_char(cmds, row, col, mem, char_start, bg_color, fg_color);
            }
            assert(cmds@ =~= old(cmds)@ + spec_bitmap_cells::<M>(
                mem@,
                self@.scale,
                (i + 1) as nat,
            ));
            i = i + 1;
        }
    }

    fn draw_sprite<M: VicIO>(
        &self,
        cmds: &mut Vec<DrawCommand>,
        sprite_addr: u16,
        sprite_x: u16,
        sprite_y: u8,
        mem: &M,
    )
        requires
            sprite_addr <= 255 * 64,
            sprite_x < 512,
        ensures
            final(cmds)@ == old(cmds)@ + spec_sprite_bytes::<M>(
                mem@,
                self@.scale,
                sprite_addr,
                sprite_x as int,
                sprite_y as int,
                63,
            ),
    {
        let mut n: u16 = 0;
        assert(cmds@ =~= old(cmds)@ + spec_sprite_bytes::<M>(
            mem@,
            self@.scale,
            sprite_addr,
            sprite_x as int,
            sprite_y as int,
            0,
        ));
        while n < 63
            invariant
                n <= 63,
                sprite_addr <= 255 * 64,
                sprite_x < 512,
                cmds@ == old(cmds)@ + spec_sprite_bytes::<M>(
                    mem@,
                    self@.scale,
                    sprite_addr,
                    sprite_x as int,
                    sprite_y as int,
                    n as nat,
                ),
            decreases 63 - n,
        {
            let y = n / 3;
            let c = n % 3;
            let currb = mem.vic_read_byte(sprite_addr + n);
            let scr_x = BORDER_WIDTH as i32 + (sprite_x as i32) + (c as i32 * 8) - VIC_SPRITE_POS_X_OFFSET;
            let scr_y = BORDER_HEIGHT as i32 + (sprite_y as i32) + (y as i32) - VIC_SPRITE_POS_Y_OFFSET;
            draw_pixel_row(cmds, self.scale, scr_x, scr_y, currb);
            assert(cmds@ =~= old(cmds)@ + spec_sprite_bytes::<M>(
                mem@,
                self@.scale,
                sprite_addr,
                sprite_x as int,
                sprite_y as int,
                (n + 1) as nat,
            ));
            n = n + 1;
        }
    }

    fn draw_char<M: VicIO>(
        &self,
        cmds: &mut Vec<DrawCommand>,
        row: u8,
        col: u8,
        mem: &M,
        char_start: u16,
        bg_color: u8,
        fg_color: u8,
    )
        requires
            row < 25,
            col < 40,
            char_start + 8 <= 0x4000,
            fg_color < 16,
        ensures
            final(cmds)@ == old(cmds)@ + spec_draw_char::<M>(
                mem@,
                self@.scale,
                row as int,
                col as int,
                char_start,
                bg_color,
                fg_color,
            ),
    {
        let scr_x = BORDER_WIDTH as i32 + (col as i32) * 8;
        let scr_y = BORDER_HEIGHT as i32 + (row as i32) * 8;
        cmds.push(DrawCommand::SetColor(bg_color % 16));
        cmds.push(rect(self.scale, scr_x, scr_y, 8, 8));
        cmds.push(DrawCommand::SetColor(fg_color));
        let ghost head = cmds@;
        assert(head =~= old(cmds)@ + seq![
            DrawCommand::SetColor(bg_color % 16),
            spec_rect(self@.scale, BORDER_WIDTH + col * 8, BORDER_HEIGHT + row * 8, 8, 8),
            DrawCommand::SetColor(fg_color),
        ]);

        let mut y: u16 = 0;
        assert(cmds@ =~= head + spec_glyph_rows::<M>(
            mem@,
            self@.scale,
            scr_x as int,
            scr_y as int,
            char_start,
            0,
        ));
        while y < 8
            invariant
                y <= 8,
                char_start + 8 <= 0x4000,
                scr_x == BORDER_WIDTH + col * 8,
                scr_y == BORDER_HEIGHT + row * 8,
                row < 25,
                col < 40,
                cmds@ == head + spec_glyph_rows::<M>(
                    mem@,
                    self@.scale,
                    scr_x as int,
                    scr_y as int,
                    char_start,
                    y as nat,
                ),
            decreases 8 - y,
        {
            let currb = mem.vic_read_byte(char_start + y);
            draw_pixel_row(cmds, self.scale, scr_x, scr_y + y as i32, currb);
            assert(cmds@ =~= head + spec_glyph_rows::<M>(
                mem@,
                self@.scale,
                scr_x as int,
                scr_y as int,
                char_start,
                (y + 1) as nat,
            ));
            y = y + 1;
        }
        assert(cmds@ =~= old(cmds)@ + spec_draw_char::<M>(
            mem@,
            self@.scale,
            row as int,
            col as int,
            char_start,
            bg_color,
            fg_color,
        ));
    }

    fn draw_char_multicolor<M: VicIO>(
        &self,
        cmds: &mut Vec<DrawCommand>,
        row: u8,
        col: u8,
        mem: &M,
        char_start: u16,
        c0: u8,
        c1: u8,
        c2: u8,
        c3: u8,
    )
        requires
            row < 25,
            col < 40,
            char_start + 8 <= 0x4000,
        ensures
            final(cmds)@ == old(cmds)@ + spec_draw_char_multicolor::<M>(
                mem@,
                self@.scale,
                row as int,
                col as int,
                char_start,
                c0,
                c1,
                c2,
                c3,
            ),
    {
        let scr_x = BORDER_WIDTH as i32 + (col as i32) * 8;
        let scr_y = BORDER_HEIGHT as i32 + (row as i32) * 8;
        let mut y: u16 = 0;
        assert(cmds@ =~= old(cmds)@ + spec_multicolor_rows::<M>(
            mem@,
            self@.scale,
            scr_x as int,
            scr_y as int,
            char_start,
            c0,
            c1,
            c2,
            c3,
            0,
        ));
        while y < 8
            invariant
                y <= 8,
                char_start + 8 <= 0x4000,
                scr_x == BORDER_WIDTH + col * 8,
                scr_y == BORDER_HEIGHT + row * 8,
                row < 25,
                col < 40,
                cmds@ == old(cmds)@ + spec_multicolor_rows::<M>(
                    mem@,
                    self@.scale,
                    scr_x as int,
                    scr_y as int,
                    char_start,
                    c0,
                    c1,
                    c2,
                    c3,
                    y as nat,
                ),
            decreases 8 - y,
        {
            let currb = mem.vic_read_byte(char_start + y);
            let ghost before = cmds@;
            let mut pair: u8 = 0;
            assert(cmds@ =~= before + spec_pair_row(
                self@.scale,
                scr_x as int,
                scr_y + y,
                currb,
                c0,
                c1,
                c2,
                c3,
                0,
            ));
            while pair < 4
                invariant
                    pair <= 4,
                    y < 8,
                    scr_x == BORDER_WIDTH + col * 8,
                    scr_y == BORDER_HEIGHT + row * 8,
                    row < 25,
                    col < 40,
                    cmds@ == before + spec_pair_row(
                        self@.scale,
                        scr_x as int,
                        scr_y + y,
                        currb,
                        c0,
                        c1,
                        c2,
                        c3,
                        pair as nat,
                    ),
                decreases 4 - pair,
            {
                let sel = bit_pair(currb, 6 - (pair * 2));
                let c = pick(sel, c0, c1, c2, c3);
                let x = scr_x + (2 * pair) as i32;
                cmds.push(DrawCommand::SetColor(c % 16));
                cmds.push(rect(self.scale, x, scr_y + y as i32, 2, 1));
                assert(cmds@ =~= before + spec_pair_row(
                    self@.scale,
                    scr_x as int,
                    scr_y + y,
                    currb,
                    c0,
                    c1,
                    c2,
                    c3,
                    (pair + 1) as nat,
                ));
                pair = pair + 1;
            }
            assert(cmds@ =~= old(cmds)@ + spec_multicolor_rows::<M>(
                mem@,
                self@.scale,
                scr_x as int,
                scr_y as int,
                char_start,
                c0,
                c1,
                c2,
                c3,
                (y + 1) as nat,
            ));
            y = y + 1;
        }
    }
}

} // verus!
