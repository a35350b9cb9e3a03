//! Whole-frame rendering: backdrop, background tiles with scrolling, and sprites.
use super::{nametable_index_spec, Ppu, PpuModel, FRAMEBUFFER_SIZE, NES_PALETTE};
use crate::mapper::mapper0::{chr_read, Mapper0};
use crate::mapper::Mapper;
use vstd::prelude::*;

verus! {

/// Where a screen pixel falls in the scrolled background.
#[derive(Clone, Copy)]
pub struct BackgroundSample {
    pub nametable_base: u16,
    pub tile_x: usize,
    pub tile_y: usize,
    pub fine_x: usize,
    pub fine_y: usize,
}

// ---------------------------------------------------------------------------
// Frame predicates
// ---------------------------------------------------------------------------

/// The memory sizes of a picture unit.
pub open spec fn model_sizes(p: PpuModel) -> bool {
    &&& p.registers.len() == 8
    &&& p.vram.len() == 0x800
    &&& p.palette.len() == 0x20
    &&& p.oam.len() == 0x100
}

pub open spec fn on_screen(x: int, y: int) -> bool {
    0 <= x < 256 && 0 <= y < 240
}

/// Byte offset of pixel (x, y) in the RGBA framebuffer.
pub open spec fn pixel_offset(x: int, y: int) -> int {
    (y * 256 + x) * 4
}

/// Pixel (x, y) of `fb` holds the RGBA value of master-palette colour `color`.
pub open spec fn pixel_is(fb: Seq<u8>, x: int, y: int, color: u8) -> bool {
    let o = pixel_offset(x, y);
    let rgba = NES_PALETTE[(color % 64) as int];
    &&& fb[o] == rgba[0]
    &&& fb[o + 1] == rgba[1]
    &&& fb[o + 2] == rgba[2]
    &&& fb[o + 3] == rgba[3]
}

/// `fb` is a full frame whose pixel (x, y) shows master-palette colour `f(x, y)`.
pub open spec fn frame_shows(fb: Seq<u8>, f: spec_fn(int, int) -> u8) -> bool {
    &&& fb.len() == FRAMEBUFFER_SIZE
    &&& forall|x: int, y: int| on_screen(x, y) ==> #[trigger] pixel_is(fb, x, y, f(x, y))
}

/// A CHR read as the renderer does it: bytes the cartridge does not answer read as 0.
pub open spec fn chr_or_zero(chr: Seq<u8>, addr: u16) -> u8 {
    match chr_read(chr, addr) {
        Some(v) => v,
        None => 0,
    }
}

/// The 2-bit colour of bit `bit` (7 = leftmost) of a pattern row.
pub open spec fn pattern_color(low: u8, high: u8, bit: usize) -> u8 {
    ((low >> bit) & 1) | (((high >> bit) & 1) << 1)
}

// ---------------------------------------------------------------------------
// Background
// ---------------------------------------------------------------------------

/// Base address of the nametable that a scrolled position lands in: the PPUCTRL
/// base table, moved across by the horizontal and vertical wrap-arounds.
pub open spec fn scrolled_nametable_base_spec(ctrl: u8, nt_x: usize, nt_y: usize) -> u16 {
    let base = (ctrl & 0x03) as usize;
    let table_x = (((base & 1) + nt_x) as usize) & 1;
    let table_y = ((((base >> 1usize) & 1) + nt_y) as usize) & 1;
    (0x2000 + ((table_y * 2 + table_x) as u16) * 0x0400) as u16
}

pub open spec fn background_pattern_base(ctrl: u8) -> u16 {
    if ctrl & 0x10 != 0 {
        0x1000
    } else {
        0x0000
    }
}

pub open spec fn sprite_pattern_base(ctrl: u8) -> u16 {
    if ctrl & 0x08 != 0 {
        0x1000
    } else {
        0x0000
    }
}

/// The background position of screen pixel (x, y) under the current scroll.
pub open spec fn sample_at(p: PpuModel, x: usize, y: usize) -> BackgroundSample {
    let world_y = ((y + p.scroll_y) % 480) as usize;
    let world_x = ((x + p.scroll_x) % 512) as usize;
    let local_y = (world_y % 240) as usize;
    let local_x = (world_x % 256) as usize;
    BackgroundSample {
        nametable_base: scrolled_nametable_base_spec(
            p.registers[0],
            (world_x / 256) as usize,
            (world_y / 240) as usize,
        ),
        tile_x: (local_x / 8) as usize,
        tile_y: (local_y / 8) as usize,
        fine_x: (local_x % 8) as usize,
        fine_y: (local_y % 8) as usize,
    }
}

/// The palette group that attribute byte `attr` gives a tile: each attribute
/// byte covers 4x4 tiles in 2x2 quadrants, top-left in bits 0-1, top-right in
/// bits 2-3, bottom-left in bits 4-5 and bottom-right in bits 6-7.
pub open spec fn attribute_group(attr: u8, tile_x: int, tile_y: int) -> u8 {
    if tile_y % 4 < 2 {
        if tile_x % 4 < 2 {
            attr & 0x03
        } else {
            (attr >> 2u8) & 0x03
        }
    } else {
        if tile_x % 4 < 2 {
            (attr >> 4u8) & 0x03
        } else {
            (attr >> 6u8) & 0x03
        }
    }
}

/// A background pixel takes its colour from the palette group of its tile's
/// attribute quadrant: colour c of group g is palette entry 4g + c, and a
/// transparent pixel shows the backdrop, entry 0.
pub proof fn law_background_attribute_palette(p: PpuModel, chr: Seq<u8>, pattern_base: u16, s: BackgroundSample)
    requires
        sample_ok(s),
    ensures
        ({
            let (color_id, color) = background_pixel_spec(p, chr, pattern_base, s);
            let attr_addr = (s.nametable_base + 0x03c0 + (s.tile_y / 4) * 8 + s.tile_x / 4) as u16;
            let attr = p.vram[nametable_index_spec(p.mirroring, attr_addr)];
            let group = attribute_group(attr, s.tile_x as int, s.tile_y as int);
            &&& color_id < 4
            &&& color_id != 0 ==> color == p.palette[4 * group + color_id] & 0x3f
            &&& color_id == 0 ==> color == p.palette[0] & 0x3f
        }),
{
    let attr_addr = (s.nametable_base + 0x03c0 + (((s.tile_y / 4) * 8 + (s.tile_x / 4)) as u16)) as u16;
    let attr = p.vram[nametable_index_spec(p.mirroring, attr_addr)];
    assert((attr >> 0usize) & 0x03 == attr & 0x03 && (attr >> 2usize) & 0x03 == (attr >> 2u8) & 0x03
        && (attr >> 4usize) & 0x03 == (attr >> 4u8) & 0x03 && (attr >> 6usize) & 0x03 == (attr
        >> 6u8) & 0x03) by (bit_vector);
    let pattern_addr = (pattern_base + (p.vram[nametable_index_spec(
        p.mirroring,
        (s.nametable_base + ((s.tile_y * 32 + s.tile_x) as u16)) as u16,
    )] as u16) * 16 + (s.fine_y as u16)) as u16;
    let low = chr_or_zero(chr, pattern_addr);
    let high = chr_or_zero(chr, (pattern_addr + 8) as u16);
    lemma_small_bits(low, high, (7 - s.fine_x) as usize);
}

pub open spec fn sample_ok(s: BackgroundSample) -> bool {
    &&& s.tile_x < 32
    &&& s.tile_y < 30
    &&& s.fine_x < 8
    &&& s.fine_y < 8
    &&& 0x2000 <= s.nametable_base <= 0x2c00
}

/// The background pixel at a sample: its 2-bit colour (0 = transparent) and the
/// master-palette colour it shows (the backdrop entry when transparent).
pub open spec fn background_pixel_spec(
    p: PpuModel,
    chr: Seq<u8>,
    pattern_base: u16,
    s: BackgroundSample,
) -> (u8, u8) {
    let name_addr = (s.nametable_base + ((s.tile_y * 32 + s.tile_x) as u16)) as u16;
    let tile = p.vram[nametable_index_spec(p.mirroring, name_addr)] as u16;
    let attr_addr = (s.nametable_base + 0x03c0 + (((s.tile_y / 4) * 8 + (s.tile_x / 4)) as u16)) as u16;
    let attr = p.vram[nametable_index_spec(p.mirroring, attr_addr)];
    let quadrant = (((s.tile_y % 4) / 2) * 2 + ((s.tile_x % 4) / 2)) as usize;
    let palette_group = (attr >> ((quadrant * 2) as usize)) & 0x03;
    let pattern_addr = (pattern_base + tile * 16 + (s.fine_y as u16)) as u16;
    let low = chr_or_zero(chr, pattern_addr);
    let high = chr_or_zero(chr, (pattern_addr + 8) as u16);
    let color_id = pattern_color(low, high, (7 - s.fine_x) as usize);
    let palette_addr = if color_id == 0 {
        0
    } else {
        1 + palette_group * 4 + (color_id - 1)
    };
    (color_id, p.palette[palette_addr] & 0x3f)
}

/// Whether the background is opaque at screen pixel (x, y), ignoring the left-edge mask.
pub open spec fn background_opaque(p: PpuModel, chr: Seq<u8>, x: usize, y: usize) -> bool {
    background_pixel_spec(p, chr, background_pattern_base(p.registers[0]), sample_at(p, x, y)).0
        != 0
}

/// The colour under the sprites at (x, y): the background when it is shown there,
/// the backdrop otherwise.
pub open spec fn under_sprites(p: PpuModel, chr: Seq<u8>, x: int, y: int) -> u8 {
    if p.registers[1] & 0x08 != 0 && !(x < 8 && p.registers[1] & 0x02 == 0) {
        background_pixel_spec(
            p,
            chr,
            background_pattern_base(p.registers[0]),
            sample_at(p, x as usize, y as usize),
        ).1
    } else {
        p.palette[0] & 0x3f
    }
}

// ---------------------------------------------------------------------------
// Sprites
// ---------------------------------------------------------------------------

pub open spec fn sprite_height_spec(ctrl: u8) -> usize {
    if ctrl & 0x20 != 0 {
        16
    } else {
        8
    }
}

/// Pattern address of row `fine_y` of a sprite tile; 8x16 sprites take the table
/// from bit 0 of the tile number and use two consecutive tiles.
pub open spec fn sprite_pattern_addr_spec(
    pattern_base: u16,
    sprite_height: usize,
    tile: u16,
    fine_y: usize,
) -> u16 {
    if sprite_height == 16 {
        let table = tile & 0x01;
        let tile_base = tile & 0xfe;
        let row_tile = if fine_y >= 8 {
            (tile_base + 1) as u16
        } else {
            tile_base
        };
        (table * 0x1000 + row_tile * 16 + ((fine_y % 8) as u16)) as u16
    } else {
        (pattern_base + tile * 16 + (fine_y as u16)) as u16
    }
}

pub open spec fn sprite_top(p: PpuModel, s: int) -> int {
    p.oam[s * 4] + 1
}

pub open spec fn sprite_left(p: PpuModel, s: int) -> int {
    p.oam[s * 4 + 3] as int
}

/// The 2-bit colour of sprite `s` at `row` and `col` of its box, after flipping.
pub open spec fn sprite_color_id(p: PpuModel, chr: Seq<u8>, s: int, row: usize, col: usize) -> u8 {
    let attr = p.oam[s * 4 + 2];
    let h = sprite_height_spec(p.registers[0]);
    let fine_y = if attr & 0x80 != 0 {
        (h - 1 - row) as usize
    } else {
        row
    };
    let pattern_addr = sprite_pattern_addr_spec(
        sprite_pattern_base(p.registers[0]),
        h,
        p.oam[s * 4 + 1] as u16,
        fine_y,
    );
    let low = chr_or_zero(chr, pattern_addr);
    let high = chr_or_zero(chr, (pattern_addr + 8) as u16);
    let fine_x = if attr & 0x40 != 0 {
        col
    } else {
        (7 - col) as usize
    };
    pattern_color(low, high, fine_x)
}

/// Sprite `s` puts a pixel at `row`, `col` of its box: the pixel is on screen, not
/// hidden by the left-edge mask, not transparent, and not behind opaque background.
pub open spec fn sprite_writes(p: PpuModel, chr: Seq<u8>, s: int, row: usize, col: usize) -> bool {
    let x = sprite_left(p, s) + col;
    let y = sprite_top(p, s) + row;
    &&& y < 240
    &&& x < 256
    &&& !(x < 8 && p.registers[1] & 0x04 == 0)
    &&& sprite_color_id(p, chr, s, row, col) != 0
    &&& !(p.oam[s * 4 + 2] & 0x20 != 0 && background_opaque(p, chr, x as usize, y as usize))
}

/// Sprite 0 meets opaque background at `row`, `col` of its box.
pub open spec fn sprite_zero_hits_at(p: PpuModel, chr: Seq<u8>, row: usize, col: usize) -> bool {
    let x = sprite_left(p, 0) + col;
    let y = sprite_top(p, 0) + row;
    &&& y < 240
    &&& x < 256
    &&& !(x < 8 && p.registers[1] & 0x04 == 0)
    &&& sprite_color_id(p, chr, 0, row, col) != 0
    &&& background_opaque(p, chr, x as usize, y as usize)
}

/// Sprite 0 meets opaque background somewhere in the frame.
pub open spec fn sprite_zero_hits(p: PpuModel, chr: Seq<u8>) -> bool {
    exists|row: usize, col: usize|
        row < sprite_height_spec(p.registers[0]) && col < 8 && #[trigger] sprite_zero_hits_at(
            p,
            chr,
            row,
            col,
        )
}

/// Sprite `s` puts a pixel at screen position (x, y).
pub open spec fn sprite_draws_at(p: PpuModel, chr: Seq<u8>, s: int, x: int, y: int) -> bool {
    let row = y - sprite_top(p, s);
    let col = x - sprite_left(p, s);
    &&& 0 <= row < sprite_height_spec(p.registers[0])
    &&& 0 <= col < 8
    &&& sprite_writes(p, chr, s, row as usize, col as usize)
}

/// The master-palette colour that sprite `s` shows at (x, y).
pub open spec fn sprite_color_at(p: PpuModel, chr: Seq<u8>, s: int, x: int, y: int) -> u8 {
    let color_id = sprite_color_id(
        p,
        chr,
        s,
        (y - sprite_top(p, s)) as usize,
        (x - sprite_left(p, s)) as usize,
    );
    let group = p.oam[s * 4 + 2] & 0x03;
    p.palette[0x11 + group * 4 + (color_id - 1)] & 0x3f
}

/// The sprite drawn on top at (x, y) among sprites `lo`..64: the lowest-numbered one.
pub open spec fn top_sprite(p: PpuModel, chr: Seq<u8>, lo: int, x: int, y: int) -> Option<int>
    decreases 64 - lo,
{
    if lo >= 64 {
        None
    } else if sprite_draws_at(p, chr, lo, x, y) {
        Some(lo)
    } else {
        top_sprite(p, chr, lo + 1, x, y)
    }
}

/// The colour of (x, y) once sprites `lo`..64 are drawn over `under`.
pub open spec fn with_sprites(p: PpuModel, chr: Seq<u8>, lo: int, x: int, y: int) -> u8 {
    match top_sprite(p, chr, lo, x, y) {
        Some(s) => sprite_color_at(p, chr, s, x, y),
        None => under_sprites(p, chr, x, y),
    }
}

/// The colour of pixel (x, y) in the frame that `render_frame` draws.
pub open spec fn frame_color(p: PpuModel, chr: Seq<u8>, x: int, y: int) -> u8 {
    if p.registers[1] & 0x10 != 0 {
        with_sprites(p, chr, 0, x, y)
    } else {
        under_sprites(p, chr, x, y)
    }
}

/// Status register after rendering: sprite-0 hit is raised when sprites are shown
/// and sprite 0 meets opaque background.
pub open spec fn status_after_render(p: PpuModel, chr: Seq<u8>) -> u8 {
    if p.registers[1] & 0x10 != 0 && sprite_zero_hits(p, chr) {
        p.registers[2] | 0x40
    } else {
        p.registers[2]
    }
}


/// The frame whose pixel (x, y) shows master-palette colour `f(x, y)`, byte by byte.
pub open spec fn frame_of(f: spec_fn(int, int) -> u8) -> Seq<u8> {
    Seq::new(
        FRAMEBUFFER_SIZE as nat,
        |i: int| NES_PALETTE[(f((i / 4) % 256, (i / 4) / 256) % 64) as int][i % 4],
    )
}

/// The picture unit after drawing a frame: the frame of `frame_color` and the
/// sprite-0 hit in the status register.
#[verifier::opaque]
pub open spec fn rendered_model(p: PpuModel, chr: Seq<u8>) -> PpuModel {
    PpuModel {
        framebuffer: frame_of(|x: int, y: int| frame_color(p, chr, x, y)),
        registers: p.registers.update(2, status_after_render(p, chr)),
        ..p
    }
}

/// A frame that shows `f` at every pixel is the frame of `f`: nothing else is left open.
pub proof fn lemma_frame_shows_unique(fb: Seq<u8>, f: spec_fn(int, int) -> u8)
    requires
        frame_shows(fb, f),
    ensures
        fb == frame_of(f),
{
    assert forall|i: int| 0 <= i < FRAMEBUFFER_SIZE implies fb[i] == #[trigger] frame_of(f)[i] by {
        let x = (i / 4) % 256;
        let y = (i / 4) / 256;
        let k = i % 4;
        assert(0 <= x < 256 && 0 <= y < 240 && 0 <= k < 4 && pixel_offset(x, y) + k == i)
            by (nonlinear_arith)
            requires
                0 <= i < 245760,
                x == (i / 4) % 256,
                y == (i / 4) / 256,
                k == i % 4,
        ;
        assert(pixel_is(fb, x, y, f(x, y)));
    }
    assert(fb =~= frame_of(f));
}

/// Sprite `s` has drawn (x, y) once its rows before `row`, and the first `col`
/// columns of row `row`, are done.
pub open spec fn drawn_before(
    p: PpuModel,
    chr: Seq<u8>,
    s: int,
    x: int,
    y: int,
    row: int,
    col: int,
) -> bool {
    let r = y - sprite_top(p, s);
    let c = x - sprite_left(p, s);
    sprite_draws_at(p, chr, s, x, y) && (r < row || (r == row && c < col))
}

/// The colour at (x, y) while sprite `s` is being drawn over sprites `s + 1`..64.
pub open spec fn partial_sprite_color(
    p: PpuModel,
    chr: Seq<u8>,
    s: int,
    row: int,
    col: int,
    x: int,
    y: int,
) -> u8 {
    if drawn_before(p, chr, s, x, y, row, col) {
        sprite_color_at(p, chr, s, x, y)
    } else {
        with_sprites(p, chr, s + 1, x, y)
    }
}

/// Sprite 0 has met opaque background before position (`row`, `col`) of its box.
pub open spec fn zero_hit_before(p: PpuModel, chr: Seq<u8>, row: int, col: int) -> bool {
    exists|r: usize, c: usize|
        r < sprite_height_spec(p.registers[0]) && c < 8 && (r < row || (r == row && c < col))
            && #[trigger] sprite_zero_hits_at(p, chr, r, c)
}

pub open spec fn status_while_drawing(p: PpuModel, chr: Seq<u8>, s: int, row: int, col: int) -> u8 {
    if s == 0 && zero_hit_before(p, chr, row, col) {
        p.registers[2] | 0x40
    } else {
        p.registers[2]
    }
}

// ---------------------------------------------------------------------------
// Lemmas
// ---------------------------------------------------------------------------

pub proof fn lemma_pixels_disjoint(x1: int, y1: int, x2: int, y2: int)
    requires
        on_screen(x1, y1),
        on_screen(x2, y2),
        x1 != x2 || y1 != y2,
    ensures
        pixel_offset(x1, y1) + 4 <= pixel_offset(x2, y2) || pixel_offset(x2, y2) + 4
            <= pixel_offset(x1, y1),
{
}

pub proof fn lemma_pixel_in_frame(x: int, y: int)
    requires
        on_screen(x, y),
    ensures
        0 <= pixel_offset(x, y),
        pixel_offset(x, y) + 4 <= FRAMEBUFFER_SIZE,
{
}

/// Rewriting one pixel keeps every other pixel of a frame.
pub proof fn lemma_frame_after_pixel(
    fb: Seq<u8>,
    fb2: Seq<u8>,
    x0: int,
    y0: int,
    f: spec_fn(int, int) -> u8,
    g: spec_fn(int, int) -> u8,
)
    requires
        frame_shows(fb, f),
        on_screen(x0, y0),
        fb2.len() == fb.len(),
        pixel_is(fb2, x0, y0, g(x0, y0)),
        forall|i: int|
            0 <= i < fb.len() && !(pixel_offset(x0, y0) <= i < pixel_offset(x0, y0) + 4)
                ==> fb2[i] == fb[i],
        forall|x: int, y: int| on_screen(x, y) && (x != x0 || y != y0) ==> g(x, y) == f(x, y),
    ensures
        frame_shows(fb2, g),
{
    assert forall|x: int, y: int| on_screen(x, y) implies #[trigger] pixel_is(fb2, x, y, g(x, y)) by {
        if x != x0 || y != y0 {
            lemma_pixels_disjoint(x, y, x0, y0);
            lemma_pixel_in_frame(x, y);
            assert(pixel_is(fb, x, y, f(x, y)));
        }
    }
}

/// A frame described by one colour function is described by any function that agrees on screen.
pub proof fn lemma_frame_same_colors(fb: Seq<u8>, f: spec_fn(int, int) -> u8, g: spec_fn(int, int) -> u8)
    requires
        frame_shows(fb, f),
        forall|x: int, y: int| on_screen(x, y) ==> g(x, y) == f(x, y),
    ensures
        frame_shows(fb, g),
{
    assert forall|x: int, y: int| on_screen(x, y) implies #[trigger] pixel_is(fb, x, y, g(x, y)) by {
        assert(pixel_is(fb, x, y, f(x, y)));
    }
}

/// Drawing sprites `s`..64 is drawing sprite `s` over sprites `s + 1`..64.
pub proof fn lemma_with_sprites_step(p: PpuModel, chr: Seq<u8>, s: int, x: int, y: int)
    requires
        0 <= s < 64,
    ensures
        with_sprites(p, chr, s, x, y) == if sprite_draws_at(p, chr, s, x, y) {
            sprite_color_at(p, chr, s, x, y)
        } else {
            with_sprites(p, chr, s + 1, x, y)
        },
{
}

proof fn lemma_small_bits(v: u8, w: u8, bit: usize)
    requires
        bit < 8,
    ensures
        pattern_color(v, w, bit) <= 3,
        v & 0x03 <= 3,
        v & 0x3f <= 0x3f,
{
    assert(((v >> bit) & 1) | (((w >> bit) & 1) << 1) <= 3) by (bit_vector)
        requires
            bit < 8,
    ;
    assert(v & 0x03 <= 3 && v & 0x3f <= 0x3f) by (bit_vector);
}

proof fn lemma_nametable_base_range(ctrl: u8, nt_x: usize, nt_y: usize)
    requires
        nt_x <= 1,
        nt_y <= 1,
    ensures
        ((ctrl & 0x03) as usize) & 1 <= 1,
        (((ctrl & 0x03) as usize) >> 1usize) & 1 <= 1,
        ((((ctrl & 0x03) as usize & 1) + nt_x) as usize) & 1 <= 1,
        (((((ctrl & 0x03) as usize >> 1usize) & 1) + nt_y) as usize) & 1 <= 1,
        0x2000 <= scrolled_nametable_base_spec(ctrl, nt_x, nt_y) <= 0x2c00,
{
    let base = (ctrl & 0x03) as usize;
    assert(base & 1 <= 1 && (base >> 1usize) & 1 <= 1) by (bit_vector);
    let sx = ((base & 1) + nt_x) as usize;
    let sy = (((base >> 1usize) & 1) + nt_y) as usize;
    assert(sx & 1 <= 1 && sy & 1 <= 1) by (bit_vector);
}

/// The state fields that the picture depends on.
pub open spec fn same_picture_inputs(p: PpuModel, q: PpuModel) -> bool {
    &&& q.registers[0] == p.registers[0]
    &&& q.registers[1] == p.registers[1]
    &&& q.vram == p.vram
    &&& q.palette == p.palette
    &&& q.oam == p.oam
    &&& q.scroll_x == p.scroll_x
    &&& q.scroll_y == p.scroll_y
    &&& q.mirroring == p.mirroring
}

pub proof fn lemma_background_same_inputs(p: PpuModel, q: PpuModel, chr: Seq<u8>, x: usize, y: usize)
    requires
        same_picture_inputs(p, q),
    ensures
        background_opaque(p, chr, x, y) == background_opaque(q, chr, x, y),
        sample_at(p, x, y) == sample_at(q, x, y),
{
    assert(sample_at(p, x, y) == sample_at(q, x, y));
}

/// Once every row of sprite 0 is done, the hits seen so far are all of its hits.
pub proof fn lemma_zero_hit_complete(p: PpuModel, chr: Seq<u8>)
    ensures
        zero_hit_before(p, chr, sprite_height_spec(p.registers[0]) as int, 0) == sprite_zero_hits(
            p,
            chr,
        ),
{
    let h = sprite_height_spec(p.registers[0]);
    if sprite_zero_hits(p, chr) {
        let (r, c) = choose|r: usize, c: usize|
            r < h && c < 8 && #[trigger] sprite_zero_hits_at(p, chr, r, c);
        assert(r < h && c < 8 && (r < h || (r == h && c < 0)) && sprite_zero_hits_at(p, chr, r, c));
    }
}

proof fn lemma_set_hit_bit(status: u8)
    ensures
        (status | 0x40) | 0x40 == status | 0x40,
{
    assert((status | 0x40) | 0x40 == status | 0x40) by (bit_vector);
}

proof fn lemma_tile_bits(tile: u16)
    requires
        tile < 256,
    ensures
        tile & 0x01 <= 1,
        tile & 0xfe <= 254,
{
    assert(tile & 0x01 <= 1) by (bit_vector);
    assert(tile & 0xfe <= 254) by (bit_vector)
        requires
            tile < 256,
    ;
}

impl Ppu {
    fn system_color(index: u8) -> (r: [u8; 4])
        ensures
            r == NES_PALETTE[(index % 64) as int],
    {
        NES_PALETTE[(index % 64) as usize]
    }

    fn write_pixel(&mut self, x: usize, y: usize, rgba: [u8; 4])
        requires
            old(self).wf(),
            x < 256,
            y < 240,
        ensures
            final(self).wf(),
            final(self)@ == (PpuModel { framebuffer: final(self)@.framebuffer, ..old(self)@ }),
            final(self)@.framebuffer[pixel_offset(x as int, y as int)] == rgba[0],
            final(self)@.framebuffer[pixel_offset(x as int, y as int) + 1] == rgba[1],
            final(self)@.framebuffer[pixel_offset(x as int, y as int) + 2] == rgba[2],
            final(self)@.framebuffer[pixel_offset(x as int, y as int) + 3] == rgba[3],
            forall|i: int|
                0 <= i < FRAMEBUFFER_SIZE && !(pixel_offset(x as int, y as int) <= i
                    < pixel_offset(x as int, y as int) + 4) ==> final(self)@.framebuffer[i]
                    == old(self)@.framebuffer[i],
    {
        let i = (y * 256 + x) * 4;
        self.framebuffer.set(i, rgba[0]);
        self.framebuffer.set(i + 1, rgba[1]);
        self.framebuffer.set(i + 2, rgba[2]);
        self.framebuffer.set(i + 3, rgba[3]);
    }

    /// Sets pixel (x, y) to master-palette colour `color`, keeping the frame description.
    fn draw_pixel(
        &mut self,
        x: usize,
        y: usize,
        color: u8,
        Ghost(f): Ghost<spec_fn(int, int) -> u8>,
        Ghost(g): Ghost<spec_fn(int, int) -> u8>,
    )
        requires
            old(self).wf(),
            x < 256,
            y < 240,
            frame_shows(old(self)@.framebuffer, f),
            g(x as int, y as int) == color,
            forall|a: int, b: int|
                on_screen(a, b) && (a != x || b != y) ==> g(a, b) == f(a, b),
        ensures
            final(self).wf(),
            final(self)@ == (PpuModel { framebuffer: final(self)@.framebuffer, ..old(self)@ }),
            frame_shows(final(self)@.framebuffer, g),
    {
        let rgba = Self::system_color(color);
        self.write_pixel(x, y, rgba);
        proof {
            lemma_frame_after_pixel(
                old(self)@.framebuffer,
                self@.framebuffer,
                x as int,
                y as int,
                f,
                g,
            );
        }
    }

    fn scrolled_nametable_base(&self, nt_x: usize, nt_y: usize) -> (r: u16)
        requires
            nt_x <= 1,
            nt_y <= 1,
        ensures
            r == scrolled_nametable_base_spec(self.registers[0], nt_x, nt_y),
            0x2000 <= r <= 0x2c00,
    {
        proof {
            lemma_nametable_base_range(self.registers[0], nt_x, nt_y);
        }
        let base = (self.registers[0] & 0x03) as usize;
        let table_x = (((base & 1) + nt_x) as usize) & 1;
        let table_y = ((((base >> 1usize) & 1) + nt_y) as usize) & 1;
        0x2000 + ((table_y * 2 + table_x) as u16) * 0x0400
    }

    fn sample(&self, x: usize, y: usize) -> (r: BackgroundSample)
        requires
            x < 256,
            y < 240,
        ensures
            r == sample_at(self@, x, y),
            sample_ok(r),
    {
        let world_y = (y + self.scroll_y as usize) % 480;
        let nt_y = world_y / 240;
        let local_y = world_y % 240;
        let world_x = (x + self.scroll_x as usize) % 512;
        let nt_x = world_x / 256;
        let local_x = world_x % 256;
        BackgroundSample {
            nametable_base: self.scrolled_nametable_base(nt_x, nt_y),
            tile_x: local_x / 8,
            tile_y: local_y / 8,
            fine_x: local_x % 8,
            fine_y: local_y % 8,
        }
    }

    fn background_pixel(&self, mapper: &Mapper0, pattern_base: u16, sample: BackgroundSample) -> (r: (
        u8,
        u8,
    ))
        requires
            sample_ok(sample),
            pattern_base == 0 || pattern_base == 0x1000,
        ensures
            r == background_pixel_spec(self@, mapper@.chr, pattern_base, sample),
            r.0 <= 3,
    {
        let name_addr = sample.nametable_base + (sample.tile_y * 32 + sample.tile_x) as u16;
        let tile = self.vram[self.nametable_index(name_addr)] as u16;
        let attr_addr = sample.nametable_base + 0x03c0 + ((sample.tile_y / 4) * 8 + (sample.tile_x
            / 4)) as u16;
        let attr = self.vram[self.nametable_index(attr_addr)];
        let quadrant = ((sample.tile_y % 4) / 2) * 2 + ((sample.tile_x % 4) / 2);
        let palette_group = (attr >> (quadrant * 2)) & 0x03;
        let pattern_addr = pattern_base + tile * 16 + sample.fine_y as u16;
        let low = match Mapper::ppu_read(mapper, pattern_addr) {
            Some(v) => v,
            None => 0,
        };
        let high = match Mapper::ppu_read(mapper, pattern_addr + 8) {
            Some(v) => v,
            None => 0,
        };
        let bit = 7 - sample.fine_x;
        let color_id = ((low >> bit) & 1) | (((high >> bit) & 1) << 1);
        proof {
            lemma_small_bits(low, high, bit);
            lemma_small_bits(attr >> (quadrant * 2), 0, 0);
        }
        let palette_addr: usize = if color_id == 0 {
            0
        } else {
            1 + palette_group as usize * 4 + (color_id - 1) as usize
        };
        (color_id, self.palette[palette_addr] & 0x3f)
    }

    pub(crate) fn background_opaque_at(&self, mapper: &Mapper0, x: usize, y: usize) -> (r: bool)
        requires
            x < 256,
            y < 240,
        ensures
            r == background_opaque(self@, mapper@.chr, x, y),
    {
        let pattern_base: u16 = if self.registers[0] & 0x10 != 0 {
            0x1000
        } else {
            0x0000
        };
        let sample = self.sample(x, y);
        self.background_pixel(mapper, pattern_base, sample).0 != 0
    }

    fn fill_frame(&mut self, color: u8)
        requires
            old(self).wf(),
        ensures
            final(self).wf(),
            final(self)@ == (PpuModel { framebuffer: final(self)@.framebuffer, ..old(self)@ }),
            frame_shows(final(self)@.framebuffer, |x: int, y: int| color),
    {
        let ghost start = self@;
        let mut y: usize = 0;
        while y < 240
            invariant
                self.wf(),
                y <= 240,
                self@ == (PpuModel { framebuffer: self@.framebuffer, ..start }),
                forall|a: int, b: int|
                    on_screen(a, b) && b < y ==> #[trigger] pixel_is(self@.framebuffer, a, b, color),
            decreases 240 - y,
        {
            let mut x: usize = 0;
            while x < 256
                invariant
                    self.wf(),
                    x <= 256,
                    y < 240,
                    self@ == (PpuModel { framebuffer: self@.framebuffer, ..start }),
                    forall|a: int, b: int|
                        on_screen(a, b) && (b < y || (b == y && a < x)) ==> #[trigger] pixel_is(
                            self@.framebuffer,
                            a,
                            b,
                            color,
                        ),
                decreases 256 - x,
            {
                let ghost before = self@.framebuffer;
                let rgba = Self::system_color(color);
                self.write_pixel(x, y, rgba);
                proof {
                    assert forall|a: int, b: int|
                        on_screen(a, b) && (b < y || (b == y && a < x + 1)) implies #[trigger] pixel_is(
                        self@.framebuffer,
                        a,
                        b,
                        color,
                    ) by {
                        if a != x || b != y {
                            lemma_pixels_disjoint(a, b, x as int, y as int);
                            lemma_pixel_in_frame(a, b);
                            assert(pixel_is(before, a, b, color));
                        }
                    }
                }
                x = x + 1;
            }
            y = y + 1;
        }
    }
}

impl Ppu {
    /// Pattern address of row `fine_y` of a sprite tile.
    pub fn sprite_pattern_addr(pattern_base: u16, sprite_height: usize, tile: u16, fine_y: usize) -> (r: u16)
        requires
            pattern_base == 0 || pattern_base == 0x1000,
            sprite_height == 8 || sprite_height == 16,
            tile < 256,
            fine_y < sprite_height,
        ensures
            r == sprite_pattern_addr_spec(pattern_base, sprite_height, tile, fine_y),
            r <= 0x1fff,
    {
        proof {
            lemma_tile_bits(tile);
        }
        if sprite_height == 16 {
            let table = tile & 0x01;
            let tile_base = tile & 0xfe;
            let row_tile = if fine_y >= 8 {
                tile_base + 1
            } else {
                tile_base
            };
            table * 0x1000 + row_tile * 16 + (fine_y % 8) as u16
        } else {
            pattern_base + tile * 16 + fine_y as u16
        }
    }

    /// Draws the background over a backdrop-filled frame.
    fn render_background(&mut self, mapper: &Mapper0, Ghost(p): Ghost<PpuModel>)
        requires
            old(self).wf(),
            old(self)@ == (PpuModel { framebuffer: old(self)@.framebuffer, ..p }),
            p.registers[1] & 0x08 != 0,
            frame_shows(old(self)@.framebuffer, |x: int, y: int| p.palette[0] & 0x3f),
        ensures
            final(self).wf(),
            final(self)@ == (PpuModel { framebuffer: final(self)@.framebuffer, ..p }),
            frame_shows(final(self)@.framebuffer, |x: int, y: int| under_sprites(p, mapper@.chr, x, y)),
    {
        let ghost chr = mapper@.chr;
        let pattern_base: u16 = if self.registers[0] & 0x10 != 0 {
            0x1000
        } else {
            0x0000
        };
        let mut y: usize = 0;
        proof {
            lemma_frame_same_colors(
                self@.framebuffer,
                |x: int, y: int| p.palette[0] & 0x3f,
                |a: int, b: int|
                    if b < 0 {
                        under_sprites(p, chr, a, b)
                    } else {
                        p.palette[0] & 0x3f
                    },
            );
        }
        while y < 240
            invariant
                self.wf(),
                y <= 240,
                chr == mapper@.chr,
                self@ == (PpuModel { framebuffer: self@.framebuffer, ..p }),
                p.registers[1] & 0x08 != 0,
                pattern_base == background_pattern_base(p.registers[0]),
                frame_shows(
                    self@.framebuffer,
                    |a: int, b: int|
                        if b < y {
                            under_sprites(p, chr, a, b)
                        } else {
                            p.palette[0] & 0x3f
                        },
                ),
            decreases 240 - y,
        {
            let mut x: usize = 0;
            proof {
                lemma_frame_same_colors(
                    self@.framebuffer,
                    |a: int, b: int|
                        if b < y {
                            under_sprites(p, chr, a, b)
                        } else {
                            p.palette[0] & 0x3f
                        },
                    |a: int, b: int|
                        if b < y || (b == y && a < 0) {
                            under_sprites(p, chr, a, b)
                        } else {
                            p.palette[0] & 0x3f
                        },
                );
            }
            while x < 256
                invariant
                    self.wf(),
                    x <= 256,
                    y < 240,
                        chr == mapper@.chr,
                    self@ == (PpuModel { framebuffer: self@.framebuffer, ..p }),
                    p.registers[1] & 0x08 != 0,
                    pattern_base == background_pattern_base(p.registers[0]),
                    frame_shows(
                        self@.framebuffer,
                        |a: int, b: int|
                            if b < y || (b == y && a < x) {
                                under_sprites(p, chr, a, b)
                            } else {
                                p.palette[0] & 0x3f
                            },
                    ),
                decreases 256 - x,
            {
                let ghost f = |a: int, b: int|
                    if b < y || (b == y && a < x) {
                        under_sprites(p, chr, a, b)
                    } else {
                        p.palette[0] & 0x3f
                    };
                let ghost g = |a: int, b: int|
                    if b < y || (b == y && a < x + 1) {
                        under_sprites(p, chr, a, b)
                    } else {
                        p.palette[0] & 0x3f
                    };
                if x < 8 && self.registers[1] & 0x02 == 0 {
                    proof {
                        lemma_frame_same_colors(self@.framebuffer, f, g);
                    }
                } else {
                    let sample = self.sample(x, y);
                    let (_, nes_color) = self.background_pixel(mapper, pattern_base, sample);
                    self.draw_pixel(x, y, nes_color, Ghost(f), Ghost(g));
                }
                x = x + 1;
            }
            proof {
                let ghost f = |a: int, b: int|
                    if b < y || (b == y && a < 256) {
                        under_sprites(p, chr, a, b)
                    } else {
                        p.palette[0] & 0x3f
                    };
                let ghost g = |a: int, b: int|
                    if b < y + 1 {
                        under_sprites(p, chr, a, b)
                    } else {
                        p.palette[0] & 0x3f
                    };
                lemma_frame_same_colors(self@.framebuffer, f, g);
            }
            y = y + 1;
        }
        proof {
            let ghost f = |a: int, b: int|
                if b < 240 {
                    under_sprites(p, chr, a, b)
                } else {
                    p.palette[0] & 0x3f
                };
            lemma_frame_same_colors(
                self@.framebuffer,
                f,
                |x: int, y: int| under_sprites(p, chr, x, y),
            );
        }
    }
}

impl Ppu {
    /// Draws sprite `s` over a frame that shows sprites `s + 1`..64.
    #[verifier::rlimit(60)]
    fn render_sprite(&mut self, mapper: &Mapper0, s: usize, Ghost(p): Ghost<PpuModel>)
        requires
            old(self).wf(),
            s < 64,
            old(self)@ == (PpuModel { framebuffer: old(self)@.framebuffer, ..p }),
            frame_shows(
                old(self)@.framebuffer,
                |a: int, b: int| with_sprites(p, mapper@.chr, s + 1, a, b),
            ),
        ensures
            final(self).wf(),
            final(self)@ == (PpuModel {
                framebuffer: final(self)@.framebuffer,
                registers: p.registers.update(2, status_while_drawing(p, mapper@.chr, s as int, sprite_height_spec(p.registers[0]) as int, 0)),
                ..p
            }),
            frame_shows(
                final(self)@.framebuffer,
                |a: int, b: int| with_sprites(p, mapper@.chr, s as int, a, b),
            ),
    {
        let ghost chr = mapper@.chr;
        let ghost si = s as int;
        let base = s * 4;
        let sprite_y = self.oam[base] as usize + 1;
        let tile = self.oam[base + 1] as u16;
        let attr = self.oam[base + 2];
        let sprite_x = self.oam[base + 3] as usize;
        let palette_group = attr & 0x03;
        let behind_background = attr & 0x20 != 0;
        let flip_h = attr & 0x40 != 0;
        let flip_v = attr & 0x80 != 0;
        let sprite_height: usize = if self.registers[0] & 0x20 != 0 {
            16
        } else {
            8
        };
        let pattern_base: u16 = if self.registers[0] & 0x08 != 0 {
            0x1000
        } else {
            0x0000
        };
        proof {
            lemma_small_bits(attr, 0, 0);
            lemma_frame_same_colors(
                self@.framebuffer,
                |a: int, b: int| with_sprites(p, chr, si + 1, a, b),
                |a: int, b: int| partial_sprite_color(p, chr, si, 0, 0, a, b),
            );
            assert(self.registers@ =~= p.registers.update(2, status_while_drawing(p, chr, si, 0, 0)));
        }
        let mut row: usize = 0;
        while row < sprite_height
            invariant
                self.wf(),
                model_sizes(p),
                s < 64,
                si == s,
                chr == mapper@.chr,
                row <= sprite_height,
                sprite_height == sprite_height_spec(p.registers[0]),
                pattern_base == sprite_pattern_base(p.registers[0]),
                sprite_y == sprite_top(p, si),
                sprite_x == sprite_left(p, si),
                tile == p.oam[si * 4 + 1],
                attr == p.oam[si * 4 + 2],
                palette_group == attr & 0x03,
                palette_group <= 3,
                behind_background == (attr & 0x20 != 0),
                flip_h == (attr & 0x40 != 0),
                flip_v == (attr & 0x80 != 0),
                self@ == (PpuModel {
                    framebuffer: self@.framebuffer,
                    registers: p.registers.update(2, status_while_drawing(p, chr, si, row as int, 0)),
                    ..p
                }),
                frame_shows(
                    self@.framebuffer,
                    |a: int, b: int| partial_sprite_color(p, chr, si, row as int, 0, a, b),
                ),
            decreases sprite_height - row,
        {
            let y = sprite_y + row;
            if y < 240 {
                let fine_y = if flip_v {
                    sprite_height - 1 - row
                } else {
                    row
                };
                let pattern_addr = Self::sprite_pattern_addr(pattern_base, sprite_height, tile, fine_y);
                let low = match Mapper::ppu_read(mapper, pattern_addr) {
                    Some(v) => v,
                    None => 0,
                };
                let high = match Mapper::ppu_read(mapper, pattern_addr + 8) {
                    Some(v) => v,
                    None => 0,
                };
                let mut col: usize = 0;
                while col < 8
                    invariant
                        self.wf(),
                        model_sizes(p),
                        s < 64,
                        si == s,
                        chr == mapper@.chr,
                        row < sprite_height,
                        col <= 8,
                        y == sprite_y + row,
                        y < 240,
                        sprite_height == sprite_height_spec(p.registers[0]),
                        sprite_y == sprite_top(p, si),
                        sprite_x == sprite_left(p, si),
                        attr == p.oam[si * 4 + 2],
                        palette_group == attr & 0x03,
                        palette_group <= 3,
                        behind_background == (attr & 0x20 != 0),
                        flip_h == (attr & 0x40 != 0),
                        low == chr_or_zero(chr, pattern_addr),
                        high == chr_or_zero(chr, (pattern_addr + 8) as u16),
                        pattern_addr == sprite_pattern_addr_spec(
                            sprite_pattern_base(p.registers[0]),
                            sprite_height,
                            p.oam[si * 4 + 1] as u16,
                            if flip_v {
                                (sprite_height - 1 - row) as usize
                            } else {
                                row
                            },
                        ),
                        flip_v == (attr & 0x80 != 0),
                        self@ == (PpuModel {
                            framebuffer: self@.framebuffer,
                            registers: p.registers.update(2, status_while_drawing(p, chr, si, row as int, col as int)),
                            ..p
                        }),
                        frame_shows(
                            self@.framebuffer,
                            |a: int, b: int| partial_sprite_color(p, chr, si, row as int, col as int, a, b),
                        ),
                    decreases 8 - col,
                {
                    self.draw_sprite_pixel(
                        mapper,
                        s,
                        row,
                        col,
                        y,
                        sprite_x,
                        palette_group,
                        behind_background,
                        flip_h,
                        low,
                        high,
                        Ghost(p),
                        Ghost(pattern_addr),
                    );
                    col = col + 1;
                }
                proof {
                    lemma_frame_same_colors(
                        self@.framebuffer,
                        |a: int, b: int| partial_sprite_color(p, chr, si, row as int, 8, a, b),
                        |a: int, b: int| partial_sprite_color(p, chr, si, row + 1, 0, a, b),
                    );
                    assert(self.registers@ =~= p.registers.update(
                        2,
                        status_while_drawing(p, chr, si, row + 1, 0),
                    ));
                }
            } else {
                proof {
                    lemma_frame_same_colors(
                        self@.framebuffer,
                        |a: int, b: int| partial_sprite_color(p, chr, si, row as int, 0, a, b),
                        |a: int, b: int| partial_sprite_color(p, chr, si, row + 1, 0, a, b),
                    );
                    assert(self.registers@ =~= p.registers.update(
                        2,
                        status_while_drawing(p, chr, si, row + 1, 0),
                    ));
                }
            }
            row = row + 1;
        }
        proof {
            assert forall|a: int, b: int| on_screen(a, b) implies partial_sprite_color(
                p,
                chr,
                si,
                sprite_height as int,
                0,
                a,
                b,
            ) == with_sprites(p, chr, si, a, b) by {
                lemma_with_sprites_step(p, chr, si, a, b);
            }
            lemma_frame_same_colors(
                self@.framebuffer,
                |a: int, b: int| partial_sprite_color(p, chr, si, sprite_height as int, 0, a, b),
                |a: int, b: int| with_sprites(p, chr, si, a, b),
            );
        }
    }
}

impl Ppu {
    /// Draws all 64 sprites, highest number first so that sprite 0 ends on top.
    fn render_sprites(&mut self, mapper: &Mapper0, Ghost(p): Ghost<PpuModel>)
        requires
            old(self).wf(),
            model_sizes(p),
            old(self)@ == (PpuModel { framebuffer: old(self)@.framebuffer, ..p }),
            frame_shows(old(self)@.framebuffer, |x: int, y: int| under_sprites(p, mapper@.chr, x, y)),
        ensures
            final(self).wf(),
            final(self)@ == (PpuModel {
                framebuffer: final(self)@.framebuffer,
                registers: p.registers.update(
                    2,
                    status_while_drawing(p, mapper@.chr, 0, sprite_height_spec(p.registers[0]) as int, 0),
                ),
                ..p
            }),
            frame_shows(final(self)@.framebuffer, |x: int, y: int| with_sprites(p, mapper@.chr, 0, x, y)),
    {
        let ghost chr = mapper@.chr;
        proof {
            lemma_frame_same_colors(
                self@.framebuffer,
                |x: int, y: int| under_sprites(p, chr, x, y),
                |x: int, y: int| with_sprites(p, chr, 64, x, y),
            );
        }
        let mut sprite: usize = 64;
        while sprite > 0
            invariant
                self.wf(),
                model_sizes(p),
                chr == mapper@.chr,
                sprite <= 64,
                sprite > 0 ==> self@ == (PpuModel { framebuffer: self@.framebuffer, ..p }),
                sprite == 0 ==> self@ == (PpuModel {
                    framebuffer: self@.framebuffer,
                    registers: p.registers.update(
                        2,
                        status_while_drawing(p, chr, 0, sprite_height_spec(p.registers[0]) as int, 0),
                    ),
                    ..p
                }),
                frame_shows(
                    self@.framebuffer,
                    |x: int, y: int| with_sprites(p, chr, sprite as int, x, y),
                ),
            decreases sprite,
        {
            sprite = sprite - 1;
            self.render_sprite(mapper, sprite, Ghost(p));
            proof {
                if sprite > 0 {
                    assert(self@.registers =~= p.registers);
                }
            }
        }
    }

    /// Draws a whole frame: the backdrop colour, then the background if enabled,
    /// then the sprites if enabled; sprite 0 over opaque background raises the hit flag.
    #[verifier::rlimit(40)]
    pub fn render_frame(&mut self, mapper: &Mapper0)
        requires
            old(self).wf(),
        ensures
            final(self).wf(),
            final(self)@ == (PpuModel {
                framebuffer: final(self)@.framebuffer,
                registers: old(self)@.registers.update(2, status_after_render(old(self)@, mapper@.chr)),
                ..old(self)@
            }),
            frame_shows(
                final(self)@.framebuffer,
                |x: int, y: int| frame_color(old(self)@, mapper@.chr, x, y),
            ),
    {
        let ghost p = self@;
        let ghost chr = mapper@.chr;
        let backdrop = self.palette[0] & 0x3f;
        self.fill_frame(backdrop);
        if self.registers[1] & 0x08 != 0 {
            self.render_background(mapper, Ghost(p));
        } else {
            proof {
                lemma_frame_same_colors(
                    self@.framebuffer,
                    |x: int, y: int| backdrop,
                    |x: int, y: int| under_sprites(p, chr, x, y),
                );
            }
        }
        if self.registers[1] & 0x10 != 0 {
            self.render_sprites(mapper, Ghost(p));
            proof {
                lemma_frame_same_colors(
                    self@.framebuffer,
                    |x: int, y: int| with_sprites(p, chr, 0, x, y),
                    |x: int, y: int| frame_color(p, chr, x, y),
                );
                lemma_zero_hit_complete(p, chr);
            }
        } else {
            proof {
                lemma_frame_same_colors(
                    self@.framebuffer,
                    |x: int, y: int| under_sprites(p, chr, x, y),
                    |x: int, y: int| frame_color(p, chr, x, y),
                );
                assert(self@.registers =~= p.registers.update(2, status_after_render(p, chr)));
            }
        }
    }
}

impl Ppu {
    /// One step of drawing a sprite row: column `col` of row `row` of sprite `s`.
    #[verifier::rlimit(40)]
    fn draw_sprite_pixel(
        &mut self,
        mapper: &Mapper0,
        s: usize,
        row: usize,
        col: usize,
        y: usize,
        sprite_x: usize,
        palette_group: u8,
        behind_background: bool,
        flip_h: bool,
        low: u8,
        high: u8,
        Ghost(p): Ghost<PpuModel>,
        Ghost(pattern_addr): Ghost<u16>,
    )
        requires
            old(self).wf(),
            model_sizes(p),
            s < 64,
            row < sprite_height_spec(p.registers[0]),
            col < 8,
            y == sprite_top(p, s as int) + row,
            y < 240,
            sprite_x == sprite_left(p, s as int),
            palette_group == p.oam[s * 4 + 2] & 0x03,
            palette_group <= 3,
            behind_background == (p.oam[s * 4 + 2] & 0x20 != 0),
            flip_h == (p.oam[s * 4 + 2] & 0x40 != 0),
            low == chr_or_zero(mapper@.chr, pattern_addr),
            high == chr_or_zero(mapper@.chr, (pattern_addr + 8) as u16),
            pattern_addr == sprite_pattern_addr_spec(
                sprite_pattern_base(p.registers[0]),
                sprite_height_spec(p.registers[0]),
                p.oam[s * 4 + 1] as u16,
                if p.oam[s * 4 + 2] & 0x80 != 0 {
                    (sprite_height_spec(p.registers[0]) - 1 - row) as usize
                } else {
                    row
                },
            ),
            old(self)@ == (PpuModel {
                framebuffer: old(self)@.framebuffer,
                registers: p.registers.update(
                    2,
                    status_while_drawing(p, mapper@.chr, s as int, row as int, col as int),
                ),
                ..p
            }),
            frame_shows(
                old(self)@.framebuffer,
                |a: int, b: int|
                    partial_sprite_color(p, mapper@.chr, s as int, row as int, col as int, a, b),
            ),
        ensures
            final(self).wf(),
            final(self)@ == (PpuModel {
                framebuffer: final(self)@.framebuffer,
                registers: p.registers.update(
                    2,
                    status_while_drawing(p, mapper@.chr, s as int, row as int, col + 1),
                ),
                ..p
            }),
            frame_shows(
                final(self)@.framebuffer,
                |a: int, b: int|
                    partial_sprite_color(p, mapper@.chr, s as int, row as int, col + 1, a, b),
            ),
    {
        let ghost chr = mapper@.chr;
        let ghost si = s as int;
        let ghost f = |a: int, b: int| partial_sprite_color(p, chr, si, row as int, col as int, a, b);
        let ghost g = |a: int, b: int| partial_sprite_color(p, chr, si, row as int, col + 1, a, b);
        let ghost before = self@;
        let x = sprite_x + col;
        let mut drew = false;
        if x < 256 && !(x < 8 && self.registers[1] & 0x04 == 0) {
            let fine_x = if flip_h {
                col
            } else {
                7 - col
            };
            let color_id = ((low >> fine_x) & 1) | (((high >> fine_x) & 1) << 1);
            proof {
                lemma_small_bits(low, high, fine_x);
                assert(color_id == sprite_color_id(p, chr, si, row, col));
            }
            if color_id != 0 {
                let opaque = self.background_opaque_at(mapper, x, y);
                proof {
                    assert(before.registers[0] == p.registers[0]);
                    assert(before.registers[1] == p.registers[1]);
                    assert(same_picture_inputs(p, before));
                    lemma_background_same_inputs(p, before, chr, x, y);
                }
                if s == 0 && opaque {
                    proof {
                        lemma_set_hit_bit(p.registers[2]);
                        assert(sprite_zero_hits_at(p, chr, row, col));
                    }
                    self.registers[2] = self.registers[2] | 0x40;
                }
                if !(behind_background && opaque) {
                    let palette_addr = 0x11 + palette_group as usize * 4 + (color_id - 1) as usize;
                    let nes_color = self.palette[palette_addr] & 0x3f;
                    proof {
                        assert(drawn_before(p, chr, si, x as int, y as int, row as int, col + 1));
                        assert(nes_color == sprite_color_at(p, chr, si, x as int, y as int));
                    }
                    self.draw_pixel(x, y, nes_color, Ghost(f), Ghost(g));
                    drew = true;
                }
            }
        }
        proof {
            if !drew {
                lemma_frame_same_colors(self@.framebuffer, f, g);
            }
            assert(self.registers@ =~= p.registers.update(
                2,
                status_while_drawing(p, chr, si, row as int, col + 1),
            ));
        }
    }
}

} // verus!
