//! Dot and scanline timing: vertical blank, NMI requests, and sprite-0 hits while drawing.
use super::render::{
    model_sizes, same_picture_inputs, sprite_color_id, sprite_height_spec, sprite_left, sprite_top,
};
use super::{Ppu, PpuModel};
use crate::mapper::mapper0::Mapper0;
use crate::mapper::Mapper;
use vstd::prelude::*;

verus! {

pub const DOTS_PER_SCANLINE: u16 = 341;

pub const VBLANK_SCANLINE: i16 = 241;

pub const SCANLINES_PER_FRAME: i16 = 262;

/// The beam position of the current dot lies on sprite 0's box, on a visible
/// scanline, with rendering fully enabled and no hit recorded yet, and sprite 0 is
/// opaque there. (The hit test admits any opaque sprite-0 pixel: with both layers
/// shown, the fallback that accepts a hit without opaque background always holds.)
pub open spec fn dot_hits_sprite_zero(p: PpuModel, chr: Seq<u8>) -> bool {
    let x = p.dot as int;
    let y = p.scanline as int;
    let top = sprite_top(p, 0);
    let left = sprite_left(p, 0);
    &&& p.registers[2] & 0x40 == 0
    &&& p.registers[1] & 0x18 == 0x18
    &&& 0 <= y < 240
    &&& x < 256
    &&& !(x == 255 || (x < 8 && p.registers[1] & 0x06 != 0x06))
    &&& top <= y < top + sprite_height_spec(p.registers[0])
    &&& left <= x < left + 8
    &&& sprite_color_id(p, chr, 0, (y - top) as usize, (x - left) as usize) != 0
}

/// The status register after the sprite-0 check of the current dot.
pub open spec fn status_after_hit_check(p: PpuModel, chr: Seq<u8>) -> u8 {
    if dot_hits_sprite_zero(p, chr) {
        p.registers[2] | 0x40
    } else {
        p.registers[2]
    }
}

/// One dot of timing. At the end of a scanline the beam moves down; entering
/// scanline 241 starts vertical blank (status bit 7, NMI if enabled, frame ready);
/// passing scanline 261 wraps to 0 and clears vblank, sprite-0 hit and overflow.
pub open spec fn dot_step(p: PpuModel, chr: Seq<u8>) -> PpuModel {
    let status = status_after_hit_check(p, chr);
    let dot = p.dot + 1;
    if dot >= DOTS_PER_SCANLINE {
        let scanline = p.scanline + 1;
        if scanline == VBLANK_SCANLINE {
            PpuModel {
                registers: p.registers.update(2, status | 0x80),
                nmi_pending: if p.registers[0] & 0x80 != 0 {
                    true
                } else {
                    p.nmi_pending
                },
                frame_ready: true,
                dot: 0,
                scanline: scanline as i16,
                ..p
            }
        } else if scanline >= SCANLINES_PER_FRAME {
            PpuModel {
                registers: p.registers.update(2, status & 0x1f),
                frame_ready: false,
                dot: 0,
                scanline: 0,
                ..p
            }
        } else {
            PpuModel {
                registers: p.registers.update(2, status),
                dot: 0,
                scanline: scanline as i16,
                ..p
            }
        }
    } else {
        PpuModel { registers: p.registers.update(2, status), dot: dot as u16, ..p }
    }
}

/// `n` dots of timing.
pub open spec fn dots(p: PpuModel, chr: Seq<u8>, n: nat) -> PpuModel
    decreases n,
{
    if n == 0 {
        p
    } else {
        dot_step(dots(p, chr, (n - 1) as nat), chr)
    }
}

/// Counters that a dot can advance without overflow.
pub open spec fn timing_ok(p: PpuModel) -> bool {
    p.dot < 0xffff && p.scanline < 0x7fff
}

/// A dot keeps the counters in range, leaves the beam inside a scanline, and
/// touches nothing but the status register, the counters and the two flags.
pub proof fn law_dot_step_bounds(p: PpuModel, chr: Seq<u8>)
    requires
        timing_ok(p),
        model_sizes(p),
    ensures
        timing_ok(dot_step(p, chr)),
        model_sizes(dot_step(p, chr)),
        dot_step(p, chr).dot < DOTS_PER_SCANLINE,
        same_picture_inputs(p, dot_step(p, chr)),
        dot_step(p, chr).framebuffer == p.framebuffer,
{
}

proof fn lemma_dots_split(p: PpuModel, chr: Seq<u8>, a: nat, b: nat)
    ensures
        dots(p, chr, a + b) == dots(dots(p, chr, a), chr, b),
    decreases b,
{
    if b > 0 {
        lemma_dots_split(p, chr, a, (b - 1) as nat);
        assert(dots(p, chr, a + b) == dot_step(dots(p, chr, (a + b - 1) as nat), chr));
    }
}

/// Within a scanline the beam only moves along it.
proof fn lemma_dots_within_scanline(p: PpuModel, chr: Seq<u8>, k: nat)
    requires
        p.dot == 0,
        p.registers.len() == 8,
        k < DOTS_PER_SCANLINE,
    ensures
        dots(p, chr, k).dot == k,
        dots(p, chr, k).scanline == p.scanline,
        dots(p, chr, k).registers.len() == p.registers.len(),
        dots(p, chr, k).registers[0] == p.registers[0],
        dots(p, chr, k).frame_ready == p.frame_ready,
        dots(p, chr, k).nmi_pending == p.nmi_pending,
    decreases k,
{
    if k > 0 {
        lemma_dots_within_scanline(p, chr, (k - 1) as nat);
    }
}

/// A whole scanline moves the beam to the start of the next one.
proof fn lemma_dots_scanline(p: PpuModel, chr: Seq<u8>)
    requires
        p.dot == 0,
        0 <= p.scanline < 240,
        p.registers.len() == 8,
    ensures
        dots(p, chr, 341).dot == 0,
        dots(p, chr, 341).scanline == p.scanline + 1,
        dots(p, chr, 341).registers.len() == 8,
        dots(p, chr, 341).registers[0] == p.registers[0],
        dots(p, chr, 341).frame_ready == p.frame_ready,
        dots(p, chr, 341).nmi_pending == p.nmi_pending,
{
    lemma_dots_within_scanline(p, chr, 340);
}

/// From the start of a visible scanline, running the beam to the start of
/// scanline 241 starts vertical blank: the frame is ready, status bit 7 is set,
/// and an NMI is pending when PPUCTRL asks for one.
pub proof fn law_vblank_starts_at_scanline_241(p: PpuModel, chr: Seq<u8>)
    requires
        model_sizes(p),
        p.dot == 0,
        0 <= p.scanline <= 240,
    ensures
        ({
            let q = dots(p, chr, ((241 - p.scanline) * 341) as nat);
            &&& q.scanline == 241
            &&& q.dot == 0
            &&& q.frame_ready
            &&& q.registers[2] & 0x80 != 0
            &&& (p.registers[0] & 0x80 != 0 ==> q.nmi_pending)
        }),
    decreases 240 - p.scanline,
{
    if p.scanline == 240 {
        lemma_dots_within_scanline(p, chr, 340);
        let q = dots(p, chr, 340);
        let st = status_after_hit_check(q, chr);
        assert((st | 0x80) & 0x80 != 0) by (bit_vector);
    } else {
        lemma_dots_scanline(p, chr);
        let next = dots(p, chr, 341);
        lemma_dots_split(p, chr, 341, ((241 - next.scanline) * 341) as nat);
        assert(341 + (241 - next.scanline) * 341 == (241 - p.scanline) * 341);
        assert(model_sizes(next)) by {
            lemma_dots_sizes(p, chr, 341);
        }
        law_vblank_starts_at_scanline_241(next, chr);
    }
}

proof fn lemma_dots_sizes(p: PpuModel, chr: Seq<u8>, n: nat)
    requires
        model_sizes(p),
    ensures
        model_sizes(dots(p, chr, n)),
    decreases n,
{
    if n > 0 {
        lemma_dots_sizes(p, chr, (n - 1) as nat);
    }
}

/// Dots in a whole frame: 262 scanlines of 341 dots, 89342.
pub open spec fn frame_dots() -> int {
    89342
}

/// The beam's position in the frame, counted in dots from the top-left.
pub open spec fn beam(p: PpuModel) -> int {
    p.scanline * 341 + p.dot
}

/// The beam is on one of the frame's 262 scanlines and 341 dots.
pub open spec fn beam_in_frame(p: PpuModel) -> bool {
    0 <= p.scanline < 262 && p.dot < 341
}

/// Everything but the status register, the beam and the two flags stays.
pub open spec fn keeps_non_timing_state(p: PpuModel, q: PpuModel) -> bool {
    &&& q.registers.len() == p.registers.len()
    &&& q.registers[0] == p.registers[0]
    &&& q.registers[1] == p.registers[1]
    &&& q.vram == p.vram
    &&& q.palette == p.palette
    &&& q.oam == p.oam
    &&& q.oam_addr == p.oam_addr
    &&& q.scroll_x == p.scroll_x
    &&& q.scroll_y == p.scroll_y
    &&& q.fine_x == p.fine_x
    &&& q.temp_addr == p.temp_addr
    &&& q.vram_addr == p.vram_addr
    &&& q.address_latch == p.address_latch
    &&& q.read_buffer == p.read_buffer
    &&& q.mirroring == p.mirroring
    &&& q.framebuffer == p.framebuffer
}

proof fn lemma_dot_step_beam(p: PpuModel, chr: Seq<u8>)
    requires
        beam_in_frame(p),
        p.registers.len() == 8,
    ensures
        beam_in_frame(dot_step(p, chr)),
        beam(dot_step(p, chr)) == (beam(p) + 1) % frame_dots(),
        keeps_non_timing_state(p, dot_step(p, chr)),
{
}

/// After `n` dots the beam has moved `n` dots on, wrapping at the end of the
/// frame, and nothing but the status register, the beam and the frame-ready and
/// NMI flags has changed.
pub proof fn law_dots_move_the_beam(p: PpuModel, chr: Seq<u8>, n: nat)
    requires
        beam_in_frame(p),
        p.registers.len() == 8,
    ensures
        beam_in_frame(dots(p, chr, n)),
        beam(dots(p, chr, n)) == (beam(p) + n) % frame_dots(),
        keeps_non_timing_state(p, dots(p, chr, n)),
    decreases n,
{
    if n > 0 {
        law_dots_move_the_beam(p, chr, (n - 1) as nat);
        let q = dots(p, chr, (n - 1) as nat);
        lemma_dot_step_beam(q, chr);
        vstd::arithmetic::div_mod::lemma_add_mod_noop(beam(p) + n - 1, 1, frame_dots());
        assert(1int % frame_dots() == 1);
        assert(beam(q) % frame_dots() == beam(q));
    } else {
        assert(beam(p) % frame_dots() == beam(p));
    }
}

impl Ppu {
    fn sprite_zero_hit_fallback_enabled(&self) -> (r: bool)
        ensures
            r == (self.registers[1] & 0x18 == 0x18),
    {
        self.registers[1] & 0x18 == 0x18
    }

    fn maybe_set_sprite_zero_hit(&mut self, mapper: &Mapper0)
        ensures
            final(self)@ == (PpuModel {
                registers: old(self)@.registers.update(2, status_after_hit_check(old(self)@, mapper@.chr)),
                ..old(self)@
            }),
    {
        let ghost p = self@;
        if self.registers[2] & 0x40 != 0 || self.registers[1] & 0x18 != 0x18 {
            proof {
                assert(self@.registers =~= p.registers.update(2, p.registers[2]));
            }
            return;
        }
        if !(0 <= self.scanline && self.scanline < 240) || self.dot >= 256 {
            proof {
                assert(self@.registers =~= p.registers.update(2, p.registers[2]));
            }
            return;
        }
        let x = self.dot as usize;
        if x == 255 || x < 8 && (self.registers[1] & 0x06) != 0x06 {
            proof {
                assert(self@.registers =~= p.registers.update(2, p.registers[2]));
            }
            return;
        }
        let sprite_height: usize = if self.registers[0] & 0x20 != 0 {
            16
        } else {
            8
        };
        let sprite_y = self.oam[0] as usize + 1;
        let y = self.scanline as usize;
        if y < sprite_y || y >= sprite_y + sprite_height {
            proof {
                assert(self@.registers =~= p.registers.update(2, p.registers[2]));
            }
            return;
        }
        let sprite_x = self.oam[3] as usize;
        if x < sprite_x || x >= sprite_x + 8 {
            proof {
                assert(self@.registers =~= p.registers.update(2, p.registers[2]));
            }
            return;
        }
        let tile = self.oam[1] as u16;
        let attr = self.oam[2];
        let flip_h = attr & 0x40 != 0;
        let flip_v = attr & 0x80 != 0;
        let pattern_base: u16 = if self.registers[0] & 0x08 != 0 {
            0x1000
        } else {
            0x0000
        };
        let row = y - sprite_y;
        let col = x - sprite_x;
        let fine_y = if flip_v {
            sprite_height - 1 - row
        } else {
            row
        };
        let fine_x = if flip_h {
            col
        } else {
            7 - col
        };
        let pattern_addr = Self::sprite_pattern_addr(pattern_base, sprite_height, tile, fine_y);
        let low = match Mapper::ppu_read(mapper, pattern_addr) {
            Some(v) => v,
            None => 0,
        };
        let high = match Mapper::ppu_read(mapper, pattern_addr + 8) {
            Some(v) => v,
            None => 0,
        };
        let sprite_color = ((low >> fine_x) & 1) | (((high >> fine_x) & 1) << 1);
        proof {
            assert(sprite_color == sprite_color_id(p, mapper@.chr, 0, row, col));
        }
        if sprite_color == 0 {
            proof {
                assert(self@.registers =~= p.registers.update(2, p.registers[2]));
            }
            return;
        }
        if self.background_opaque_at(mapper, x, y) || self.sprite_zero_hit_fallback_enabled() {
            self.registers[2] = self.registers[2] | 0x40;
        }
    }

    /// Advances the picture unit by `cycles` dots.
    pub fn step(&mut self, cycles: usize, mapper: &Mapper0)
        requires
            timing_ok(old(self)@),
        ensures
            final(self)@ == dots(old(self)@, mapper@.chr, cycles as nat),
            timing_ok(final(self)@),
    {
        let ghost p = self@;
        let mut i: usize = 0;
        while i < cycles
            invariant
                i <= cycles,
                model_sizes(self@),
                timing_ok(self@),
                self@ == dots(p, mapper@.chr, i as nat),
            decreases cycles - i,
        {
            let ghost before = self@;
            self.maybe_set_sprite_zero_hit(mapper);
            self.dot = self.dot + 1;
            if self.dot >= 341 {
                self.dot = 0;
                self.scanline = self.scanline + 1;
                if self.scanline == 241 {
                    self.registers[2] = self.registers[2] | 0x80;
                    if self.registers[0] & 0x80 != 0 {
                        self.nmi_pending = true;
                    }
                    self.frame_ready = true;
                } else if self.scanline >= 262 {
                    self.scanline = 0;
                    self.registers[2] = self.registers[2] & 0x1f;
                    self.frame_ready = false;
                }
            }
            proof {
                law_dot_step_bounds(before, mapper@.chr);
                assert(self@ =~= dot_step(before, mapper@.chr));
            }
            i = i + 1;
        }
    }
}

} // verus!
