//! The picture unit: CPU-visible registers, nametable and palette memory, sprite
//! memory, scanline timing, and whole-frame rendering into an RGBA framebuffer.
use crate::mapper::mapper0::{chr_read, Mapper0, Mapper0View};
use crate::mapper::Mapper;
use crate::rom::Mirroring;
use vstd::prelude::*;
use vstd::slice::slice_to_vec;

pub mod render;
pub mod timing;

verus! {

pub const WIDTH: usize = 256;

pub const HEIGHT: usize = 240;

pub const FRAMEBUFFER_SIZE: usize = 245760;

/// The 64-entry master palette as RGBA.
pub const NES_PALETTE: [[u8; 4]; 64] = [
    [84, 84, 84, 255],
    [0, 30, 116, 255],
    [8, 16, 144, 255],
    [48, 0, 136, 255],
    [68, 0, 100, 255],
    [92, 0, 48, 255],
    [84, 4, 0, 255],
    [60, 24, 0, 255],
    [32, 42, 0, 255],
    [8, 58, 0, 255],
    [0, 64, 0, 255],
    [0, 60, 0, 255],
    [0, 50, 60, 255],
    [0, 0, 0, 255],
    [0, 0, 0, 255],
    [0, 0, 0, 255],
    [152, 150, 152, 255],
    [8, 76, 196, 255],
    [48, 50, 236, 255],
    [92, 30, 228, 255],
    [136, 20, 176, 255],
    [160, 20, 100, 255],
    [152, 34, 32, 255],
    [120, 60, 0, 255],
    [84, 90, 0, 255],
    [40, 114, 0, 255],
    [8, 124, 0, 255],
    [0, 118, 40, 255],
    [0, 102, 120, 255],
    [0, 0, 0, 255],
    [0, 0, 0, 255],
    [0, 0, 0, 255],
    [236, 238, 236, 255],
    [76, 154, 236, 255],
    [120, 124, 236, 255],
    [176, 98, 236, 255],
    [228, 84, 236, 255],
    [236, 88, 180, 255],
    [236, 106, 100, 255],
    [212, 136, 32, 255],
    [160, 170, 0, 255],
    [116, 196, 0, 255],
    [76, 208, 32, 255],
    [56, 204, 108, 255],
    [56, 180, 204, 255],
    [60, 60, 60, 255],
    [0, 0, 0, 255],
    [0, 0, 0, 255],
    [236, 238, 236, 255],
    [168, 204, 236, 255],
    [188, 188, 236, 255],
    [212, 178, 236, 255],
    [236, 174, 236, 255],
    [236, 174, 212, 255],
    [236, 180, 176, 255],
    [228, 196, 144, 255],
    [204, 210, 120, 255],
    [180, 222, 120, 255],
    [168, 226, 144, 255],
    [152, 226, 180, 255],
    [160, 214, 228, 255],
    [160, 162, 160, 255],
    [0, 0, 0, 255],
    [0, 0, 0, 255],
];

/// Picture unit state. The fields are public so that a debugger or a test can
/// inspect and stage any state.
#[derive(Clone, Debug)]
pub struct Ppu {
    pub registers: [u8; 8],
    pub vram: [u8; 0x800],
    pub palette: [u8; 0x20],
    pub oam: [u8; 0x100],
    pub oam_addr: u8,
    pub scanline: i16,
    pub dot: u16,
    pub frame_ready: bool,
    pub nmi_pending: bool,
    pub address_latch: bool,
    pub fine_x: u8,
    pub scroll_x: u16,
    pub scroll_y: u16,
    pub temp_addr: u16,
    pub vram_addr: u16,
    pub read_buffer: u8,
    pub mirroring: Mirroring,
    pub framebuffer: Vec<u8>,
}

/// The picture unit as values.
#[verifier::ext_equal]
pub struct PpuModel {
    pub registers: Seq<u8>,
    pub vram: Seq<u8>,
    pub palette: Seq<u8>,
    pub oam: Seq<u8>,
    pub oam_addr: u8,
    pub scanline: i16,
    pub dot: u16,
    pub frame_ready: bool,
    pub nmi_pending: bool,
    pub address_latch: bool,
    pub fine_x: u8,
    pub scroll_x: u16,
    pub scroll_y: u16,
    pub temp_addr: u16,
    pub vram_addr: u16,
    pub read_buffer: u8,
    pub mirroring: Mirroring,
    pub framebuffer: Seq<u8>,
}

impl View for Ppu {
    type V = PpuModel;

    open spec fn view(&self) -> PpuModel {
        PpuModel {
            registers: self.registers@,
            vram: self.vram@,
            palette: self.palette@,
            oam: self.oam@,
            oam_addr: self.oam_addr,
            scanline: self.scanline,
            dot: self.dot,
            frame_ready: self.frame_ready,
            nmi_pending: self.nmi_pending,
            address_latch: self.address_latch,
            fine_x: self.fine_x,
            scroll_x: self.scroll_x,
            scroll_y: self.scroll_y,
            temp_addr: self.temp_addr,
            vram_addr: self.vram_addr,
            read_buffer: self.read_buffer,
            mirroring: self.mirroring,
            framebuffer: self.framebuffer@,
        }
    }
}

/// What a debugger shows of the picture unit.
#[derive(Clone, Debug, PartialEq, Eq)]
pub struct PpuDebugState {
    pub ctrl: u8,
    pub mask: u8,
    pub status: u8,
    pub scanline: i16,
    pub dot: u16,
    pub scroll_x: u16,
    pub scroll_y: u16,
    pub temp_addr: u16,
    pub vram_addr: u16,
    pub oam: Vec<u8>,
}

/// Everything a save state records of the picture unit.
#[derive(Clone, Debug, PartialEq)]
pub struct PpuState {
    pub registers: [u8; 8],
    pub vram: Vec<u8>,
    pub palette: [u8; 0x20],
    pub oam: Vec<u8>,
    pub oam_addr: u8,
    pub scanline: i16,
    pub dot: u16,
    pub frame_ready: bool,
    pub nmi_pending: bool,
    pub address_latch: bool,
    pub fine_x: u8,
    pub scroll_x: u16,
    pub scroll_y: u16,
    pub temp_addr: u16,
    pub vram_addr: u16,
    pub read_buffer: u8,
    pub framebuffer: Vec<u8>,
}

// ---------------------------------------------------------------------------
// Address decoding
// ---------------------------------------------------------------------------

/// Palette RAM index of an address in $3F00-$3FFF: 32 entries mirrored, and the
/// sprite backdrop entries $3F10/$3F14/$3F18/$3F1C alias the background ones.
pub open spec fn palette_index_spec(addr: u16) -> int {
    let index = (addr - 0x3f00) % 0x20;
    if index == 0x10 || index == 0x14 || index == 0x18 || index == 0x1c {
        index - 0x10
    } else {
        index
    }
}

/// Nametable RAM index of an address in $2000-$3EFF: four logical 1 KiB tables
/// folded onto two physical ones by the cartridge's mirroring.
pub open spec fn nametable_index_spec(mirroring: Mirroring, addr: u16) -> int {
    let offset = (addr - 0x2000) % 0x1000;
    let table = offset / 0x400;
    let inner = offset % 0x400;
    let mapped_table = match mirroring {
        Mirroring::Vertical => table % 2,
        Mirroring::Horizontal => table / 2,
        Mirroring::FourScreen => table % 2,
    };
    mapped_table * 0x400 + inner
}

pub open spec fn vram_increment_spec(ctrl: u8) -> u16 {
    if ctrl & 0x04 != 0 {
        32
    } else {
        1
    }
}

/// What the picture unit's own bus holds at `addr` below the palette.
pub open spec fn vram_or_chr(p: PpuModel, chr: Seq<u8>, addr: u16) -> u8 {
    if addr <= 0x1fff {
        match chr_read(chr, addr) {
            Some(v) => v,
            None => 0,
        }
    } else if addr <= 0x3eff {
        p.vram[nametable_index_spec(p.mirroring, addr)]
    } else {
        0
    }
}

/// A read of PPUDATA ($2007): palette reads are direct, other reads return the
/// buffered byte and refill the buffer; the address then advances.
pub open spec fn read_ppudata_spec(p: PpuModel, chr: Seq<u8>) -> (PpuModel, u8) {
    let addr = p.vram_addr & 0x3fff;
    let advanced = PpuModel {
        vram_addr: p.vram_addr.wrapping_add(vram_increment_spec(p.registers[0])),
        ..p
    };
    if addr >= 0x3f00 {
        (advanced, p.palette[palette_index_spec(addr)])
    } else {
        (PpuModel { read_buffer: vram_or_chr(p, chr, addr), ..advanced }, p.read_buffer)
    }
}

/// A CPU read of a picture unit register.
pub open spec fn read_register_spec(p: PpuModel, chr: Seq<u8>, addr: u16) -> (PpuModel, u8) {
    let reg = addr & 7;
    if reg == 2 {
        (
            PpuModel {
                registers: p.registers.update(2, p.registers[2] & 0x7f),
                address_latch: false,
                ..p
            },
            p.registers[2],
        )
    } else if reg == 4 {
        (p, p.oam[p.oam_addr as int])
    } else if reg == 7 {
        read_ppudata_spec(p, chr)
    } else {
        (p, 0)
    }
}

/// Horizontal scroll in pixels, from the coarse X and nametable X bits of `temp` and fine X.
pub open spec fn scroll_x_from(temp: u16, fine_x: u8) -> u16 {
    (((temp >> 10) & 0x01) * 256 + (temp & 0x001f) * 8 + fine_x) as u16
}

/// Vertical scroll in pixels, from the coarse Y, nametable Y and fine Y bits of `temp`.
pub open spec fn scroll_y_from(temp: u16) -> u16 {
    (((temp >> 11) & 0x01) * 240 + ((temp >> 5) & 0x001f) * 8 + ((temp >> 12) & 0x07)) as u16
}

/// The picture unit after a PPUDATA write, and the write (if any) that goes to CHR.
pub open spec fn write_ppudata_spec(p: PpuModel, value: u8) -> PpuModel {
    let addr = p.vram_addr & 0x3fff;
    let advanced = PpuModel {
        vram_addr: p.vram_addr.wrapping_add(vram_increment_spec(p.registers[0])),
        ..p
    };
    if addr <= 0x1fff {
        advanced
    } else if addr <= 0x3eff {
        PpuModel {
            vram: p.vram.update(nametable_index_spec(p.mirroring, addr), value),
            ..advanced
        }
    } else {
        PpuModel { palette: p.palette.update(palette_index_spec(addr), value), ..advanced }
    }
}

/// A CPU write of a picture unit register (the CHR side effect is `chr_write_spec`).
pub open spec fn write_register_spec(p: PpuModel, addr: u16, value: u8) -> PpuModel {
    let reg = addr & 7;
    if reg == 0 {
        PpuModel {
            registers: p.registers.update(0, value),
            temp_addr: (p.temp_addr & !0x0c00u16) | (((value & 0x03) as u16) << 10u16),
            ..p
        }
    } else if reg == 1 {
        PpuModel { registers: p.registers.update(1, value), ..p }
    } else if reg == 3 {
        PpuModel { oam_addr: value, ..p }
    } else if reg == 4 {
        PpuModel {
            oam: p.oam.update(p.oam_addr as int, value),
            oam_addr: p.oam_addr.wrapping_add(1),
            ..p
        }
    } else if reg == 5 {
        if !p.address_latch {
            let temp = (p.temp_addr & !0x001fu16) | ((value >> 3u8) as u16);
            PpuModel {
                fine_x: value & 0x07,
                temp_addr: temp,
                scroll_x: scroll_x_from(temp, value & 0x07),
                address_latch: true,
                ..p
            }
        } else {
            let temp = (p.temp_addr & !0x73e0u16) | (((value & 0x07) as u16) << 12u16) | (((
            value & 0xf8) as u16) << 2u16);
            PpuModel {
                temp_addr: temp,
                scroll_y: scroll_y_from(temp),
                address_latch: false,
                ..p
            }
        }
    } else if reg == 6 {
        if !p.address_latch {
            PpuModel {
                temp_addr: (p.temp_addr & 0x00ff) | (((value & 0x3f) as u16) << 8u16),
                address_latch: true,
                ..p
            }
        } else {
            let temp = (p.temp_addr & 0x7f00) | (value as u16);
            PpuModel { temp_addr: temp, vram_addr: temp, address_latch: false, ..p }
        }
    } else if reg == 7 {
        write_ppudata_spec(p, value)
    } else {
        p
    }
}

/// Whether a register write reaches CHR memory, and at which address.
pub open spec fn register_write_chr_addr(p: PpuModel, addr: u16) -> Option<u16> {
    if addr & 7 == 7 && (p.vram_addr & 0x3fff) <= 0x1fff {
        Some(p.vram_addr & 0x3fff)
    } else {
        None
    }
}

/// The cartridge after a register write.
pub open spec fn register_write_mapper(p: PpuModel, m: Mapper0View, addr: u16, value: u8) -> Mapper0View {
    match register_write_chr_addr(p, addr) {
        Some(a) => crate::mapper::mapper0::chr_write_spec(m, a, value),
        None => m,
    }
}

/// OAM after a DMA transfer of 256 bytes starting at the current OAM address.
pub open spec fn oam_after_dma(oam: Seq<u8>, oam_addr: u8, bytes: Seq<u8>) -> Seq<u8> {
    Seq::new(0x100, |i: int| bytes[(i - oam_addr) % 0x100])
}

impl Ppu {
    pub open spec fn wf(&self) -> bool {
        self.framebuffer@.len() == FRAMEBUFFER_SIZE
    }

    pub fn palette_index(addr: u16) -> (r: usize)
        requires
            addr >= 0x3f00,
        ensures
            r == palette_index_spec(addr),
            r < 0x20,
    {
        let mut index = ((addr - 0x3f00) % 0x20) as usize;
        if index == 0x10 || index == 0x14 || index == 0x18 || index == 0x1c {
            index = index - 0x10;
        }
        index
    }

    pub fn nametable_index(&self, addr: u16) -> (r: usize)
        requires
            addr >= 0x2000,
        ensures
            r == nametable_index_spec(self.mirroring, addr),
            r < 0x800,
    {
        let offset = (addr - 0x2000) % 0x1000;
        let table = offset / 0x400;
        let inner = offset % 0x400;
        let mapped_table = match self.mirroring {
            Mirroring::Vertical => table % 2,
            Mirroring::Horizontal => table / 2,
            Mirroring::FourScreen => table % 2,
        };
        (mapped_table * 0x400 + inner) as usize
    }

    fn vram_increment(&self) -> (r: u16)
        ensures
            r == vram_increment_spec(self.registers[0]),
    {
        if self.registers[0] & 0x04 != 0 {
            32
        } else {
            1
        }
    }

    fn read_vram_or_chr(&self, addr: u16, mapper: &Mapper0) -> (r: u8)
        ensures
            r == vram_or_chr(self@, mapper@.chr, addr),
    {
        if addr <= 0x1fff {
            match Mapper::ppu_read(mapper, addr) {
                Some(v) => v,
                None => 0,
            }
        } else if addr <= 0x3eff {
            self.vram[self.nametable_index(addr)]
        } else {
            0
        }
    }

    fn read_palette(&self, addr: u16) -> (r: u8)
        requires
            addr >= 0x3f00,
        ensures
            r == self.palette[palette_index_spec(addr)],
    {
        self.palette[Self::palette_index(addr)]
    }

    fn read_ppudata(&mut self, mapper: &Mapper0) -> (r: u8)
        ensures
            (final(self)@, r) == read_ppudata_spec(old(self)@, mapper@.chr),
    {
        let addr = self.vram_addr & 0x3fff;
        let inc = self.vram_increment();
        self.vram_addr = self.vram_addr.wrapping_add(inc);
        if addr >= 0x3f00 {
            self.read_palette(addr)
        } else {
            let value = self.read_vram_or_chr(addr, mapper);
            let old = self.read_buffer;
            self.read_buffer = value;
            old
        }
    }

    /// A CPU read of register $2000 + (addr & 7).
    pub fn cpu_read_register(&mut self, addr: u16, mapper: &Mapper0) -> (r: u8)
        ensures
            (final(self)@, r) == read_register_spec(old(self)@, mapper@.chr, addr),
    {
        let reg = addr & 7;
        if reg == 2 {
            let status = self.registers[2];
            self.registers[2] = self.registers[2] & 0x7f;
            self.address_latch = false;
            status
        } else if reg == 4 {
            self.oam[self.oam_addr as usize]
        } else if reg == 7 {
            self.read_ppudata(mapper)
        } else {
            0
        }
    }

    fn write_ppudata(&mut self, value: u8, mapper: &mut Mapper0)
        requires
            (old(self).vram_addr & 0x3fff) <= 0x1fff ==> old(mapper).ppu_write_allowed(
                old(self).vram_addr & 0x3fff,
            ),
        ensures
            final(self)@ == write_ppudata_spec(old(self)@, value),
            final(mapper)@ == (if (old(self).vram_addr & 0x3fff) <= 0x1fff {
                crate::mapper::mapper0::chr_write_spec(old(mapper)@, old(self).vram_addr & 0x3fff, value)
            } else {
                old(mapper)@
            }),
    {
        let addr = self.vram_addr & 0x3fff;
        let inc = self.vram_increment();
        self.vram_addr = self.vram_addr.wrapping_add(inc);
        if addr <= 0x1fff {
            Mapper::ppu_write(mapper, addr, value);
        } else if addr <= 0x3eff {
            let index = self.nametable_index(addr);
            self.vram[index] = value;
        } else {
            let index = Self::palette_index(addr);
            self.palette[index] = value;
        }
    }

    fn update_scroll_x_from_temp(&mut self)
        ensures
            final(self)@ == (PpuModel {
                scroll_x: scroll_x_from(old(self).temp_addr, old(self).fine_x),
                ..old(self)@
            }),
    {
        let temp = self.temp_addr;
        let coarse_x = temp & 0x001f;
        let nametable_x = (temp >> 10) & 0x01;
        assert(coarse_x <= 31 && nametable_x <= 1) by (bit_vector)
            requires
                coarse_x == temp & 0x001f,
                nametable_x == (temp >> 10) & 0x01,
        ;
        self.scroll_x = nametable_x * 256 + coarse_x * 8 + self.fine_x as u16;
    }

    fn update_scroll_y_from_temp(&mut self)
        ensures
            final(self)@ == (PpuModel { scroll_y: scroll_y_from(old(self).temp_addr), ..old(self)@ }),
    {
        let temp = self.temp_addr;
        let coarse_y = (temp >> 5) & 0x001f;
        let nametable_y = (temp >> 11) & 0x01;
        let fine_y = (temp >> 12) & 0x07;
        assert(coarse_y <= 31 && nametable_y <= 1 && fine_y <= 7) by (bit_vector)
            requires
                coarse_y == (temp >> 5) & 0x001f,
                nametable_y == (temp >> 11) & 0x01,
                fine_y == (temp >> 12) & 0x07,
        ;
        self.scroll_y = nametable_y * 240 + coarse_y * 8 + fine_y;
    }

    /// A CPU write of register $2000 + (addr & 7).
    pub fn cpu_write_register(&mut self, addr: u16, value: u8, mapper: &mut Mapper0)
        requires
            register_write_chr_addr(old(self)@, addr) matches Some(a) ==> old(
                mapper,
            ).ppu_write_allowed(a),
        ensures
            final(self)@ == write_register_spec(old(self)@, addr, value),
            final(mapper)@ == register_write_mapper(old(self)@, old(mapper)@, addr, value),
    {
        let reg = addr & 7;
        if reg == 0 {
            self.registers[0] = value;
            self.temp_addr = (self.temp_addr & !0x0c00u16) | (((value & 0x03) as u16) << 10u16);
        } else if reg == 1 {
            self.registers[1] = value;
        } else if reg == 3 {
            self.oam_addr = value;
        } else if reg == 4 {
            self.oam[self.oam_addr as usize] = value;
            self.oam_addr = self.oam_addr.wrapping_add(1);
        } else if reg == 5 {
            if !self.address_latch {
                self.fine_x = value & 0x07;
                self.temp_addr = (self.temp_addr & !0x001fu16) | ((value >> 3u8) as u16);
                self.update_scroll_x_from_temp();
                self.address_latch = true;
            } else {
                self.temp_addr = (self.temp_addr & !0x73e0u16) | (((value & 0x07) as u16) << 12u16)
                    | (((value & 0xf8) as u16) << 2u16);
                self.update_scroll_y_from_temp();
                self.address_latch = false;
            }
        } else if reg == 6 {
            if !self.address_latch {
                self.temp_addr = (self.temp_addr & 0x00ff) | (((value & 0x3f) as u16) << 8u16);
                self.address_latch = true;
            } else {
                self.temp_addr = (self.temp_addr & 0x7f00) | (value as u16);
                self.vram_addr = self.temp_addr;
                self.address_latch = false;
            }
        } else if reg == 7 {
            self.write_ppudata(value, mapper);
        }
    }

    /// OAM DMA: 256 bytes copied into sprite memory from the current OAM address on.
    pub fn write_oam_dma(&mut self, bytes: &[u8; 256])
        ensures
            final(self)@ == (PpuModel {
                oam: oam_after_dma(old(self)@.oam, old(self).oam_addr, bytes@),
                ..old(self)@
            }),
    {
        let start = self.oam_addr;
        copy_into_oam(&mut self.oam, start, bytes);
    }
}

proof fn lemma_oam_slot(start: int, k: int)
    requires
        0 <= start < 0x100,
        0 <= k < 0x100,
    ensures
        (((start + k) % 0x100) - start) % 0x100 == k,
{
}

/// Writes `bytes` into `oam` from index `start` on, wrapping at the end.
fn copy_into_oam(oam: &mut [u8; 0x100], start: u8, bytes: &[u8; 256])
    ensures
        final(oam)@ == oam_after_dma(old(oam)@, start, bytes@),
{
    let mut addr = start;
    let mut i: usize = 0;
    while i < 256
        invariant
            i <= 256,
            addr as int == (start + i) % 0x100,
            forall|j: int|
                0 <= j < 0x100 ==> #[trigger] oam@[j] == if (j - start) % 0x100 < i {
                    bytes@[(j - start) % 0x100]
                } else {
                    old(oam)@[j]
                },
        decreases 256 - i,
    {
        proof {
            lemma_oam_slot(start as int, i as int);
        }
        oam[addr as usize] = bytes[i];
        addr = addr.wrapping_add(1);
        i = i + 1;
    }
    assert(oam@ =~= oam_after_dma(old(oam)@, start, bytes@));
}

/// The checkerboard shown before the first frame is drawn, at pixel (x, y).
pub open spec fn placeholder_pixel(fb: Seq<u8>, x: int, y: int) -> bool {
    let o = render::pixel_offset(x, y);
    let checker = ((x / 16) + (y / 16)) % 2 == 0;
    &&& fb[o] == if checker {
        84u8
    } else {
        116u8
    }
    &&& fb[o + 1] == if y < 120 {
        140u8
    } else {
        92u8
    }
    &&& fb[o + 2] == if checker {
        204u8
    } else {
        156u8
    }
    &&& fb[o + 3] == 255u8
}

/// What a save state holds of the picture unit.
pub open spec fn snapshot_of(s: PpuState, p: PpuModel) -> bool {
    &&& s.registers@ == p.registers
    &&& s.vram@ == p.vram
    &&& s.palette@ == p.palette
    &&& s.oam@ == p.oam
    &&& s.oam_addr == p.oam_addr
    &&& s.scanline == p.scanline
    &&& s.dot == p.dot
    &&& s.frame_ready == p.frame_ready
    &&& s.nmi_pending == p.nmi_pending
    &&& s.address_latch == p.address_latch
    &&& s.fine_x == p.fine_x
    &&& s.scroll_x == p.scroll_x
    &&& s.scroll_y == p.scroll_y
    &&& s.temp_addr == p.temp_addr
    &&& s.vram_addr == p.vram_addr
    &&& s.read_buffer == p.read_buffer
    &&& s.framebuffer@ == p.framebuffer
}

/// The picture unit after restoring a save state: the first 2 KiB of the saved
/// nametable memory, the saved OAM padded with zeros (or cut) to 256 bytes, and
/// the mirroring kept from the cartridge.
pub open spec fn restored_from(s: PpuState, mirroring: Mirroring) -> PpuModel {
    PpuModel {
        registers: s.registers@,
        vram: s.vram@.subrange(0, 0x800),
        palette: s.palette@,
        oam: Seq::new(0x100, |i: int| if i < s.oam@.len() { s.oam@[i] } else { 0u8 }),
        oam_addr: s.oam_addr,
        scanline: s.scanline,
        dot: s.dot,
        frame_ready: s.frame_ready,
        nmi_pending: s.nmi_pending,
        address_latch: s.address_latch,
        fine_x: s.fine_x,
        scroll_x: s.scroll_x,
        scroll_y: s.scroll_y,
        temp_addr: s.temp_addr,
        vram_addr: s.vram_addr,
        read_buffer: s.read_buffer,
        mirroring,
        framebuffer: s.framebuffer@,
    }
}

/// Restoring a snapshot gives back the picture unit it was taken from.
pub proof fn law_snapshot_restore_roundtrip(p: PpuModel, s: PpuState)
    requires
        render::model_sizes(p),
        snapshot_of(s, p),
    ensures
        restored_from(s, p.mirroring) == p,
{
    assert(restored_from(s, p.mirroring).vram =~= p.vram);
    assert(restored_from(s, p.mirroring).oam =~= p.oam);
    assert(restored_from(s, p.mirroring) =~= p);
}

impl Ppu {
    /// A powered-on picture unit with the given mirroring, showing a placeholder.
    pub fn new(mirroring: Mirroring) -> (ppu: Self)
        ensures
            ppu.wf(),
            ppu@.registers == Seq::new(8, |i: int| 0u8),
            ppu@.vram == Seq::new(0x800, |i: int| 0u8),
            ppu@.palette == Seq::new(0x20, |i: int| 0u8),
            ppu@.oam == Seq::new(0x100, |i: int| 0u8),
            ppu@.oam_addr == 0,
            ppu@.scanline == 0,
            ppu@.dot == 0,
            !ppu@.frame_ready,
            !ppu@.nmi_pending,
            !ppu@.address_latch,
            ppu@.fine_x == 0,
            ppu@.scroll_x == 0,
            ppu@.scroll_y == 0,
            ppu@.temp_addr == 0,
            ppu@.vram_addr == 0,
            ppu@.read_buffer == 0,
            ppu@.mirroring == mirroring,
            forall|x: int, y: int|
                render::on_screen(x, y) ==> #[trigger] placeholder_pixel(ppu@.framebuffer, x, y),
    {
        let mut ppu = Ppu {
            registers: [0; 8],
            vram: [0; 0x800],
            palette: [0; 0x20],
            oam: [0; 0x100],
            oam_addr: 0,
            scanline: 0,
            dot: 0,
            frame_ready: false,
            nmi_pending: false,
            address_latch: false,
            fine_x: 0,
            scroll_x: 0,
            scroll_y: 0,
            temp_addr: 0,
            vram_addr: 0,
            read_buffer: 0,
            mirroring,
            framebuffer: vec![0; FRAMEBUFFER_SIZE],
        };
        assert(ppu@.registers =~= Seq::new(8, |i: int| 0u8));
        assert(ppu@.vram =~= Seq::new(0x800, |i: int| 0u8));
        assert(ppu@.palette =~= Seq::new(0x20, |i: int| 0u8));
        assert(ppu@.oam =~= Seq::new(0x100, |i: int| 0u8));
        ppu.draw_placeholder_frame();
        ppu
    }

    fn draw_placeholder_frame(&mut self)
        requires
            old(self).wf(),
        ensures
            final(self).wf(),
            final(self)@ == (PpuModel { framebuffer: final(self)@.framebuffer, ..old(self)@ }),
            forall|x: int, y: int|
                render::on_screen(x, y) ==> #[trigger] placeholder_pixel(final(self)@.framebuffer, x, y),
    {
        let ghost start = self@;
        let mut y: usize = 0;
        while y < 240
            invariant
                self.wf(),
                y <= 240,
                self@ == (PpuModel { framebuffer: self@.framebuffer, ..start }),
                forall|a: int, b: int|
                    render::on_screen(a, b) && b < y ==> #[trigger] placeholder_pixel(self@.framebuffer, a, b),
            decreases 240 - y,
        {
            let mut x: usize = 0;
            while x < 256
                invariant
                    self.wf(),
                    x <= 256,
                    y < 240,
                    self@ == (PpuModel { framebuffer: self@.framebuffer, ..start }),
                    forall|a: int, b: int|
                        render::on_screen(a, b) && (b < y || (b == y && a < x)) ==> #[trigger] placeholder_pixel(
                            self@.framebuffer,
                            a,
                            b,
                        ),
                decreases 256 - x,
            {
                let ghost before = self@.framebuffer;
                let i = (y * 256 + x) * 4;
                let checker = ((x / 16) + (y / 16)) % 2 == 0;
                self.framebuffer.set(i, if checker { 84 } else { 116 });
                self.framebuffer.set(i + 1, if y < 120 { 140 } else { 92 });
                self.framebuffer.set(i + 2, if checker { 204 } else { 156 });
                self.framebuffer.set(i + 3, 255);
                proof {
                    assert forall|a: int, b: int|
                        render::on_screen(a, b) && (b < y || (b == y && a < x + 1)) implies #[trigger] placeholder_pixel(
                        self@.framebuffer,
                        a,
                        b,
                    ) by {
                        if a != x || b != y {
                            render::lemma_pixels_disjoint(a, b, x as int, y as int);
                            render::lemma_pixel_in_frame(a, b);
                            assert(placeholder_pixel(before, a, b));
                        }
                    }
                }
                x = x + 1;
            }
            y = y + 1;
        }
    }

    pub fn frame_ready(&self) -> (r: bool)
        ensures
            r == self.frame_ready,
    {
        self.frame_ready
    }

    pub fn frame_buffer(&self) -> (r: &[u8])
        ensures
            r@ == self@.framebuffer,
    {
        self.framebuffer.as_slice()
    }

    /// Hands out the finished frame and clears the frame-ready flag.
    pub fn take_frame(&mut self) -> (r: &[u8])
        ensures
            r@ == old(self)@.framebuffer,
            final(self)@ == (PpuModel { frame_ready: false, ..old(self)@ }),
    {
        self.frame_ready = false;
        self.framebuffer.as_slice()
    }

    /// Reports a pending NMI request and clears it.
    pub fn poll_nmi(&mut self) -> (r: bool)
        ensures
            r == old(self).nmi_pending,
            final(self)@ == (PpuModel { nmi_pending: false, ..old(self)@ }),
    {
        let pending = self.nmi_pending;
        self.nmi_pending = false;
        pending
    }

    pub fn debug_state(&self) -> (r: PpuDebugState)
        ensures
            r.ctrl == self.registers[0],
            r.mask == self.registers[1],
            r.status == self.registers[2],
            r.scanline == self.scanline,
            r.dot == self.dot,
            r.scroll_x == self.scroll_x,
            r.scroll_y == self.scroll_y,
            r.temp_addr == self.temp_addr,
            r.vram_addr == self.vram_addr,
            r.oam@ == self.oam@,
    {
        PpuDebugState {
            ctrl: self.registers[0],
            mask: self.registers[1],
            status: self.registers[2],
            scanline: self.scanline,
            dot: self.dot,
            scroll_x: self.scroll_x,
            scroll_y: self.scroll_y,
            temp_addr: self.temp_addr,
            vram_addr: self.vram_addr,
            oam: slice_to_vec(self.oam.as_slice()),
        }
    }

    pub fn snapshot(&self) -> (s: PpuState)
        ensures
            snapshot_of(s, self@),
    {
        PpuState {
            registers: self.registers,
            vram: slice_to_vec(self.vram.as_slice()),
            palette: self.palette,
            oam: slice_to_vec(self.oam.as_slice()),
            oam_addr: self.oam_addr,
            scanline: self.scanline,
            dot: self.dot,
            frame_ready: self.frame_ready,
            nmi_pending: self.nmi_pending,
            address_latch: self.address_latch,
            fine_x: self.fine_x,
            scroll_x: self.scroll_x,
            scroll_y: self.scroll_y,
            temp_addr: self.temp_addr,
            vram_addr: self.vram_addr,
            read_buffer: self.read_buffer,
            framebuffer: slice_to_vec(self.framebuffer.as_slice()),
        }
    }

    /// Loads a save state; the nametable memory in it must hold at least 2 KiB.
    pub fn restore(&mut self, state: &PpuState)
        requires
            state.vram@.len() >= 0x800,
        ensures
            final(self)@ == restored_from(*state, old(self).mirroring),
    {
        let mut vram = [0u8; 0x800];
        let mut i: usize = 0;
        while i < 0x800
            invariant
                i <= 0x800,
                state.vram@.len() >= 0x800,
                forall|j: int| 0 <= j < i ==> vram@[j] == state.vram@[j],
            decreases 0x800 - i,
        {
            vram[i] = state.vram[i];
            i = i + 1;
        }
        let oam_len = if state.oam.len() < 0x100 {
            state.oam.len()
        } else {
            0x100
        };
        let mut oam = [0u8; 0x100];
        let mut j: usize = 0;
        while j < 0x100
            invariant
                j <= 0x100,
                oam_len == (if state.oam@.len() < 0x100 { state.oam@.len() } else { 0x100 }),
                forall|k: int|
                    0 <= k < j ==> oam@[k] == (if k < state.oam@.len() {
                        state.oam@[k]
                    } else {
                        0u8
                    }),
            decreases 0x100 - j,
        {
            oam[j] = if j < oam_len {
                state.oam[j]
            } else {
                0
            };
            j = j + 1;
        }
        self.registers = state.registers;
        self.vram = vram;
        self.palette = state.palette;
        self.oam = oam;
        self.oam_addr = state.oam_addr;
        self.scanline = state.scanline;
        self.dot = state.dot;
        self.frame_ready = state.frame_ready;
        self.nmi_pending = state.nmi_pending;
        self.address_latch = state.address_latch;
        self.fine_x = state.fine_x;
        self.scroll_x = state.scroll_x;
        self.scroll_y = state.scroll_y;
        self.temp_addr = state.temp_addr;
        self.vram_addr = state.vram_addr;
        self.read_buffer = state.read_buffer;
        self.framebuffer = slice_to_vec(state.framebuffer.as_slice());
        assert(self@.vram =~= state.vram@.subrange(0, 0x800));
        assert(self@.oam =~= restored_from(*state, old(self).mirroring).oam);
    }
}

/// Palette memory repeats every 32 bytes through $3F00-$3FFF, and the sprite
/// backdrop entries $3F10, $3F14, $3F18, $3F1C are the background ones.
pub proof fn law_palette_mirroring(addr: u16, k: u16)
    requires
        0x3f00 <= addr <= 0x3fdf,
        k < 4,
    ensures
        palette_index_spec(addr) == palette_index_spec((addr + 0x20) as u16),
        0 <= palette_index_spec(addr) < 0x20,
        palette_index_spec((0x3f10 + 4 * k) as u16) == palette_index_spec((0x3f00 + 4 * k) as u16),
{
}

/// Vertical mirroring folds $2800 onto $2000 and $2C00 onto $2400; horizontal
/// mirroring folds $2400 onto $2000 and $2C00 onto $2800 and keeps those two apart.
pub proof fn law_nametable_mirroring(i: u16)
    requires
        i < 0x400,
    ensures
        nametable_index_spec(Mirroring::Vertical, (0x2000 + i) as u16) == nametable_index_spec(
            Mirroring::Vertical,
            (0x2800 + i) as u16,
        ),
        nametable_index_spec(Mirroring::Vertical, (0x2400 + i) as u16) == nametable_index_spec(
            Mirroring::Vertical,
            (0x2c00 + i) as u16,
        ),
        nametable_index_spec(Mirroring::Vertical, (0x2000 + i) as u16) != nametable_index_spec(
            Mirroring::Vertical,
            (0x2400 + i) as u16,
        ),
        nametable_index_spec(Mirroring::Horizontal, (0x2000 + i) as u16) == nametable_index_spec(
            Mirroring::Horizontal,
            (0x2400 + i) as u16,
        ),
        nametable_index_spec(Mirroring::Horizontal, (0x2800 + i) as u16) == nametable_index_spec(
            Mirroring::Horizontal,
            (0x2c00 + i) as u16,
        ),
        nametable_index_spec(Mirroring::Horizontal, (0x2000 + i) as u16) != nametable_index_spec(
            Mirroring::Horizontal,
            (0x2800 + i) as u16,
        ),
{
}

pub proof fn lemma_palette_index_range(addr: u16)
    requires
        addr >= 0x3f00,
    ensures
        0 <= palette_index_spec(addr) < 0x20,
{
}

/// Every nametable address lands in the 2 KiB of nametable memory.
pub proof fn law_nametable_in_range(mirroring: Mirroring, addr: u16)
    requires
        addr >= 0x2000,
    ensures
        0 <= nametable_index_spec(mirroring, addr) < 0x800,
{
}

/// The register that each CPU address of $2000-$2007 selects.
proof fn lemma_register_numbers()
    ensures
        0x2000u16 & 7 == 0,
        0x2002u16 & 7 == 2,
        0x2003u16 & 7 == 3,
        0x2004u16 & 7 == 4,
        0x2005u16 & 7 == 5,
        0x2006u16 & 7 == 6,
        0x2007u16 & 7 == 7,
{
    assert(0x2000u16 & 7 == 0 && 0x2002u16 & 7 == 2 && 0x2003u16 & 7 == 3 && 0x2004u16 & 7 == 4
        && 0x2005u16 & 7 == 5 && 0x2006u16 & 7 == 6 && 0x2007u16 & 7 == 7) by (bit_vector);
}

/// Two PPUADDR writes (high byte, then low byte, starting with the latch clear)
/// point the data port at that address, and leave the latch clear.
pub proof fn law_ppuaddr_sets_address(p: PpuModel, hi: u8, lo: u8)
    requires
        !p.address_latch,
    ensures
        ({
            let q = write_register_spec(write_register_spec(p, 0x2006, hi), 0x2006, lo);
            &&& q.vram_addr == ((((hi & 0x3f) as u16) << 8u16) | (lo as u16))
            &&& !q.address_latch
        }),
{
    lemma_register_numbers();
    let t = p.temp_addr;
    let t1 = (t & 0x00ff) | (((hi & 0x3f) as u16) << 8u16);
    assert((t1 & 0x7f00) | (lo as u16) == (((hi & 0x3f) as u16) << 8u16) | (lo as u16)) by (bit_vector)
        requires
            t1 == (t & 0x00ff) | (((hi & 0x3f) as u16) << 8u16),
    ;
}

/// A PPUDATA write to a nametable address stores the byte where a PPUDATA read
/// of that address finds it: pointing the port back and reading loads it into
/// the read buffer, which the following read returns.
pub proof fn law_ppudata_write_then_read(p: PpuModel, chr: Seq<u8>, value: u8)
    requires
        render::model_sizes(p),
        0x2000 <= (p.vram_addr & 0x3fff) <= 0x3eff,
    ensures
        ({
            let back = PpuModel { vram_addr: p.vram_addr, ..write_ppudata_spec(p, value) };
            read_ppudata_spec(back, chr).0.read_buffer == value
        }),
{
    law_nametable_in_range(p.mirroring, p.vram_addr & 0x3fff);
}

/// Each PPUDATA read or write moves the data port on by 32 (one nametable row)
/// when PPUCTRL bit 2 is set, and by 1 (one column) when it is clear, wrapping at
/// $FFFF; a PPUCTRL write sets that step for the accesses that follow.
pub proof fn law_ppudata_steps_by_ctrl_bit_2(p: PpuModel, chr: Seq<u8>, ctrl: u8, value: u8)
    requires
        p.registers.len() == 8,
    ensures
        ({
            let step: int = if p.registers[0] & 0x04 != 0 {
                32
            } else {
                1
            };
            &&& write_register_spec(p, 0x2007, value).vram_addr == (p.vram_addr + step) % 0x10000
            &&& read_register_spec(p, chr, 0x2007).0.vram_addr == (p.vram_addr + step) % 0x10000
        }),
        ({
            let q = write_register_spec(write_register_spec(p, 0x2000, ctrl), 0x2007, value);
            &&& q.registers[0] == ctrl
            &&& q.vram_addr == (p.vram_addr + if ctrl & 0x04 != 0 {
                32int
            } else {
                1int
            }) % 0x10000
        }),
{
    lemma_register_numbers();
}

/// Reading PPUSTATUS returns it, then clears the vblank bit and the write latch.
pub proof fn law_status_read(p: PpuModel, chr: Seq<u8>)
    requires
        p.registers.len() == 8,
    ensures
        ({
            let (q, v) = read_register_spec(p, chr, 0x2002);
            &&& v == p.registers[2]
            &&& q.registers[2] & 0x80 == 0
            &&& q.registers[2] & 0x7f == p.registers[2] & 0x7f
            &&& !q.address_latch
            &&& q.vram_addr == p.vram_addr && q.frame_ready == p.frame_ready
        }),
{
    lemma_register_numbers();
    let st = p.registers[2];
    assert((st & 0x7f) & 0x80 == 0 && (st & 0x7f) & 0x7f == st & 0x7f) by (bit_vector);
}

/// OAMADDR then OAMDATA stores the byte at that sprite-memory address and moves
/// the address on by one; reading OAMDATA returns the byte without moving it.
pub proof fn law_oam_address_and_data(p: PpuModel, chr: Seq<u8>, addr: u8, value: u8)
    requires
        p.oam.len() == 0x100,
    ensures
        ({
            let q = write_register_spec(write_register_spec(p, 0x2003, addr), 0x2004, value);
            &&& q.oam[addr as int] == value
            &&& forall|i: int| 0 <= i < 0x100 && i != addr ==> q.oam[i] == p.oam[i]
            &&& q.oam_addr == (addr + 1) % 256
            &&& read_register_spec(q, chr, 0x2004) == (q, q.oam[q.oam_addr as int])
        }),
{
    lemma_register_numbers();
}

/// With the write latch clear, a PPUCTRL write and two PPUSCROLL writes set the
/// scroll: X is the first byte plus 256 when PPUCTRL bit 0 is set, Y the second
/// byte plus 240 when bit 1 is set; the latch ends clear.
pub proof fn law_scroll_writes(p: PpuModel, ctrl: u8, x: u8, y: u8)
    requires
        !p.address_latch,
        p.registers.len() == 8,
    ensures
        ({
            let q = write_register_spec(
                write_register_spec(write_register_spec(p, 0x2000, ctrl), 0x2005, x),
                0x2005,
                y,
            );
            &&& q.scroll_x == (ctrl & 1) * 256 + x
            &&& q.scroll_y == ((ctrl >> 1u8) & 1) * 240 + y
            &&& q.fine_x == x % 8
            &&& !q.address_latch
        }),
{
    lemma_register_numbers();
    let t = p.temp_addr;
    let t0 = (t & !0x0c00u16) | (((ctrl & 0x03) as u16) << 10u16);
    let t1 = (t0 & !0x001fu16) | ((x >> 3u8) as u16);
    let t2 = (t1 & !0x73e0u16) | (((y & 0x07) as u16) << 12u16) | (((y & 0xf8) as u16) << 2u16);
    assert(((t1 >> 10u16) & 0x01) == (ctrl & 1) as u16 && (t1 & 0x001f) == (x >> 3u8) as u16 && (
    t1 & 0x001f) * 8 + (x & 7) as u16 == x as u16 && x & 0x07 == x % 8) by (bit_vector)
        requires
            t0 == (t & !0x0c00u16) | (((ctrl & 0x03) as u16) << 10u16),
            t1 == (t0 & !0x001fu16) | ((x >> 3u8) as u16),
    ;
    assert(((t2 >> 11u16) & 0x01) == ((ctrl >> 1u8) & 1) as u16 && ((t2 >> 5u16) & 0x001f) * 8 + ((
    t2 >> 12u16) & 0x07) == y as u16) by (bit_vector)
        requires
            t0 == (t & !0x0c00u16) | (((ctrl & 0x03) as u16) << 10u16),
            t1 == (t0 & !0x001fu16) | ((x >> 3u8) as u16),
            t2 == (t1 & !0x73e0u16) | (((y & 0x07) as u16) << 12u16) | (((y & 0xf8) as u16) << 2u16),
    ;
}

} // verus!
