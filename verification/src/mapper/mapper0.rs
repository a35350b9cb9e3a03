//! Mapper 0 (NROM): fixed PRG ROM at $8000-$FFFF and 8 KiB of CHR ROM or RAM.
use super::Mapper;
use vstd::prelude::*;

verus! {

pub const PRG_ROM_BANK_LEN: usize = 16384;

pub const CHR_BANK_LEN: usize = 8192;

#[derive(Debug, Clone, PartialEq, Eq)]
pub struct Mapper0 {
    prg_rom: Vec<u8>,
    chr: Vec<u8>,
    chr_is_rom: bool,
}

/// The contents of an NROM cartridge.
pub struct Mapper0View {
    pub prg: Seq<u8>,
    pub chr: Seq<u8>,
    pub chr_is_rom: bool,
}

impl View for Mapper0 {
    type V = Mapper0View;

    closed spec fn view(&self) -> Mapper0View {
        Mapper0View { prg: self.prg_rom@, chr: self.chr@, chr_is_rom: self.chr_is_rom }
    }
}

/// Index into PRG ROM for a CPU address: 16 KiB images are mirrored into both halves.
pub open spec fn prg_index(prg_len: nat, addr: u16) -> Option<int> {
    if addr < 0x8000 || prg_len == 0 {
        None
    } else if prg_len <= PRG_ROM_BANK_LEN {
        Some((addr - 0x8000) % (PRG_ROM_BANK_LEN as int))
    } else {
        Some(addr - 0x8000)
    }
}

pub open spec fn prg_read(prg: Seq<u8>, addr: u16) -> Option<u8> {
    match prg_index(prg.len(), addr) {
        Some(i) => if i < prg.len() { Some(prg[i]) } else { None },
        None => None,
    }
}

pub open spec fn chr_read(chr: Seq<u8>, addr: u16) -> Option<u8> {
    if addr <= 0x1fff && addr < chr.len() {
        Some(chr[addr as int])
    } else {
        None
    }
}

/// The cartridge after a picture-unit write to `addr`: CHR RAM takes the byte,
/// CHR ROM and addresses above $1FFF ignore it.
pub open spec fn chr_write_spec(m: Mapper0View, addr: u16, value: u8) -> Mapper0View {
    if addr > 0x1fff || m.chr_is_rom {
        m
    } else {
        Mapper0View { prg: m.prg, chr: m.chr.update(addr as int, value), chr_is_rom: m.chr_is_rom }
    }
}

/// A 16 KiB program ROM answers at $8000-$BFFF and again at $C000-$FFFF.
pub proof fn law_prg_16kb_mirrors(prg: Seq<u8>, addr: u16)
    requires
        prg.len() == PRG_ROM_BANK_LEN,
        0x8000 <= addr < 0xc000,
    ensures
        prg_read(prg, addr) == prg_read(prg, (addr + 0x4000) as u16),
        prg_read(prg, addr) == Some(prg[addr - 0x8000]),
{
}

/// A 32 KiB program ROM answers at $8000-$FFFF byte for byte.
pub proof fn law_prg_32kb_direct(prg: Seq<u8>, addr: u16)
    requires
        prg.len() == 2 * PRG_ROM_BANK_LEN,
        0x8000 <= addr,
    ensures
        prg_read(prg, addr) == Some(prg[addr - 0x8000]),
{
}

impl Mapper0 {
    /// The cartridge that `new` builds: an empty CHR becomes 8 KiB of zeroed CHR memory.
    pub open spec fn new_spec(prg: Seq<u8>, chr: Seq<u8>, chr_is_rom: bool) -> Mapper0View {
        Mapper0View {
            prg,
            chr: if chr.len() == 0 { Seq::new(CHR_BANK_LEN as nat, |i: int| 0u8) } else { chr },
            chr_is_rom,
        }
    }

    /// CHR is read-only exactly when the image brought CHR banks.
    pub open spec fn from_rom_data_spec(prg: Seq<u8>, chr: Seq<u8>) -> Mapper0View {
        Self::new_spec(prg, chr, chr.len() != 0)
    }

    pub fn new(prg_rom: Vec<u8>, chr: Vec<u8>, chr_is_rom: bool) -> (m: Self)
        ensures
            m@ == Self::new_spec(prg_rom@, chr@, chr_is_rom),
    {
        let chr = if chr.len() == 0 {
            let mut zeros: Vec<u8> = Vec::new();
            let mut i: usize = 0;
            while i < CHR_BANK_LEN
                invariant
                    i <= CHR_BANK_LEN,
                    zeros@ == Seq::new(i as nat, |k: int| 0u8),
                decreases CHR_BANK_LEN - i,
            {
                zeros.push(0);
                i = i + 1;
            }
            zeros
        } else {
            chr
        };
        let m = Mapper0 { prg_rom, chr, chr_is_rom };
        assert(m@.chr =~= Self::new_spec(m@.prg, chr@, chr_is_rom).chr);
        m
    }

    pub fn from_rom_data(prg_rom: Vec<u8>, chr_rom: Vec<u8>) -> (m: Self)
        ensures
            m@ == Self::from_rom_data_spec(prg_rom@, chr_rom@),
    {
        let chr_is_rom = chr_rom.len() != 0;
        Self::new(prg_rom, chr_rom, chr_is_rom)
    }

    fn prg_index(&self, addr: u16) -> (r: Option<usize>)
        ensures
            r matches Some(i) ==> prg_index(self@.prg.len(), addr) == Some(i as int),
            r is None ==> prg_index(self@.prg.len(), addr) is None,
    {
        if addr < 0x8000 || self.prg_rom.len() == 0 {
            return None;
        }
        let offset = (addr - 0x8000) as usize;
        Some(
            if self.prg_rom.len() <= PRG_ROM_BANK_LEN {
                offset % PRG_ROM_BANK_LEN
            } else {
                offset
            },
        )
    }

    /// Reads one byte of CHR memory, for the picture unit.
    pub fn chr_byte(&self, addr: u16) -> (r: Option<u8>)
        ensures
            r == chr_read(self@.chr, addr),
    {
        if addr <= 0x1fff && (addr as usize) < self.chr.len() {
            Some(self.chr[addr as usize])
        } else {
            None
        }
    }
}

impl Mapper for Mapper0 {
    open spec fn cpu_read_spec(&self, addr: u16) -> Option<u8> {
        prg_read(self@.prg, addr)
    }

    open spec fn cpu_write_ensures(
        before: Self,
        after: Self,
        addr: u16,
        value: u8,
        claimed: bool,
    ) -> bool {
        after@ == before@ && claimed == (addr >= 0x8000)
    }

    open spec fn ppu_read_spec(&self, addr: u16) -> Option<u8> {
        chr_read(self@.chr, addr)
    }

    /// A write to CHR RAM needs the address to lie inside the CHR memory.
    open spec fn ppu_write_allowed(&self, addr: u16) -> bool {
        addr > 0x1fff || self@.chr_is_rom || addr < self@.chr.len()
    }

    open spec fn ppu_write_ensures(
        before: Self,
        after: Self,
        addr: u16,
        value: u8,
        stored: bool,
    ) -> bool {
        &&& after@ == chr_write_spec(before@, addr, value)
        &&& stored == (addr <= 0x1fff && !before@.chr_is_rom)
    }

    fn cpu_read(&self, addr: u16) -> (r: Option<u8>) {
        match self.prg_index(addr) {
            Some(index) => if index < self.prg_rom.len() {
                Some(self.prg_rom[index])
            } else {
                None
            },
            None => None,
        }
    }

    fn cpu_write(&mut self, addr: u16, value: u8) -> (r: bool) {
        addr >= 0x8000
    }

    fn ppu_read(&self, addr: u16) -> (r: Option<u8>) {
        self.chr_byte(addr)
    }

    fn ppu_write(&mut self, addr: u16, value: u8) -> (r: bool) {
        if addr > 0x1fff || self.chr_is_rom {
            return false;
        }
        self.chr.set(addr as usize, value);
        true
    }
}

} // verus!
