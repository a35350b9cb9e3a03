//! Cartridge mappers: how CPU and PPU addresses reach cartridge memory.
pub mod mapper0;

use crate::rom::Rom;
use crate::text::{decimal, push_decimal};
use mapper0::Mapper0;
use vstd::prelude::*;
use vstd::string::StringExecFns;

verus! {

/// Cartridge hardware seen from the CPU ($4020-$FFFF) and the PPU ($0000-$1FFF).
pub trait Mapper: Sized {
    /// What a CPU read of `addr` returns, `None` when the cartridge does not answer.
    spec fn cpu_read_spec(&self, addr: u16) -> Option<u8>;

    /// How a CPU write of `value` to `addr` changes the cartridge, and whether it claimed the address.
    spec fn cpu_write_ensures(before: Self, after: Self, addr: u16, value: u8, claimed: bool) -> bool;

    /// What a PPU read of `addr` returns, `None` when the cartridge does not answer.
    spec fn ppu_read_spec(&self, addr: u16) -> Option<u8>;

    /// Whether a PPU write of `addr` can be carried out.
    spec fn ppu_write_allowed(&self, addr: u16) -> bool;

    /// How a PPU write of `value` to `addr` changes the cartridge, and whether it was stored.
    spec fn ppu_write_ensures(before: Self, after: Self, addr: u16, value: u8, stored: bool) -> bool;

    fn cpu_read(&self, addr: u16) -> (r: Option<u8>)
        ensures
            r == self.cpu_read_spec(addr),
    ;

    fn cpu_write(&mut self, addr: u16, value: u8) -> (r: bool)
        ensures
            Self::cpu_write_ensures(*old(self), *final(self), addr, value, r),
    ;

    fn ppu_read(&self, addr: u16) -> (r: Option<u8>)
        ensures
            r == self.ppu_read_spec(addr),
    ;

    fn ppu_write(&mut self, addr: u16, value: u8) -> (r: bool)
        requires
            old(self).ppu_write_allowed(addr),
        ensures
            Self::ppu_write_ensures(*old(self), *final(self), addr, value, r),
    ;
}

#[derive(Debug, Clone, Copy, PartialEq, Eq, Structural)]
pub enum MapperError {
    UnsupportedMapper(u8),
}

/// The message for a cartridge that names an unsupported mapper.
pub open spec fn unsupported_mapper_text(mapper: u8) -> Seq<char> {
    "mapper "@ + decimal(mapper as nat) + " is not supported in the first stage"@
}

impl MapperError {
    /// The error as a sentence for the user.
    pub fn message(&self) -> (r: String)
        ensures
            r@ == match self {
                MapperError::UnsupportedMapper(m) => unsupported_mapper_text(*m),
            },
    {
        match self {
            MapperError::UnsupportedMapper(m) => {
                let mut s = String::from_str("mapper ");
                push_decimal(&mut s, *m as u64);
                s.append(" is not supported in the first stage");
                s
            },
        }
    }
}

/// Builds the mapper that a cartridge names; only mapper 0 (NROM) is supported.
pub fn from_rom(rom: Rom) -> (r: Result<Mapper0, MapperError>)
    ensures
        r is Ok <==> rom.mapper == 0,
        r matches Ok(m) ==> m@ == Mapper0::from_rom_data_spec(rom.prg_rom@, rom.chr_rom@),
        r matches Err(e) ==> e == MapperError::UnsupportedMapper(rom.mapper),
{
    if rom.mapper == 0 {
        Ok(Mapper0::from_rom_data(rom.prg_rom, rom.chr_rom))
    } else {
        Err(MapperError::UnsupportedMapper(rom.mapper))
    }
}

/// Builds the mapper for a cartridge that the caller keeps.
pub fn create_mapper(rom: &Rom) -> (r: Result<Mapper0, MapperError>)
    ensures
        r is Ok <==> rom.mapper == 0,
        r matches Ok(m) ==> m@ == Mapper0::from_rom_data_spec(rom.prg_rom@, rom.chr_rom@),
        r matches Err(e) ==> e == MapperError::UnsupportedMapper(rom.mapper),
{
    let copy = Rom {
        prg_rom: vstd::slice::slice_to_vec(rom.prg_rom.as_slice()),
        chr_rom: vstd::slice::slice_to_vec(rom.chr_rom.as_slice()),
        mapper: rom.mapper,
        prg_banks: rom.prg_banks,
        chr_banks: rom.chr_banks,
        mirroring: rom.mirroring,
        has_trainer: rom.has_trainer,
    };
    from_rom(copy)
}

} // verus!
