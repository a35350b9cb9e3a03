use fc_emu::mapper::mapper0::{Mapper0, CHR_BANK_LEN, PRG_ROM_BANK_LEN};
use fc_emu::mapper::{create_mapper, from_rom, Mapper, MapperError};
use fc_emu::rom::{Mirroring, Rom};

fn mapper_with_prg(prg_len: usize) -> Mapper0 {
    let prg_rom = (0..prg_len).map(|i| (i / 1024) as u8).collect();
    let chr_rom = (0..CHR_BANK_LEN).map(|i| (i % 251) as u8).collect();
    Mapper0::new(prg_rom, chr_rom, true)
}

#[test]
fn mirrors_16kb_prg_rom() {
    let mapper = mapper_with_prg(PRG_ROM_BANK_LEN);

    assert_eq!(mapper.cpu_read(0x8000), mapper.cpu_read(0xC000));
    assert_eq!(mapper.cpu_read(0xBFFF), mapper.cpu_read(0xFFFF));
}

#[test]
fn maps_32kb_prg_rom_directly() {
    let mapper = mapper_with_prg(2 * PRG_ROM_BANK_LEN);

    assert_eq!(mapper.cpu_read(0x8000), Some(0));
    assert_eq!(mapper.cpu_read(0xC000), Some(16));
    assert_ne!(mapper.cpu_read(0x8000), mapper.cpu_read(0xC000));
}

#[test]
fn maps_ppu_chr_reads() {
    let mapper = mapper_with_prg(PRG_ROM_BANK_LEN);

    assert_eq!(mapper.ppu_read(0x0000), Some(0));
    assert_eq!(mapper.ppu_read(0x0001), Some(1));
    assert_eq!(mapper.ppu_read(0x1FFF), Some((8191 % 251) as u8));
}

#[test]
fn returns_none_or_false_outside_cartridge_space() {
    let mut mapper = mapper_with_prg(PRG_ROM_BANK_LEN);

    assert_eq!(mapper.cpu_read(0x7FFF), None);
    assert!(!mapper.cpu_write(0x7FFF, 0xAA));
    assert_eq!(mapper.ppu_read(0x2000), None);
    assert!(!mapper.ppu_write(0x2000, 0xAA));
}

#[test]
fn treats_chr_rom_as_read_only() {
    let mut mapper = mapper_with_prg(PRG_ROM_BANK_LEN);

    assert!(!mapper.ppu_write(0x0000, 0xAA));
    assert_eq!(mapper.ppu_read(0x0000), Some(0));
}

#[test]
fn supports_chr_ram_when_rom_has_no_chr_banks() {
    let mut mapper = Mapper0::new(vec![0; PRG_ROM_BANK_LEN], Vec::new(), false);

    assert!(mapper.ppu_write(0x0000, 0xAA));
    assert_eq!(mapper.ppu_read(0x0000), Some(0xAA));
}

fn rom_with_mapper(mapper: u8) -> Rom {
    Rom {
        prg_rom: vec![0; 16 * 1024],
        chr_rom: vec![0; 8 * 1024],
        mapper,
        prg_banks: 1,
        chr_banks: 1,
        mirroring: Mirroring::Horizontal,
        has_trainer: false,
    }
}

#[test]
fn creates_mapper0_for_nrom() {
    assert!(from_rom(rom_with_mapper(0)).is_ok());
}

#[test]
fn rejects_unsupported_mapper() {
    match from_rom(rom_with_mapper(1)) {
        Err(error) => assert_eq!(error, MapperError::UnsupportedMapper(1)),
        Ok(_) => panic!("expected mapper 1 to be rejected"),
    }
}

#[test]
fn create_mapper_keeps_the_rom_and_reads_its_prg() {
    let mut rom = rom_with_mapper(0);
    rom.prg_rom[0x10] = 0x5a;
    let mapper = create_mapper(&rom).unwrap();
    assert_eq!(mapper.cpu_read(0x8010), Some(0x5a));
    assert_eq!(mapper.cpu_read(0xC010), Some(0x5a));
    assert_eq!(rom.prg_rom[0x10], 0x5a);
    assert!(create_mapper(&rom_with_mapper(4)).is_err());
}

#[test]
fn unsupported_mapper_message_names_the_mapper() {
    assert_eq!(
        MapperError::UnsupportedMapper(4).message(),
        "mapper 4 is not supported in the first stage"
    );
    assert_eq!(
        MapperError::UnsupportedMapper(255).message(),
        "mapper 255 is not supported in the first stage"
    );
}

#[test]
fn empty_chr_becomes_eight_kib_of_chr_ram() {
    let mut mapper = Mapper0::from_rom_data(vec![0; PRG_ROM_BANK_LEN], Vec::new());
    assert_eq!(mapper.ppu_read(0x1FFF), Some(0));
    assert!(mapper.ppu_write(0x1FFF, 7));
    assert_eq!(mapper.ppu_read(0x1FFF), Some(7));
    assert!(mapper.cpu_write(0x8000, 1));
    assert_eq!(mapper.cpu_read(0x8000), Some(0));
}
