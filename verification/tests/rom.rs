use fc_emu::rom::{
    Mirroring, Rom, RomError, CHR_ROM_BANK_LEN, HEADER_LEN, PRG_ROM_BANK_LEN, TRAINER_LEN,
};

fn ines_bytes(prg_banks: u8, chr_banks: u8, flags6: u8, flags7: u8) -> Vec<u8> {
    let mut bytes = vec![0; HEADER_LEN];
    bytes[0..4].copy_from_slice(b"NES\x1A");
    bytes[4] = prg_banks;
    bytes[5] = chr_banks;
    bytes[6] = flags6;
    bytes[7] = flags7;

    if flags6 & 0b0100 != 0 {
        bytes.extend(vec![0xEE; TRAINER_LEN]);
    }

    bytes.extend((0..prg_banks as usize * PRG_ROM_BANK_LEN).map(|i| i as u8));
    bytes.extend((0..chr_banks as usize * CHR_ROM_BANK_LEN).map(|i| (i as u8).wrapping_add(1)));
    bytes
}

#[test]
fn parses_valid_ines_magic() {
    let rom = Rom::from_bytes(&ines_bytes(1, 1, 0, 0)).unwrap();

    assert_eq!(rom.mapper, 0);
}

#[test]
fn rejects_invalid_magic() {
    let mut bytes = ines_bytes(1, 1, 0, 0);
    bytes[0..4].copy_from_slice(b"NOPE");

    assert!(matches!(
        Rom::from_bytes(&bytes),
        Err(RomError::InvalidMagic { .. })
    ));
}

#[test]
fn parses_prg_and_chr_sizes() {
    let rom = Rom::from_bytes(&ines_bytes(2, 1, 0, 0)).unwrap();

    assert_eq!(rom.prg_banks, 2);
    assert_eq!(rom.chr_banks, 1);
    assert_eq!(rom.prg_rom.len(), 2 * PRG_ROM_BANK_LEN);
    assert_eq!(rom.chr_rom.len(), CHR_ROM_BANK_LEN);
}

#[test]
fn parses_mapper_number_from_header_nibbles() {
    let bytes = ines_bytes(1, 1, 0b0001_0000, 0);

    assert!(matches!(
        Rom::from_bytes(&bytes),
        Err(RomError::UnsupportedMapper(1))
    ));
}

#[test]
fn parses_mirroring() {
    assert_eq!(
        Rom::from_bytes(&ines_bytes(1, 1, 0, 0)).unwrap().mirroring,
        Mirroring::Horizontal
    );
    assert_eq!(
        Rom::from_bytes(&ines_bytes(1, 1, 0b0001, 0))
            .unwrap()
            .mirroring,
        Mirroring::Vertical
    );
    assert_eq!(
        Rom::from_bytes(&ines_bytes(1, 1, 0b1000, 0))
            .unwrap()
            .mirroring,
        Mirroring::FourScreen
    );
}

#[test]
fn skips_trainer_before_prg_rom() {
    let rom = Rom::from_bytes(&ines_bytes(1, 1, 0b0100, 0)).unwrap();

    assert!(rom.has_trainer);
    assert_eq!(rom.prg_rom[0], 0);
    assert_eq!(rom.prg_rom[1], 1);
    assert_eq!(rom.chr_rom[0], 1);
}

#[test]
fn rejects_images_shorter_than_a_header() {
    let err = Rom::from_bytes(&[0x4e, 0x45, 0x53]).unwrap_err();
    assert_eq!(err, RomError::FileTooSmall { len: 3 });
    assert_eq!(
        err.message(),
        "ROM is too small to contain an iNES header: 3 bytes"
    );
}

#[test]
fn reports_which_section_is_truncated() {
    let mut trainer = ines_bytes(1, 1, 0b0100, 0);
    trainer.truncate(HEADER_LEN + 100);
    assert_eq!(
        Rom::from_bytes(&trainer).unwrap_err(),
        RomError::Truncated {
            section: "trainer",
            expected_at_least: HEADER_LEN + TRAINER_LEN,
            actual: HEADER_LEN + 100,
        }
    );

    let mut prg = ines_bytes(1, 1, 0, 0);
    prg.truncate(HEADER_LEN + 10);
    let err = Rom::from_bytes(&prg).unwrap_err();
    assert_eq!(
        err,
        RomError::Truncated {
            section: "PRG ROM",
            expected_at_least: HEADER_LEN + PRG_ROM_BANK_LEN,
            actual: HEADER_LEN + 10,
        }
    );
    assert_eq!(
        err.message(),
        "ROM is truncated while reading PRG ROM: expected at least 16400 bytes, got 26"
    );

    let mut chr = ines_bytes(1, 1, 0, 0);
    chr.pop();
    assert_eq!(
        Rom::from_bytes(&chr).unwrap_err(),
        RomError::Truncated {
            section: "CHR ROM",
            expected_at_least: HEADER_LEN + PRG_ROM_BANK_LEN + CHR_ROM_BANK_LEN,
            actual: HEADER_LEN + PRG_ROM_BANK_LEN + CHR_ROM_BANK_LEN - 1,
        }
    );
}

#[test]
fn rom_error_messages_read_as_sentences() {
    let mut bytes = ines_bytes(1, 1, 0, 0);
    bytes[0..4].copy_from_slice(b"NOPE");
    assert_eq!(
        Rom::from_bytes(&bytes).unwrap_err().message(),
        "invalid iNES magic: expected NES<EOF>, got [4E, 4F, 50, 45]"
    );
    assert_eq!(
        RomError::UnsupportedMapper(12).message(),
        "mapper 12 is not supported in the first stage"
    );
    assert_eq!(
        RomError::Io("no such file".to_string()).message(),
        "failed to read ROM: no such file"
    );
}

#[test]
fn rom_without_chr_banks_parses_with_empty_chr() {
    let rom = Rom::from_bytes(&ines_bytes(2, 0, 0, 0)).unwrap();
    assert!(rom.chr_rom.is_empty());
    assert_eq!(rom.prg_rom.len(), 2 * PRG_ROM_BANK_LEN);
    assert_eq!(rom.prg_rom[PRG_ROM_BANK_LEN], 0);
}
