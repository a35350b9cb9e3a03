use fc_emu::{select_rom_path, DEFAULT_ROM_PATH};

#[test]
fn defaults_to_bundled_rom_path() {
    assert_eq!(
        select_rom_path(vec!["fc-emu".to_string()], DEFAULT_ROM_PATH.to_string()),
        DEFAULT_ROM_PATH.to_string()
    );
}

#[test]
fn accepts_explicit_rom_path() {
    assert_eq!(
        select_rom_path(
            vec!["fc-emu".to_string(), "custom.nes".to_string()],
            DEFAULT_ROM_PATH.to_string()
        ),
        "custom.nes"
    );
}
