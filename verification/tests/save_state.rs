use fc_emu::apu::ApuRegisters;
use fc_emu::bus::{BusState, OamDmaState, CPU_RAM_SIZE};
use fc_emu::cpu::Cpu;
use fc_emu::input::Controller;
use fc_emu::ppu::Ppu;
use fc_emu::rom::Mirroring;
use fc_emu::save_state::{
    save_file_path, save_path_for_rom, validate_slot, validate_state, SaveState, SaveStateError,
    SAVE_VERSION,
};

#[test]
fn save_path_uses_rom_stem_and_slot() {
    let path = save_path_for_rom("rom/Super Mario Bros. (Japan, USA).nes", 2).unwrap();
    assert_eq!(path, "saves/Super Mario Bros. (Japan, USA).slot2.state");
}

#[test]
fn rejects_invalid_slot() {
    assert_eq!(validate_slot(4), Err(SaveStateError::InvalidSlot(4)));
}

fn minimal_state(version: u32, rom_name: &str) -> SaveState {
    SaveState {
        version,
        rom_name: rom_name.to_string(),
        cpu: Cpu::default().snapshot(),
        bus: BusState {
            cpu_ram: vec![0; CPU_RAM_SIZE],
            controller1: Controller::default(),
            oam_dma: OamDmaState::default(),
        },
        ppu: Ppu::new(Mirroring::Horizontal).snapshot(),
        apu: ApuRegisters::new(),
    }
}

#[test]
fn rejects_incompatible_versions() {
    assert!(matches!(
        validate_state(&minimal_state(999, "a.nes"), "a.nes"),
        Err(SaveStateError::IncompatibleVersion { .. })
    ));
}

#[test]
fn rejects_rom_mismatch() {
    assert!(matches!(
        validate_state(&minimal_state(SAVE_VERSION, "a.nes"), "b.nes"),
        Err(SaveStateError::RomMismatch { .. })
    ));
}

#[test]
fn accepts_matching_state_and_checks_version_first() {
    assert_eq!(validate_state(&minimal_state(SAVE_VERSION, "a.nes"), "a.nes"), Ok(()));
    assert_eq!(
        validate_state(&minimal_state(2, "a.nes"), "b.nes"),
        Err(SaveStateError::IncompatibleVersion { expected: 3, actual: 2 })
    );
    assert_eq!(
        validate_state(&minimal_state(SAVE_VERSION, "a.nes"), "b.nes"),
        Err(SaveStateError::RomMismatch {
            expected: "b.nes".to_string(),
            actual: "a.nes".to_string(),
        })
    );
}

#[test]
fn every_slot_from_one_to_three_is_valid() {
    assert_eq!(validate_slot(0), Err(SaveStateError::InvalidSlot(0)));
    for slot in 1..=3 {
        assert_eq!(validate_slot(slot), Ok(()));
    }
    assert_eq!(validate_slot(255), Err(SaveStateError::InvalidSlot(255)));
}

#[test]
fn save_path_takes_the_stem_of_the_last_component() {
    assert_eq!(
        save_path_for_rom("/games/nes/zelda.nes", 1).unwrap(),
        "saves/zelda.slot1.state"
    );
    assert_eq!(
        save_path_for_rom("archive.tar.gz", 3).unwrap(),
        "saves/archive.tar.slot3.state"
    );
    assert_eq!(save_path_for_rom("", 1).unwrap(), "saves/rom.slot1.state");
    assert_eq!(
        save_path_for_rom("game.nes", 0),
        Err(SaveStateError::InvalidSlot(0))
    );
    assert_eq!(save_file_path("x", 2).unwrap(), "saves/x.slot2.state");
}

#[test]
fn save_state_error_messages_read_as_sentences() {
    assert_eq!(
        SaveStateError::InvalidSlot(7).message(),
        "save slot 7 is invalid; use slot 1, 2, or 3"
    );
    assert_eq!(
        SaveStateError::IncompatibleVersion { expected: 3, actual: 12 }.message(),
        "save state version 12 is not compatible with version 3"
    );
    assert_eq!(
        SaveStateError::RomMismatch {
            expected: "b.nes".to_string(),
            actual: "a.nes".to_string()
        }
        .message(),
        "save state belongs to ROM 'a.nes', not 'b.nes'"
    );
    assert_eq!(
        SaveStateError::MissingFile("saves/a.slot1.state".to_string()).message(),
        "save state file 'saves/a.slot1.state' does not exist"
    );
    assert_eq!(
        SaveStateError::Io("disk full".to_string()).message(),
        "save state I/O failed: disk full"
    );
    assert_eq!(
        SaveStateError::Codec("bad tag".to_string()).message(),
        "save state data is invalid: bad tag"
    );
}

#[test]
fn only_whole_states_are_restorable() {
    let state = minimal_state(SAVE_VERSION, "a.nes");
    assert!(state.is_restorable());
    let mut short = state.clone();
    short.ppu.vram.truncate(0x7ff);
    assert!(!short.is_restorable());
    let mut small_frame = state.clone();
    small_frame.ppu.framebuffer.pop();
    assert!(!small_frame.is_restorable());
    let mut late_dot = state;
    late_dot.ppu.dot = 0xffff;
    assert!(!late_dot.is_restorable());
}
