use fc_emu::apu::ApuEvent;
use fc_emu::emulator::Emulator;
use fc_emu::frame_dump::{apply_play_script, ppm_image};
use fc_emu::input::Button;
use fc_emu::ppu::FRAMEBUFFER_SIZE;
use fc_emu::rom::{Mirroring, Rom};

fn synthetic_rom() -> Rom {
    let mut prg = vec![0xea; 0x8000];
    prg[0x7ffc] = 0x00;
    prg[0x7ffd] = 0x80;
    Rom {
        prg_rom: prg,
        chr_rom: vec![0; 0x2000],
        mapper: 0,
        mirroring: Mirroring::Horizontal,
        prg_banks: 2,
        chr_banks: 1,
        has_trainer: false,
    }
}

#[test]
fn creates_emulator_from_synthetic_rom() {
    let mut emulator = Emulator::new(synthetic_rom(), "test.nes".to_string()).unwrap();
    emulator.step_frame();
    assert_eq!(emulator.frame_buffer().len(), FRAMEBUFFER_SIZE);
}

#[test]
fn saves_restores_and_continues() {
    let mut emulator = Emulator::new(synthetic_rom(), "test.nes".to_string()).unwrap();
    emulator.step_frame();
    let state = emulator.save_state();
    emulator.step_frame();
    emulator.load_state(&state);
    emulator.step_frame();
    assert_eq!(emulator.frame_buffer().len(), FRAMEBUFFER_SIZE);
}

#[test]
fn rejects_unsupported_mapper_with_message() {
    let mut rom = synthetic_rom();
    rom.mapper = 2;
    match Emulator::new(rom, "x.nes".to_string()) {
        Err(message) => assert_eq!(message, "mapper 2 is not supported in the first stage"),
        Ok(_) => panic!("mapper 2 must be refused"),
    }
}

#[test]
fn new_machine_starts_at_the_reset_vector() {
    let mut rom = synthetic_rom();
    rom.prg_rom[0x7ffc] = 0x34;
    rom.prg_rom[0x7ffd] = 0x92;
    let emulator = Emulator::new(rom, "t.nes".to_string()).unwrap();
    let cpu = emulator.cpu_state();
    assert_eq!(cpu.pc, 0x9234);
    assert_eq!(cpu.sp, 0xfd);
    assert_eq!(cpu.cycles, 7);
    assert!(!cpu.stopped);
}

#[test]
fn loading_a_saved_state_gives_back_the_machine() {
    let mut emulator = Emulator::new(synthetic_rom(), "test.nes".to_string()).unwrap();
    emulator.step_frame();
    emulator.set_button(Button::B, true);
    let state = emulator.save_state();
    assert_eq!(state.rom_name, "test.nes");
    let frame = emulator.frame_buffer().to_vec();
    emulator.step_frame();
    emulator.set_button(Button::B, false);
    emulator.load_state(&state);
    assert_eq!(emulator.save_state(), state);
    assert_eq!(emulator.frame_buffer(), frame.as_slice());
}

#[test]
fn a_frame_step_runs_at_most_the_cycle_limit() {
    let mut emulator = Emulator::new(synthetic_rom(), "test.nes".to_string()).unwrap();
    let before = emulator.cpu_state().cycles;
    emulator.step_frame();
    let after = emulator.cpu_state().cycles;
    assert!(after > before);
    assert!(after - before <= 45_000 + 7);
}

#[test]
fn audio_events_are_handed_out_once() {
    let mut prg = vec![0xea; 0x8000];
    // LDA #$01; STA $4015; then NOPs
    prg[0] = 0xa9;
    prg[1] = 0x01;
    prg[2] = 0x8d;
    prg[3] = 0x15;
    prg[4] = 0x40;
    prg[0x7ffc] = 0x00;
    prg[0x7ffd] = 0x80;
    let mut rom = synthetic_rom();
    rom.prg_rom = prg;
    let mut emulator = Emulator::new(rom, "t.nes".to_string()).unwrap();
    emulator.step_frame();
    let events = emulator.drain_apu_events();
    assert_eq!(events[0], ApuEvent::Write { addr: 0x4015, value: 0x01 });
    assert!(events.len() > 1);
    assert!(emulator.drain_apu_events().is_empty());
}

#[test]
fn play_script_presses_and_releases_buttons_on_its_frames() {

    let mut emulator = Emulator::new(synthetic_rom(), "test.nes".to_string()).unwrap();
    apply_play_script(&mut emulator, 90);
    let state = emulator.save_state();
    assert!(state.bus.controller1.is_pressed(Button::Start));
    apply_play_script(&mut emulator, 98);
    apply_play_script(&mut emulator, 170);
    let state = emulator.save_state();
    assert!(!state.bus.controller1.is_pressed(Button::Start));
    assert!(state.bus.controller1.is_pressed(Button::Right));
    assert!(state.bus.controller1.is_pressed(Button::B));
    apply_play_script(&mut emulator, 171);
    apply_play_script(&mut emulator, 420);
    let state = emulator.save_state();
    assert_eq!(state.bus.controller1.buttons(), 0);
}

#[test]
fn ppm_image_keeps_rgb_and_drops_alpha() {

    let image = ppm_image(&[1, 2, 3, 255, 4, 5, 6, 255, 9]);
    assert_eq!(&image[..15], b"P6\n256 240\n255\n");
    assert_eq!(&image[15..], &[1, 2, 3, 4, 5, 6]);
}
