use fc_emu::apu::{ApuEvent, ApuRegisters};
use fc_emu::bus::{Bus, OAM_DMA_SIZE};
use fc_emu::input::{Button, Controller};
use fc_emu::mapper::mapper0::Mapper0;
use fc_emu::ppu::Ppu;
use fc_emu::rom::Mirroring;

fn test_bus() -> Bus {
    let mapper = Mapper0::new(vec![0; 0x8000], vec![0; 0x2000], true);
    Bus::new(
        Ppu::new(Mirroring::Horizontal),
        ApuRegisters::new(),
        Controller::new(),
        mapper,
    )
}

fn bus_with_prg(prg: Vec<u8>) -> Bus {
    let mapper = Mapper0::new(prg, vec![0; 0x2000], true);
    Bus::new(
        Ppu::new(Mirroring::Horizontal),
        ApuRegisters::new(),
        Controller::new(),
        mapper,
    )
}

#[test]
fn mirrors_cpu_ram_every_2kb_until_0x1fff() {
    let mut bus = test_bus();

    bus.cpu_write(0x0002, 0x11);
    assert_eq!(bus.cpu_read(0x0002), 0x11);
    assert_eq!(bus.cpu_read(0x0802), 0x11);
    assert_eq!(bus.cpu_read(0x1002), 0x11);
    assert_eq!(bus.cpu_read(0x1802), 0x11);

    bus.cpu_write(0x1FFF, 0xFE);
    assert_eq!(bus.cpu_read(0x07FF), 0xFE);
}

#[test]
fn mirrors_ppu_registers_to_canonical_addresses() {
    let mut bus = test_bus();

    bus.cpu_write(0x2003, 0x44);
    bus.cpu_write(0x2004, 0xAB);
    bus.cpu_write(0x3FFB, 0x44);
    assert_eq!(bus.cpu_read(0x3FFC), 0xAB);
}

#[test]
fn forwards_mapper_addresses_from_0x4020_to_0xffff() {
    let mut prg = vec![0; 0x8000];
    prg[0] = 0x80;
    prg[0x3FFF] = 0xBF;
    prg[0x4000] = 0xC0;
    prg[0x7FFF] = 0xFF;
    let mut bus = bus_with_prg(prg);

    assert_eq!(bus.cpu_read(0x8000), 0x80);
    assert_eq!(bus.cpu_read(0xBFFF), 0xBF);
    assert_eq!(bus.cpu_read(0xC000), 0xC0);
    assert_eq!(bus.cpu_read(0xFFFF), 0xFF);
}

#[test]
fn routes_controller_strobe_and_reads_controller_one() {
    let mut bus = test_bus();
    bus.controller_mut().set_button(Button::A, true);
    bus.controller_mut().set_button(Button::Start, true);

    bus.cpu_write(0x4016, 1);
    bus.cpu_write(0x4016, 0);

    assert_eq!(bus.cpu_read(0x4016), 1);
    assert_eq!(bus.cpu_read(0x4016), 0);
    assert_eq!(bus.cpu_read(0x4016), 0);
    assert_eq!(bus.cpu_read(0x4016), 1);
}

#[test]
fn routes_apu_status_and_frame_counter() {
    let mut bus = test_bus();

    bus.cpu_write(0x4000, 0x30);
    bus.cpu_write(0x4015, 0x0F);
    bus.cpu_write(0x4017, 0x80);

    assert_eq!(bus.cpu_read(0x4015), 0x0F);
    assert_eq!(bus.cpu_read(0x4017), 0);
}

#[test]
fn performs_oam_dma_from_cpu_page() {
    let mut bus = test_bus();

    for offset in 0..OAM_DMA_SIZE {
        bus.cpu_write(0x0200 + offset as u16, offset as u8);
    }

    bus.cpu_write(0x4014, 0x02);

    assert_eq!(bus.oam_dma_state().last_page, Some(0x02));
    bus.cpu_write(0x2003, 0x00);
    assert_eq!(bus.cpu_read(0x2004), 0x00);
    bus.cpu_write(0x2003, 0x7F);
    assert_eq!(bus.cpu_read(0x2004), 0x7F);
    bus.cpu_write(0x2003, 0xFF);
    assert_eq!(bus.cpu_read(0x2004), 0xFF);
}

#[test]
fn snapshots_and_restores_ram_controller_and_devices() {
    let mut bus = test_bus();
    bus.cpu_write(0x0001, 0xAA);
    bus.controller_mut().set_button(Button::Right, true);
    let bus_state = bus.snapshot();
    let ppu_state = bus.ppu_snapshot();
    let apu_state = bus.apu_snapshot();

    bus.cpu_write(0x0001, 0x55);
    bus.controller_mut().set_button(Button::Right, false);
    bus.restore(&bus_state, &ppu_state, &apu_state);

    assert_eq!(bus.cpu_read(0x0001), 0xAA);
    bus.cpu_write(0x4016, 1);
    assert_eq!(bus.cpu_read(0x4016), 0);
}

#[test]
fn records_audio_writes_and_clocks_for_the_synthesizer() {
    let mut bus = test_bus();
    bus.step(4);
    assert!(bus.drain_apu_events().is_empty());

    bus.cpu_write(0x4015, 0x01);
    bus.step(3);
    assert_eq!(
        bus.drain_apu_events(),
        vec![
            ApuEvent::Write { addr: 0x4015, value: 0x01 },
            ApuEvent::Clock { cycles: 3 }
        ]
    );
    assert!(bus.drain_apu_events().is_empty());
}

#[test]
fn cartridge_bytes_outside_the_image_read_as_zero() {
    let mut bus = bus_with_prg(vec![0x42; 0x4000]);
    assert_eq!(bus.cpu_read(0x4020), 0);
    assert_eq!(bus.cpu_read(0x6000), 0);
    assert_eq!(bus.cpu_read(0xC123), 0x42);
    bus.cpu_write(0x8000, 0x99);
    assert_eq!(bus.cpu_read(0x8000), 0x42);
}

#[test]
fn restore_pads_short_ram_with_zeros() {
    let mut bus = test_bus();
    bus.cpu_write(0x0010, 0x33);
    bus.cpu_write(0x0400, 0x44);
    let mut bus_state = bus.snapshot();
    bus_state.cpu_ram.truncate(0x100);
    let ppu_state = bus.ppu_snapshot();
    let apu_state = bus.apu_snapshot();
    bus.restore(&bus_state, &ppu_state, &apu_state);
    assert_eq!(bus.cpu_read(0x0010), 0x33);
    assert_eq!(bus.cpu_read(0x0400), 0);
    assert_eq!(bus.cpu_ram().len(), 0x800);
}

#[test]
fn ram_value_survives_unrelated_operations() {
    let mut bus = test_bus();
    bus.cpu_write(0x0123, 0x5a);
    bus.cpu_write(0x0124, 0x01);
    bus.cpu_write(0x2000, 0x80);
    bus.cpu_write(0x4014, 0x01);
    bus.cpu_write(0x4015, 0x0f);
    bus.step(7);
    let _ = bus.cpu_read(0x2002);
    assert_eq!(bus.cpu_read(0x0923), 0x5a);
    assert_eq!(bus.cpu_read(0x1123), 0x5a);
    assert_eq!(bus.cpu_read(0x1923), 0x5a);
    bus.cpu_write(0x1923, 0x66);
    assert_eq!(bus.cpu_read(0x0123), 0x66);
}
