use fc_emu::apu::{length_counter_load, noise_shift_step, ApuRegisters, Channel};

#[test]
fn status_register_controls_enabled_channels() {
    let mut apu = ApuRegisters::new();
    apu.cpu_write_register(0x4015, 0b1_1111);
    assert_eq!(apu.cpu_read_register(0x4015), 0b1_1111);
}

#[test]
fn writing_the_high_timer_register_loads_the_length_counter() {
    let mut apu = ApuRegisters::new();
    apu.cpu_write_register(0x4015, 0x01);
    apu.cpu_write_register(0x4003, 0x08);
    assert_eq!(apu.length_counters()[0], length_counter_load(0x08));
    assert_eq!(length_counter_load(0x08), 254);
    apu.cpu_write_register(0x4015, 0x00);
    assert_eq!(apu.length_counters()[0], 0);
}

#[test]
fn enable_masks_are_one_bit_per_channel() {
    assert_eq!(Channel::Pulse1.enable_mask(), 0x01);
    assert_eq!(Channel::Pulse2.enable_mask(), 0x02);
    assert_eq!(Channel::Triangle.enable_mask(), 0x04);
    assert_eq!(Channel::Noise.enable_mask(), 0x08);
    assert_eq!(Channel::Dmc.enable_mask(), 0x10);
}

#[test]
fn loading_saved_registers_rebuilds_zeroed_counters_of_enabled_channels() {
    let mut registers = [0u8; 0x18];
    registers[3] = 0x08;
    let apu = ApuRegisters::from_parts(registers, 0x01, [0; 4]);
    assert_eq!(apu.length_counters(), [254, 0, 0, 0]);
    let kept = ApuRegisters::from_parts(registers, 0x01, [5, 0, 0, 0]);
    assert_eq!(kept.length_counters(), [5, 0, 0, 0]);
}

#[test]
fn noise_register_feeds_bit_zero_xor_tap_into_bit_fourteen() {

    assert_eq!(noise_shift_step(1, false), 0x4000);
    assert_eq!(noise_shift_step(0b11, false), 0b1);
    assert_eq!(noise_shift_step(0b100_0001, true), 0b10_0000);
    assert_eq!(noise_shift_step(0b000_0001, true), 0x4000);
}
