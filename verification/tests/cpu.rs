use fc_emu::apu::ApuRegisters;
use fc_emu::bus::Bus;
use fc_emu::cpu::status;
use fc_emu::cpu::{Cpu, InterruptRequest};
use fc_emu::input::Controller;
use fc_emu::mapper::mapper0::Mapper0;
use fc_emu::ppu::Ppu;
use fc_emu::rom::Mirroring;

fn test_bus(program: &[u8]) -> Bus {
    let mut prg = vec![0xea; 0x8000];
    prg[..program.len()].copy_from_slice(program);
    prg[0x7ffc] = 0x00;
    prg[0x7ffd] = 0x80;
    bus_with_prg(prg)
}

fn bus_with_prg(prg: Vec<u8>) -> Bus {
    Bus::new(
        Ppu::new(Mirroring::Horizontal),
        ApuRegisters::new(),
        Controller::new(),
        Mapper0::new(prg, vec![0; 0x2000], true),
    )
}

#[test]
fn reset_reads_vector() {
    let mut bus = test_bus(&[0xea]);
    let mut cpu = Cpu::default();
    cpu.reset(&mut bus);
    assert_eq!(cpu.pc, 0x8000);
}

#[test]
fn lda_immediate_sets_accumulator_and_flags() {
    let mut bus = test_bus(&[0xa9, 0x80]);
    let mut cpu = Cpu::default();
    cpu.reset(&mut bus);
    cpu.step(&mut bus);
    assert_eq!(cpu.a, 0x80);
    assert_ne!(cpu.status & status::NEGATIVE, 0);
}

#[test]
fn indexed_indirect_and_indirect_indexed_addressing_work() {
    let mut bus = test_bus(&[
        0xa2, 0x04, 0xa0, 0x01, 0xa9, 0x34, 0x85, 0x24, 0xa9, 0x12, 0x85, 0x25, 0xa9, 0xab, 0x8d,
        0x35, 0x12, 0xa1, 0x20, 0xb1, 0x24,
    ]);
    let mut cpu = Cpu::default();
    cpu.reset(&mut bus);
    for _ in 0..10 {
        cpu.step(&mut bus);
    }
    assert_eq!(cpu.a, 0xab);
}

#[test]
fn adc_sbc_and_flags_work() {
    let mut bus = test_bus(&[0x18, 0xa9, 0x40, 0x69, 0x40, 0xe9, 0x01]);
    let mut cpu = Cpu::default();
    cpu.reset(&mut bus);
    for _ in 0..5 {
        cpu.step(&mut bus);
    }
    assert_eq!(cpu.a, 0x7e);
    assert_eq!(cpu.status & status::CARRY, status::CARRY);
    assert_eq!(cpu.status & status::NEGATIVE, 0);
}

#[test]
fn stack_jsr_rts_and_pha_pla_work() {
    let mut bus = test_bus(&[
        0x20, 0x06, 0x80, 0xa9, 0x7f, 0xea, 0xa9, 0x42, 0x48, 0xa9, 0x00, 0x68, 0x60,
    ]);
    let mut cpu = Cpu::default();
    cpu.reset(&mut bus);
    for _ in 0..7 {
        cpu.step(&mut bus);
    }
    assert_eq!(cpu.a, 0x7f);
}

#[test]
fn nmi_pushes_state_and_jumps_to_vector() {
    let mut prg = vec![0xea; 0x8000];
    prg[0x7ffa] = 0x34;
    prg[0x7ffb] = 0x12;
    prg[0x7ffc] = 0x00;
    prg[0x7ffd] = 0x80;
    let mut bus = bus_with_prg(prg);
    let mut cpu = Cpu::default();
    cpu.reset(&mut bus);
    cpu.nmi(&mut bus);
    assert_eq!(cpu.pc, 0x1234);
    assert!(cpu.sp < 0xfd);
}

#[test]
fn requested_nmi_is_serviced_before_next_instruction() {
    let mut prg = vec![0xea; 0x8000];
    prg[0x7ffa] = 0x78;
    prg[0x7ffb] = 0x56;
    prg[0x7ffc] = 0x00;
    prg[0x7ffd] = 0x80;
    let mut bus = bus_with_prg(prg);
    let mut cpu = Cpu::default();
    cpu.reset(&mut bus);

    cpu.request_nmi();
    let cycles = cpu.step(&mut bus);

    assert_eq!(cycles, 7);
    assert_eq!(cpu.pc, 0x5678);
    assert_eq!(cpu.snapshot().interrupt_request, InterruptRequest::Idle);
}

#[test]
fn requested_irq_waits_until_interrupts_are_enabled() {
    let mut prg = vec![0xea; 0x8000];
    prg[0x7ffc] = 0x00;
    prg[0x7ffd] = 0x80;
    prg[0x7ffe] = 0xbc;
    prg[0x7fff] = 0x9a;
    let mut bus = bus_with_prg(prg);
    let mut cpu = Cpu::default();
    cpu.reset(&mut bus);

    cpu.request_irq();
    cpu.step(&mut bus);
    assert_eq!(cpu.pc, 0x8001);
    assert_eq!(cpu.snapshot().interrupt_request, InterruptRequest::Irq);

    cpu.status &= !status::IRQ_DISABLE;
    cpu.step(&mut bus);

    assert_eq!(cpu.pc, 0x9abc);
    assert_eq!(cpu.snapshot().interrupt_request, InterruptRequest::Idle);
}

#[test]
fn unknown_opcode_stops_the_cpu() {
    let mut bus = test_bus(&[0x02, 0xa9, 0x01]);
    let mut cpu = Cpu::default();
    cpu.reset(&mut bus);
    assert_eq!(cpu.step(&mut bus), 2);
    assert!(cpu.snapshot().stopped);
    assert_eq!(cpu.pc, 0x8001);
    assert_eq!(cpu.step(&mut bus), 2);
    assert_eq!(cpu.pc, 0x8001);
    assert_eq!(cpu.a, 0);
    assert_eq!(cpu.cycles, 7 + 2 + 2);
}

#[test]
fn pushed_word_pops_back_through_rts() {
    let mut bus = test_bus(&[0x20, 0x10, 0x80, 0xa9, 0x01]);
    let mut cpu = Cpu::default();
    cpu.reset(&mut bus);
    let sp = cpu.sp;
    cpu.step(&mut bus);
    assert_eq!(cpu.pc, 0x8010);
    assert_eq!(cpu.sp, sp.wrapping_sub(2));
    let mut bus = test_bus(&[0x20, 0x04, 0x80, 0xea, 0x60]);
    let mut cpu = Cpu::default();
    cpu.reset(&mut bus);
    cpu.step(&mut bus);
    cpu.step(&mut bus);
    assert_eq!(cpu.pc, 0x8003);
    assert_eq!(cpu.sp, sp);
}

#[test]
fn adc_sets_overflow_on_signed_overflow() {
    let mut bus = test_bus(&[0x18, 0xa9, 0x50, 0x69, 0x50]);
    let mut cpu = Cpu::default();
    cpu.reset(&mut bus);
    for _ in 0..3 {
        cpu.step(&mut bus);
    }
    assert_eq!(cpu.a, 0xa0);
    assert_ne!(cpu.status & status::OVERFLOW, 0);
    assert_eq!(cpu.status & status::CARRY, 0);
    assert_ne!(cpu.status & status::NEGATIVE, 0);
}

#[test]
fn sbc_without_carry_borrows_one_more() {
    let mut bus = test_bus(&[0x18, 0xa9, 0x05, 0xe9, 0x07]);
    let mut cpu = Cpu::default();
    cpu.reset(&mut bus);
    for _ in 0..3 {
        cpu.step(&mut bus);
    }
    assert_eq!(cpu.a, 0xfd);
    assert_eq!(cpu.status & status::CARRY, 0);
}

#[test]
fn taken_branch_costs_three_cycles() {
    let mut bus = test_bus(&[0xa9, 0x00, 0xf0, 0x02, 0xea, 0xea, 0xa9, 0x07]);
    let mut cpu = Cpu::default();
    cpu.reset(&mut bus);
    cpu.step(&mut bus);
    assert_eq!(cpu.step(&mut bus), 3);
    assert_eq!(cpu.pc, 0x8006);
    assert_eq!(cpu.step(&mut bus), 2);
    assert_eq!(cpu.a, 7);
}

#[test]
fn snapshot_and_restore_round_trip() {
    let mut bus = test_bus(&[0xa9, 0x33, 0xaa]);
    let mut cpu = Cpu::default();
    cpu.reset(&mut bus);
    cpu.step(&mut bus);
    let saved = cpu.snapshot();
    cpu.step(&mut bus);
    assert_eq!(cpu.x, 0x33);
    cpu.restore(&saved);
    assert_eq!(cpu.snapshot(), saved);
    assert_eq!(cpu.x, 0);
}

#[test]
fn compare_sets_carry_zero_and_negative() {
    let mut bus = test_bus(&[0xa9, 0x10, 0xc9, 0x10, 0xc9, 0x20]);
    let mut cpu = Cpu::default();
    cpu.reset(&mut bus);
    cpu.step(&mut bus);
    cpu.step(&mut bus);
    assert_ne!(cpu.status & status::CARRY, 0);
    assert_ne!(cpu.status & status::ZERO, 0);
    cpu.step(&mut bus);
    assert_eq!(cpu.status & status::CARRY, 0);
    assert_eq!(cpu.status & status::ZERO, 0);
    assert_ne!(cpu.status & status::NEGATIVE, 0);
    assert_eq!(cpu.a, 0x10);
}

#[test]
fn bit_copies_the_top_bits_of_the_operand() {
    let mut bus = test_bus(&[0xa9, 0xc0, 0x85, 0x00, 0xa9, 0x01, 0x24, 0x00]);
    let mut cpu = Cpu::default();
    cpu.reset(&mut bus);
    for _ in 0..4 {
        cpu.step(&mut bus);
    }
    assert_ne!(cpu.status & status::ZERO, 0);
    assert_ne!(cpu.status & status::NEGATIVE, 0);
    assert_ne!(cpu.status & status::OVERFLOW, 0);
    assert_eq!(cpu.a, 0x01);
}

#[test]
fn ror_undoes_rol() {
    let mut bus = test_bus(&[0x38, 0xa9, 0x81, 0x2a, 0x6a]);
    let mut cpu = Cpu::default();
    cpu.reset(&mut bus);
    for _ in 0..3 {
        cpu.step(&mut bus);
    }
    assert_eq!(cpu.a, 0x03);
    assert_ne!(cpu.status & status::CARRY, 0);
    cpu.step(&mut bus);
    assert_eq!(cpu.a, 0x81);
    assert_ne!(cpu.status & status::CARRY, 0);
    assert_ne!(cpu.status & status::NEGATIVE, 0);
    assert_eq!(cpu.status & status::ZERO, 0);
}
