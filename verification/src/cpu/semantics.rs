//! What one CPU step does, stated over the processor state and the bus model.
use super::instructions::{decode_spec, AluOp, Instr, Mode, Reg, ShiftOp};
use super::status::{BREAK, CARRY, IRQ_DISABLE, NEGATIVE, OVERFLOW, UNUSED, ZERO};
use super::{CpuState, InterruptRequest};
use crate::bus::{bus_read, bus_write, BusModel};
use vstd::prelude::*;

verus! {

/// The status register with the zero and negative flags set from `value`.
pub open spec fn set_zn(status: u8, value: u8) -> u8 {
    let s = if value == 0 {
        status | ZERO
    } else {
        status & !ZERO
    };
    if value & 0x80 != 0 {
        s | NEGATIVE
    } else {
        s & !NEGATIVE
    }
}

pub open spec fn with_flag(status: u8, mask: u8, on: bool) -> u8 {
    if on {
        status | mask
    } else {
        status & !mask
    }
}

pub open spec fn word(lo: u8, hi: u8) -> u16 {
    ((hi as u16) << 8u16) | (lo as u16)
}

/// Reads the byte at PC and moves PC past it.
pub open spec fn fetch(c: CpuState, b: BusModel) -> (CpuState, BusModel, u8) {
    let (b1, v) = bus_read(b, c.pc);
    (CpuState { pc: c.pc.wrapping_add(1), ..c }, b1, v)
}

/// Reads a little-endian word at PC and moves PC past it.
pub open spec fn fetch_word(c: CpuState, b: BusModel) -> (CpuState, BusModel, u16) {
    let (c1, b1, lo) = fetch(c, b);
    let (c2, b2, hi) = fetch(c1, b1);
    (c2, b2, word(lo, hi))
}

/// A pointer read from zero page; the high byte wraps within zero page.
pub open spec fn zero_page_word(b: BusModel, ptr: u8) -> (BusModel, u16) {
    let (b1, lo) = bus_read(b, ptr as u16);
    let (b2, hi) = bus_read(b1, ptr.wrapping_add(1) as u16);
    (b2, word(lo, hi))
}

/// The effective address of a memory operand.
pub open spec fn operand_address(c: CpuState, b: BusModel, mode: Mode) -> (CpuState, BusModel, u16) {
    match mode {
        Mode::ZeroPage => {
            let (c1, b1, v) = fetch(c, b);
            (c1, b1, v as u16)
        },
        Mode::ZeroPageX => {
            let (c1, b1, v) = fetch(c, b);
            (c1, b1, v.wrapping_add(c.x) as u16)
        },
        Mode::ZeroPageY => {
            let (c1, b1, v) = fetch(c, b);
            (c1, b1, v.wrapping_add(c.y) as u16)
        },
        Mode::Absolute => fetch_word(c, b),
        Mode::AbsoluteX => {
            let (c1, b1, w) = fetch_word(c, b);
            (c1, b1, w.wrapping_add(c.x as u16))
        },
        Mode::AbsoluteY => {
            let (c1, b1, w) = fetch_word(c, b);
            (c1, b1, w.wrapping_add(c.y as u16))
        },
        Mode::IndexedIndirect => {
            let (c1, b1, v) = fetch(c, b);
            let (b2, w) = zero_page_word(b1, v.wrapping_add(c.x));
            (c1, b2, w)
        },
        Mode::IndirectIndexed => {
            let (c1, b1, v) = fetch(c, b);
            let (b2, w) = zero_page_word(b1, v);
            (c1, b2, w.wrapping_add(c.y as u16))
        },
        Mode::Immediate => (c, b, c.pc),
    }
}

/// The value of an operand: the next byte for immediate mode, memory otherwise.
pub open spec fn read_operand(c: CpuState, b: BusModel, mode: Mode) -> (CpuState, BusModel, u8) {
    if mode == Mode::Immediate {
        fetch(c, b)
    } else {
        let (c1, b1, addr) = operand_address(c, b, mode);
        let (b2, v) = bus_read(b1, addr);
        (c1, b2, v)
    }
}

pub open spec fn stack_addr(sp: u8) -> u16 {
    0x0100u16 | (sp as u16)
}

pub open spec fn push(c: CpuState, b: BusModel, value: u8) -> (CpuState, BusModel) {
    (CpuState { sp: c.sp.wrapping_sub(1), ..c }, bus_write(b, stack_addr(c.sp), value))
}

/// Pushes the high byte, then the low byte.
pub open spec fn push_word(c: CpuState, b: BusModel, value: u16) -> (CpuState, BusModel) {
    let (c1, b1) = push(c, b, (value >> 8u16) as u8);
    push(c1, b1, value as u8)
}

pub open spec fn pop(c: CpuState, b: BusModel) -> (CpuState, BusModel, u8) {
    let sp = c.sp.wrapping_add(1);
    let (b1, v) = bus_read(b, stack_addr(sp));
    (CpuState { sp, ..c }, b1, v)
}

/// Pops the low byte, then the high byte.
pub open spec fn pop_word(c: CpuState, b: BusModel) -> (CpuState, BusModel, u16) {
    let (c1, b1, lo) = pop(c, b);
    let (c2, b2, hi) = pop(c1, b1);
    (c2, b2, word(lo, hi))
}

pub open spec fn reg_value(c: CpuState, reg: Reg) -> u8 {
    match reg {
        Reg::A => c.a,
        Reg::X => c.x,
        Reg::Y => c.y,
    }
}

pub open spec fn with_reg(c: CpuState, reg: Reg, value: u8) -> CpuState {
    match reg {
        Reg::A => CpuState { a: value, ..c },
        Reg::X => CpuState { x: value, ..c },
        Reg::Y => CpuState { y: value, ..c },
    }
}

/// Binary add with carry: carry out of bit 7, signed overflow, zero and negative.
pub open spec fn adc_spec(c: CpuState, value: u8) -> CpuState {
    let carry: u16 = if c.status & CARRY != 0 {
        1
    } else {
        0
    };
    let sum = (c.a as u16 + value as u16 + carry) as u16;
    let result = sum as u8;
    let s1 = with_flag(c.status, CARRY, sum > 0xff);
    let s2 = with_flag(s1, OVERFLOW, ((c.a ^ result) & (value ^ result) & 0x80) != 0);
    CpuState { a: result, status: set_zn(s2, result), ..c }
}

pub open spec fn alu_spec(c: CpuState, op: AluOp, value: u8) -> CpuState {
    match op {
        AluOp::Ora => CpuState { a: c.a | value, status: set_zn(c.status, c.a | value), ..c },
        AluOp::And => CpuState { a: c.a & value, status: set_zn(c.status, c.a & value), ..c },
        AluOp::Eor => CpuState { a: c.a ^ value, status: set_zn(c.status, c.a ^ value), ..c },
        AluOp::Adc => adc_spec(c, value),
        AluOp::Sbc => adc_spec(c, !value),
    }
}

/// CMP/CPX/CPY: carry when the register is at least the value, zero and
/// negative from the difference.
pub open spec fn compare_spec(status: u8, register: u8, value: u8) -> u8 {
    set_zn(with_flag(status, CARRY, register >= value), register.wrapping_sub(value))
}

/// BIT: zero from A & value, negative and overflow copied from the value.
pub open spec fn bit_spec(status: u8, a: u8, value: u8) -> u8 {
    let s = with_flag(status, ZERO, a & value == 0);
    (s & !(NEGATIVE | OVERFLOW)) | (value & (NEGATIVE | OVERFLOW))
}

/// A shift or rotate of `value`: the new status and the result.
pub open spec fn shift_spec(status: u8, op: ShiftOp, value: u8) -> (u8, u8) {
    match op {
        ShiftOp::Asl => {
            let s = with_flag(status, CARRY, value & 0x80 != 0);
            let r = value << 1u8;
            (set_zn(s, r), r)
        },
        ShiftOp::Lsr => {
            let s = with_flag(status, CARRY, value & 0x01 != 0);
            let r = value >> 1u8;
            (set_zn(s, r), r)
        },
        ShiftOp::Rol => {
            let carry_in: u8 = if status & CARRY != 0 {
                1
            } else {
                0
            };
            let s = with_flag(status, CARRY, value & 0x80 != 0);
            let r = (value << 1u8) | carry_in;
            (set_zn(s, r), r)
        },
        ShiftOp::Ror => {
            let carry_in: u8 = if status & CARRY != 0 {
                0x80
            } else {
                0
            };
            let s = with_flag(status, CARRY, value & 0x01 != 0);
            let r = (value >> 1u8) | carry_in;
            (set_zn(s, r), r)
        },
    }
}

/// Reads a vector at `addr` (low byte) and `addr + 1` (high byte).
pub open spec fn read_vector(b: BusModel, addr: u16) -> (BusModel, u16) {
    let (b1, lo) = bus_read(b, addr);
    let (b2, hi) = bus_read(b1, (addr + 1) as u16);
    (b2, word(lo, hi))
}

/// Interrupt entry: push PC and status (break flag clear), disable IRQs, jump
/// through the vector, and count 7 cycles.
pub open spec fn interrupt_spec(c: CpuState, b: BusModel, vector: u16) -> (CpuState, BusModel) {
    let (c1, b1) = push_word(c, b, c.pc);
    let (c2, b2) = push(c1, b1, c.status & !BREAK);
    let (b3, target) = read_vector(b2, vector);
    (
        CpuState {
            status: c2.status | IRQ_DISABLE,
            pc: target,
            cycles: (c2.cycles + 7) as u64,
            ..c2
        },
        b3,
    )
}

pub open spec fn nmi_spec(c: CpuState, b: BusModel) -> (CpuState, BusModel) {
    interrupt_spec(c, b, 0xfffa)
}

/// A maskable interrupt, taken only while interrupts are enabled.
pub open spec fn irq_spec(c: CpuState, b: BusModel) -> (CpuState, BusModel) {
    if c.status & IRQ_DISABLE == 0 {
        interrupt_spec(c, b, 0xfffe)
    } else {
        (c, b)
    }
}

/// A pending interrupt request that is taken before the next instruction.
pub open spec fn service_interrupt_spec(c: CpuState, b: BusModel) -> Option<(CpuState, BusModel)> {
    match c.interrupt_request {
        InterruptRequest::Idle => None,
        InterruptRequest::Nmi => Some(
            nmi_spec(CpuState { interrupt_request: InterruptRequest::Idle, ..c }, b),
        ),
        InterruptRequest::Irq => if c.status & IRQ_DISABLE == 0 {
            Some(irq_spec(CpuState { interrupt_request: InterruptRequest::Idle, ..c }, b))
        } else {
            None
        },
    }
}

/// BRK: skip the padding byte, push PC and status (break flag set), disable IRQs,
/// jump through the IRQ vector.
pub open spec fn brk_spec(c: CpuState, b: BusModel) -> (CpuState, BusModel) {
    let c0 = CpuState { pc: c.pc.wrapping_add(1), ..c };
    let (c1, b1) = push_word(c0, b, c0.pc);
    let (c2, b2) = push(c1, b1, c.status | BREAK | UNUSED);
    let (b3, target) = read_vector(b2, 0xfffe);
    (CpuState { status: c2.status | IRQ_DISABLE, pc: target, ..c2 }, b3)
}

/// Carries out an instruction whose opcode has been fetched; returns its cycle count.
pub open spec fn execute_spec(c: CpuState, b: BusModel, instr: Instr, base: u8) -> (CpuState, BusModel, u8) {
    match instr {
        Instr::Brk => {
            let (c1, b1) = brk_spec(c, b);
            (c1, b1, base)
        },
        Instr::Nop => (c, b, base),
        Instr::Flag { mask, set } => (CpuState { status: with_flag(c.status, mask, set), ..c }, b, base),
        Instr::Load { reg, mode } => {
            let (c1, b1, v) = read_operand(c, b, mode);
            (CpuState { status: set_zn(c1.status, v), ..with_reg(c1, reg, v) }, b1, base)
        },
        Instr::Store { reg, mode } => {
            let (c1, b1, addr) = operand_address(c, b, mode);
            (c1, bus_write(b1, addr, reg_value(c, reg)), base)
        },
        Instr::Tax => (CpuState { x: c.a, status: set_zn(c.status, c.a), ..c }, b, base),
        Instr::Tay => (CpuState { y: c.a, status: set_zn(c.status, c.a), ..c }, b, base),
        Instr::Txa => (CpuState { a: c.x, status: set_zn(c.status, c.x), ..c }, b, base),
        Instr::Tya => (CpuState { a: c.y, status: set_zn(c.status, c.y), ..c }, b, base),
        Instr::Tsx => (CpuState { x: c.sp, status: set_zn(c.status, c.sp), ..c }, b, base),
        Instr::Txs => (CpuState { sp: c.x, ..c }, b, base),
        Instr::Alu { op, mode } => {
            let (c1, b1, v) = read_operand(c, b, mode);
            (alu_spec(c1, op, v), b1, base)
        },
        Instr::Bit { mode } => {
            let (c1, b1, v) = read_operand(c, b, mode);
            (CpuState { status: bit_spec(c1.status, c1.a, v), ..c1 }, b1, base)
        },
        Instr::Compare { reg, mode } => {
            let (c1, b1, v) = read_operand(c, b, mode);
            (CpuState { status: compare_spec(c1.status, reg_value(c1, reg), v), ..c1 }, b1, base)
        },
        Instr::Increment { mode } => {
            let (c1, b1, addr) = operand_address(c, b, mode);
            let (b2, v) = bus_read(b1, addr);
            let r = v.wrapping_add(1);
            (CpuState { status: set_zn(c1.status, r), ..c1 }, bus_write(b2, addr, r), base)
        },
        Instr::Decrement { mode } => {
            let (c1, b1, addr) = operand_address(c, b, mode);
            let (b2, v) = bus_read(b1, addr);
            let r = v.wrapping_sub(1);
            (CpuState { status: set_zn(c1.status, r), ..c1 }, bus_write(b2, addr, r), base)
        },
        Instr::Dex => {
            let r = c.x.wrapping_sub(1);
            (CpuState { x: r, status: set_zn(c.status, r), ..c }, b, base)
        },
        Instr::Dey => {
            let r = c.y.wrapping_sub(1);
            (CpuState { y: r, status: set_zn(c.status, r), ..c }, b, base)
        },
        Instr::Inx => {
            let r = c.x.wrapping_add(1);
            (CpuState { x: r, status: set_zn(c.status, r), ..c }, b, base)
        },
        Instr::Iny => {
            let r = c.y.wrapping_add(1);
            (CpuState { y: r, status: set_zn(c.status, r), ..c }, b, base)
        },
        Instr::Pha => {
            let (c1, b1) = push(c, b, c.a);
            (c1, b1, base)
        },
        Instr::Pla => {
            let (c1, b1, v) = pop(c, b);
            (CpuState { a: v, status: set_zn(c1.status, v), ..c1 }, b1, base)
        },
        Instr::Php => {
            let (c1, b1) = push(c, b, c.status | BREAK | UNUSED);
            (c1, b1, base)
        },
        Instr::Plp => {
            let (c1, b1, v) = pop(c, b);
            (CpuState { status: (v | UNUSED) & !BREAK, ..c1 }, b1, base)
        },
        Instr::ShiftAccumulator { op } => {
            let (s, r) = shift_spec(c.status, op, c.a);
            (CpuState { a: r, status: s, ..c }, b, base)
        },
        Instr::ShiftMemory { op, mode } => {
            let (c1, b1, addr) = operand_address(c, b, mode);
            let (b2, v) = bus_read(b1, addr);
            let (s, r) = shift_spec(c1.status, op, v);
            (CpuState { status: s, ..c1 }, bus_write(b2, addr, r), base)
        },
        Instr::Jmp => {
            let (c1, b1, target) = fetch_word(c, b);
            (CpuState { pc: target, ..c1 }, b1, base)
        },
        Instr::JmpIndirect => {
            let (c1, b1, ptr) = fetch_word(c, b);
            let (b2, lo) = bus_read(b1, ptr);
            let (b3, hi) = bus_read(b2, (ptr & 0xff00) | (ptr.wrapping_add(1) & 0x00ff));
            (CpuState { pc: word(lo, hi), ..c1 }, b3, base)
        },
        Instr::Jsr => {
            let (c1, b1, target) = fetch_word(c, b);
            let (c2, b2) = push_word(c1, b1, c1.pc.wrapping_sub(1));
            (CpuState { pc: target, ..c2 }, b2, base)
        },
        Instr::Rts => {
            let (c1, b1, ret) = pop_word(c, b);
            (CpuState { pc: ret.wrapping_add(1), ..c1 }, b1, base)
        },
        Instr::Rti => {
            let (c1, b1, v) = pop(c, b);
            let c2 = CpuState { status: (v | UNUSED) & !BREAK, ..c1 };
            let (c3, b2, ret) = pop_word(c2, b1);
            (CpuState { pc: ret, ..c3 }, b2, base)
        },
        Instr::Branch { mask, set } => {
            let take = (c.status & mask != 0) == set;
            let (c1, b1, v) = fetch(c, b);
            if take {
                (CpuState { pc: c1.pc.wrapping_add_signed((v as i8) as i16), ..c1 }, b1, 3)
            } else {
                (c1, b1, 2)
            }
        },
    }
}

/// One CPU step: a pending interrupt that can be taken, or (unless the CPU has
/// stopped on an unknown opcode) one instruction. Returns the cycles it took,
/// which are also added to the cycle counter.
#[verifier::opaque]
pub open spec fn step_spec(c: CpuState, b: BusModel) -> (CpuState, BusModel, u8) {
    match service_interrupt_spec(c, b) {
        Some((c1, b1)) => (c1, b1, 7),
        None => if c.stopped {
            (CpuState { cycles: (c.cycles + 2) as u64, ..c }, b, 2)
        } else {
            let (c1, b1, opcode) = fetch(c, b);
            match decode_spec(opcode) {
                None => (CpuState { stopped: true, cycles: (c1.cycles + 2) as u64, ..c1 }, b1, 2),
                Some((instr, base)) => {
                    let (c2, b2, cycles) = execute_spec(c1, b1, instr, base);
                    (CpuState { cycles: (c2.cycles + cycles) as u64, ..c2 }, b2, cycles)
                },
            }
        },
    }
}

/// Reset: load PC from the reset vector, set SP and status to their power-up
/// values, drop pending requests and restart a stopped CPU; 7 cycles.
pub open spec fn reset_spec(c: CpuState, b: BusModel) -> (CpuState, BusModel) {
    let (b1, target) = read_vector(b, 0xfffc);
    (
        CpuState {
            pc: target,
            sp: 0xfd,
            status: IRQ_DISABLE | UNUSED,
            interrupt_request: InterruptRequest::Idle,
            stopped: false,
            cycles: (c.cycles + 7) as u64,
            ..c
        },
        b1,
    )
}

} // verus!
