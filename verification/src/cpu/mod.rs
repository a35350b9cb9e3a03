//! The 6502 core: registers, the instructions the target game needs, stack,
//! interrupts (NMI, IRQ, BRK) and reset.
mod execute;
pub mod instruction_laws;
pub mod laws;
pub mod instructions;
pub mod semantics;
pub mod status;

use crate::bus::{bus_ok, lemma_bus_read_keeps_ok, lemma_bus_write_keeps_ok, Bus};
use instructions::{decode, decode_spec, AluOp, Instr, Mode, Reg, ShiftOp};
use semantics::{
    adc_spec, bit_spec, brk_spec, execute_spec, interrupt_spec, irq_spec, nmi_spec, reset_spec,
    service_interrupt_spec, step_spec, word, compare_spec, fetch, fetch_word, operand_address, pop, pop_word, push,
    push_word, read_operand, read_vector, reg_value, set_zn, shift_spec, with_flag, with_reg,
    zero_page_word,
};
use status::{BREAK, CARRY, IRQ_DISABLE, NEGATIVE, OVERFLOW, UNUSED, ZERO};
use vstd::prelude::*;

verus! {

#[derive(Clone, Copy, Debug, PartialEq, Eq, Structural)]
pub enum InterruptRequest {
    /// No interrupt is waiting.
    Idle,
    Nmi,
    Irq,
}

impl Default for InterruptRequest {
    fn default() -> (r: Self)
        ensures
            r == InterruptRequest::Idle,
    {
        InterruptRequest::Idle
    }
}

/// The processor registers and run state.
#[derive(Clone, Debug, PartialEq, Eq)]
pub struct Cpu {
    pub a: u8,
    pub x: u8,
    pub y: u8,
    pub pc: u16,
    pub sp: u8,
    pub status: u8,
    pub cycles: u64,
    interrupt_request: InterruptRequest,
    stopped: bool,
}

/// The processor state as a save state records it; also the CPU's model.
#[derive(Clone, Copy, Debug, PartialEq, Eq, Structural)]
pub struct CpuState {
    pub a: u8,
    pub x: u8,
    pub y: u8,
    pub pc: u16,
    pub sp: u8,
    pub status: u8,
    pub cycles: u64,
    pub interrupt_request: InterruptRequest,
    pub stopped: bool,
}

impl View for Cpu {
    type V = CpuState;

    closed spec fn view(&self) -> CpuState {
        CpuState {
            a: self.a,
            x: self.x,
            y: self.y,
            pc: self.pc,
            sp: self.sp,
            status: self.status,
            cycles: self.cycles,
            interrupt_request: self.interrupt_request,
            stopped: self.stopped,
        }
    }
}

/// The power-up state: SP at $FD, interrupts disabled.
pub open spec fn power_up_state() -> CpuState {
    CpuState {
        a: 0,
        x: 0,
        y: 0,
        pc: 0,
        sp: 0xfd,
        status: IRQ_DISABLE | UNUSED,
        cycles: 0,
        interrupt_request: InterruptRequest::Idle,
        stopped: false,
    }
}

/// Room in the cycle counter for one more step.
pub open spec fn cycles_ok(c: CpuState) -> bool {
    c.cycles + 7 <= u64::MAX
}

impl Default for Cpu {
    fn default() -> (r: Self)
        ensures
            r@ == power_up_state(),
    {
        Cpu {
            a: 0,
            x: 0,
            y: 0,
            pc: 0,
            sp: 0xfd,
            status: IRQ_DISABLE | UNUSED,
            cycles: 0,
            interrupt_request: InterruptRequest::Idle,
            stopped: false,
        }
    }
}

proof fn lemma_decode_cycles(opcode: u8)
    ensures
        decode_spec(opcode) matches Some((_, base)) ==> 2 <= base <= 7,
{
}

impl Cpu {
    /// Loads PC from the reset vector and puts SP, status and the run state back to
    /// their power-up values; 7 cycles.
    pub fn reset(&mut self, bus: &mut Bus)
        requires
            bus_ok(old(bus)@),
            cycles_ok(old(self)@),
        ensures
            (final(self)@, final(bus)@) == reset_spec(old(self)@, old(bus)@),
            bus_ok(final(bus)@),
    {
        let target = self.read_vector(bus, 0xfffc);
        self.pc = target;
        self.sp = 0xfd;
        self.status = IRQ_DISABLE | UNUSED;
        self.interrupt_request = InterruptRequest::Idle;
        self.stopped = false;
        self.cycles = self.cycles + 7;
    }

    /// Runs one step: a pending interrupt that can be taken, or one instruction.
    /// Returns the cycles it took; they are added to the cycle counter as well.
    pub fn step(&mut self, bus: &mut Bus) -> (r: u8)
        requires
            bus_ok(old(bus)@),
            cycles_ok(old(self)@),
        ensures
            (final(self)@, final(bus)@, r) == step_spec(old(self)@, old(bus)@),
            bus_ok(final(bus)@),
            r <= 7,
    {
        proof {
            reveal(step_spec);
        }
        match self.service_interrupt(bus) {
            Some(cycles) => {
                return cycles;
            },
            None => {},
        }
        if self.stopped {
            self.cycles = self.cycles + 2;
            return 2;
        }
        let opcode = self.fetch_byte(bus);
        match decode(opcode) {
            None => {
                self.stopped = true;
                self.cycles = self.cycles + 2;
                2
            },
            Some((instr, base)) => {
                proof {
                    lemma_decode_cycles(opcode);
                }
                let cycles = self.execute(bus, instr, base);
                self.cycles = self.cycles + cycles as u64;
                cycles
            },
        }
    }

    /// A non-maskable interrupt: push PC and status, disable IRQs, jump through
    /// the NMI vector; 7 cycles.
    pub fn nmi(&mut self, bus: &mut Bus)
        requires
            bus_ok(old(bus)@),
            cycles_ok(old(self)@),
        ensures
            (final(self)@, final(bus)@) == nmi_spec(old(self)@, old(bus)@),
            bus_ok(final(bus)@),
    {
        self.enter_interrupt(bus, 0xfffa);
    }

    /// A maskable interrupt; ignored while the interrupt-disable flag is set.
    pub fn irq(&mut self, bus: &mut Bus)
        requires
            bus_ok(old(bus)@),
            cycles_ok(old(self)@),
        ensures
            (final(self)@, final(bus)@) == irq_spec(old(self)@, old(bus)@),
            bus_ok(final(bus)@),
    {
        if self.status & IRQ_DISABLE == 0 {
            self.enter_interrupt(bus, 0xfffe);
        }
    }

    /// Asks for an NMI before the next instruction.
    pub fn request_nmi(&mut self)
        ensures
            final(self)@ == (CpuState { interrupt_request: InterruptRequest::Nmi, ..old(self)@ }),
    {
        self.interrupt_request = InterruptRequest::Nmi;
    }

    /// Asks for an IRQ; a pending NMI keeps precedence.
    pub fn request_irq(&mut self)
        ensures
            final(self)@ == (CpuState {
                interrupt_request: if old(self)@.interrupt_request == InterruptRequest::Nmi {
                    InterruptRequest::Nmi
                } else {
                    InterruptRequest::Irq
                },
                ..old(self)@
            }),
    {
        if self.interrupt_request != InterruptRequest::Nmi {
            self.interrupt_request = InterruptRequest::Irq;
        }
    }

    fn service_interrupt(&mut self, bus: &mut Bus) -> (r: Option<u8>)
        requires
            bus_ok(old(bus)@),
            cycles_ok(old(self)@),
        ensures
            match service_interrupt_spec(old(self)@, old(bus)@) {
                Some((c, b)) => r == Some(7u8) && final(self)@ == c && final(bus)@ == b,
                None => r.is_none() && final(self)@ == old(self)@ && final(bus)@ == old(bus)@,
            },
            bus_ok(final(bus)@),
    {
        match self.interrupt_request {
            InterruptRequest::Idle => None,
            InterruptRequest::Nmi => {
                self.interrupt_request = InterruptRequest::Idle;
                self.nmi(bus);
                Some(7)
            },
            InterruptRequest::Irq => {
                if self.status & IRQ_DISABLE == 0 {
                    self.interrupt_request = InterruptRequest::Idle;
                    self.irq(bus);
                    Some(7)
                } else {
                    None
                }
            },
        }
    }

    /// The processor state, for a save state.
    pub fn snapshot(&self) -> (s: CpuState)
        ensures
            s == self@,
    {
        CpuState {
            a: self.a,
            x: self.x,
            y: self.y,
            pc: self.pc,
            sp: self.sp,
            status: self.status,
            cycles: self.cycles,
            interrupt_request: self.interrupt_request,
            stopped: self.stopped,
        }
    }

    /// Puts the processor back into a saved state.
    pub fn restore(&mut self, state: &CpuState)
        ensures
            final(self)@ == *state,
    {
        self.a = state.a;
        self.x = state.x;
        self.y = state.y;
        self.pc = state.pc;
        self.sp = state.sp;
        self.status = state.status;
        self.cycles = state.cycles;
        self.interrupt_request = state.interrupt_request;
        self.stopped = state.stopped;
    }

    fn enter_interrupt(&mut self, bus: &mut Bus, vector: u16)
        requires
            bus_ok(old(bus)@),
            cycles_ok(old(self)@),
            vector < 0xffff,
        ensures
            (final(self)@, final(bus)@) == interrupt_spec(old(self)@, old(bus)@, vector),
            bus_ok(final(bus)@),
    {
        let pc = self.pc;
        self.push_word(bus, pc);
        let pushed = self.status & !BREAK;
        self.push_byte(bus, pushed);
        self.status = self.status | IRQ_DISABLE;
        let target = self.read_vector(bus, vector);
        self.pc = target;
        self.cycles = self.cycles + 7;
    }

    fn brk(&mut self, bus: &mut Bus)
        requires
            bus_ok(old(bus)@),
        ensures
            (final(self)@, final(bus)@) == brk_spec(old(self)@, old(bus)@),
            bus_ok(final(bus)@),
    {
        self.pc = self.pc.wrapping_add(1);
        let pc = self.pc;
        self.push_word(bus, pc);
        let pushed = self.status | BREAK | UNUSED;
        self.push_byte(bus, pushed);
        self.status = self.status | IRQ_DISABLE;
        let target = self.read_vector(bus, 0xfffe);
        self.pc = target;
    }

    fn read(&mut self, bus: &mut Bus, addr: u16) -> (r: u8)
        requires
            bus_ok(old(bus)@),
        ensures
            (final(bus)@, r) == crate::bus::bus_read(old(bus)@, addr),
            final(self)@ == old(self)@,
            bus_ok(final(bus)@),
    {
        proof {
            lemma_bus_read_keeps_ok(bus@, addr);
        }
        bus.cpu_read(addr)
    }

    fn write(&mut self, bus: &mut Bus, addr: u16, value: u8)
        requires
            bus_ok(old(bus)@),
        ensures
            final(bus)@ == crate::bus::bus_write(old(bus)@, addr, value),
            final(self)@ == old(self)@,
            bus_ok(final(bus)@),
    {
        proof {
            lemma_bus_write_keeps_ok(bus@, addr, value);
        }
        bus.cpu_write(addr, value);
    }

    fn fetch_byte(&mut self, bus: &mut Bus) -> (r: u8)
        requires
            bus_ok(old(bus)@),
        ensures
            (final(self)@, final(bus)@, r) == fetch(old(self)@, old(bus)@),
            bus_ok(final(bus)@),
    {
        let pc = self.pc;
        let value = self.read(bus, pc);
        self.pc = self.pc.wrapping_add(1);
        value
    }

    fn fetch_word(&mut self, bus: &mut Bus) -> (r: u16)
        requires
            bus_ok(old(bus)@),
        ensures
            (final(self)@, final(bus)@, r) == fetch_word(old(self)@, old(bus)@),
            bus_ok(final(bus)@),
    {
        let lo = self.fetch_byte(bus) as u16;
        let hi = self.fetch_byte(bus) as u16;
        (hi << 8u16) | lo
    }

    fn read_zero_page_word(&mut self, bus: &mut Bus, ptr: u8) -> (r: u16)
        requires
            bus_ok(old(bus)@),
        ensures
            (final(bus)@, r) == zero_page_word(old(bus)@, ptr),
            final(self)@ == old(self)@,
            bus_ok(final(bus)@),
    {
        let lo = self.read(bus, ptr as u16) as u16;
        let hi = self.read(bus, ptr.wrapping_add(1) as u16) as u16;
        (hi << 8u16) | lo
    }

    fn operand_address(&mut self, bus: &mut Bus, mode: Mode) -> (r: u16)
        requires
            bus_ok(old(bus)@),
        ensures
            (final(self)@, final(bus)@, r) == operand_address(old(self)@, old(bus)@, mode),
            bus_ok(final(bus)@),
    {
        match mode {
            Mode::ZeroPage => self.fetch_byte(bus) as u16,
            Mode::ZeroPageX => {
                let v = self.fetch_byte(bus);
                v.wrapping_add(self.x) as u16
            },
            Mode::ZeroPageY => {
                let v = self.fetch_byte(bus);
                v.wrapping_add(self.y) as u16
            },
            Mode::Absolute => self.fetch_word(bus),
            Mode::AbsoluteX => {
                let w = self.fetch_word(bus);
                w.wrapping_add(self.x as u16)
            },
            Mode::AbsoluteY => {
                let w = self.fetch_word(bus);
                w.wrapping_add(self.y as u16)
            },
            Mode::IndexedIndirect => {
                let v = self.fetch_byte(bus);
                let ptr = v.wrapping_add(self.x);
                self.read_zero_page_word(bus, ptr)
            },
            Mode::IndirectIndexed => {
                let v = self.fetch_byte(bus);
                let w = self.read_zero_page_word(bus, v);
                w.wrapping_add(self.y as u16)
            },
            Mode::Immediate => self.pc,
        }
    }

    fn read_operand(&mut self, bus: &mut Bus, mode: Mode) -> (r: u8)
        requires
            bus_ok(old(bus)@),
        ensures
            (final(self)@, final(bus)@, r) == read_operand(old(self)@, old(bus)@, mode),
            bus_ok(final(bus)@),
    {
        match mode {
            Mode::Immediate => self.fetch_byte(bus),
            _ => {
                let addr = self.operand_address(bus, mode);
                self.read(bus, addr)
            },
        }
    }

    fn push_byte(&mut self, bus: &mut Bus, value: u8)
        requires
            bus_ok(old(bus)@),
        ensures
            (final(self)@, final(bus)@) == push(old(self)@, old(bus)@, value),
            bus_ok(final(bus)@),
    {
        let addr = 0x0100u16 | (self.sp as u16);
        self.write(bus, addr, value);
        self.sp = self.sp.wrapping_sub(1);
    }

    fn push_word(&mut self, bus: &mut Bus, value: u16)
        requires
            bus_ok(old(bus)@),
        ensures
            (final(self)@, final(bus)@) == push_word(old(self)@, old(bus)@, value),
            bus_ok(final(bus)@),
    {
        self.push_byte(bus, (value >> 8u16) as u8);
        self.push_byte(bus, value as u8);
    }

    fn pop_byte(&mut self, bus: &mut Bus) -> (r: u8)
        requires
            bus_ok(old(bus)@),
        ensures
            (final(self)@, final(bus)@, r) == pop(old(self)@, old(bus)@),
            bus_ok(final(bus)@),
    {
        self.sp = self.sp.wrapping_add(1);
        let addr = 0x0100u16 | (self.sp as u16);
        self.read(bus, addr)
    }

    fn pop_word(&mut self, bus: &mut Bus) -> (r: u16)
        requires
            bus_ok(old(bus)@),
        ensures
            (final(self)@, final(bus)@, r) == pop_word(old(self)@, old(bus)@),
            bus_ok(final(bus)@),
    {
        let lo = self.pop_byte(bus) as u16;
        let hi = self.pop_byte(bus) as u16;
        (hi << 8u16) | lo
    }

    fn read_vector(&mut self, bus: &mut Bus, addr: u16) -> (r: u16)
        requires
            bus_ok(old(bus)@),
            addr < 0xffff,
        ensures
            (final(bus)@, r) == read_vector(old(bus)@, addr),
            final(self)@ == old(self)@,
            bus_ok(final(bus)@),
    {
        let lo = self.read(bus, addr) as u16;
        let hi = self.read(bus, addr + 1) as u16;
        (hi << 8u16) | lo
    }

    fn update_zero_negative(&mut self, value: u8)
        ensures
            final(self)@ == (CpuState { status: set_zn(old(self)@.status, value), ..old(self)@ }),
    {
        if value == 0 {
            self.status = self.status | ZERO;
        } else {
            self.status = self.status & !ZERO;
        }
        if value & 0x80 != 0 {
            self.status = self.status | NEGATIVE;
        } else {
            self.status = self.status & !NEGATIVE;
        }
    }

    fn set_flag(&mut self, mask: u8, on: bool)
        ensures
            final(self)@ == (CpuState { status: with_flag(old(self)@.status, mask, on), ..old(self)@ }),
    {
        if on {
            self.status = self.status | mask;
        } else {
            self.status = self.status & !mask;
        }
    }

    fn compare(&mut self, register: u8, value: u8)
        ensures
            final(self)@ == (CpuState { status: compare_spec(old(self)@.status, register, value), ..old(self)@ }),
    {
        let result = register.wrapping_sub(value);
        self.set_flag(CARRY, register >= value);
        self.update_zero_negative(result);
    }

    fn adc(&mut self, value: u8)
        ensures
            final(self)@ == adc_spec(old(self)@, value),
    {
        let carry: u16 = if self.status & CARRY != 0 {
            1
        } else {
            0
        };
        let sum = self.a as u16 + value as u16 + carry;
        let result = sum as u8;
        self.set_flag(CARRY, sum > 0xff);
        self.set_flag(OVERFLOW, ((self.a ^ result) & (value ^ result) & 0x80) != 0);
        self.a = result;
        self.update_zero_negative(result);
    }

    fn sbc(&mut self, value: u8)
        ensures
            final(self)@ == adc_spec(old(self)@, !value),
    {
        self.adc(!value);
    }

    fn bit(&mut self, value: u8)
        ensures
            final(self)@ == (CpuState { status: bit_spec(old(self)@.status, old(self)@.a, value), ..old(self)@ }),
    {
        self.set_flag(ZERO, self.a & value == 0);
        self.status = (self.status & !(NEGATIVE | OVERFLOW)) | (value & (NEGATIVE | OVERFLOW));
    }

    fn shift_value(&mut self, op: ShiftOp, value: u8) -> (r: u8)
        ensures
            (final(self)@.status, r) == shift_spec(old(self)@.status, op, value),
            final(self)@ == (CpuState { status: final(self)@.status, ..old(self)@ }),
    {
        match op {
            ShiftOp::Asl => self.asl_value(value),
            ShiftOp::Lsr => self.lsr_value(value),
            ShiftOp::Rol => self.rol_value(value),
            ShiftOp::Ror => self.ror_value(value),
        }
    }

    fn asl_value(&mut self, value: u8) -> (r: u8)
        ensures
            (final(self)@.status, r) == shift_spec(old(self)@.status, ShiftOp::Asl, value),
            final(self)@ == (CpuState { status: final(self)@.status, ..old(self)@ }),
    {
        self.set_flag(CARRY, value & 0x80 != 0);
        let result = value << 1u8;
        self.update_zero_negative(result);
        result
    }

    fn lsr_value(&mut self, value: u8) -> (r: u8)
        ensures
            (final(self)@.status, r) == shift_spec(old(self)@.status, ShiftOp::Lsr, value),
            final(self)@ == (CpuState { status: final(self)@.status, ..old(self)@ }),
    {
        self.set_flag(CARRY, value & 0x01 != 0);
        let result = value >> 1u8;
        self.update_zero_negative(result);
        result
    }

    fn rol_value(&mut self, value: u8) -> (r: u8)
        ensures
            (final(self)@.status, r) == shift_spec(old(self)@.status, ShiftOp::Rol, value),
            final(self)@ == (CpuState { status: final(self)@.status, ..old(self)@ }),
    {
        let carry_in: u8 = if self.status & CARRY != 0 {
            1
        } else {
            0
        };
        self.set_flag(CARRY, value & 0x80 != 0);
        let result = (value << 1u8) | carry_in;
        self.update_zero_negative(result);
        result
    }

    fn ror_value(&mut self, value: u8) -> (r: u8)
        ensures
            (final(self)@.status, r) == shift_spec(old(self)@.status, ShiftOp::Ror, value),
            final(self)@ == (CpuState { status: final(self)@.status, ..old(self)@ }),
    {
        let carry_in: u8 = if self.status & CARRY != 0 {
            0x80
        } else {
            0
        };
        self.set_flag(CARRY, value & 0x01 != 0);
        let result = (value >> 1u8) | carry_in;
        self.update_zero_negative(result);
        result
    }
}

} // verus!
