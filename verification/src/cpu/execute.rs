//! Carrying out a decoded instruction, one group of instructions per function.
use super::instructions::{AluOp, Instr, Mode, Reg, ShiftOp};
use super::semantics::{execute_spec, reg_value, with_reg};
use super::status::{BREAK, UNUSED};
use super::Cpu;
use crate::bus::{bus_ok, Bus};
use vstd::prelude::*;

verus! {

impl Cpu {
    fn set_register(&mut self, reg: Reg, value: u8)
        ensures
            final(self)@ == with_reg(old(self)@, reg, value),
    {
        match reg {
            Reg::A => self.a = value,
            Reg::X => self.x = value,
            Reg::Y => self.y = value,
        }
    }

    fn register(&self, reg: Reg) -> (r: u8)
        ensures
            r == reg_value(self@, reg),
    {
        match reg {
            Reg::A => self.a,
            Reg::X => self.x,
            Reg::Y => self.y,
        }
    }

    /// Carries out a decoded instruction; returns its cycle count.
    pub(super) fn execute(&mut self, bus: &mut Bus, instr: Instr, base: u8) -> (r: u8)
        requires
            bus_ok(old(bus)@),
            base <= 7,
        ensures
            (final(self)@, final(bus)@, r) == execute_spec(old(self)@, old(bus)@, instr, base),
            final(self)@.cycles == old(self)@.cycles,
            bus_ok(final(bus)@),
            r <= 7,
    {
        match instr {
            Instr::Load { reg, mode } => self.exec_load(bus, reg, mode, base),
            Instr::Store { reg, mode } => self.exec_store(bus, reg, mode, base),
            Instr::Alu { op, mode } => self.exec_alu(bus, op, mode, base),
            Instr::Bit { mode } => self.exec_bit(bus, mode, base),
            Instr::Compare { reg, mode } => self.exec_compare(bus, reg, mode, base),
            Instr::Increment { mode } => self.exec_increment(bus, mode, base),
            Instr::Decrement { mode } => self.exec_decrement(bus, mode, base),
            Instr::ShiftMemory { op, mode } => self.exec_shift_memory(bus, op, mode, base),
            Instr::Brk | Instr::Pha | Instr::Pla | Instr::Php | Instr::Plp => {
                self.exec_stack(bus, instr, base)
            },
            Instr::Jmp | Instr::JmpIndirect | Instr::Jsr | Instr::Rts | Instr::Rti => {
                self.exec_jump(bus, instr, base)
            },
            Instr::Branch { mask, set } => self.exec_branch(bus, mask, set, base),
            _ => self.exec_register(bus, instr, base),
        }
    }

    fn exec_load(&mut self, bus: &mut Bus, reg: Reg, mode: Mode, base: u8) -> (r: u8)
        requires
            bus_ok(old(bus)@),
        ensures
            (final(self)@, final(bus)@, r) == execute_spec(old(self)@, old(bus)@, Instr::Load { reg, mode }, base),
            final(self)@.cycles == old(self)@.cycles,
            bus_ok(final(bus)@),
    {
        let v = self.read_operand(bus, mode);
        self.set_register(reg, v);
        self.update_zero_negative(v);
        base
    }

    fn exec_store(&mut self, bus: &mut Bus, reg: Reg, mode: Mode, base: u8) -> (r: u8)
        requires
            bus_ok(old(bus)@),
        ensures
            (final(self)@, final(bus)@, r) == execute_spec(old(self)@, old(bus)@, Instr::Store { reg, mode }, base),
            final(self)@.cycles == old(self)@.cycles,
            bus_ok(final(bus)@),
    {
        let value = self.register(reg);
        let addr = self.operand_address(bus, mode);
        self.write(bus, addr, value);
        base
    }

    fn exec_alu(&mut self, bus: &mut Bus, op: AluOp, mode: Mode, base: u8) -> (r: u8)
        requires
            bus_ok(old(bus)@),
        ensures
            (final(self)@, final(bus)@, r) == execute_spec(old(self)@, old(bus)@, Instr::Alu { op, mode }, base),
            final(self)@.cycles == old(self)@.cycles,
            bus_ok(final(bus)@),
    {
        let v = self.read_operand(bus, mode);
        match op {
            AluOp::Ora => {
                self.a = self.a | v;
                self.update_zero_negative(self.a);
            },
            AluOp::And => {
                self.a = self.a & v;
                self.update_zero_negative(self.a);
            },
            AluOp::Eor => {
                self.a = self.a ^ v;
                self.update_zero_negative(self.a);
            },
            AluOp::Adc => self.adc(v),
            AluOp::Sbc => self.sbc(v),
        }
        base
    }

    fn exec_bit(&mut self, bus: &mut Bus, mode: Mode, base: u8) -> (r: u8)
        requires
            bus_ok(old(bus)@),
        ensures
            (final(self)@, final(bus)@, r) == execute_spec(old(self)@, old(bus)@, Instr::Bit { mode }, base),
            final(self)@.cycles == old(self)@.cycles,
            bus_ok(final(bus)@),
    {
        let v = self.read_operand(bus, mode);
        self.bit(v);
        base
    }

    fn exec_compare(&mut self, bus: &mut Bus, reg: Reg, mode: Mode, base: u8) -> (r: u8)
        requires
            bus_ok(old(bus)@),
        ensures
            (final(self)@, final(bus)@, r) == execute_spec(old(self)@, old(bus)@, Instr::Compare { reg, mode }, base),
            final(self)@.cycles == old(self)@.cycles,
            bus_ok(final(bus)@),
    {
        let v = self.read_operand(bus, mode);
        let r = self.register(reg);
        self.compare(r, v);
        base
    }

    fn exec_increment(&mut self, bus: &mut Bus, mode: Mode, base: u8) -> (r: u8)
        requires
            bus_ok(old(bus)@),
        ensures
            (final(self)@, final(bus)@, r) == execute_spec(old(self)@, old(bus)@, Instr::Increment { mode }, base),
            final(self)@.cycles == old(self)@.cycles,
            bus_ok(final(bus)@),
    {
        let addr = self.operand_address(bus, mode);
        let v = self.read(bus, addr).wrapping_add(1);
        self.write(bus, addr, v);
        self.update_zero_negative(v);
        base
    }

    fn exec_decrement(&mut self, bus: &mut Bus, mode: Mode, base: u8) -> (r: u8)
        requires
            bus_ok(old(bus)@),
        ensures
            (final(self)@, final(bus)@, r) == execute_spec(old(self)@, old(bus)@, Instr::Decrement { mode }, base),
            final(self)@.cycles == old(self)@.cycles,
            bus_ok(final(bus)@),
    {
        let addr = self.operand_address(bus, mode);
        let v = self.read(bus, addr).wrapping_sub(1);
        self.write(bus, addr, v);
        self.update_zero_negative(v);
        base
    }

    fn exec_shift_memory(&mut self, bus: &mut Bus, op: ShiftOp, mode: Mode, base: u8) -> (r: u8)
        requires
            bus_ok(old(bus)@),
        ensures
            (final(self)@, final(bus)@, r) == execute_spec(old(self)@, old(bus)@, Instr::ShiftMemory { op, mode }, base),
            final(self)@.cycles == old(self)@.cycles,
            bus_ok(final(bus)@),
    {
        let addr = self.operand_address(bus, mode);
        let v = self.read(bus, addr);
        let r = self.shift_value(op, v);
        self.write(bus, addr, r);
        base
    }

    /// BRK and the stack instructions.
    fn exec_stack(&mut self, bus: &mut Bus, instr: Instr, base: u8) -> (r: u8)
        requires
            bus_ok(old(bus)@),
            instr is Brk || instr is Pha || instr is Pla || instr is Php || instr is Plp,
        ensures
            (final(self)@, final(bus)@, r) == execute_spec(old(self)@, old(bus)@, instr, base),
            final(self)@.cycles == old(self)@.cycles,
            bus_ok(final(bus)@),
            r == base,
    {
        match instr {
            Instr::Brk => self.brk(bus),
            Instr::Pha => {
                let a = self.a;
                self.push_byte(bus, a);
            },
            Instr::Pla => {
                let v = self.pop_byte(bus);
                self.a = v;
                self.update_zero_negative(v);
            },
            Instr::Php => {
                let pushed = self.status | BREAK | UNUSED;
                self.push_byte(bus, pushed);
            },
            _ => {
                let v = self.pop_byte(bus);
                self.status = (v | UNUSED) & !BREAK;
            },
        }
        base
    }

    /// JMP, JSR, RTS and RTI.
    fn exec_jump(&mut self, bus: &mut Bus, instr: Instr, base: u8) -> (r: u8)
        requires
            bus_ok(old(bus)@),
            instr is Jmp || instr is JmpIndirect || instr is Jsr || instr is Rts || instr is Rti,
        ensures
            (final(self)@, final(bus)@, r) == execute_spec(old(self)@, old(bus)@, instr, base),
            final(self)@.cycles == old(self)@.cycles,
            bus_ok(final(bus)@),
            r == base,
    {
        match instr {
            Instr::Jmp => {
                self.pc = self.fetch_word(bus);
            },
            Instr::JmpIndirect => {
                let ptr = self.fetch_word(bus);
                let lo = self.read(bus, ptr);
                let hi = self.read(bus, (ptr & 0xff00) | (ptr.wrapping_add(1) & 0x00ff));
                self.pc = ((hi as u16) << 8u16) | (lo as u16);
            },
            Instr::Jsr => {
                let target = self.fetch_word(bus);
                let return_addr = self.pc.wrapping_sub(1);
                self.push_word(bus, return_addr);
                self.pc = target;
            },
            Instr::Rts => {
                self.pc = self.pop_word(bus).wrapping_add(1);
            },
            _ => {
                let v = self.pop_byte(bus);
                self.status = (v | UNUSED) & !BREAK;
                self.pc = self.pop_word(bus);
            },
        }
        base
    }

    fn exec_branch(&mut self, bus: &mut Bus, mask: u8, set: bool, base: u8) -> (r: u8)
        requires
            bus_ok(old(bus)@),
        ensures
            (final(self)@, final(bus)@, r) == execute_spec(old(self)@, old(bus)@, Instr::Branch { mask, set }, base),
            final(self)@.cycles == old(self)@.cycles,
            bus_ok(final(bus)@),
            r == 2 || r == 3,
    {
        let take = (self.status & mask != 0) == set;
        let offset = self.fetch_byte(bus);
        if take {
            self.pc = self.pc.wrapping_add_signed(offset as i8 as i16);
            3
        } else {
            2
        }
    }

    /// Instructions that touch only the registers.
    fn exec_register(&mut self, bus: &mut Bus, instr: Instr, base: u8) -> (r: u8)
        requires
            bus_ok(old(bus)@),
            instr is Nop || instr is Flag || instr is Tax || instr is Tay || instr is Txa
                || instr is Tya || instr is Tsx || instr is Txs || instr is Dex || instr is Dey
                || instr is Inx || instr is Iny || instr is ShiftAccumulator,
        ensures
            (final(self)@, final(bus)@, r) == execute_spec(old(self)@, old(bus)@, instr, base),
            final(self)@.cycles == old(self)@.cycles,
            final(bus)@ == old(bus)@,
            r == base,
    {
        match instr {
            Instr::Flag { mask, set } => self.set_flag(mask, set),
            Instr::Tax => {
                self.x = self.a;
                self.update_zero_negative(self.x);
            },
            Instr::Tay => {
                self.y = self.a;
                self.update_zero_negative(self.y);
            },
            Instr::Txa => {
                self.a = self.x;
                self.update_zero_negative(self.a);
            },
            Instr::Tya => {
                self.a = self.y;
                self.update_zero_negative(self.a);
            },
            Instr::Tsx => {
                self.x = self.sp;
                self.update_zero_negative(self.x);
            },
            Instr::Txs => {
                self.sp = self.x;
            },
            Instr::Dex => {
                self.x = self.x.wrapping_sub(1);
                self.update_zero_negative(self.x);
            },
            Instr::Dey => {
                self.y = self.y.wrapping_sub(1);
                self.update_zero_negative(self.y);
            },
            Instr::Inx => {
                self.x = self.x.wrapping_add(1);
                self.update_zero_negative(self.x);
            },
            Instr::Iny => {
                self.y = self.y.wrapping_add(1);
                self.update_zero_negative(self.y);
            },
            Instr::ShiftAccumulator { op } => {
                let a = self.a;
                let r = self.shift_value(op, a);
                self.a = r;
            },
            _ => {},
        }
        base
    }
}

} // verus!
