//! Properties of the processor model that hold in every state.
use super::instructions::{decode_spec, AluOp, Instr, Mode, Reg, ShiftOp};
use super::semantics::{
    adc_spec, alu_spec, bit_spec, compare_spec, pop, pop_word, push, push_word, set_zn, stack_addr,
    shift_spec, step_spec, with_flag,
};
use super::status::{CARRY, IRQ_DISABLE, NEGATIVE, OVERFLOW, ZERO};
use super::{cycles_ok, CpuState, InterruptRequest};
use crate::bus::{bus_ok, bus_read, bus_write, BusModel};
use vstd::prelude::*;

verus! {

/// The carry flag as a number, 0 or 1.
pub open spec fn carry_in(status: u8) -> int {
    if status & CARRY != 0 {
        1
    } else {
        0
    }
}

/// A byte read as a two's-complement number.
pub open spec fn signed(v: u8) -> int {
    if v >= 0x80 {
        v - 256
    } else {
        v as int
    }
}

/// What a push puts on the stack, the next pop gives back, and the stack
/// pointer is where it was before the push.
pub proof fn law_push_pop_roundtrip(c: CpuState, b: BusModel, value: u8)
    requires
        bus_ok(b),
    ensures
        ({
            let (c1, b1) = push(c, b, value);
            let (c2, b2, r) = pop(c1, b1);
            r == value && c2 == c && b2 == b1
        }),
{
    reveal(bus_read);
    reveal(bus_write);
    let sp = c.sp;
    assert(stack_addr(sp) <= 0x1ff && stack_addr(sp) & 0x07ff == stack_addr(sp)) by (bit_vector)
        requires
            stack_addr(sp) == 0x0100u16 | (sp as u16),
    ;
    assert(sp.wrapping_sub(1).wrapping_add(1) == sp);
}

/// A word pushed (as JSR and interrupts do) pops back whole (as RTS and RTI
/// read it), and the stack pointer is where it was before the push.
pub proof fn law_push_word_pop_word_roundtrip(c: CpuState, b: BusModel, value: u16)
    requires
        bus_ok(b),
    ensures
        ({
            let (c1, b1) = push_word(c, b, value);
            let (c2, b2, r) = pop_word(c1, b1);
            r == value && c2 == c && b2 == b1
        }),
{
    reveal(bus_read);
    reveal(bus_write);
    let sp = c.sp;
    let sp1 = sp.wrapping_sub(1);
    assert(sp1.wrapping_add(1) == sp);
    assert(stack_addr(sp) <= 0x1ff && stack_addr(sp) & 0x07ff == stack_addr(sp)) by (bit_vector)
        requires
            stack_addr(sp) == 0x0100u16 | (sp as u16),
    ;
    assert(stack_addr(sp1) <= 0x1ff && stack_addr(sp1) & 0x07ff == stack_addr(sp1)) by (bit_vector)
        requires
            stack_addr(sp1) == 0x0100u16 | (sp1 as u16),
    ;
    assert(sp1 != sp);
    assert(stack_addr(sp1) != stack_addr(sp)) by (bit_vector)
        requires
            stack_addr(sp) == 0x0100u16 | (sp as u16),
            stack_addr(sp1) == 0x0100u16 | (sp1 as u16),
            sp1 != sp,
    ;
    assert((((value >> 8u16) as u8 as u16) << 8u16) | (value as u8 as u16) == value) by (bit_vector);
}

/// ADC adds the operand and the carry: the accumulator gets the sum modulo 256,
/// carry tells whether it passed 255, overflow whether the signed sum left
/// -128..127, and zero and negative describe the result.
pub proof fn law_adc_arithmetic(c: CpuState, value: u8)
    ensures
        adc_spec(c, value).a == (c.a + value + carry_in(c.status)) % 256,
        (adc_spec(c, value).status & CARRY != 0) == (c.a + value + carry_in(c.status) > 255),
        (adc_spec(c, value).status & OVERFLOW != 0) == ({
            let s = signed(c.a) + signed(value) + carry_in(c.status);
            s < -128 || s > 127
        }),
        (adc_spec(c, value).status & ZERO != 0) == (adc_spec(c, value).a == 0),
        (adc_spec(c, value).status & NEGATIVE != 0) == (adc_spec(c, value).a >= 0x80),
{
    let a = c.a;
    let st = c.status;
    let cin: u16 = if st & CARRY != 0 {
        1
    } else {
        0
    };
    let sum = (a as u16 + value as u16 + cin) as u16;
    let result = sum as u8;
    let s1 = with_flag(st, CARRY, sum > 0xff);
    let s2 = with_flag(s1, OVERFLOW, ((a ^ result) & (value ^ result) & 0x80) != 0);
    let s3 = set_zn(s2, result);
    assert(result == (a + value + cin) % 256) by (bit_vector)
        requires
            cin <= 1,
            sum == (a as u16 + value as u16 + cin) as u16,
            result == sum as u8,
    ;
    assert((s3 & CARRY != 0) == (sum > 0xff) && (s3 & ZERO != 0) == (result == 0) && (s3 & NEGATIVE
        != 0) == (result >= 0x80) && (s3 & OVERFLOW != 0) == (((a ^ result) & (value ^ result)
        & 0x80) != 0)) by (bit_vector)
        requires
            s1 == with_flag(st, CARRY, sum > 0xff),
            s2 == with_flag(s1, OVERFLOW, ((a ^ result) & (value ^ result) & 0x80) != 0),
            s3 == set_zn(s2, result),
    ;
    let sa: i16 = a as i8 as i16;
    let sv: i16 = value as i8 as i16;
    assert((((a ^ result) & (value ^ result) & 0x80) != 0) == ((sa + sv + (cin as i16)) < -128
        || (sa + sv + (cin as i16)) > 127)) by (bit_vector)
        requires
            cin <= 1,
            sum == (a as u16 + value as u16 + cin) as u16,
            result == sum as u8,
            sa == a as i8 as i16,
            sv == value as i8 as i16,
    ;
    assert(sa == signed(a)) by (bit_vector)
        requires
            sa == a as i8 as i16,
    ;
    assert(sv == signed(value)) by (bit_vector)
        requires
            sv == value as i8 as i16,
    ;
}

/// SBC subtracts the operand and the borrow (the inverted carry): the
/// accumulator gets the difference modulo 256, and carry is set when no borrow
/// was needed.
pub proof fn law_sbc_arithmetic(c: CpuState, value: u8)
    ensures
        alu_spec(c, AluOp::Sbc, value).a == (c.a - value - (1 - carry_in(c.status))) % 256,
        (alu_spec(c, AluOp::Sbc, value).status & CARRY != 0) == (c.a - value - (1 - carry_in(
            c.status,
        )) >= 0),
{
    law_adc_arithmetic(c, value);
    law_adc_arithmetic(c, !value);
    let nv = !value;
    assert(nv == 255 - value) by (bit_vector)
        requires
            nv == !value,
    ;
    let x = c.a - value - (1 - carry_in(c.status));
    assert(c.a + nv + carry_in(c.status) == x + 256);
    assert((x + 256) % 256 == x % 256);
}

/// CMP, CPX and CPY: carry when the register is at least the operand, zero when
/// they are equal, negative from bit 7 of the difference; other flags stay.
pub proof fn law_compare_flags(status: u8, register: u8, value: u8)
    ensures
        (compare_spec(status, register, value) & CARRY != 0) == (register >= value),
        (compare_spec(status, register, value) & ZERO != 0) == (register == value),
        (compare_spec(status, register, value) & NEGATIVE != 0) == ((register - value) % 256 >= 128),
        compare_spec(status, register, value) & 0x7c == status & 0x7c,
{
    let r = register.wrapping_sub(value);
    assert(r == (register - value) % 256);
    let s1 = with_flag(status, CARRY, register >= value);
    let s2 = set_zn(s1, r);
    assert((s2 & CARRY != 0) == (register >= value) && (s2 & ZERO != 0) == (r == 0) && (s2 & NEGATIVE
        != 0) == (r >= 128) && s2 & 0x7c == status & 0x7c) by (bit_vector)
        requires
            s1 == with_flag(status, CARRY, register >= value),
            s2 == set_zn(s1, r),
    ;
}

/// BIT: zero when A and the operand share no bit, overflow and negative copied
/// from bits 6 and 7 of the operand; carry, interrupt-disable and decimal stay.
pub proof fn law_bit_flags(status: u8, a: u8, value: u8)
    ensures
        (bit_spec(status, a, value) & ZERO != 0) == (a & value == 0),
        bit_spec(status, a, value) & 0xc0 == value & 0xc0,
        bit_spec(status, a, value) & 0x3d == status & 0x3d,
{
    let s = with_flag(status, ZERO, a & value == 0);
    let r = bit_spec(status, a, value);
    assert((r & ZERO != 0) == (a & value == 0) && r & 0xc0 == value & 0xc0 && r & 0x3d == status
        & 0x3d) by (bit_vector)
        requires
            s == with_flag(status, ZERO, a & value == 0),
            r == (s & !(NEGATIVE | OVERFLOW)) | (value & (NEGATIVE | OVERFLOW)),
    ;
}

/// A stopped CPU with no interrupt it can take does nothing: each step takes 2
/// cycles, adds them to the counter, and leaves the bus alone.
pub proof fn law_stopped_cpu_waits(c: CpuState, b: BusModel)
    requires
        c.stopped,
        cycles_ok(c),
        c.interrupt_request == InterruptRequest::Idle || (c.interrupt_request == InterruptRequest::Irq
            && c.status & IRQ_DISABLE != 0),
    ensures
        step_spec(c, b) == (CpuState { cycles: (c.cycles + 2) as u64, ..c }, b, 2u8),
{
    reveal(step_spec);
}

/// ROR after ROL gives back the value and the carry; zero and negative then
/// describe the value, and the other flags are never touched.
pub proof fn law_ror_undoes_rol(status: u8, value: u8)
    ensures
        ({
            let (s1, rotated) = shift_spec(status, ShiftOp::Rol, value);
            let (s2, back) = shift_spec(s1, ShiftOp::Ror, rotated);
            &&& back == value
            &&& s2 & CARRY == status & CARRY
            &&& (s2 & ZERO != 0) == (value == 0)
            &&& (s2 & NEGATIVE != 0) == (value & 0x80 != 0)
            &&& s2 & 0x7c == status & 0x7c
        }),
{
    let cin: u8 = if status & CARRY != 0 {
        1
    } else {
        0
    };
    let a1 = with_flag(status, CARRY, value & 0x80 != 0);
    let r = (value << 1u8) | cin;
    let s1 = set_zn(a1, r);
    assert(shift_spec(status, ShiftOp::Rol, value) == (s1, r));
    let cin2: u8 = if s1 & CARRY != 0 {
        0x80
    } else {
        0
    };
    let a2 = with_flag(s1, CARRY, r & 0x01 != 0);
    let w = (r >> 1u8) | cin2;
    let s2 = set_zn(a2, w);
    assert(shift_spec(s1, ShiftOp::Ror, r) == (s2, w));
    assert(w == value && s2 & CARRY == status & CARRY && (s2 & ZERO != 0) == (value == 0) && (s2
        & NEGATIVE != 0) == (value & 0x80 != 0) && s2 & 0x7c == status & 0x7c) by (bit_vector)
        requires
            cin == (if status & CARRY != 0 { 1u8 } else { 0u8 }),
            a1 == with_flag(status, CARRY, value & 0x80 != 0),
            r == (value << 1u8) | cin,
            s1 == set_zn(a1, r),
            cin2 == (if s1 & CARRY != 0 { 0x80u8 } else { 0u8 }),
            a2 == with_flag(s1, CARRY, r & 0x01 != 0),
            w == (r >> 1u8) | cin2,
            s2 == set_zn(a2, w),
    ;
}

/// ORA, AND and EOR put A OR, AND and XOR the operand into A; zero and negative
/// describe the result, and no other flag changes.
pub proof fn law_logical_ops(c: CpuState, value: u8)
    ensures
        alu_spec(c, AluOp::Ora, value).a == c.a | value,
        alu_spec(c, AluOp::And, value).a == c.a & value,
        alu_spec(c, AluOp::Eor, value).a == c.a ^ value,
        forall|op: AluOp|
            (op == AluOp::Ora || op == AluOp::And || op == AluOp::Eor) ==> {
                let r = #[trigger] alu_spec(c, op, value);
                &&& (r.status & ZERO != 0) == (r.a == 0)
                &&& (r.status & NEGATIVE != 0) == (r.a >= 0x80)
                &&& r.status & 0x7d == c.status & 0x7d
                &&& r.x == c.x && r.y == c.y && r.sp == c.sp && r.pc == c.pc
            },
{
    assert forall|op: AluOp| (op == AluOp::Ora || op == AluOp::And || op == AluOp::Eor) implies {
        let r = #[trigger] alu_spec(c, op, value);
        &&& (r.status & ZERO != 0) == (r.a == 0)
        &&& (r.status & NEGATIVE != 0) == (r.a >= 0x80)
        &&& r.status & 0x7d == c.status & 0x7d
        &&& r.x == c.x && r.y == c.y && r.sp == c.sp && r.pc == c.pc
    } by {
        let a = alu_spec(c, op, value).a;
        let st = c.status;
        let s = set_zn(st, a);
        assert((s & ZERO != 0) == (a == 0) && (s & NEGATIVE != 0) == (a >= 0x80) && s & 0x7d == st
            & 0x7d) by (bit_vector)
            requires
                s == set_zn(st, a),
        ;
    }
}

/// The operation an opcode of the 6502's arithmetic group (low bits 01) names:
/// bits 7-5 pick ORA, AND, EOR, ADC, STA, LDA, CMP or SBC.
pub open spec fn group_one_op(opcode: u8) -> int {
    (opcode / 32) as int
}

/// The addressing mode of an arithmetic-group opcode: bits 4-2 pick (zp,X), zp,
/// #imm, abs, (zp),Y, zp,X, abs,Y or abs,X.
pub open spec fn group_one_mode(opcode: u8) -> Mode {
    let b = (opcode / 4) % 8;
    if b == 0 {
        Mode::IndexedIndirect
    } else if b == 1 {
        Mode::ZeroPage
    } else if b == 2 {
        Mode::Immediate
    } else if b == 3 {
        Mode::Absolute
    } else if b == 4 {
        Mode::IndirectIndexed
    } else if b == 5 {
        Mode::ZeroPageX
    } else if b == 6 {
        Mode::AbsoluteY
    } else {
        Mode::AbsoluteX
    }
}

/// The instruction an arithmetic-group opcode names by its fields.
pub open spec fn group_one_instr(opcode: u8) -> Instr {
    let op = group_one_op(opcode);
    let mode = group_one_mode(opcode);
    if op == 0 {
        Instr::Alu { op: AluOp::Ora, mode }
    } else if op == 1 {
        Instr::Alu { op: AluOp::And, mode }
    } else if op == 2 {
        Instr::Alu { op: AluOp::Eor, mode }
    } else if op == 3 {
        Instr::Alu { op: AluOp::Adc, mode }
    } else if op == 4 {
        Instr::Store { reg: Reg::A, mode }
    } else if op == 5 {
        Instr::Load { reg: Reg::A, mode }
    } else if op == 6 {
        Instr::Compare { reg: Reg::A, mode }
    } else {
        Instr::Alu { op: AluOp::Sbc, mode }
    }
}

/// An opcode of the arithmetic group, other than the missing immediate STA.
pub open spec fn in_group_one(opcode: u8) -> bool {
    opcode % 4 == 1 && !(group_one_op(opcode) == 4 && group_one_mode(opcode) == Mode::Immediate)
}

/// Every opcode with low bits 01 decodes by its fields: ORA, AND, EOR, ADC, SBC
/// act on A and the operand, LDA loads it, CMP compares with it, and STA (which
/// has no immediate form) stores A, each in the mode that bits 4-2 name.
pub proof fn law_group_one_decoding(opcode: u8)
    requires
        in_group_one(opcode),
    ensures
        decode_spec(opcode) matches Some((instr, _)) && instr == group_one_instr(opcode),
{
    if opcode == 1 {
    } else if opcode == 5 {
    } else if opcode == 9 {
    } else if opcode == 13 {
    } else if opcode == 17 {
    } else if opcode == 21 {
    } else if opcode == 25 {
    } else if opcode == 29 {
    } else if opcode == 33 {
    } else if opcode == 37 {
    } else if opcode == 41 {
    } else if opcode == 45 {
    } else if opcode == 49 {
    } else if opcode == 53 {
    } else if opcode == 57 {
    } else if opcode == 61 {
    } else if opcode == 65 {
    } else if opcode == 69 {
    } else if opcode == 73 {
    } else if opcode == 77 {
    } else if opcode == 81 {
    } else if opcode == 85 {
    } else if opcode == 89 {
    } else if opcode == 93 {
    } else if opcode == 97 {
    } else if opcode == 101 {
    } else if opcode == 105 {
    } else if opcode == 109 {
    } else if opcode == 113 {
    } else if opcode == 117 {
    } else if opcode == 121 {
    } else if opcode == 125 {
    } else if opcode == 129 {
    } else if opcode == 133 {
    } else if opcode == 137 {
    } else if opcode == 141 {
    } else if opcode == 145 {
    } else if opcode == 149 {
    } else if opcode == 153 {
    } else if opcode == 157 {
    } else if opcode == 161 {
    } else if opcode == 165 {
    } else if opcode == 169 {
    } else if opcode == 173 {
    } else if opcode == 177 {
    } else if opcode == 181 {
    } else if opcode == 185 {
    } else if opcode == 189 {
    } else if opcode == 193 {
    } else if opcode == 197 {
    } else if opcode == 201 {
    } else if opcode == 205 {
    } else if opcode == 209 {
    } else if opcode == 213 {
    } else if opcode == 217 {
    } else if opcode == 221 {
    } else if opcode == 225 {
    } else if opcode == 229 {
    } else if opcode == 233 {
    } else if opcode == 237 {
    } else if opcode == 241 {
    } else if opcode == 245 {
    } else if opcode == 249 {
    } else if opcode == 253 {
    }
}

/// While interrupts are disabled, a requested IRQ is not taken: it stays
/// pending across every step.
pub proof fn law_masked_irq_stays_pending(c: CpuState, b: BusModel)
    requires
        c.interrupt_request == InterruptRequest::Irq,
        c.status & IRQ_DISABLE != 0,
    ensures
        step_spec(c, b).0.interrupt_request == InterruptRequest::Irq,
{
    reveal(step_spec);
}

/// Every step takes between 2 and 7 cycles, and they are added to the cycle counter.
pub proof fn law_step_cycles(c: CpuState, b: BusModel)
    requires
        cycles_ok(c),
    ensures
        2 <= step_spec(c, b).2 <= 7,
        step_spec(c, b).0.cycles == c.cycles + step_spec(c, b).2,
{
    reveal(step_spec);
    let (c1, b1, opcode) = super::semantics::fetch(c, b);
    super::lemma_decode_cycles(opcode);
}

} // verus!
