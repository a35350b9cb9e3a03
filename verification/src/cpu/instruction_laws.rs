//! What the individual instructions do, stated flag by flag and register by
//! register, and how pairs of them relate.
use super::instructions::{decode_spec, Instr, Mode, Reg};
use super::laws::{law_push_pop_roundtrip, law_push_word_pop_word_roundtrip, signed};
use super::semantics::{execute_spec, fetch, operand_address, read_operand, reg_value, set_zn, with_flag};
use super::status::{CARRY, DECIMAL, IRQ_DISABLE, NEGATIVE, OVERFLOW, ZERO};
use super::CpuState;
use crate::bus::{bus_ok, bus_read, bus_write, lemma_bus_read_keeps_ok, BusModel};
use vstd::prelude::*;

verus! {

/// `status` is `old` with zero and negative describing `value` and every other flag kept.
pub open spec fn zn_describes(old: u8, status: u8, value: u8) -> bool {
    &&& (status & ZERO != 0) == (value == 0)
    &&& (status & NEGATIVE != 0) == (value >= 0x80)
    &&& status & 0x7d == old & 0x7d
}

proof fn lemma_set_zn(old: u8, value: u8)
    ensures
        zn_describes(old, set_zn(old, value), value),
{
    let s = set_zn(old, value);
    assert((s & ZERO != 0) == (value == 0) && (s & NEGATIVE != 0) == (value >= 0x80) && s & 0x7d
        == old & 0x7d) by (bit_vector)
        requires
            s == set_zn(old, value),
    ;
}

/// The registers and the stack pointer other than the one named.
pub open spec fn others_kept(c: CpuState, d: CpuState, reg: Reg) -> bool {
    &&& reg != Reg::A ==> d.a == c.a
    &&& reg != Reg::X ==> d.x == c.x
    &&& reg != Reg::Y ==> d.y == c.y
    &&& d.sp == c.sp
    &&& d.pc == c.pc
    &&& d.cycles == c.cycles
    &&& d.interrupt_request == c.interrupt_request
    &&& d.stopped == c.stopped
}

/// TAX, TAY, TXA, TYA and TSX copy one register into another; INX, INY, DEX and
/// DEY count X or Y up or down by one, wrapping; zero and negative describe the
/// new value. TXS copies X into the stack pointer and leaves the flags. None of
/// them touches the bus.
pub proof fn law_register_instructions(c: CpuState, b: BusModel, base: u8)
    ensures
        ({
            let (d, e, n) = execute_spec(c, b, Instr::Tax, base);
            d.x == c.a && zn_describes(c.status, d.status, c.a) && others_kept(c, d, Reg::X) && e == b && n == base
        }),
        ({
            let (d, e, n) = execute_spec(c, b, Instr::Tay, base);
            d.y == c.a && zn_describes(c.status, d.status, c.a) && others_kept(c, d, Reg::Y) && e == b && n == base
        }),
        ({
            let (d, e, n) = execute_spec(c, b, Instr::Txa, base);
            d.a == c.x && zn_describes(c.status, d.status, c.x) && others_kept(c, d, Reg::A) && e == b && n == base
        }),
        ({
            let (d, e, n) = execute_spec(c, b, Instr::Tya, base);
            d.a == c.y && zn_describes(c.status, d.status, c.y) && others_kept(c, d, Reg::A) && e == b && n == base
        }),
        ({
            let (d, e, n) = execute_spec(c, b, Instr::Tsx, base);
            d.x == c.sp && zn_describes(c.status, d.status, c.sp) && others_kept(c, d, Reg::X) && e == b && n == base
        }),
        ({
            let (d, e, n) = execute_spec(c, b, Instr::Txs, base);
            d == (CpuState { sp: c.x, ..c }) && e == b && n == base
        }),
        ({
            let (d, e, n) = execute_spec(c, b, Instr::Inx, base);
            d.x == (c.x + 1) % 256 && zn_describes(c.status, d.status, d.x) && others_kept(c, d, Reg::X) && e == b
        }),
        ({
            let (d, e, n) = execute_spec(c, b, Instr::Iny, base);
            d.y == (c.y + 1) % 256 && zn_describes(c.status, d.status, d.y) && others_kept(c, d, Reg::Y) && e == b
        }),
        ({
            let (d, e, n) = execute_spec(c, b, Instr::Dex, base);
            d.x == (c.x + 255) % 256 && zn_describes(c.status, d.status, d.x) && others_kept(c, d, Reg::X) && e == b
        }),
        ({
            let (d, e, n) = execute_spec(c, b, Instr::Dey, base);
            d.y == (c.y + 255) % 256 && zn_describes(c.status, d.status, d.y) && others_kept(c, d, Reg::Y) && e == b
        }),
{
    lemma_set_zn(c.status, c.a);
    lemma_set_zn(c.status, c.x);
    lemma_set_zn(c.status, c.y);
    lemma_set_zn(c.status, c.sp);
    lemma_set_zn(c.status, c.x.wrapping_add(1));
    lemma_set_zn(c.status, c.y.wrapping_add(1));
    lemma_set_zn(c.status, c.x.wrapping_sub(1));
    lemma_set_zn(c.status, c.y.wrapping_sub(1));
}

/// A load puts the operand into its register, with zero and negative describing
/// it; a store writes its register to the operand address. Neither touches
/// another register.
pub proof fn law_load_store(c: CpuState, b: BusModel, reg: Reg, mode: Mode, base: u8)
    ensures
        ({
            let (c1, b1, v) = read_operand(c, b, mode);
            let (d, e, n) = execute_spec(c, b, Instr::Load { reg, mode }, base);
            &&& reg_value(d, reg) == v
            &&& zn_describes(c.status, d.status, v)
            &&& others_kept(CpuState { pc: c1.pc, ..c }, d, reg)
            &&& e == b1
        }),
        ({
            let (c1, b1, addr) = operand_address(c, b, mode);
            let (d, e, n) = execute_spec(c, b, Instr::Store { reg, mode }, base);
            &&& e == bus_write(b1, addr, reg_value(c, reg))
            &&& d == CpuState { pc: c1.pc, ..c }
        }),
{
    let (c1, b1, v) = read_operand(c, b, mode);
    lemma_set_zn(c1.status, v);
    assert(c1 == CpuState { pc: c1.pc, ..c });
    let (c2, b2, addr) = operand_address(c, b, mode);
    assert(c2 == CpuState { pc: c2.pc, ..c });
}

/// SEC, CLC, SEI, CLI, SED, CLD and CLV set or clear exactly their flag.
pub proof fn law_flag_instructions(c: CpuState, b: BusModel, mask: u8, set: bool, base: u8)
    requires
        mask == CARRY || mask == IRQ_DISABLE || mask == DECIMAL || mask == OVERFLOW,
    ensures
        ({
            let (d, e, n) = execute_spec(c, b, Instr::Flag { mask, set }, base);
            &&& (d.status & mask != 0) == set
            &&& d.status & !mask == c.status & !mask
            &&& d == CpuState { status: d.status, ..c }
            &&& e == b
        }),
        decode_spec(0x18) == Some((Instr::Flag { mask: CARRY, set: false }, 2u8)),
        decode_spec(0x38) == Some((Instr::Flag { mask: CARRY, set: true }, 2u8)),
        decode_spec(0x58) == Some((Instr::Flag { mask: IRQ_DISABLE, set: false }, 2u8)),
        decode_spec(0x78) == Some((Instr::Flag { mask: IRQ_DISABLE, set: true }, 2u8)),
        decode_spec(0xb8) == Some((Instr::Flag { mask: OVERFLOW, set: false }, 2u8)),
        decode_spec(0xd8) == Some((Instr::Flag { mask: DECIMAL, set: false }, 2u8)),
        decode_spec(0xf8) == Some((Instr::Flag { mask: DECIMAL, set: true }, 2u8)),
{
    let st = c.status;
    let s = with_flag(st, mask, set);
    assert((s & mask != 0) == set && s & !mask == st & !mask) by (bit_vector)
        requires
            s == with_flag(st, mask, set),
            mask == 1 || mask == 4 || mask == 8 || mask == 0x40,
    ;
}

/// The flag a branch opcode tests: bits 7-6 pick N, V, C or Z.
pub open spec fn branch_flag(opcode: u8) -> u8 {
    let i = opcode / 64;
    if i == 0 {
        NEGATIVE
    } else if i == 1 {
        OVERFLOW
    } else if i == 2 {
        CARRY
    } else {
        ZERO
    }
}

/// The eight branch opcodes xxy10000: BPL, BMI, BVC, BVS, BCC, BCS, BNE, BEQ.
/// Bits 7-6 pick the flag and bit 5 says whether it must be set to branch.
pub proof fn law_branch_decoding(opcode: u8)
    requires
        opcode % 32 == 0x10,
    ensures
        decode_spec(opcode) == Some((Instr::Branch { mask: branch_flag(opcode), set: (opcode / 32) % 2 == 1 }, 2u8)),
{
    if opcode == 0x10 {
    } else if opcode == 0x30 {
    } else if opcode == 0x50 {
    } else if opcode == 0x70 {
    } else if opcode == 0x90 {
    } else if opcode == 0xb0 {
    } else if opcode == 0xd0 {
    } else if opcode == 0xf0 {
    }
}

/// A branch reads its offset byte. When the flag matches, it jumps by that
/// offset, read as a signed byte, from the next instruction and takes 3 cycles;
/// otherwise it goes on to the next instruction in 2. Nothing else changes.
pub proof fn law_branch_taken(c: CpuState, b: BusModel, mask: u8, set: bool, base: u8)
    ensures
        ({
            let (d, e, n) = execute_spec(c, b, Instr::Branch { mask, set }, base);
            let (b1, offset) = bus_read(b, c.pc);
            let taken = (c.status & mask != 0) == set;
            &&& d.pc == (c.pc + 2 + if taken { signed(offset) } else { 0 } - 1) % 0x10000
            &&& n == if taken { 3u8 } else { 2u8 }
            &&& d == CpuState { pc: d.pc, ..c }
            &&& e == b1
        }),
{
    let (b1, offset) = bus_read(b, c.pc);
    let o: i16 = offset as i8 as i16;
    assert(o == signed(offset)) by (bit_vector)
        requires
            o == offset as i8 as i16,
    ;
}

/// JSR followed, at its target, by RTS comes back to the instruction after the
/// JSR (three bytes on from the opcode) with the stack pointer where it was.
pub proof fn law_jsr_rts_returns(c: CpuState, b: BusModel, jsr_base: u8, rts_base: u8)
    requires
        bus_ok(b),
    ensures
        ({
            let (d, e, n) = execute_spec(c, b, Instr::Jsr, jsr_base);
            let (f, g, m) = execute_spec(d, e, Instr::Rts, rts_base);
            &&& f.pc == (c.pc + 2) % 0x10000
            &&& f.sp == c.sp
        }),
{
    let (c1, b1, lo) = fetch(c, b);
    lemma_bus_read_keeps_ok(b, c.pc);
    let (c2, b2, hi) = fetch(c1, b1);
    lemma_bus_read_keeps_ok(b1, c1.pc);
    law_push_word_pop_word_roundtrip(c2, b2, c2.pc.wrapping_sub(1));
}

/// PHA followed by PLA gives A back, with zero and negative describing it and
/// the stack pointer where it was.
pub proof fn law_pha_pla(c: CpuState, b: BusModel, pha_base: u8, pla_base: u8)
    requires
        bus_ok(b),
    ensures
        ({
            let (d, e, n) = execute_spec(c, b, Instr::Pha, pha_base);
            let (f, g, m) = execute_spec(d, e, Instr::Pla, pla_base);
            &&& f.a == c.a
            &&& f.sp == c.sp
            &&& zn_describes(c.status, f.status, c.a)
        }),
{
    law_push_pop_roundtrip(c, b, c.a);
    lemma_set_zn(c.status, c.a);
}

} // verus!
