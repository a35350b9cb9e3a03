//! The instruction set: what each opcode does, how it finds its operand, and its
//! base cycle count.
use super::status::{CARRY, DECIMAL, IRQ_DISABLE, NEGATIVE, OVERFLOW, ZERO};
use vstd::prelude::*;

verus! {

/// How an instruction finds its operand.
#[derive(Clone, Copy, Debug, PartialEq, Eq, Structural)]
pub enum Mode {
    Immediate,
    ZeroPage,
    ZeroPageX,
    ZeroPageY,
    Absolute,
    AbsoluteX,
    AbsoluteY,
    /// (zp,X)
    IndexedIndirect,
    /// (zp),Y
    IndirectIndexed,
}

#[derive(Clone, Copy, Debug, PartialEq, Eq, Structural)]
pub enum Reg {
    A,
    X,
    Y,
}

/// Operations that combine the accumulator with an operand.
#[derive(Clone, Copy, Debug, PartialEq, Eq, Structural)]
pub enum AluOp {
    Ora,
    And,
    Eor,
    Adc,
    Sbc,
}

#[derive(Clone, Copy, Debug, PartialEq, Eq, Structural)]
pub enum ShiftOp {
    Asl,
    Lsr,
    Rol,
    Ror,
}

#[derive(Clone, Copy, Debug, PartialEq, Eq, Structural)]
pub enum Instr {
    Brk,
    Nop,
    /// Sets or clears one status flag.
    Flag { mask: u8, set: bool },
    Load { reg: Reg, mode: Mode },
    Store { reg: Reg, mode: Mode },
    Tax,
    Tay,
    Txa,
    Tya,
    Tsx,
    Txs,
    Alu { op: AluOp, mode: Mode },
    Bit { mode: Mode },
    Compare { reg: Reg, mode: Mode },
    Increment { mode: Mode },
    Decrement { mode: Mode },
    Dex,
    Dey,
    Inx,
    Iny,
    Pha,
    Pla,
    Php,
    Plp,
    ShiftAccumulator { op: ShiftOp },
    ShiftMemory { op: ShiftOp, mode: Mode },
    Jmp,
    JmpIndirect,
    Jsr,
    Rts,
    Rti,
    /// Branches when the flag `mask` is set (`set`) or clear (`!set`).
    Branch { mask: u8, set: bool },
}

/// The instruction and base cycle count of each implemented opcode.
pub open spec fn decode_spec(opcode: u8) -> Option<(Instr, u8)> {
    match opcode {
        0x00 => Some((Instr::Brk, 7)),
        0x01 => Some((Instr::Alu { op: AluOp::Ora, mode: Mode::IndexedIndirect }, 6)),
        0x05 => Some((Instr::Alu { op: AluOp::Ora, mode: Mode::ZeroPage }, 3)),
        0x06 => Some((Instr::ShiftMemory { op: ShiftOp::Asl, mode: Mode::ZeroPage }, 5)),
        0x08 => Some((Instr::Php, 3)),
        0x09 => Some((Instr::Alu { op: AluOp::Ora, mode: Mode::Immediate }, 2)),
        0x0a => Some((Instr::ShiftAccumulator { op: ShiftOp::Asl }, 2)),
        0x0d => Some((Instr::Alu { op: AluOp::Ora, mode: Mode::Absolute }, 4)),
        0x0e => Some((Instr::ShiftMemory { op: ShiftOp::Asl, mode: Mode::Absolute }, 6)),
        0x10 => Some((Instr::Branch { mask: NEGATIVE, set: false }, 2)),
        0x11 => Some((Instr::Alu { op: AluOp::Ora, mode: Mode::IndirectIndexed }, 5)),
        0x15 => Some((Instr::Alu { op: AluOp::Ora, mode: Mode::ZeroPageX }, 4)),
        0x16 => Some((Instr::ShiftMemory { op: ShiftOp::Asl, mode: Mode::ZeroPageX }, 6)),
        0x18 => Some((Instr::Flag { mask: CARRY, set: false }, 2)),
        0x19 => Some((Instr::Alu { op: AluOp::Ora, mode: Mode::AbsoluteY }, 4)),
        0x1d => Some((Instr::Alu { op: AluOp::Ora, mode: Mode::AbsoluteX }, 4)),
        0x1e => Some((Instr::ShiftMemory { op: ShiftOp::Asl, mode: Mode::AbsoluteX }, 7)),
        0x20 => Some((Instr::Jsr, 6)),
        0x21 => Some((Instr::Alu { op: AluOp::And, mode: Mode::IndexedIndirect }, 6)),
        0x24 => Some((Instr::Bit { mode: Mode::ZeroPage }, 3)),
        0x25 => Some((Instr::Alu { op: AluOp::And, mode: Mode::ZeroPage }, 3)),
        0x26 => Some((Instr::ShiftMemory { op: ShiftOp::Rol, mode: Mode::ZeroPage }, 5)),
        0x28 => Some((Instr::Plp, 4)),
        0x29 => Some((Instr::Alu { op: AluOp::And, mode: Mode::Immediate }, 2)),
        0x2a => Some((Instr::ShiftAccumulator { op: ShiftOp::Rol }, 2)),
        0x2c => Some((Instr::Bit { mode: Mode::Absolute }, 4)),
        0x2d => Some((Instr::Alu { op: AluOp::And, mode: Mode::Absolute }, 4)),
        0x2e => Some((Instr::ShiftMemory { op: ShiftOp::Rol, mode: Mode::Absolute }, 6)),
        0x30 => Some((Instr::Branch { mask: NEGATIVE, set: true }, 2)),
        0x31 => Some((Instr::Alu { op: AluOp::And, mode: Mode::IndirectIndexed }, 5)),
        0x35 => Some((Instr::Alu { op: AluOp::And, mode: Mode::ZeroPageX }, 4)),
        0x36 => Some((Instr::ShiftMemory { op: ShiftOp::Rol, mode: Mode::ZeroPageX }, 6)),
        0x38 => Some((Instr::Flag { mask: CARRY, set: true }, 2)),
        0x39 => Some((Instr::Alu { op: AluOp::And, mode: Mode::AbsoluteY }, 4)),
        0x3d => Some((Instr::Alu { op: AluOp::And, mode: Mode::AbsoluteX }, 4)),
        0x3e => Some((Instr::ShiftMemory { op: ShiftOp::Rol, mode: Mode::AbsoluteX }, 7)),
        0x40 => Some((Instr::Rti, 6)),
        0x41 => Some((Instr::Alu { op: AluOp::Eor, mode: Mode::IndexedIndirect }, 6)),
        0x45 => Some((Instr::Alu { op: AluOp::Eor, mode: Mode::ZeroPage }, 3)),
        0x46 => Some((Instr::ShiftMemory { op: ShiftOp::Lsr, mode: Mode::ZeroPage }, 5)),
        0x48 => Some((Instr::Pha, 3)),
        0x49 => Some((Instr::Alu { op: AluOp::Eor, mode: Mode::Immediate }, 2)),
        0x4a => Some((Instr::ShiftAccumulator { op: ShiftOp::Lsr }, 2)),
        0x4c => Some((Instr::Jmp, 3)),
        0x4d => Some((Instr::Alu { op: AluOp::Eor, mode: Mode::Absolute }, 4)),
        0x4e => Some((Instr::ShiftMemory { op: ShiftOp::Lsr, mode: Mode::Absolute }, 6)),
        0x50 => Some((Instr::Branch { mask: OVERFLOW, set: false }, 2)),
        0x51 => Some((Instr::Alu { op: AluOp::Eor, mode: Mode::IndirectIndexed }, 5)),
        0x55 => Some((Instr::Alu { op: AluOp::Eor, mode: Mode::ZeroPageX }, 4)),
        0x56 => Some((Instr::ShiftMemory { op: ShiftOp::Lsr, mode: Mode::ZeroPageX }, 6)),
        0x58 => Some((Instr::Flag { mask: IRQ_DISABLE, set: false }, 2)),
        0x59 => Some((Instr::Alu { op: AluOp::Eor, mode: Mode::AbsoluteY }, 4)),
        0x5d => Some((Instr::Alu { op: AluOp::Eor, mode: Mode::AbsoluteX }, 4)),
        0x5e => Some((Instr::ShiftMemory { op: ShiftOp::Lsr, mode: Mode::AbsoluteX }, 7)),
        0x60 => Some((Instr::Rts, 6)),
        0x61 => Some((Instr::Alu { op: AluOp::Adc, mode: Mode::IndexedIndirect }, 6)),
        0x65 => Some((Instr::Alu { op: AluOp::Adc, mode: Mode::ZeroPage }, 3)),
        0x66 => Some((Instr::ShiftMemory { op: ShiftOp::Ror, mode: Mode::ZeroPage }, 5)),
        0x68 => Some((Instr::Pla, 4)),
        0x69 => Some((Instr::Alu { op: AluOp::Adc, mode: Mode::Immediate }, 2)),
        0x6a => Some((Instr::ShiftAccumulator { op: ShiftOp::Ror }, 2)),
        0x6c => Some((Instr::JmpIndirect, 5)),
        0x6d => Some((Instr::Alu { op: AluOp::Adc, mode: Mode::Absolute }, 4)),
        0x6e => Some((Instr::ShiftMemory { op: ShiftOp::Ror, mode: Mode::Absolute }, 6)),
        0x70 => Some((Instr::Branch { mask: OVERFLOW, set: true }, 2)),
        0x71 => Some((Instr::Alu { op: AluOp::Adc, mode: Mode::IndirectIndexed }, 5)),
        0x75 => Some((Instr::Alu { op: AluOp::Adc, mode: Mode::ZeroPageX }, 4)),
        0x76 => Some((Instr::ShiftMemory { op: ShiftOp::Ror, mode: Mode::ZeroPageX }, 6)),
        0x78 => Some((Instr::Flag { mask: IRQ_DISABLE, set: true }, 2)),
        0x79 => Some((Instr::Alu { op: AluOp::Adc, mode: Mode::AbsoluteY }, 4)),
        0x7d => Some((Instr::Alu { op: AluOp::Adc, mode: Mode::AbsoluteX }, 4)),
        0x7e => Some((Instr::ShiftMemory { op: ShiftOp::Ror, mode: Mode::AbsoluteX }, 7)),
        0x81 => Some((Instr::Store { reg: Reg::A, mode: Mode::IndexedIndirect }, 6)),
        0x84 => Some((Instr::Store { reg: Reg::Y, mode: Mode::ZeroPage }, 3)),
        0x85 => Some((Instr::Store { reg: Reg::A, mode: Mode::ZeroPage }, 3)),
        0x86 => Some((Instr::Store { reg: Reg::X, mode: Mode::ZeroPage }, 3)),
        0x88 => Some((Instr::Dey, 2)),
        0x8a => Some((Instr::Txa, 2)),
        0x8c => Some((Instr::Store { reg: Reg::Y, mode: Mode::Absolute }, 4)),
        0x8d => Some((Instr::Store { reg: Reg::A, mode: Mode::Absolute }, 4)),
        0x8e => Some((Instr::Store { reg: Reg::X, mode: Mode::Absolute }, 4)),
        0x90 => Some((Instr::Branch { mask: CARRY, set: false }, 2)),
        0x91 => Some((Instr::Store { reg: Reg::A, mode: Mode::IndirectIndexed }, 6)),
        0x94 => Some((Instr::Store { reg: Reg::Y, mode: Mode::ZeroPageX }, 4)),
        0x95 => Some((Instr::Store { reg: Reg::A, mode: Mode::ZeroPageX }, 4)),
        0x96 => Some((Instr::Store { reg: Reg::X, mode: Mode::ZeroPageY }, 4)),
        0x98 => Some((Instr::Tya, 2)),
        0x99 => Some((Instr::Store { reg: Reg::A, mode: Mode::AbsoluteY }, 5)),
        0x9a => Some((Instr::Txs, 2)),
        0x9d => Some((Instr::Store { reg: Reg::A, mode: Mode::AbsoluteX }, 5)),
        0xa0 => Some((Instr::Load { reg: Reg::Y, mode: Mode::Immediate }, 2)),
        0xa1 => Some((Instr::Load { reg: Reg::A, mode: Mode::IndexedIndirect }, 6)),
        0xa2 => Some((Instr::Load { reg: Reg::X, mode: Mode::Immediate }, 2)),
        0xa4 => Some((Instr::Load { reg: Reg::Y, mode: Mode::ZeroPage }, 3)),
        0xa5 => Some((Instr::Load { reg: Reg::A, mode: Mode::ZeroPage }, 3)),
        0xa6 => Some((Instr::Load { reg: Reg::X, mode: Mode::ZeroPage }, 3)),
        0xa8 => Some((Instr::Tay, 2)),
        0xa9 => Some((Instr::Load { reg: Reg::A, mode: Mode::Immediate }, 2)),
        0xaa => Some((Instr::Tax, 2)),
        0xac => Some((Instr::Load { reg: Reg::Y, mode: Mode::Absolute }, 4)),
        0xad => Some((Instr::Load { reg: Reg::A, mode: Mode::Absolute }, 4)),
        0xae => Some((Instr::Load { reg: Reg::X, mode: Mode::Absolute }, 4)),
        0xb0 => Some((Instr::Branch { mask: CARRY, set: true }, 2)),
        0xb1 => Some((Instr::Load { reg: Reg::A, mode: Mode::IndirectIndexed }, 5)),
        0xb4 => Some((Instr::Load { reg: Reg::Y, mode: Mode::ZeroPageX }, 4)),
        0xb5 => Some((Instr::Load { reg: Reg::A, mode: Mode::ZeroPageX }, 4)),
        0xb6 => Some((Instr::Load { reg: Reg::X, mode: Mode::ZeroPageY }, 4)),
        0xb8 => Some((Instr::Flag { mask: OVERFLOW, set: false }, 2)),
        0xb9 => Some((Instr::Load { reg: Reg::A, mode: Mode::AbsoluteY }, 4)),
        0xba => Some((Instr::Tsx, 2)),
        0xbc => Some((Instr::Load { reg: Reg::Y, mode: Mode::AbsoluteX }, 4)),
        0xbd => Some((Instr::Load { reg: Reg::A, mode: Mode::AbsoluteX }, 4)),
        0xbe => Some((Instr::Load { reg: Reg::X, mode: Mode::AbsoluteY }, 4)),
        0xc0 => Some((Instr::Compare { reg: Reg::Y, mode: Mode::Immediate }, 2)),
        0xc1 => Some((Instr::Compare { reg: Reg::A, mode: Mode::IndexedIndirect }, 6)),
        0xc4 => Some((Instr::Compare { reg: Reg::Y, mode: Mode::ZeroPage }, 3)),
        0xc5 => Some((Instr::Compare { reg: Reg::A, mode: Mode::ZeroPage }, 3)),
        0xc6 => Some((Instr::Decrement { mode: Mode::ZeroPage }, 5)),
        0xc8 => Some((Instr::Iny, 2)),
        0xc9 => Some((Instr::Compare { reg: Reg::A, mode: Mode::Immediate }, 2)),
        0xca => Some((Instr::Dex, 2)),
        0xcc => Some((Instr::Compare { reg: Reg::Y, mode: Mode::Absolute }, 4)),
        0xcd => Some((Instr::Compare { reg: Reg::A, mode: Mode::Absolute }, 4)),
        0xce => Some((Instr::Decrement { mode: Mode::Absolute }, 6)),
        0xd0 => Some((Instr::Branch { mask: ZERO, set: false }, 2)),
        0xd1 => Some((Instr::Compare { reg: Reg::A, mode: Mode::IndirectIndexed }, 5)),
        0xd5 => Some((Instr::Compare { reg: Reg::A, mode: Mode::ZeroPageX }, 4)),
        0xd6 => Some((Instr::Decrement { mode: Mode::ZeroPageX }, 6)),
        0xd8 => Some((Instr::Flag { mask: DECIMAL, set: false }, 2)),
        0xd9 => Some((Instr::Compare { reg: Reg::A, mode: Mode::AbsoluteY }, 4)),
        0xdd => Some((Instr::Compare { reg: Reg::A, mode: Mode::AbsoluteX }, 4)),
        0xde => Some((Instr::Decrement { mode: Mode::AbsoluteX }, 7)),
        0xe0 => Some((Instr::Compare { reg: Reg::X, mode: Mode::Immediate }, 2)),
        0xe1 => Some((Instr::Alu { op: AluOp::Sbc, mode: Mode::IndexedIndirect }, 6)),
        0xe4 => Some((Instr::Compare { reg: Reg::X, mode: Mode::ZeroPage }, 3)),
        0xe5 => Some((Instr::Alu { op: AluOp::Sbc, mode: Mode::ZeroPage }, 3)),
        0xe6 => Some((Instr::Increment { mode: Mode::ZeroPage }, 5)),
        0xe8 => Some((Instr::Inx, 2)),
        0xe9 => Some((Instr::Alu { op: AluOp::Sbc, mode: Mode::Immediate }, 2)),
        0xea => Some((Instr::Nop, 2)),
        0xeb => Some((Instr::Alu { op: AluOp::Sbc, mode: Mode::Immediate }, 2)),
        0xec => Some((Instr::Compare { reg: Reg::X, mode: Mode::Absolute }, 4)),
        0xed => Some((Instr::Alu { op: AluOp::Sbc, mode: Mode::Absolute }, 4)),
        0xee => Some((Instr::Increment { mode: Mode::Absolute }, 6)),
        0xf0 => Some((Instr::Branch { mask: ZERO, set: true }, 2)),
        0xf1 => Some((Instr::Alu { op: AluOp::Sbc, mode: Mode::IndirectIndexed }, 5)),
        0xf5 => Some((Instr::Alu { op: AluOp::Sbc, mode: Mode::ZeroPageX }, 4)),
        0xf6 => Some((Instr::Increment { mode: Mode::ZeroPageX }, 6)),
        0xf8 => Some((Instr::Flag { mask: DECIMAL, set: true }, 2)),
        0xf9 => Some((Instr::Alu { op: AluOp::Sbc, mode: Mode::AbsoluteY }, 4)),
        0xfd => Some((Instr::Alu { op: AluOp::Sbc, mode: Mode::AbsoluteX }, 4)),
        0xfe => Some((Instr::Increment { mode: Mode::AbsoluteX }, 7)),
        _ => None,
    }
}

/// Looks an opcode up in the instruction table.
pub fn decode(opcode: u8) -> (r: Option<(Instr, u8)>)
    ensures
        r == decode_spec(opcode),
{
    match opcode {
        0x00 => Some((Instr::Brk, 7)),
        0x01 => Some((Instr::Alu { op: AluOp::Ora, mode: Mode::IndexedIndirect }, 6)),
        0x05 => Some((Instr::Alu { op: AluOp::Ora, mode: Mode::ZeroPage }, 3)),
        0x06 => Some((Instr::ShiftMemory { op: ShiftOp::Asl, mode: Mode::ZeroPage }, 5)),
        0x08 => Some((Instr::Php, 3)),
        0x09 => Some((Instr::Alu { op: AluOp::Ora, mode: Mode::Immediate }, 2)),
        0x0a => Some((Instr::ShiftAccumulator { op: ShiftOp::Asl }, 2)),
        0x0d => Some((Instr::Alu { op: AluOp::Ora, mode: Mode::Absolute }, 4)),
        0x0e => Some((Instr::ShiftMemory { op: ShiftOp::Asl, mode: Mode::Absolute }, 6)),
        0x10 => Some((Instr::Branch { mask: NEGATIVE, set: false }, 2)),
        0x11 => Some((Instr::Alu { op: AluOp::Ora, mode: Mode::IndirectIndexed }, 5)),
        0x15 => Some((Instr::Alu { op: AluOp::Ora, mode: Mode::ZeroPageX }, 4)),
        0x16 => Some((Instr::ShiftMemory { op: ShiftOp::Asl, mode: Mode::ZeroPageX }, 6)),
        0x18 => Some((Instr::Flag { mask: CARRY, set: false }, 2)),
        0x19 => Some((Instr::Alu { op: AluOp::Ora, mode: Mode::AbsoluteY }, 4)),
        0x1d => Some((Instr::Alu { op: AluOp::Ora, mode: Mode::AbsoluteX }, 4)),
        0x1e => Some((Instr::ShiftMemory { op: ShiftOp::Asl, mode: Mode::AbsoluteX }, 7)),
        0x20 => Some((Instr::Jsr, 6)),
        0x21 => Some((Instr::Alu { op: AluOp::And, mode: Mode::IndexedIndirect }, 6)),
        0x24 => Some((Instr::Bit { mode: Mode::ZeroPage }, 3)),
        0x25 => Some((Instr::Alu { op: AluOp::And, mode: Mode::ZeroPage }, 3)),
        0x26 => Some((Instr::ShiftMemory { op: ShiftOp::Rol, mode: Mode::ZeroPage }, 5)),
        0x28 => Some((Instr::Plp, 4)),
        0x29 => Some((Instr::Alu { op: AluOp::And, mode: Mode::Immediate }, 2)),
        0x2a => Some((Instr::ShiftAccumulator { op: ShiftOp::Rol }, 2)),
        0x2c => Some((Instr::Bit { mode: Mode::Absolute }, 4)),
        0x2d => Some((Instr::Alu { op: AluOp::And, mode: Mode::Absolute }, 4)),
        0x2e => Some((Instr::ShiftMemory { op: ShiftOp::Rol, mode: Mode::Absolute }, 6)),
        0x30 => Some((Instr::Branch { mask: NEGATIVE, set: true }, 2)),
        0x31 => Some((Instr::Alu { op: AluOp::And, mode: Mode::IndirectIndexed }, 5)),
        0x35 => Some((Instr::Alu { op: AluOp::And, mode: Mode::ZeroPageX }, 4)),
        0x36 => Some((Instr::ShiftMemory { op: ShiftOp::Rol, mode: Mode::ZeroPageX }, 6)),
        0x38 => Some((Instr::Flag { mask: CARRY, set: true }, 2)),
        0x39 => Some((Instr::Alu { op: AluOp::And, mode: Mode::AbsoluteY }, 4)),
        0x3d => Some((Instr::Alu { op: AluOp::And, mode: Mode::AbsoluteX }, 4)),
        0x3e => Some((Instr::ShiftMemory { op: ShiftOp::Rol, mode: Mode::AbsoluteX }, 7)),
        0x40 => Some((Instr::Rti, 6)),
        0x41 => Some((Instr::Alu { op: AluOp::Eor, mode: Mode::IndexedIndirect }, 6)),
        0x45 => Some((Instr::Alu { op: AluOp::Eor, mode: Mode::ZeroPage }, 3)),
        0x46 => Some((Instr::ShiftMemory { op: ShiftOp::Lsr, mode: Mode::ZeroPage }, 5)),
        0x48 => Some((Instr::Pha, 3)),
        0x49 => Some((Instr::Alu { op: AluOp::Eor, mode: Mode::Immediate }, 2)),
        0x4a => Some((Instr::ShiftAccumulator { op: ShiftOp::Lsr }, 2)),
        0x4c => Some((Instr::Jmp, 3)),
        0x4d => Some((Instr::Alu { op: AluOp::Eor, mode: Mode::Absolute }, 4)),
        0x4e => Some((Instr::ShiftMemory { op: ShiftOp::Lsr, mode: Mode::Absolute }, 6)),
        0x50 => Some((Instr::Branch { mask: OVERFLOW, set: false }, 2)),
        0x51 => Some((Instr::Alu { op: AluOp::Eor, mode: Mode::IndirectIndexed }, 5)),
        0x55 => Some((Instr::Alu { op: AluOp::Eor, mode: Mode::ZeroPageX }, 4)),
        0x56 => Some((Instr::ShiftMemory { op: ShiftOp::Lsr, mode: Mode::ZeroPageX }, 6)),
        0x58 => Some((Instr::Flag { mask: IRQ_DISABLE, set: false }, 2)),
        0x59 => Some((Instr::Alu { op: AluOp::Eor, mode: Mode::AbsoluteY }, 4)),
        0x5d => Some((Instr::Alu { op: AluOp::Eor, mode: Mode::AbsoluteX }, 4)),
        0x5e => Some((Instr::ShiftMemory { op: ShiftOp::Lsr, mode: Mode::AbsoluteX }, 7)),
        0x60 => Some((Instr::Rts, 6)),
        0x61 => Some((Instr::Alu { op: AluOp::Adc, mode: Mode::IndexedIndirect }, 6)),
        0x65 => Some((Instr::Alu { op: AluOp::Adc, mode: Mode::ZeroPage }, 3)),
        0x66 => Some((Instr::ShiftMemory { op: ShiftOp::Ror, mode: Mode::ZeroPage }, 5)),
        0x68 => Some((Instr::Pla, 4)),
        0x69 => Some((Instr::Alu { op: AluOp::Adc, mode: Mode::Immediate }, 2)),
        0x6a => Some((Instr::ShiftAccumulator { op: ShiftOp::Ror }, 2)),
        0x6c => Some((Instr::JmpIndirect, 5)),
        0x6d => Some((Instr::Alu { op: AluOp::Adc, mode: Mode::Absolute }, 4)),
        0x6e => Some((Instr::ShiftMemory { op: ShiftOp::Ror, mode: Mode::Absolute }, 6)),
        0x70 => Some((Instr::Branch { mask: OVERFLOW, set: true }, 2)),
        0x71 => Some((Instr::Alu { op: AluOp::Adc, mode: Mode::IndirectIndexed }, 5)),
        0x75 => Some((Instr::Alu { op: AluOp::Adc, mode: Mode::ZeroPageX }, 4)),
        0x76 => Some((Instr::ShiftMemory { op: ShiftOp::Ror, mode: Mode::ZeroPageX }, 6)),
        0x78 => Some((Instr::Flag { mask: IRQ_DISABLE, set: true }, 2)),
        0x79 => Some((Instr::Alu { op: AluOp::Adc, mode: Mode::AbsoluteY }, 4)),
        0x7d => Some((Instr::Alu { op: AluOp::Adc, mode: Mode::AbsoluteX }, 4)),
        0x7e => Some((Instr::ShiftMemory { op: ShiftOp::Ror, mode: Mode::AbsoluteX }, 7)),
        0x81 => Some((Instr::Store { reg: Reg::A, mode: Mode::IndexedIndirect }, 6)),
        0x84 => Some((Instr::Store { reg: Reg::Y, mode: Mode::ZeroPage }, 3)),
        0x85 => Some((Instr::Store { reg: Reg::A, mode: Mode::ZeroPage }, 3)),
        0x86 => Some((Instr::Store { reg: Reg::X, mode: Mode::ZeroPage }, 3)),
        0x88 => Some((Instr::Dey, 2)),
        0x8a => Some((Instr::Txa, 2)),
        0x8c => Some((Instr::Store { reg: Reg::Y, mode: Mode::Absolute }, 4)),
        0x8d => Some((Instr::Store { reg: Reg::A, mode: Mode::Absolute }, 4)),
        0x8e => Some((Instr::Store { reg: Reg::X, mode: Mode::Absolute }, 4)),
        0x90 => Some((Instr::Branch { mask: CARRY, set: false }, 2)),
        0x91 => Some((Instr::Store { reg: Reg::A, mode: Mode::IndirectIndexed }, 6)),
        0x94 => Some((Instr::Store { reg: Reg::Y, mode: Mode::ZeroPageX }, 4)),
        0x95 => Some((Instr::Store { reg: Reg::A, mode: Mode::ZeroPageX }, 4)),
        0x96 => Some((Instr::Store { reg: Reg::X, mode: Mode::ZeroPageY }, 4)),
        0x98 => Some((Instr::Tya, 2)),
        0x99 => Some((Instr::Store { reg: Reg::A, mode: Mode::AbsoluteY }, 5)),
        0x9a => Some((Instr::Txs, 2)),
        0x9d => Some((Instr::Store { reg: Reg::A, mode: Mode::AbsoluteX }, 5)),
        0xa0 => Some((Instr::Load { reg: Reg::Y, mode: Mode::Immediate }, 2)),
        0xa1 => Some((Instr::Load { reg: Reg::A, mode: Mode::IndexedIndirect }, 6)),
        0xa2 => Some((Instr::Load { reg: Reg::X, mode: Mode::Immediate }, 2)),
        0xa4 => Some((Instr::Load { reg: Reg::Y, mode: Mode::ZeroPage }, 3)),
        0xa5 => Some((Instr::Load { reg: Reg::A, mode: Mode::ZeroPage }, 3)),
        0xa6 => Some((Instr::Load { reg: Reg::X, mode: Mode::ZeroPage }, 3)),
        0xa8 => Some((Instr::Tay, 2)),
        0xa9 => Some((Instr::Load { reg: Reg::A, mode: Mode::Immediate }, 2)),
        0xaa => Some((Instr::Tax, 2)),
        0xac => Some((Instr::Load { reg: Reg::Y, mode: Mode::Absolute }, 4)),
        0xad => Some((Instr::Load { reg: Reg::A, mode: Mode::Absolute }, 4)),
        0xae => Some((Instr::Load { reg: Reg::X, mode: Mode::Absolute }, 4)),
        0xb0 => Some((Instr::Branch { mask: CARRY, set: true }, 2)),
        0xb1 => Some((Instr::Load { reg: Reg::A, mode: Mode::IndirectIndexed }, 5)),
        0xb4 => Some((Instr::Load { reg: Reg::Y, mode: Mode::ZeroPageX }, 4)),
        0xb5 => Some((Instr::Load { reg: Reg::A, mode: Mode::ZeroPageX }, 4)),
        0xb6 => Some((Instr::Load { reg: Reg::X, mode: Mode::ZeroPageY }, 4)),
        0xb8 => Some((Instr::Flag { mask: OVERFLOW, set: false }, 2)),
        0xb9 => Some((Instr::Load { reg: Reg::A, mode: Mode::AbsoluteY }, 4)),
        0xba => Some((Instr::Tsx, 2)),
        0xbc => Some((Instr::Load { reg: Reg::Y, mode: Mode::AbsoluteX }, 4)),
        0xbd => Some((Instr::Load { reg: Reg::A, mode: Mode::AbsoluteX }, 4)),
        0xbe => Some((Instr::Load { reg: Reg::X, mode: Mode::AbsoluteY }, 4)),
        0xc0 => Some((Instr::Compare { reg: Reg::Y, mode: Mode::Immediate }, 2)),
        0xc1 => Some((Instr::Compare { reg: Reg::A, mode: Mode::IndexedIndirect }, 6)),
        0xc4 => Some((Instr::Compare { reg: Reg::Y, mode: Mode::ZeroPage }, 3)),
        0xc5 => Some((Instr::Compare { reg: Reg::A, mode: Mode::ZeroPage }, 3)),
        0xc6 => Some((Instr::Decrement { mode: Mode::ZeroPage }, 5)),
        0xc8 => Some((Instr::Iny, 2)),
        0xc9 => Some((Instr::Compare { reg: Reg::A, mode: Mode::Immediate }, 2)),
        0xca => Some((Instr::Dex, 2)),
        0xcc => Some((Instr::Compare { reg: Reg::Y, mode: Mode::Absolute }, 4)),
        0xcd => Some((Instr::Compare { reg: Reg::A, mode: Mode::Absolute }, 4)),
        0xce => Some((Instr::Decrement { mode: Mode::Absolute }, 6)),
        0xd0 => Some((Instr::Branch { mask: ZERO, set: false }, 2)),
        0xd1 => Some((Instr::Compare { reg: Reg::A, mode: Mode::IndirectIndexed }, 5)),
        0xd5 => Some((Instr::Compare { reg: Reg::A, mode: Mode::ZeroPageX }, 4)),
        0xd6 => Some((Instr::Decrement { mode: Mode::ZeroPageX }, 6)),
        0xd8 => Some((Instr::Flag { mask: DECIMAL, set: false }, 2)),
        0xd9 => Some((Instr::Compare { reg: Reg::A, mode: Mode::AbsoluteY }, 4)),
        0xdd => Some((Instr::Compare { reg: Reg::A, mode: Mode::AbsoluteX }, 4)),
        0xde => Some((Instr::Decrement { mode: Mode::AbsoluteX }, 7)),
        0xe0 => Some((Instr::Compare { reg: Reg::X, mode: Mode::Immediate }, 2)),
        0xe1 => Some((Instr::Alu { op: AluOp::Sbc, mode: Mode::IndexedIndirect }, 6)),
        0xe4 => Some((Instr::Compare { reg: Reg::X, mode: Mode::ZeroPage }, 3)),
        0xe5 => Some((Instr::Alu { op: AluOp::Sbc, mode: Mode::ZeroPage }, 3)),
        0xe6 => Some((Instr::Increment { mode: Mode::ZeroPage }, 5)),
        0xe8 => Some((Instr::Inx, 2)),
        0xe9 => Some((Instr::Alu { op: AluOp::Sbc, mode: Mode::Immediate }, 2)),
        0xea => Some((Instr::Nop, 2)),
        0xeb => Some((Instr::Alu { op: AluOp::Sbc, mode: Mode::Immediate }, 2)),
        0xec => Some((Instr::Compare { reg: Reg::X, mode: Mode::Absolute }, 4)),
        0xed => Some((Instr::Alu { op: AluOp::Sbc, mode: Mode::Absolute }, 4)),
        0xee => Some((Instr::Increment { mode: Mode::Absolute }, 6)),
        0xf0 => Some((Instr::Branch { mask: ZERO, set: true }, 2)),
        0xf1 => Some((Instr::Alu { op: AluOp::Sbc, mode: Mode::IndirectIndexed }, 5)),
        0xf5 => Some((Instr::Alu { op: AluOp::Sbc, mode: Mode::ZeroPageX }, 4)),
        0xf6 => Some((Instr::Increment { mode: Mode::ZeroPageX }, 6)),
        0xf8 => Some((Instr::Flag { mask: DECIMAL, set: true }, 2)),
        0xf9 => Some((Instr::Alu { op: AluOp::Sbc, mode: Mode::AbsoluteY }, 4)),
        0xfd => Some((Instr::Alu { op: AluOp::Sbc, mode: Mode::AbsoluteX }, 4)),
        0xfe => Some((Instr::Increment { mode: Mode::AbsoluteX }, 7)),
        _ => None,
    }
}

} // verus!
