//! Bits of the processor status register.
use vstd::prelude::*;

verus! {

pub const CARRY: u8 = 0x01;

pub const ZERO: u8 = 0x02;

pub const IRQ_DISABLE: u8 = 0x04;

pub const DECIMAL: u8 = 0x08;

pub const BREAK: u8 = 0x10;

pub const UNUSED: u8 = 0x20;

pub const OVERFLOW: u8 = 0x40;

pub const NEGATIVE: u8 = 0x80;

} // verus!
