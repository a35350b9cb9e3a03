//! The audio unit's register file: what the CPU writes to $4000-$4017, the channel
//! enable bits read back from $4015, and the length counters. Sample synthesis,
//! which runs on floating point, is done outside the library from the stream of
//! `ApuEvent`s that the bus records.
use vstd::prelude::*;

verus! {

/// Length counter loads, indexed by bits 7-3 of the channel's high timer register.
pub const LENGTH_TABLE: [u8; 32] = [
    10, 254, 20, 2, 40, 4, 80, 6, 160, 8, 60, 10, 14, 12, 26, 14, 12, 16, 24, 18, 48, 20, 96, 22,
    192, 24, 72, 26, 16, 28, 32, 30,
];

#[derive(Clone, Copy, Debug, PartialEq, Eq, Structural)]
pub enum Channel {
    Pulse1,
    Pulse2,
    Triangle,
    Noise,
    Dmc,
}

impl Channel {
    /// The channel's bit in the $4015 enable register.
    pub fn enable_mask(self) -> (r: u8)
        ensures
            r == match self {
                Channel::Pulse1 => 0x01u8,
                Channel::Pulse2 => 0x02u8,
                Channel::Triangle => 0x04u8,
                Channel::Noise => 0x08u8,
                Channel::Dmc => 0x10u8,
            },
    {
        match self {
            Channel::Pulse1 => 0x01,
            Channel::Pulse2 => 0x02,
            Channel::Triangle => 0x04,
            Channel::Noise => 0x08,
            Channel::Dmc => 0x10,
        }
    }
}

pub open spec fn length_load_spec(value: u8) -> u8 {
    LENGTH_TABLE[(value >> 3u8) as int]
}

pub fn length_counter_load(value: u8) -> (r: u8)
    ensures
        r == length_load_spec(value),
{
    assert(value >> 3u8 < 32) by (bit_vector);
    LENGTH_TABLE[(value >> 3u8) as usize]
}

/// One step of the noise channel's 15-bit shift register: shift right, and feed
/// bit 0 xor bit 1 (bit 6 in short mode) into bit 14.
pub fn noise_shift_step(shift: u16, short_mode: bool) -> (r: u16)
    ensures
        r == ((shift >> 1u16) | ((((shift ^ (shift >> (if short_mode { 6u16 } else { 1u16 }))) & 1u16)
            << 14u16))),
{
    let tap: u16 = if short_mode {
        6
    } else {
        1
    };
    let feedback = (shift ^ (shift >> tap)) & 1;
    (shift >> 1u16) | (feedback << 14u16)
}

/// One input to the audio synthesizer, in the order the CPU produced it.
#[derive(Clone, Copy, Debug, PartialEq, Eq, Structural)]
pub enum ApuEvent {
    /// A CPU write to an audio register.
    Write { addr: u16, value: u8 },
    /// CPU cycles that elapsed while the audio unit had a channel enabled.
    Clock { cycles: u8 },
}

/// The CPU-visible audio registers and the length counters.
#[derive(Clone, Debug, PartialEq, Eq)]
pub struct ApuRegisters {
    registers: [u8; 0x18],
    enabled: u8,
    length_counters: [u8; 4],
}

#[verifier::ext_equal]
pub struct ApuModel {
    pub registers: Seq<u8>,
    pub enabled: u8,
    pub length_counters: Seq<u8>,
}

impl View for ApuRegisters {
    type V = ApuModel;

    closed spec fn view(&self) -> ApuModel {
        ApuModel {
            registers: self.registers@,
            enabled: self.enabled,
            length_counters: self.length_counters@,
        }
    }
}

/// A CPU read of an audio register: $4015 reports the enable bits, the other
/// registers read back what was written.
pub open spec fn apu_read_spec(a: ApuModel, addr: u16) -> u8 {
    if addr == 0x4015 {
        a.enabled
    } else if 0x4000 <= addr <= 0x4017 {
        a.registers[addr - 0x4000]
    } else {
        0
    }
}

/// The length counters after a write to $4015: disabled channels are silenced.
pub open spec fn counters_after_enable(counters: Seq<u8>, enabled: u8) -> Seq<u8> {
    Seq::new(4, |ch: int| if enabled & (1u8 << (ch as u8)) == 0 { 0u8 } else { counters[ch] })
}

/// A CPU write to an audio register.
pub open spec fn apu_write_spec(a: ApuModel, addr: u16, value: u8) -> ApuModel {
    let enabled = if addr == 0x4015 {
        value & 0x1f
    } else {
        a.enabled
    };
    let counters = if addr == 0x4015 {
        counters_after_enable(a.length_counters, enabled)
    } else {
        a.length_counters
    };
    let registers = if 0x4000 <= addr <= 0x4017 {
        a.registers.update(addr - 0x4000, value)
    } else {
        a.registers
    };
    let counters = if addr == 0x4003 {
        counters.update(0, length_load_spec(value))
    } else if addr == 0x4007 {
        counters.update(1, length_load_spec(value))
    } else if addr == 0x400b {
        counters.update(2, length_load_spec(value))
    } else if addr == 0x400f {
        counters.update(3, length_load_spec(value))
    } else {
        counters
    };
    ApuModel { registers, enabled, length_counters: counters }
}

/// Whether a channel's length counter is halted by its control register.
pub open spec fn length_halted(registers: Seq<u8>, channel: int) -> bool {
    if channel == 0 {
        registers[0x00] & 0x20 != 0
    } else if channel == 1 {
        registers[0x04] & 0x20 != 0
    } else if channel == 2 {
        registers[0x08] & 0x80 != 0
    } else {
        registers[0x0c] & 0x20 != 0
    }
}

/// A quarter-frame clock: every running, non-halted length counter counts down.
pub open spec fn clocked_counters(a: ApuModel) -> Seq<u8> {
    Seq::new(
        4,
        |ch: int|
            if !length_halted(a.registers, ch) && a.length_counters[ch] > 0 {
                (a.length_counters[ch] - 1) as u8
            } else {
                a.length_counters[ch]
            },
    )
}

/// Length counters rebuilt from the high timer registers of the enabled channels.
pub open spec fn rebuilt_counters(a: ApuModel) -> Seq<u8> {
    Seq::new(
        4,
        |ch: int|
            if a.enabled & (1u8 << (ch as u8)) != 0 {
                length_load_spec(a.registers[ch * 4 + 3])
            } else {
                a.length_counters[ch]
            },
    )
}

/// The register file after loading saved values: when channels are enabled but
/// every length counter is zero, the counters are reloaded from the registers.
pub open spec fn restored_apu(m: ApuModel) -> ApuModel {
    if m.enabled != 0 && m.length_counters == Seq::new(4, |i: int| 0u8) {
        ApuModel { length_counters: rebuilt_counters(m), ..m }
    } else {
        m
    }
}

impl ApuRegisters {
    pub open spec fn sizes_ok(m: ApuModel) -> bool {
        m.registers.len() == 0x18 && m.length_counters.len() == 4
    }

    pub proof fn lemma_sizes(&self)
        ensures
            Self::sizes_ok(self@),
    {
    }

    pub fn new() -> (r: Self)
        ensures
            r@.registers == Seq::new(0x18, |i: int| 0u8),
            r@.enabled == 0,
            r@.length_counters == Seq::new(4, |i: int| 0u8),
    {
        let r = ApuRegisters { registers: [0; 0x18], enabled: 0, length_counters: [0; 4] };
        assert(r@.registers =~= Seq::new(0x18, |i: int| 0u8));
        assert(r@.length_counters =~= Seq::new(4, |i: int| 0u8));
        r
    }

    /// Rebuilds the register file from saved values; when channels are enabled but
    /// every length counter is zero, the counters are reloaded from the registers.
    pub fn from_parts(registers: [u8; 0x18], enabled: u8, length_counters: [u8; 4]) -> (r: Self)
        ensures
            r@ == restored_apu(ApuModel { registers: registers@, enabled, length_counters: length_counters@ }),
    {
        let mut r = ApuRegisters { registers, enabled, length_counters };
        if enabled != 0 && length_counters[0] == 0 && length_counters[1] == 0 && length_counters[2]
            == 0 && length_counters[3] == 0 {
            assert(length_counters@ =~= Seq::new(4, |i: int| 0u8));
            r.rebuild_length_counters_from_registers();
        } else {
            proof {
                if length_counters@ == Seq::new(4, |i: int| 0u8) {
                    assert(length_counters@[0] == 0 && length_counters@[1] == 0);
                    assert(length_counters@[2] == 0 && length_counters@[3] == 0);
                }
            }
        }
        r
    }

    /// Rebuilds the register file from values taken from another one, unchanged.
    pub fn from_parts_exact(registers: [u8; 0x18], enabled: u8, length_counters: [u8; 4]) -> (r: Self)
        ensures
            r@.registers == registers@,
            r@.enabled == enabled,
            r@.length_counters == length_counters@,
    {
        ApuRegisters { registers, enabled, length_counters }
    }

    pub fn registers(&self) -> (r: [u8; 0x18])
        ensures
            r@ == self@.registers,
    {
        self.registers
    }

    pub fn enabled(&self) -> (r: u8)
        ensures
            r == self@.enabled,
    {
        self.enabled
    }

    pub fn length_counters(&self) -> (r: [u8; 4])
        ensures
            r@ == self@.length_counters,
    {
        self.length_counters
    }

    pub fn cpu_read_register(&self, addr: u16) -> (r: u8)
        ensures
            r == apu_read_spec(self@, addr),
    {
        if addr == 0x4015 {
            self.enabled
        } else if 0x4000 <= addr && addr <= 0x4017 {
            self.registers[(addr - 0x4000) as usize]
        } else {
            0
        }
    }

    pub fn cpu_write_register(&mut self, addr: u16, value: u8)
        ensures
            final(self)@ == apu_write_spec(old(self)@, addr, value),
    {
        if addr == 0x4015 {
            self.enabled = value & 0x1f;
            let mut channel: u8 = 0;
            while channel < 4
                invariant
                    channel <= 4,
                    self.enabled == value & 0x1f,
                    self.registers == old(self).registers,
                    forall|ch: int|
                        0 <= ch < 4 ==> #[trigger] self.length_counters@[ch] == if ch < channel {
                            counters_after_enable(old(self)@.length_counters, value & 0x1f)[ch]
                        } else {
                            old(self)@.length_counters[ch]
                        },
                decreases 4 - channel,
            {
                if self.enabled & (1u8 << channel) == 0 {
                    self.length_counters[channel as usize] = 0;
                }
                channel = channel + 1;
            }
            assert(self@.length_counters =~= counters_after_enable(
                old(self)@.length_counters,
                value & 0x1f,
            ));
        }
        if 0x4000 <= addr && addr <= 0x4017 {
            self.registers[(addr - 0x4000) as usize] = value;
        }
        if addr == 0x4003 {
            self.length_counters[0] = length_counter_load(value);
        } else if addr == 0x4007 {
            self.length_counters[1] = length_counter_load(value);
        } else if addr == 0x400b {
            self.length_counters[2] = length_counter_load(value);
        } else if addr == 0x400f {
            self.length_counters[3] = length_counter_load(value);
        }
        assert(self@ =~= apu_write_spec(old(self)@, addr, value));
    }

    /// A quarter-frame clock of the length counters.
    pub fn clock_length_counters(&mut self)
        ensures
            final(self)@ == (ApuModel { length_counters: clocked_counters(old(self)@), ..old(self)@ }),
    {
        let mut channel: usize = 0;
        while channel < 4
            invariant
                channel <= 4,
                self.registers == old(self).registers,
                self.enabled == old(self).enabled,
                forall|ch: int|
                    0 <= ch < 4 ==> #[trigger] self.length_counters@[ch] == if ch < channel {
                        clocked_counters(old(self)@)[ch]
                    } else {
                        old(self)@.length_counters[ch]
                    },
            decreases 4 - channel,
        {
            let halt_flag = if channel == 0 {
                self.registers[0x00] & 0x20 != 0
            } else if channel == 1 {
                self.registers[0x04] & 0x20 != 0
            } else if channel == 2 {
                self.registers[0x08] & 0x80 != 0
            } else {
                self.registers[0x0c] & 0x20 != 0
            };
            if !halt_flag && self.length_counters[channel] > 0 {
                self.length_counters[channel] = self.length_counters[channel] - 1;
            }
            channel = channel + 1;
        }
        assert(self@ =~= (ApuModel { length_counters: clocked_counters(old(self)@), ..old(self)@ }));
    }

    fn rebuild_length_counters_from_registers(&mut self)
        ensures
            final(self)@ == (ApuModel { length_counters: rebuilt_counters(old(self)@), ..old(self)@ }),
    {
        let high_registers: [usize; 4] = [0x03, 0x07, 0x0b, 0x0f];
        let mut channel: usize = 0;
        while channel < 4
            invariant
                channel <= 4,
                high_registers@ == seq![0x03usize, 0x07, 0x0b, 0x0f],
                self.registers == old(self).registers,
                self.enabled == old(self).enabled,
                forall|ch: int|
                    0 <= ch < 4 ==> #[trigger] self.length_counters@[ch] == if ch < channel {
                        rebuilt_counters(old(self)@)[ch]
                    } else {
                        old(self)@.length_counters[ch]
                    },
            decreases 4 - channel,
        {
            if self.enabled & (1u8 << channel as u8) != 0 {
                self.length_counters[channel] = length_counter_load(
                    self.registers[high_registers[channel]],
                );
            }
            channel = channel + 1;
        }
        assert(self@ =~= (ApuModel { length_counters: rebuilt_counters(old(self)@), ..old(self)@ }));
    }

    /// The 11-bit timer period held in a low and a high register.
    pub fn timer(&self, low_register: usize, high_register: usize) -> (r: u16)
        requires
            low_register < 0x18,
            high_register < 0x18,
        ensures
            r == (self@.registers[low_register as int] as u16) | (((self@.registers[high_register as int]
                & 0x07) as u16) << 8u16),
    {
        (self.registers[low_register] as u16) | (((self.registers[high_register] & 0x07) as u16) << 8u16)
    }

    /// The 4-bit volume in a control register.
    pub fn volume(&self, control_register: usize) -> (r: u8)
        requires
            control_register < 0x18,
        ensures
            r == self@.registers[control_register as int] & 0x0f,
    {
        self.registers[control_register] & 0x0f
    }
}

} // verus!
