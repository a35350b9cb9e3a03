//! The CPU address space: 2 KiB of RAM mirrored to $1FFF, the picture unit's
//! registers mirrored to $3FFF, the audio and controller ports, OAM DMA, and the
//! cartridge from $4020 up.
use crate::apu::{apu_read_spec, apu_write_spec, restored_apu, ApuEvent, ApuModel, ApuRegisters};
use crate::input::{next_read_index, serial_bit, Controller, ControllerView};
use crate::mapper::mapper0::{prg_read, Mapper0, Mapper0View};
use crate::mapper::Mapper;
use crate::ppu::timing::{dots, timing_ok};
use crate::ppu::{
    oam_after_dma, read_register_spec, register_write_chr_addr, register_write_mapper,
    write_register_spec, Ppu, PpuDebugState, PpuModel, PpuState, FRAMEBUFFER_SIZE,
};
use vstd::prelude::*;
use vstd::slice::slice_to_vec;

verus! {

pub const CPU_RAM_SIZE: usize = 0x0800;

pub const OAM_DMA_SIZE: usize = 256;

/// A cartridge as the CPU bus sees it.
pub trait MapperBusDevice: Sized {
    spec fn bus_read_spec(&self, addr: u16) -> Option<u8>;

    spec fn bus_write_ensures(before: Self, after: Self, addr: u16, value: u8, claimed: bool) -> bool;

    fn cpu_read(&mut self, addr: u16) -> (r: Option<u8>)
        ensures
            r == old(self).bus_read_spec(addr),
            *final(self) == *old(self),
    ;

    fn cpu_write(&mut self, addr: u16, value: u8) -> (r: bool)
        ensures
            Self::bus_write_ensures(*old(self), *final(self), addr, value, r),
    ;
}

impl MapperBusDevice for Mapper0 {
    open spec fn bus_read_spec(&self, addr: u16) -> Option<u8> {
        prg_read(self@.prg, addr)
    }

    open spec fn bus_write_ensures(before: Self, after: Self, addr: u16, value: u8, claimed: bool) -> bool {
        after@ == before@ && claimed == (addr >= 0x8000)
    }

    fn cpu_read(&mut self, addr: u16) -> (r: Option<u8>) {
        Mapper::cpu_read(&*self, addr)
    }

    fn cpu_write(&mut self, addr: u16, value: u8) -> (r: bool) {
        Mapper::cpu_write(self, addr, value)
    }
}

#[derive(Clone, Copy, Debug, Default, Eq, PartialEq, Structural)]
pub struct OamDmaState {
    pub last_page: Option<u8>,
}

/// What a save state records of the bus itself.
#[derive(Clone, Debug, PartialEq, Eq)]
pub struct BusState {
    pub cpu_ram: Vec<u8>,
    pub controller1: Controller,
    pub oam_dma: OamDmaState,
}

pub struct Bus {
    cpu_ram: [u8; CPU_RAM_SIZE],
    ppu: Ppu,
    apu: ApuRegisters,
    controller1: Controller,
    mapper: Mapper0,
    oam_dma: OamDmaState,
    apu_events: Vec<ApuEvent>,
}

/// The bus and every device on it, as values.
#[verifier::ext_equal]
pub struct BusModel {
    pub ram: Seq<u8>,
    pub ppu: PpuModel,
    pub apu: ApuModel,
    pub controller: ControllerView,
    pub mapper: Mapper0View,
    pub oam_dma: OamDmaState,
    pub apu_events: Seq<ApuEvent>,
}

impl View for Bus {
    type V = BusModel;

    closed spec fn view(&self) -> BusModel {
        BusModel {
            ram: self.cpu_ram@,
            ppu: self.ppu@,
            apu: self.apu@,
            controller: self.controller1@,
            mapper: self.mapper@,
            oam_dma: self.oam_dma,
            apu_events: self.apu_events@,
        }
    }
}

/// The canonical picture-unit register for an address in $2000-$3FFF.
pub open spec fn ppu_register_addr_spec(addr: u16) -> u16 {
    (0x2000 + (addr & 0x0007)) as u16
}

/// The RAM index for an address in $0000-$1FFF: RAM repeats every 2 KiB.
pub open spec fn ram_index_spec(addr: u16) -> int {
    (addr & 0x07ff) as int
}

/// A CPU read. Reads of the picture unit's status, OAM data and data port, and of
/// the controller port, change device state.
#[verifier::opaque]
pub open spec fn bus_read(b: BusModel, addr: u16) -> (BusModel, u8) {
    if addr <= 0x1fff {
        (b, b.ram[ram_index_spec(addr)])
    } else if addr <= 0x3fff {
        let (p, v) = read_register_spec(b.ppu, b.mapper.chr, ppu_register_addr_spec(addr));
        (BusModel { ppu: p, ..b }, v)
    } else if addr == 0x4015 {
        (b, apu_read_spec(b.apu, addr))
    } else if addr == 0x4016 {
        (
            BusModel {
                controller: ControllerView {
                    read_index: next_read_index(b.controller.strobe, b.controller.read_index),
                    ..b.controller
                },
                ..b
            },
            serial_bit(b.controller.buttons, b.controller.read_index),
        )
    } else if addr >= 0x4020 {
        (
            b,
            match prg_read(b.mapper.prg, addr) {
                Some(v) => v,
                None => 0,
            },
        )
    } else {
        (b, 0)
    }
}

/// `n` consecutive reads from `base` on (wrapping at $FFFF), as OAM DMA makes them.
pub open spec fn dma_reads(b: BusModel, base: u16, n: nat) -> (BusModel, Seq<u8>)
    decreases n,
{
    if n == 0 {
        (b, Seq::empty())
    } else {
        let (b1, data) = dma_reads(b, base, (n - 1) as nat);
        let (b2, v) = bus_read(b1, base.wrapping_add((n - 1) as u16));
        (b2, data.push(v))
    }
}

/// OAM DMA from CPU page `page`: 256 reads, copied into sprite memory.
pub open spec fn oam_dma_spec(b: BusModel, page: u8) -> BusModel {
    let (b1, data) = dma_reads(b, ((page as u16) << 8u16) as u16, 256);
    BusModel {
        ppu: PpuModel { oam: oam_after_dma(b1.ppu.oam, b1.ppu.oam_addr, data), ..b1.ppu },
        oam_dma: OamDmaState { last_page: Some(page) },
        ..b1
    }
}

/// An audio register write, recorded for the synthesizer as well.
pub open spec fn apu_port_write(b: BusModel, addr: u16, value: u8) -> BusModel {
    BusModel {
        apu: apu_write_spec(b.apu, addr, value),
        apu_events: b.apu_events.push(ApuEvent::Write { addr, value }),
        ..b
    }
}

/// A CPU write.
#[verifier::opaque]
pub open spec fn bus_write(b: BusModel, addr: u16, value: u8) -> BusModel {
    if addr <= 0x1fff {
        BusModel { ram: b.ram.update(ram_index_spec(addr), value), ..b }
    } else if addr <= 0x3fff {
        let reg = ppu_register_addr_spec(addr);
        BusModel {
            ppu: write_register_spec(b.ppu, reg, value),
            mapper: register_write_mapper(b.ppu, b.mapper, reg, value),
            ..b
        }
    } else if addr <= 0x4013 || addr == 0x4015 || addr == 0x4017 {
        apu_port_write(b, addr, value)
    } else if addr == 0x4014 {
        oam_dma_spec(b, value)
    } else if addr == 0x4016 {
        BusModel {
            controller: ControllerView {
                strobe: value & 1 != 0,
                read_index: if value & 1 != 0 {
                    0
                } else {
                    b.controller.read_index
                },
                ..b.controller
            },
            ..b
        }
    } else {
        b
    }
}

/// CHR writes through the data port cannot run past the cartridge's CHR memory.
pub open spec fn chr_writable(m: Mapper0View) -> bool {
    m.chr_is_rom || m.chr.len() >= 0x2000
}

/// The standing conditions of a bus that the CPU can drive.
pub open spec fn bus_ok(b: BusModel) -> bool {
    &&& chr_writable(b.mapper)
    &&& b.ppu.framebuffer.len() == FRAMEBUFFER_SIZE
    &&& timing_ok(b.ppu)
    &&& crate::ppu::render::model_sizes(b.ppu)
    &&& b.ram.len() == CPU_RAM_SIZE
    &&& ApuRegisters::sizes_ok(b.apu)
}

/// Advancing the devices by `cpu_cycles` CPU cycles: three picture-unit dots per
/// cycle, and a clock event for the synthesizer while any channel is enabled.
pub open spec fn bus_step(b: BusModel, cpu_cycles: u8) -> BusModel {
    BusModel {
        ppu: dots(b.ppu, b.mapper.chr, (cpu_cycles * 3) as nat),
        apu_events: if b.apu.enabled != 0 {
            b.apu_events.push(ApuEvent::Clock { cycles: cpu_cycles })
        } else {
            b.apu_events
        },
        ..b
    }
}

/// What a snapshot holds of the bus.
pub open spec fn bus_snapshot_of(s: BusState, b: BusModel) -> bool {
    &&& s.cpu_ram@ == b.ram
    &&& s.controller1@ == b.controller
    &&& s.oam_dma == b.oam_dma
}

/// RAM after restoring a snapshot: the saved bytes, zero-padded or cut to 2 KiB.
pub open spec fn restored_ram(saved: Seq<u8>) -> Seq<u8> {
    Seq::new(CPU_RAM_SIZE as nat, |i: int| if i < saved.len() { saved[i] } else { 0u8 })
}


/// A read changes nothing but the picture unit's read-side state and the
/// controller's read position, and keeps a drivable bus drivable.
pub proof fn lemma_bus_read_keeps_ok(b: BusModel, addr: u16)
    requires
        bus_ok(b),
    ensures
        bus_ok(bus_read(b, addr).0),
        bus_read(b, addr).0.mapper == b.mapper,
        bus_read(b, addr).0.ram == b.ram,
        bus_read(b, addr).0.apu == b.apu,
        bus_read(b, addr).0.apu_events == b.apu_events,
        bus_read(b, addr).0.oam_dma == b.oam_dma,
        bus_read(b, addr).0.ppu.framebuffer == b.ppu.framebuffer,
{
    reveal(bus_read);
}

pub proof fn lemma_dma_reads_keep_ok(b: BusModel, base: u16, n: nat)
    requires
        bus_ok(b),
    ensures
        bus_ok(dma_reads(b, base, n).0),
        dma_reads(b, base, n).0.mapper == b.mapper,
        dma_reads(b, base, n).0.ppu.framebuffer == b.ppu.framebuffer,
        dma_reads(b, base, n).1.len() == n,
    decreases n,
{
    if n > 0 {
        lemma_dma_reads_keep_ok(b, base, (n - 1) as nat);
        let (b1, data) = dma_reads(b, base, (n - 1) as nat);
        lemma_bus_read_keeps_ok(b1, base.wrapping_add((n - 1) as u16));
    }
}

/// A write keeps a drivable bus drivable.
pub proof fn lemma_bus_write_keeps_ok(b: BusModel, addr: u16, value: u8)
    requires
        bus_ok(b),
    ensures
        bus_ok(bus_write(b, addr, value)),
        bus_write(b, addr, value).ppu.framebuffer == b.ppu.framebuffer,
{
    reveal(bus_write);
    if addr == 0x4014 {
        lemma_dma_reads_keep_ok(b, ((value as u16) << 8u16) as u16, 256);
    } else if 0x2000 <= addr <= 0x3fff {
        let a = b.ppu.vram_addr & 0x3fff;
        if 0x2000 <= a {
            crate::ppu::law_nametable_in_range(b.ppu.mirroring, a);
        }
        if 0x3f00 <= a {
            crate::ppu::lemma_palette_index_range(a);
        }
        let reg = ppu_register_addr_spec(addr);
        let q = write_register_spec(b.ppu, reg, value);
        assert(crate::ppu::render::model_sizes(q));
        assert(timing_ok(q));
        assert(chr_writable(register_write_mapper(b.ppu, b.mapper, reg, value)));
    } else if addr <= 0x1fff {
        assert(addr & 0x07ff < 0x800) by (bit_vector);
    } else if addr <= 0x4013 || addr == 0x4015 || addr == 0x4017 {
        let a2 = apu_write_spec(b.apu, addr, value);
        assert(a2.registers.len() == 0x18);
        assert(a2.length_counters.len() == 4);
    }
}

/// Advancing the devices keeps a drivable bus drivable.
pub proof fn lemma_bus_step_keeps_ok(b: BusModel, cpu_cycles: u8)
    requires
        bus_ok(b),
    ensures
        bus_ok(bus_step(b, cpu_cycles)),
{
    lemma_dots_keep(b.ppu, b.mapper.chr, (cpu_cycles * 3) as nat);
}

proof fn lemma_dots_keep(p: PpuModel, chr: Seq<u8>, n: nat)
    requires
        timing_ok(p),
        crate::ppu::render::model_sizes(p),
    ensures
        timing_ok(dots(p, chr, n)),
        crate::ppu::render::model_sizes(dots(p, chr, n)),
        dots(p, chr, n).framebuffer == p.framebuffer,
    decreases n,
{
    if n > 0 {
        lemma_dots_keep(p, chr, (n - 1) as nat);
        crate::ppu::timing::law_dot_step_bounds(dots(p, chr, (n - 1) as nat), chr);
    }
}


/// CPU RAM repeats every 2 KiB up to $1FFF: a byte written at one address reads
/// back at every mirror of it, and the write leaves other RAM bytes alone.
pub proof fn law_ram_mirroring(b: BusModel, addr: u16, mirror: u16, other: u16, value: u8)
    requires
        bus_ok(b),
        addr <= 0x1fff,
        mirror <= 0x1fff,
        other <= 0x1fff,
        addr & 0x07ff == mirror & 0x07ff,
        addr & 0x07ff != other & 0x07ff,
    ensures
        bus_read(bus_write(b, addr, value), mirror).1 == value,
        bus_read(bus_write(b, addr, value), other).1 == bus_read(b, other).1,
{
    reveal(bus_write);
    reveal(bus_read);
    assert(addr & 0x07ff < 0x800) by (bit_vector);
    assert(other & 0x07ff < 0x800) by (bit_vector);
}

/// The eight picture-unit registers repeat every 8 bytes through $2000-$3FFF.
pub proof fn law_ppu_register_mirroring(b: BusModel, addr: u16, value: u8)
    requires
        0x2000 <= addr <= 0x3fff,
    ensures
        bus_read(b, addr) == bus_read(b, ppu_register_addr_spec(addr)),
        bus_write(b, addr, value) == bus_write(b, ppu_register_addr_spec(addr), value),
{
    reveal(bus_write);
    reveal(bus_read);
    let canonical = ppu_register_addr_spec(addr);
    assert(canonical & 0x0007 == addr & 0x0007 && 0x2000 <= canonical <= 0x2007) by (bit_vector)
        requires
            canonical == (0x2000 + (addr & 0x0007)) as u16,
    ;
}

/// Reads from $4020 up go to the cartridge and change nothing; bytes it does not
/// answer for read as 0.
pub proof fn law_cartridge_reads(b: BusModel, addr: u16)
    requires
        addr >= 0x4020,
    ensures
        bus_read(b, addr).0 == b,
        bus_read(b, addr).1 == match prg_read(b.mapper.prg, addr) {
            Some(v) => v,
            None => 0u8,
        },
{
    reveal(bus_read);
}

proof fn lemma_dma_reads_ram(b: BusModel, base: u16, n: nat)
    requires
        base as int + n <= 0x2000,
    ensures
        dma_reads(b, base, n).0 == b,
        dma_reads(b, base, n).1 == Seq::new(n, |i: int| b.ram[ram_index_spec((base + i) as u16)]),
    decreases n,
{
    reveal(bus_read);
    if n > 0 {
        lemma_dma_reads_ram(b, base, (n - 1) as nat);
        let (b1, data) = dma_reads(b, base, (n - 1) as nat);
        assert(base.wrapping_add((n - 1) as u16) == (base + (n - 1)) as u16);
        assert(dma_reads(b, base, n).1 =~= Seq::new(n, |i: int| b.ram[ram_index_spec((base + i) as u16)]));
    }
}

/// OAM DMA from a RAM page copies that page's 256 bytes into sprite memory,
/// starting at the OAM address and wrapping around, and records the page.
pub proof fn law_oam_dma_copies_ram_page(b: BusModel, page: u8)
    requires
        page < 0x20,
    ensures
        ({
            let after = bus_write(b, 0x4014, page);
            &&& forall|i: int|
                0 <= i < 0x100 ==> #[trigger] after.ppu.oam[(b.ppu.oam_addr + i) % 0x100] == b.ram[ram_index_spec(
                    (((page as u16) << 8u16) + i) as u16,
                )]
            &&& after.oam_dma == (OamDmaState { last_page: Some(page) })
            &&& after.ram == b.ram
        }),
{
    reveal(bus_write);
    let base = ((page as u16) << 8u16) as u16;
    assert(base == page * 256) by (bit_vector)
        requires
            base == ((page as u16) << 8u16) as u16,
            page < 0x20,
    ;
    lemma_dma_reads_ram(b, base, 256);
    let after = bus_write(b, 0x4014, page);
    assert forall|i: int| 0 <= i < 0x100 implies #[trigger] after.ppu.oam[(b.ppu.oam_addr + i) % 0x100]
        == b.ram[ram_index_spec((((page as u16) << 8u16) + i) as u16)] by {
        let j = (b.ppu.oam_addr + i) % 0x100;
        assert((j - b.ppu.oam_addr) % 0x100 == i);
    }
}

/// One CPU-side operation on the bus.
#[derive(Clone, Copy, Debug, PartialEq, Eq, Structural)]
pub enum BusOp {
    Read(u16),
    Write(u16, u8),
    /// The devices catch up with this many CPU cycles.
    Step(u8),
}

/// The bus after one operation.
pub open spec fn apply_op(b: BusModel, op: BusOp) -> BusModel {
    match op {
        BusOp::Read(addr) => bus_read(b, addr).0,
        BusOp::Write(addr, value) => bus_write(b, addr, value),
        BusOp::Step(cycles) => bus_step(b, cycles),
    }
}

/// The bus after a sequence of operations, first to last.
pub open spec fn apply_ops(b: BusModel, ops: Seq<BusOp>) -> BusModel
    decreases ops.len(),
{
    if ops.len() == 0 {
        b
    } else {
        apply_op(apply_ops(b, ops.drop_last()), ops.last())
    }
}

/// The operation writes RAM byte `index` through one of its mirrors.
pub open spec fn writes_ram_index(op: BusOp, index: int) -> bool {
    op matches BusOp::Write(addr, _) && addr <= 0x1fff && ram_index_spec(addr) == index
}

proof fn lemma_read_keeps_ram(b: BusModel, addr: u16)
    ensures
        bus_read(b, addr).0.ram == b.ram,
{
    reveal(bus_read);
}

proof fn lemma_dma_reads_keep_ram(b: BusModel, base: u16, n: nat)
    ensures
        dma_reads(b, base, n).0.ram == b.ram,
    decreases n,
{
    if n > 0 {
        lemma_dma_reads_keep_ram(b, base, (n - 1) as nat);
        lemma_read_keeps_ram(dma_reads(b, base, (n - 1) as nat).0, base.wrapping_add((n - 1) as u16));
    }
}

proof fn lemma_op_keeps_ram_byte(b: BusModel, op: BusOp, index: int)
    requires
        b.ram.len() == CPU_RAM_SIZE,
        0 <= index < CPU_RAM_SIZE,
        !writes_ram_index(op, index),
    ensures
        apply_op(b, op).ram.len() == CPU_RAM_SIZE,
        apply_op(b, op).ram[index] == b.ram[index],
{
    match op {
        BusOp::Read(addr) => lemma_read_keeps_ram(b, addr),
        BusOp::Write(addr, value) => {
            reveal(bus_write);
            if addr <= 0x1fff {
                assert(addr & 0x07ff < 0x800) by (bit_vector);
            } else if addr == 0x4014 {
                lemma_dma_reads_keep_ram(b, ((value as u16) << 8u16) as u16, 256);
            }
        },
        BusOp::Step(cycles) => {},
    }
}

/// A byte written to RAM reads back, at every mirror of its address, after any
/// later operations that do not write that RAM byte.
pub proof fn law_ram_value_survives(b: BusModel, addr: u16, value: u8, ops: Seq<BusOp>, mirror: u16)
    requires
        b.ram.len() == CPU_RAM_SIZE,
        addr <= 0x1fff,
        mirror <= 0x1fff,
        mirror & 0x07ff == addr & 0x07ff,
        forall|i: int| 0 <= i < ops.len() ==> !writes_ram_index(#[trigger] ops[i], ram_index_spec(addr)),
    ensures
        bus_read(apply_ops(bus_write(b, addr, value), ops), mirror).1 == value,
{
    reveal(bus_read);
    reveal(bus_write);
    assert(addr & 0x07ff < 0x800) by (bit_vector);
    lemma_ops_keep_ram_byte(bus_write(b, addr, value), ops, ram_index_spec(addr));
}

proof fn lemma_ops_keep_ram_byte(b: BusModel, ops: Seq<BusOp>, index: int)
    requires
        b.ram.len() == CPU_RAM_SIZE,
        0 <= index < CPU_RAM_SIZE,
        forall|i: int| 0 <= i < ops.len() ==> !writes_ram_index(#[trigger] ops[i], index),
    ensures
        apply_ops(b, ops).ram.len() == CPU_RAM_SIZE,
        apply_ops(b, ops).ram[index] == b.ram[index],
    decreases ops.len(),
{
    if ops.len() > 0 {
        let init = ops.drop_last();
        assert forall|i: int| 0 <= i < init.len() implies !writes_ram_index(#[trigger] init[i], index) by {
            assert(init[i] == ops[i]);
        }
        lemma_ops_keep_ram_byte(b, init, index);
        assert(!writes_ram_index(ops[ops.len() - 1], index));
        lemma_op_keeps_ram_byte(apply_ops(b, init), ops.last(), index);
    }
}

/// Restoring a bus snapshot gives back the RAM, controller and DMA state it was taken from.
pub proof fn law_bus_snapshot_roundtrip(b: BusModel, s: BusState)
    requires
        bus_ok(b),
        bus_snapshot_of(s, b),
    ensures
        restored_ram(s.cpu_ram@) == b.ram,
        s.controller1@ == b.controller,
        s.oam_dma == b.oam_dma,
{
    assert(restored_ram(s.cpu_ram@) =~= b.ram);
}

fn ram_index(addr: u16) -> (r: usize)
    ensures
        r == ram_index_spec(addr),
        r < CPU_RAM_SIZE,
{
    assert(addr & 0x07ff < 0x800) by (bit_vector);
    (addr & 0x07ff) as usize
}

fn ppu_register_addr(addr: u16) -> (r: u16)
    ensures
        r == ppu_register_addr_spec(addr),
{
    assert(addr & 0x0007 <= 7) by (bit_vector);
    0x2000 + (addr & 0x0007)
}

impl Bus {
    pub open spec fn wf(&self) -> bool {
        bus_ok(self@)
    }

    pub fn new(ppu: Ppu, apu: ApuRegisters, controller1: Controller, mapper: Mapper0) -> (b: Self)
        ensures
            b@ == (BusModel {
                ram: Seq::new(CPU_RAM_SIZE as nat, |i: int| 0u8),
                ppu: ppu@,
                apu: apu@,
                controller: controller1@,
                mapper: mapper@,
                oam_dma: OamDmaState { last_page: None },
                apu_events: Seq::empty(),
            }),
    {
        let b = Bus {
            cpu_ram: [0; CPU_RAM_SIZE],
            ppu,
            apu,
            controller1,
            mapper,
            oam_dma: OamDmaState { last_page: None },
            apu_events: Vec::new(),
        };
        assert(b@.ram =~= Seq::new(CPU_RAM_SIZE as nat, |i: int| 0u8));
        b
    }

    pub fn cpu_read(&mut self, addr: u16) -> (r: u8)
        ensures
            (final(self)@, r) == bus_read(old(self)@, addr),
    {
        proof {
            reveal(bus_read);
        }
        if addr <= 0x1fff {
            self.cpu_ram[ram_index(addr)]
        } else if addr <= 0x3fff {
            let reg = ppu_register_addr(addr);
            self.ppu.cpu_read_register(reg, &self.mapper)
        } else if addr == 0x4015 {
            self.apu.cpu_read_register(addr)
        } else if addr == 0x4016 {
            self.controller1.read_4016()
        } else if addr == 0x4017 {
            0
        } else if addr >= 0x4020 {
            match Mapper::cpu_read(&self.mapper, addr) {
                Some(v) => v,
                None => 0,
            }
        } else {
            0
        }
    }

    pub fn cpu_write(&mut self, addr: u16, value: u8)
        requires
            chr_writable(old(self)@.mapper),
        ensures
            final(self)@ == bus_write(old(self)@, addr, value),
    {
        proof {
            reveal(bus_write);
        }
        if addr <= 0x1fff {
            self.cpu_ram[ram_index(addr)] = value;
        } else if addr <= 0x3fff {
            let reg = ppu_register_addr(addr);
            self.ppu.cpu_write_register(reg, value, &mut self.mapper);
        } else if addr <= 0x4013 || addr == 0x4015 || addr == 0x4017 {
            self.apu.cpu_write_register(addr, value);
            self.apu_events.push(ApuEvent::Write { addr, value });
        } else if addr == 0x4014 {
            self.write_oam_dma(value);
        } else if addr == 0x4016 {
            self.controller1.write_strobe(value);
        } else if addr >= 0x4020 {
            Mapper::cpu_write(&mut self.mapper, addr, value);
        }
    }

    fn write_oam_dma(&mut self, page: u8)
        ensures
            final(self)@ == oam_dma_spec(old(self)@, page),
    {
        let base = (page as u16) << 8u16;
        let mut data = [0u8; OAM_DMA_SIZE];
        let mut offset: usize = 0;
        while offset < OAM_DMA_SIZE
            invariant
                offset <= OAM_DMA_SIZE,
                base == ((page as u16) << 8u16),
                (self@, data@.subrange(0, offset as int)) == dma_reads(old(self)@, base, offset as nat),
            decreases OAM_DMA_SIZE - offset,
        {
            let ghost prev = data@;
            let v = self.cpu_read(base.wrapping_add(offset as u16));
            data[offset] = v;
            proof {
                assert(data@.subrange(0, offset + 1) =~= prev.subrange(0, offset as int).push(v));
            }
            offset = offset + 1;
        }
        assert(data@.subrange(0, 256) =~= data@);
        self.oam_dma = OamDmaState { last_page: Some(page) };
        self.ppu.write_oam_dma(&data);
    }

    pub fn step(&mut self, cpu_cycles: u8)
        requires
            timing_ok(old(self)@.ppu),
        ensures
            final(self)@ == bus_step(old(self)@, cpu_cycles),
            timing_ok(final(self)@.ppu),
    {
        self.ppu.step(cpu_cycles as usize * 3, &self.mapper);
        if self.apu.enabled() != 0 {
            self.apu_events.push(ApuEvent::Clock { cycles: cpu_cycles });
        }
    }

    pub fn render_frame(&mut self)
        requires
            old(self)@.ppu.framebuffer.len() == FRAMEBUFFER_SIZE,
        ensures
            final(self)@ == (BusModel { ppu: final(self)@.ppu, ..old(self)@ }),
            final(self)@.ppu == (PpuModel {
                framebuffer: final(self)@.ppu.framebuffer,
                registers: old(self)@.ppu.registers.update(
                    2,
                    crate::ppu::render::status_after_render(old(self)@.ppu, old(self)@.mapper.chr),
                ),
                ..old(self)@.ppu
            }),
            crate::ppu::render::frame_shows(
                final(self)@.ppu.framebuffer,
                |x: int, y: int| crate::ppu::render::frame_color(old(self)@.ppu, old(self)@.mapper.chr, x, y),
            ),
            final(self)@.ppu == crate::ppu::render::rendered_model(old(self)@.ppu, old(self)@.mapper.chr),
            bus_ok(old(self)@) ==> bus_ok(final(self)@),
    {
        self.ppu.render_frame(&self.mapper);
        proof {
            reveal(crate::ppu::render::rendered_model);
            crate::ppu::render::lemma_frame_shows_unique(
                self@.ppu.framebuffer,
                |x: int, y: int| crate::ppu::render::frame_color(old(self)@.ppu, old(self)@.mapper.chr, x, y),
            );
        }
    }

    pub fn poll_nmi(&mut self) -> (r: bool)
        ensures
            r == old(self)@.ppu.nmi_pending,
            final(self)@ == (BusModel { ppu: PpuModel { nmi_pending: false, ..old(self)@.ppu }, ..old(self)@ }),
    {
        self.ppu.poll_nmi()
    }

    pub fn frame_ready(&self) -> (r: bool)
        ensures
            r == self@.ppu.frame_ready,
    {
        self.ppu.frame_ready()
    }

    pub fn frame_buffer(&self) -> (r: &[u8])
        ensures
            r@ == self@.ppu.framebuffer,
    {
        self.ppu.frame_buffer()
    }

    /// Hands over the audio events recorded since the last call, oldest first.
    pub fn drain_apu_events(&mut self) -> (r: Vec<ApuEvent>)
        ensures
            r@ == old(self)@.apu_events,
            final(self)@ == (BusModel { apu_events: Seq::empty(), ..old(self)@ }),
    {
        let mut events = Vec::new();
        std::mem::swap(&mut events, &mut self.apu_events);
        events
    }

    pub fn controller_mut(&mut self) -> (r: &mut Controller)
        ensures
            r@ == old(self)@.controller,
            final(self)@ == (BusModel { controller: final(r)@, ..old(self)@ }),
    {
        &mut self.controller1
    }

    pub fn cpu_ram(&self) -> (r: &[u8; CPU_RAM_SIZE])
        ensures
            r@ == self@.ram,
    {
        &self.cpu_ram
    }

    pub fn oam_dma_state(&self) -> (r: OamDmaState)
        ensures
            r == self@.oam_dma,
    {
        self.oam_dma
    }

    pub fn snapshot(&self) -> (s: BusState)
        ensures
            bus_snapshot_of(s, self@),
    {
        BusState {
            cpu_ram: slice_to_vec(self.cpu_ram.as_slice()),
            controller1: Controller::from_parts(
                self.controller1.buttons(),
                self.controller1.strobe(),
                self.controller1.read_index(),
            ),
            oam_dma: self.oam_dma,
        }
    }

    pub fn ppu_snapshot(&self) -> (s: PpuState)
        ensures
            crate::ppu::snapshot_of(s, self@.ppu),
    {
        self.ppu.snapshot()
    }

    pub fn apu_snapshot(&self) -> (s: ApuRegisters)
        ensures
            s@ == self@.apu,
    {
        ApuRegisters::from_parts_exact(self.apu.registers(), self.apu.enabled(), self.apu.length_counters())
    }

    pub fn ppu_debug_state(&self) -> (r: PpuDebugState)
        ensures
            r.ctrl == self@.ppu.registers[0],
            r.mask == self@.ppu.registers[1],
            r.status == self@.ppu.registers[2],
            r.scanline == self@.ppu.scanline,
            r.dot == self@.ppu.dot,
            r.scroll_x == self@.ppu.scroll_x,
            r.scroll_y == self@.ppu.scroll_y,
            r.temp_addr == self@.ppu.temp_addr,
            r.vram_addr == self@.ppu.vram_addr,
            r.oam@ == self@.ppu.oam,
    {
        self.ppu.debug_state()
    }

    /// Loads a save state: RAM (zero-padded or cut to 2 KiB), controller and DMA
    /// state, the picture unit and the audio registers. Pending audio events are dropped.
    pub fn restore(&mut self, bus: &BusState, ppu: &PpuState, apu: &ApuRegisters)
        requires
            ppu.vram@.len() >= 0x800,
        ensures
            final(self)@ == (BusModel {
                ram: restored_ram(bus.cpu_ram@),
                ppu: crate::ppu::restored_from(*ppu, old(self)@.ppu.mirroring),
                apu: restored_apu(apu@),
                controller: bus.controller1@,
                oam_dma: bus.oam_dma,
                apu_events: Seq::empty(),
                ..old(self)@
            }),
    {
        let len = if bus.cpu_ram.len() < CPU_RAM_SIZE {
            bus.cpu_ram.len()
        } else {
            CPU_RAM_SIZE
        };
        let mut ram = [0u8; CPU_RAM_SIZE];
        let mut i: usize = 0;
        while i < CPU_RAM_SIZE
            invariant
                i <= CPU_RAM_SIZE,
                len == (if bus.cpu_ram@.len() < CPU_RAM_SIZE { bus.cpu_ram@.len() } else { CPU_RAM_SIZE as nat }),
                forall|k: int| 0 <= k < i ==> ram@[k] == restored_ram(bus.cpu_ram@)[k],
            decreases CPU_RAM_SIZE - i,
        {
            ram[i] = if i < len {
                bus.cpu_ram[i]
            } else {
                0
            };
            i = i + 1;
        }
        assert(ram@ =~= restored_ram(bus.cpu_ram@));
        self.cpu_ram = ram;
        self.controller1 = Controller::from_parts(
            bus.controller1.buttons(),
            bus.controller1.strobe(),
            bus.controller1.read_index(),
        );
        self.oam_dma = bus.oam_dma;
        self.ppu.restore(ppu);
        self.apu = ApuRegisters::from_parts(apu.registers(), apu.enabled(), apu.length_counters());
        proof {
            assert(ApuModel { registers: apu@.registers, enabled: apu@.enabled, length_counters: apu@.length_counters } =~= apu@);
        }
        self.apu_events = Vec::new();
    }
}

} // verus!
