//! The machine: the CPU on its bus with the picture unit, the audio registers,
//! controller 1 and the cartridge. Runs a frame at a time and takes and loads
//! save states.
use crate::apu::{restored_apu, ApuEvent, ApuModel, ApuRegisters};
use crate::bus::{
    bus_ok, bus_snapshot_of, bus_step, lemma_bus_step_keeps_ok, law_bus_snapshot_roundtrip,
    law_cartridge_reads, restored_ram, Bus, BusModel, OamDmaState, CPU_RAM_SIZE,
};
use crate::cpu::laws::law_step_cycles;
use crate::cpu::semantics::{read_vector, reset_spec, step_spec, word};
use crate::cpu::{cycles_ok, power_up_state, Cpu, CpuState, InterruptRequest};
use crate::input::{with_button, Button, Controller, ControllerView};
use crate::mapper::mapper0::{prg_read, Mapper0, Mapper0View};
use crate::mapper::{from_rom, unsupported_mapper_text, MapperError};
use crate::ppu::render::rendered_model;
use crate::ppu::{
    law_snapshot_restore_roundtrip, placeholder_pixel, restored_from, snapshot_of, Ppu,
    PpuDebugState, PpuModel,
};
use crate::rom::{Mirroring, Rom};
use crate::save_state::{restorable, SaveState, SAVE_VERSION};
use vstd::prelude::*;

verus! {

/// The CPU cycles one `step_frame` runs at most before it gives up waiting for a frame.
pub const FRAME_CYCLE_LIMIT: usize = 45000;

pub struct Emulator {
    cpu: Cpu,
    bus: Bus,
    rom_name: String,
}

/// The machine as values.
pub struct EmulatorModel {
    pub cpu: CpuState,
    pub bus: BusModel,
    pub rom_name: Seq<char>,
}

impl View for Emulator {
    type V = EmulatorModel;

    closed spec fn view(&self) -> EmulatorModel {
        EmulatorModel { cpu: self.cpu@, bus: self.bus@, rom_name: self.rom_name@ }
    }
}

#[derive(Clone, Debug)]
pub struct EmulatorDebugState {
    pub cpu: CpuState,
    pub ppu: PpuDebugState,
    pub cpu_ram: Vec<u8>,
}

/// The picture unit as it powers on: everything zero, the given mirroring, and
/// the placeholder picture in the frame.
pub open spec fn powered_on_ppu(p: PpuModel, mirroring: Mirroring) -> bool {
    &&& p.registers == Seq::new(8, |i: int| 0u8)
    &&& p.vram == Seq::new(0x800, |i: int| 0u8)
    &&& p.palette == Seq::new(0x20, |i: int| 0u8)
    &&& p.oam == Seq::new(0x100, |i: int| 0u8)
    &&& p.oam_addr == 0
    &&& p.scanline == 0
    &&& p.dot == 0
    &&& !p.frame_ready
    &&& !p.nmi_pending
    &&& !p.address_latch
    &&& p.fine_x == 0
    &&& p.scroll_x == 0
    &&& p.scroll_y == 0
    &&& p.temp_addr == 0
    &&& p.vram_addr == 0
    &&& p.read_buffer == 0
    &&& p.mirroring == mirroring
    &&& p.framebuffer.len() == crate::ppu::FRAMEBUFFER_SIZE
    &&& forall|x: int, y: int|
        crate::ppu::render::on_screen(x, y) ==> #[trigger] placeholder_pixel(p.framebuffer, x, y)
}

/// A byte the cartridge answers with, or 0.
pub open spec fn byte_or_zero(v: Option<u8>) -> u8 {
    match v {
        Some(b) => b,
        None => 0,
    }
}

/// The reset vector in a program ROM: the little-endian word at $FFFC.
pub open spec fn reset_vector(prg: Seq<u8>) -> u16 {
    word(byte_or_zero(prg_read(prg, 0xfffc)), byte_or_zero(prg_read(prg, 0xfffd)))
}

/// The machine's state while a frame is being run.
pub struct FrameRun {
    pub cpu: CpuState,
    pub bus: BusModel,
    /// Whether the frame-ready flag has been seen clear since the frame began.
    pub saw_not_ready: bool,
    /// The CPU cycles run so far.
    pub elapsed: nat,
    /// Whether a frame has been drawn.
    pub done: bool,
}

/// One turn of the frame loop: a CPU step, the devices catch up, a pending NMI
/// is handed to the CPU, and once the frame-ready flag rises after having been
/// clear, the frame is drawn.
pub open spec fn frame_iteration(r: FrameRun) -> FrameRun {
    let (c1, b1, cycles) = step_spec(r.cpu, r.bus);
    let b2 = bus_step(b1, cycles);
    let c2 = if b2.ppu.nmi_pending {
        CpuState { interrupt_request: InterruptRequest::Nmi, ..c1 }
    } else {
        c1
    };
    let b3 = BusModel { ppu: PpuModel { nmi_pending: false, ..b2.ppu }, ..b2 };
    let elapsed = r.elapsed + cycles as nat;
    if !b3.ppu.frame_ready {
        FrameRun { cpu: c2, bus: b3, saw_not_ready: true, elapsed, done: false }
    } else if r.saw_not_ready {
        FrameRun {
            cpu: c2,
            bus: BusModel { ppu: rendered_model(b3.ppu, b3.mapper.chr), ..b3 },
            saw_not_ready: true,
            elapsed,
            done: true,
        }
    } else {
        FrameRun { cpu: c2, bus: b3, saw_not_ready: false, elapsed, done: false }
    }
}

/// An NMI that the picture unit raises during a turn of the frame loop is handed
/// to the CPU, never dropped: after the turn the CPU has an NMI request and the
/// picture unit's flag is clear. A turn with no NMI raised leaves the request as
/// the CPU step left it.
pub proof fn law_frame_turn_hands_nmi_to_cpu(r: FrameRun)
    ensures
        ({
            let (c1, b1, cycles) = step_spec(r.cpu, r.bus);
            let raised = bus_step(b1, cycles).ppu.nmi_pending;
            let next = frame_iteration(r);
            &&& raised ==> next.cpu.interrupt_request == InterruptRequest::Nmi
            &&& !raised ==> next.cpu.interrupt_request == c1.interrupt_request
            &&& !next.bus.ppu.nmi_pending
            &&& next.cpu.pc == c1.pc && next.cpu.cycles == c1.cycles
        }),
{
    reveal(rendered_model);
}

/// The loop goes on until a frame is drawn or the cycle limit is reached.
pub open spec fn frame_running(r: FrameRun) -> bool {
    !r.done && r.elapsed < FRAME_CYCLE_LIMIT
}

/// The loop after at most `n` turns.
pub open spec fn frame_run(r: FrameRun, n: nat) -> FrameRun
    decreases n,
{
    if n == 0 || !frame_running(r) {
        r
    } else {
        frame_run(frame_iteration(r), (n - 1) as nat)
    }
}

pub open spec fn frame_start(e: EmulatorModel) -> FrameRun {
    FrameRun { cpu: e.cpu, bus: e.bus, saw_not_ready: !e.bus.ppu.frame_ready, elapsed: 0, done: false }
}

/// The machine after `step_frame`. Every turn takes at least 2 cycles, so the
/// loop has ended within `FRAME_CYCLE_LIMIT` turns.
pub open spec fn step_frame_spec(e: EmulatorModel) -> EmulatorModel {
    let r = frame_run(frame_start(e), FRAME_CYCLE_LIMIT as nat);
    EmulatorModel { cpu: r.cpu, bus: r.bus, ..e }
}

/// What a save state taken from `e` holds.
pub open spec fn saved_from(s: SaveState, e: EmulatorModel) -> bool {
    &&& s.version == SAVE_VERSION
    &&& s.rom_name@ == e.rom_name
    &&& s.cpu == e.cpu
    &&& bus_snapshot_of(s.bus, e.bus)
    &&& snapshot_of(s.ppu, e.bus.ppu)
    &&& s.apu@ == e.bus.apu
}

/// The machine `e` after loading save state `s`: the cartridge, the mirroring
/// and the ROM name stay; pending audio events are dropped.
pub open spec fn loaded_model(e: EmulatorModel, s: SaveState) -> EmulatorModel {
    EmulatorModel {
        cpu: s.cpu,
        bus: BusModel {
            ram: restored_ram(s.bus.cpu_ram@),
            ppu: restored_from(s.ppu, e.bus.ppu.mirroring),
            apu: restored_apu(s.apu@),
            controller: s.bus.controller1@,
            oam_dma: s.bus.oam_dma,
            apu_events: Seq::empty(),
            ..e.bus
        },
        rom_name: e.rom_name,
    }
}

proof fn lemma_frame_run_next(r: FrameRun, k: nat)
    requires
        frame_running(frame_run(r, k)),
    ensures
        frame_run(r, k + 1) == frame_iteration(frame_run(r, k)),
    decreases k,
{
    if k > 0 {
        lemma_frame_run_next(frame_iteration(r), (k - 1) as nat);
    } else {
        assert(frame_run(frame_iteration(r), 0) == frame_iteration(r));
    }
}

proof fn lemma_frame_run_stays(r: FrameRun, k: nat, n: nat)
    requires
        !frame_running(frame_run(r, k)),
        k <= n,
    ensures
        frame_run(r, n) == frame_run(r, k),
    decreases k,
{
    if k > 0 && frame_running(r) {
        lemma_frame_run_stays(frame_iteration(r), (k - 1) as nat, (n - 1) as nat);
    }
}

proof fn lemma_frame_run_cycles(r: FrameRun, n: nat, base: int)
    requires
        r.cpu.cycles == base + r.elapsed,
        r.elapsed <= FRAME_CYCLE_LIMIT + 7,
        base + FRAME_CYCLE_LIMIT + 7 <= u64::MAX,
    ensures
        frame_run(r, n).cpu.cycles == base + frame_run(r, n).elapsed,
        r.elapsed <= frame_run(r, n).elapsed <= FRAME_CYCLE_LIMIT + 7,
    decreases n,
{
    if n > 0 && frame_running(r) {
        law_step_cycles(r.cpu, r.bus);
        lemma_frame_run_cycles(frame_iteration(r), (n - 1) as nat, base);
    }
}

/// A frame step runs the CPU at least one step and at most
/// `FRAME_CYCLE_LIMIT` + 7 cycles.
pub proof fn law_step_frame_cycles(e: EmulatorModel)
    requires
        e.cpu.cycles + FRAME_CYCLE_LIMIT + 7 <= u64::MAX,
    ensures
        e.cpu.cycles + 2 <= step_frame_spec(e).cpu.cycles <= e.cpu.cycles + FRAME_CYCLE_LIMIT + 7,
{
    let start = frame_start(e);
    law_step_cycles(start.cpu, start.bus);
    lemma_frame_run_cycles(frame_iteration(start), (FRAME_CYCLE_LIMIT - 1) as nat, e.cpu.cycles as int);
    assert(frame_run(start, FRAME_CYCLE_LIMIT as nat) == frame_run(
        frame_iteration(start),
        (FRAME_CYCLE_LIMIT - 1) as nat,
    ));
}

/// Loading a save state taken from a machine gives that machine back, but for the
/// audio events it had not handed out yet. (When channels are enabled and every
/// length counter is zero, loading reloads the counters from the registers.)
pub proof fn law_save_load_roundtrip(e: EmulatorModel, s: SaveState)
    requires
        bus_ok(e.bus),
        saved_from(s, e),
        !(e.bus.apu.enabled != 0 && e.bus.apu.length_counters == Seq::new(4, |i: int| 0u8)),
    ensures
        restorable(s),
        loaded_model(e, s) == (EmulatorModel { bus: BusModel { apu_events: Seq::empty(), ..e.bus }, ..e }),
{
    law_bus_snapshot_roundtrip(e.bus, s.bus);
    law_snapshot_restore_roundtrip(e.bus.ppu, s.ppu);
    assert(loaded_model(e, s).bus =~= BusModel { apu_events: Seq::empty(), ..e.bus });
}

impl Emulator {
    /// The standing condition: the bus can be driven.
    pub open spec fn wf(&self) -> bool {
        bus_ok(self@.bus)
    }

    /// A powered-on machine with the cartridge `rom`, after a reset; `rom_name`
    /// names its save states. Fails, with a message, when the cartridge's mapper
    /// is not supported.
    pub fn new(rom: Rom, rom_name: String) -> (r: Result<Self, String>)
        ensures
            r is Ok <==> rom.mapper == 0,
            r matches Err(msg) ==> msg@ == unsupported_mapper_text(rom.mapper),
            r matches Ok(e) ==> {
                &&& e.wf()
                &&& e@.rom_name == rom_name@
                &&& e@.cpu == (CpuState { pc: reset_vector(rom.prg_rom@), cycles: 7, ..power_up_state() })
                &&& e@.bus.ram == Seq::new(CPU_RAM_SIZE as nat, |i: int| 0u8)
                &&& powered_on_ppu(e@.bus.ppu, rom.mirroring)
                &&& e@.bus.apu == (ApuModel {
                    registers: Seq::new(0x18, |i: int| 0u8),
                    enabled: 0,
                    length_counters: Seq::new(4, |i: int| 0u8),
                })
                &&& e@.bus.controller == (ControllerView { buttons: 0, strobe: false, read_index: 0 })
                &&& e@.bus.mapper == Mapper0::from_rom_data_spec(rom.prg_rom@, rom.chr_rom@)
                &&& e@.bus.oam_dma == (OamDmaState { last_page: None })
                &&& e@.bus.apu_events == Seq::<ApuEvent>::empty()
            },
    {
        let mirroring = rom.mirroring;
        let ghost prg = rom.prg_rom@;
        let mapper = match from_rom(rom) {
            Ok(m) => m,
            Err(err) => {
                return Err(err.message());
            },
        };
        let mut bus = Bus::new(Ppu::new(mirroring), ApuRegisters::new(), Controller::new(), mapper);
        let mut cpu = Cpu::default();
        let ghost b0 = bus@;
        proof {
            law_cartridge_reads(b0, 0xfffc);
            law_cartridge_reads(b0, 0xfffd);
        }
        cpu.reset(&mut bus);
        Ok(Emulator { cpu, bus, rom_name })
    }

    /// Puts the CPU back to its power-up state and runs the reset sequence; the
    /// devices keep their state.
    pub fn reset(&mut self)
        requires
            old(self).wf(),
        ensures
            final(self).wf(),
            (final(self)@.cpu, final(self)@.bus) == reset_spec(power_up_state(), old(self)@.bus),
            final(self)@.rom_name == old(self)@.rom_name,
    {
        self.cpu = Cpu::default();
        self.cpu.reset(&mut self.bus);
    }

    /// Runs the machine until the picture unit finishes a frame (the frame-ready
    /// flag rises after having been clear) and draws it, or until
    /// `FRAME_CYCLE_LIMIT` CPU cycles have passed.
    pub fn step_frame(&mut self)
        requires
            old(self).wf(),
            old(self)@.cpu.cycles + FRAME_CYCLE_LIMIT + 7 <= u64::MAX,
        ensures
            final(self).wf(),
            final(self)@ == step_frame_spec(old(self)@),
    {
        let ghost start = frame_start(self@);
        let mut saw_not_ready = !self.bus.frame_ready();
        let mut elapsed: usize = 0;
        let mut done = false;
        let ghost mut k: nat = 0;
        while !done && elapsed < FRAME_CYCLE_LIMIT
            invariant
                self.wf(),
                frame_run(start, k) == (FrameRun {
                    cpu: self@.cpu,
                    bus: self@.bus,
                    saw_not_ready,
                    elapsed: elapsed as nat,
                    done,
                }),
                2 * k <= elapsed <= FRAME_CYCLE_LIMIT + 7,
                self@.cpu.cycles == start.cpu.cycles + elapsed,
                start.cpu.cycles + FRAME_CYCLE_LIMIT + 7 <= u64::MAX,
                self@.rom_name == old(self)@.rom_name,
            decreases FRAME_CYCLE_LIMIT + 8 - elapsed,
        {
            proof {
                law_step_cycles(self@.cpu, self@.bus);
                lemma_frame_run_next(start, k);
            }
            let cycles = self.cpu.step(&mut self.bus);
            elapsed = elapsed + cycles as usize;
            proof {
                lemma_bus_step_keeps_ok(self@.bus, cycles);
            }
            self.bus.step(cycles);
            if self.bus.poll_nmi() {
                self.cpu.request_nmi();
            }
            if !self.bus.frame_ready() {
                saw_not_ready = true;
            } else if saw_not_ready {
                self.bus.render_frame();
                done = true;
            }
            proof {
                k = k + 1;
            }
        }
        proof {
            lemma_frame_run_stays(start, k, FRAME_CYCLE_LIMIT as nat);
        }
    }

    /// Presses or releases a button on controller 1.
    pub fn set_button(&mut self, button: Button, pressed: bool)
        requires
            old(self).wf(),
        ensures
            final(self).wf(),
            final(self)@ == (EmulatorModel {
                bus: BusModel {
                    controller: ControllerView {
                        buttons: with_button(old(self)@.bus.controller.buttons, button, pressed),
                        ..old(self)@.bus.controller
                    },
                    ..old(self)@.bus
                },
                ..old(self)@
            }),
    {
        self.bus.controller_mut().set_button(button, pressed);
    }

    /// The last drawn frame, RGBA, row by row.
    pub fn frame_buffer(&self) -> (r: &[u8])
        ensures
            r@ == self@.bus.ppu.framebuffer,
    {
        self.bus.frame_buffer()
    }

    /// Hands over the audio events recorded since the last call, oldest first.
    pub fn drain_apu_events(&mut self) -> (r: Vec<ApuEvent>)
        requires
            old(self).wf(),
        ensures
            final(self).wf(),
            r@ == old(self)@.bus.apu_events,
            final(self)@ == (EmulatorModel { bus: BusModel { apu_events: Seq::empty(), ..old(self)@.bus }, ..old(self)@ }),
    {
        self.bus.drain_apu_events()
    }

    /// A save state of the whole machine.
    pub fn save_state(&self) -> (s: SaveState)
        ensures
            saved_from(s, self@),
    {
        SaveState {
            version: SAVE_VERSION,
            rom_name: self.rom_name.clone(),
            cpu: self.cpu.snapshot(),
            bus: self.bus.snapshot(),
            ppu: self.bus.ppu_snapshot(),
            apu: self.bus.apu_snapshot(),
        }
    }

    /// Loads a save state (see `SaveState::is_restorable`).
    pub fn load_state(&mut self, state: &SaveState)
        requires
            old(self).wf(),
            restorable(*state),
        ensures
            final(self).wf(),
            final(self)@ == loaded_model(old(self)@, *state),
    {
        self.cpu.restore(&state.cpu);
        self.bus.restore(&state.bus, &state.ppu, &state.apu);
        proof {
            state.apu.lemma_sizes();
            assert(restored_ram(state.bus.cpu_ram@).len() == CPU_RAM_SIZE);
            assert(self@.bus =~= loaded_model(old(self)@, *state).bus);
        }
    }

    pub fn cpu_state(&self) -> (r: CpuState)
        ensures
            r == self@.cpu,
    {
        self.cpu.snapshot()
    }

    pub fn debug_state(&self) -> (r: EmulatorDebugState)
        ensures
            r.cpu == self@.cpu,
            r.ppu.ctrl == self@.bus.ppu.registers[0],
            r.ppu.mask == self@.bus.ppu.registers[1],
            r.ppu.status == self@.bus.ppu.registers[2],
            r.ppu.scanline == self@.bus.ppu.scanline,
            r.ppu.dot == self@.bus.ppu.dot,
            r.ppu.scroll_x == self@.bus.ppu.scroll_x,
            r.ppu.scroll_y == self@.bus.ppu.scroll_y,
            r.ppu.temp_addr == self@.bus.ppu.temp_addr,
            r.ppu.vram_addr == self@.bus.ppu.vram_addr,
            r.ppu.oam@ == self@.bus.ppu.oam,
            r.cpu_ram@ == self@.bus.ram,
    {
        EmulatorDebugState {
            cpu: self.cpu.snapshot(),
            ppu: self.bus.ppu_debug_state(),
            cpu_ram: vstd::slice::slice_to_vec(self.bus.cpu_ram().as_slice()),
        }
    }
}

} // verus!
