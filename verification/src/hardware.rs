//! The orchestrator: one CPU instruction per step, non-maskable interrupt
//! delivery between instructions, the deferred interrupt-disable change
//! from status pulls, three PPU dots per CPU cycle, and the frame counter.

use vstd::prelude::*;

use crate::bus::{spec_bus_read, spec_bus_reset, spec_nmi, Bus, BusView};
use crate::cartridge::{spec_parse_ines, CartridgeView};
use crate::cpu::{flag_set, with_flag, Flags, Registers, CPU, FLAG_INTERRUPT};
use crate::errors::EmuError;
use crate::instructions::{execute_instruction, instr_result};
use crate::opcode::{get_instruction, spec_decode};
use crate::ppu::{spec_tick, PpuView};
use crate::utils::Color;

verus! {

/// CPU cycles in one NTSC frame.
pub const CYCLES_PER_FRAME: u32 = 29780;

/// The engine state as the specifications see it.
#[verifier::ext_equal]
pub struct HardwareView {
    pub bus: BusView,
    pub cpu_cycles: u32,
    pub total_cycles: u64,
}

/// One byte of a pattern-table tile, from the cartridge (0 where it
/// stores nothing).
pub open spec fn spec_tile_byte(m: crate::cartridge::Mapper0View, tile: int, i: int) -> u8 {
    match crate::cartridge::spec_mapper_ppu_read(m, (tile * 16 + i) as u16) {
        Some(v) => v,
        None => 0,
    }
}

/// The grey-ramp colour of one pixel of a rendered pattern table:
/// sixteen tiles across, the two pattern planes combined bitwise.
pub open spec fn spec_chr_pixel(
    m: crate::cartridge::Mapper0View,
    table: u8,
    py: int,
    px: int,
) -> crate::utils::Color {
    let tile = (if table == 0 {
        0int
    } else {
        256int
    }) + (py / 8) * 16 + px / 8;
    let shift = (7 - (px % 8)) as u8;
    let low_plane = spec_tile_byte(m, tile, py % 8);
    let high_plane = spec_tile_byte(m, tile, py % 8 + 8);
    crate::bus::spec_gray_level(
        (((high_plane >> shift) & 1) << 1) | ((low_plane >> shift) & 1),
    )
}

/// The PPU after `n` dots of the clock.
pub open spec fn spec_tick_n(p: PpuView, c: CartridgeView, n: nat) -> PpuView
    decreases n,
{
    if n == 0 {
        p
    } else {
        spec_tick(spec_tick_n(p, c, (n - 1) as nat), c)
    }
}

/// However many dots run, a quiet PPU stays quiet: while the control
/// register's interrupt-enable bit is clear the dot clock neither raises
/// the interrupt line nor changes the control register.
pub proof fn lemma_tick_n_quiet(p: PpuView, c: CartridgeView, n: nat)
    requires
        !p.nmi_pending,
        p.control & 0x80 == 0,
    ensures
        !spec_tick_n(p, c, n).nmi_pending,
        spec_tick_n(p, c, n).control == p.control,
    decreases n,
{
    if n > 0 {
        lemma_tick_n_quiet(p, c, (n - 1) as nat);
        crate::ppu::lemma_tick_quiet(spec_tick_n(p, c, (n - 1) as nat), c);
    }
}

/// The bookkeeping shared by both step outcomes: the deferred
/// interrupt-disable change lands in the status, the PPU sees three dots
/// per CPU cycle, and the frame counter rolls back at the frame boundary
/// (clearing the PPU's frame mark).
pub open spec fn spec_step_finish(
    h: HardwareView,
    b: BusView,
    cycles: u8,
    deferred: Option<bool>,
) -> (HardwareView, Result<u32, EmuError>) {
    let b2 = match deferred {
        Some(i) => BusView { cpu: CPU { p: with_flag(b.cpu.p, FLAG_INTERRUPT, i), ..b.cpu }, ..b },
        None => b,
    };
    let p2 = spec_tick_n(b2.ppu, b2.cartridge, (3 * cycles) as nat);
    let total2 = (h.total_cycles + cycles) as u64;
    let acc = (h.cpu_cycles + cycles) as u32;
    if acc >= CYCLES_PER_FRAME {
        (
            HardwareView {
                bus: BusView { ppu: PpuView { frame_complete: false, ..p2 }, ..b2 },
                cpu_cycles: 0,
                total_cycles: total2,
            },
            Ok(acc),
        )
    } else {
        (
            HardwareView { bus: BusView { ppu: p2, ..b2 }, cpu_cycles: acc, total_cycles: total2 },
            Ok(acc),
        )
    }
}

/// One engine step.  With an interrupt pending and no deferred
/// interrupt-disable change queued, the interrupt sequence runs; otherwise
/// the instruction at the program counter is fetched, decoded and
/// executed, and an undocumented opcode halts the step with its address
/// and byte.  Either way the PPU advances three dots per CPU cycle and
/// the step reports the cycles of the frame so far.
pub open spec fn spec_step(h: HardwareView) -> (HardwareView, Result<u32, EmuError>) {
    let b0 = h.bus;
    let deferred = b0.cpu.delayed_interrupt;
    let bc = BusView { cpu: CPU { delayed_interrupt: None, ..b0.cpu }, ..b0 };
    if b0.ppu.nmi_pending && deferred is None {
        let b1 = BusView { ppu: PpuView { nmi_pending: false, ..bc.ppu }, ..bc };
        spec_step_finish(h, spec_nmi(b1), 7, deferred)
    } else {
        let f = spec_bus_read(bc, bc.cpu.pc);
        match spec_decode(f.1) {
            None => (
                HardwareView { bus: f.0, ..h },
                Err(EmuError::InvalidOpcode(b0.cpu.pc, f.1)),
            ),
            Some(i) => {
                let e = instr_result(f.0, i.name, i.address_mode);
                spec_step_finish(h, e.0, e.1, deferred)
            },
        }
    }
}

/// The machine after `k` engine steps, each step's report discarded.
pub open spec fn spec_step_n(h: HardwareView, k: nat) -> HardwareView
    decreases k,
{
    if k == 0 {
        h
    } else {
        spec_step(spec_step_n(h, (k - 1) as nat)).0
    }
}

/// The engine run to the end of the frame: steps iterated until one
/// reaches a frame of CPU cycles, or the run halts on an undocumented
/// opcode.  The recursion is well founded because the frame counter
/// grows with every step taken: a step that left it where it was would
/// end the run here, and the engine proves that no interrupt sequence
/// and no decoded instruction takes zero cycles, so on a well-formed
/// machine that arm is never the value taken.
pub open spec fn spec_run_frame(h: HardwareView) -> (HardwareView, Result<(), EmuError>)
    decreases CYCLES_PER_FRAME - h.cpu_cycles,
{
    let s = spec_step(h);
    match s.1 {
        Err(e) => (s.0, Err(e)),
        Ok(c) => if c >= CYCLES_PER_FRAME {
            (s.0, Ok(()))
        } else if h.cpu_cycles < s.0.cpu_cycles && s.0.cpu_cycles < CYCLES_PER_FRAME {
            spec_run_frame(s.0)
        } else {
            (s.0, Ok(()))
        },
    }
}

/// One unfolding of the frame run: how `spec_run_frame` relates a state
/// inside the frame to the state one step later.  A step never leaves
/// the frame counter where it was, so a successful step that stays under
/// the frame boundary continues the run from its result.
#[verifier::spinoff_prover]
proof fn lemma_run_frame_step(pre: HardwareView)
    requires
        pre.cpu_cycles < CYCLES_PER_FRAME,
    ensures
        match spec_step(pre).1 {
            Err(e) => spec_run_frame(pre) == (spec_step(pre).0, Err::<(), EmuError>(e)),
            Ok(c) => {
                &&& c > pre.cpu_cycles
                &&& (c >= CYCLES_PER_FRAME ==> spec_run_frame(pre) == (
                    spec_step(pre).0,
                    Ok::<(), EmuError>(()),
                ))
                &&& (c < CYCLES_PER_FRAME ==> spec_step(pre).0.cpu_cycles == c && spec_run_frame(
                    pre,
                ) == spec_run_frame(spec_step(pre).0))
            },
        },
{
    let b0 = pre.bus;
    let bc = BusView { cpu: CPU { delayed_interrupt: None, ..b0.cpu }, ..b0 };
    if !(b0.ppu.nmi_pending && b0.cpu.delayed_interrupt is None) {
        let f = spec_bus_read(bc, bc.cpu.pc);
        crate::opcode::lemma_decoded_cycles(f.1);
        match spec_decode(f.1) {
            Some(i) => {
                crate::instructions::lemma_instr_props(f.0, i.name, i.address_mode);
            },
            None => {},
        }
    }
}

/// The execution engine: the machine plus its cycle bookkeeping.
#[derive(Clone, Debug)]
#[verifier::ext_equal]
pub struct Hardware {
    pub bus: Bus,
    pub cpu_cycles: u32,
    pub total_cycles: u64,
}

impl View for Hardware {
    type V = HardwareView;

    open spec fn view(&self) -> HardwareView {
        HardwareView {
            bus: self.bus@,
            cpu_cycles: self.cpu_cycles,
            total_cycles: self.total_cycles,
        }
    }
}

impl Hardware {
    /// The machine is well formed, the frame counter sits inside one
    /// frame, and the PPU has seen exactly three dots per counted CPU
    /// cycle.
    pub open spec fn wf(&self) -> bool {
        &&& self.bus.wf()
        &&& self.cpu_cycles < CYCLES_PER_FRAME
        &&& self.bus.ppu@.ticks == 3 * self.total_cycles
    }

    /// A powered-on engine with an empty cartridge slot.
    pub fn new() -> (r: Hardware)
        ensures
            r.wf(),
            r@.cpu_cycles == 0,
            r@.total_cycles == 0,
            r@.bus.cpu == crate::cpu::spec_cpu_power_on(),
    {
        Hardware { bus: Bus::new(), cpu_cycles: 0, total_cycles: 0 }
    }

    /// Run one step: one interrupt sequence or one instruction, with the
    /// PPU kept three dots per cycle in lockstep.
    pub fn step(&mut self) -> (r: Result<u32, EmuError>)
        requires
            old(self).wf(),
            old(self).total_cycles < 0x0100_0000_0000_0000,
        ensures
            final(self).wf(),
            (final(self)@, r) == spec_step(old(self)@),
    {
        let deferred = self.bus.cpu.delayed_interrupt;
        self.bus.cpu.delayed_interrupt = None;
        let cycles: u8;
        if self.bus.ppu.get_nmi_pending() && deferred.is_none() {
            self.bus.ppu.set_nmi_pending(false);
            proof {
                crate::bus::lemma_nmi_ticks(self@.bus);
            }
            cycles = self.bus.nmi();
        } else {
            let pc = self.bus.cpu.get_counter();
            proof {
                crate::bus::lemma_bus_read_ticks(self@.bus, self@.bus.cpu.pc);
            }
            let opcode = self.bus.read_instruct();
            let instruction = match get_instruction(opcode) {
                Some(instr) => instr,
                None => {
                    return Err(EmuError::InvalidOpcode(pc, opcode));
                },
            };
            proof {
                crate::instructions::lemma_instr_props(
                    self@.bus,
                    instruction.name,
                    instruction.address_mode,
                );
            }
            cycles = execute_instruction(&mut self.bus, instruction.name, instruction.address_mode);
        }
        match deferred {
            Some(i) => {
                self.bus.cpu.set_interrupt_disable(i);
            },
            None => {},
        }
        let ghost b2 = self.bus@;
        let ghost cc = self.cpu_cycles;
        let ghost tc = self.total_cycles;
        let count: u32 = 3 * (cycles as u32);
        let mut i: u32 = 0;
        while i < count
            invariant
                i <= count,
                count == 3 * cycles,
                self.bus.wf(),
                self.cpu_cycles == cc,
                self.total_cycles == tc,
                self.bus@.cpu == b2.cpu,
                self.bus@.memory == b2.memory,
                self.bus@.cartridge == b2.cartridge,
                self.bus@.ppu == spec_tick_n(b2.ppu, b2.cartridge, i as nat),
                self.bus@.ppu.ticks == b2.ppu.ticks + i,
                b2.ppu.ticks + count < u64::MAX,
            decreases count - i,
        {
            self.bus.ppu.tick(&self.bus.cartridge);
            i = i + 1;
        }
        self.total_cycles = self.total_cycles + (cycles as u64);
        let acc: u32 = self.cpu_cycles + (cycles as u32);
        if acc >= CYCLES_PER_FRAME {
            self.cpu_cycles = 0;
            self.bus.ppu.frame_complete = false;
            Ok(acc)
        } else {
            self.cpu_cycles = acc;
            Ok(acc)
        }
    }

    /// Run steps until one frame of CPU cycles has elapsed, or the first
    /// undocumented opcode halts the run.
    #[verifier::rlimit(100)]
    #[verifier::spinoff_prover]
    pub fn tick(&mut self) -> (r: Result<(), EmuError>)
        requires
            old(self).wf(),
            old(self).total_cycles < 0x0080_0000_0000_0000,
        ensures
            final(self).wf(),
            (final(self)@, r) == spec_run_frame(old(self)@),
            r is Ok ==> final(self)@.cpu_cycles == 0,
            r is Err ==> r->Err_0 is InvalidOpcode,
    {
        let ghost start = self@;
        let ghost t0 = self.total_cycles;
        let ghost c0 = self.cpu_cycles;
        loop
            invariant
                self.wf(),
                t0 < 0x0080_0000_0000_0000,
                c0 < CYCLES_PER_FRAME,
                self.total_cycles + c0 == t0 + self.cpu_cycles,
                start == old(self)@,
                spec_run_frame(self@) == spec_run_frame(start),
            decreases CYCLES_PER_FRAME - self.cpu_cycles,
        {
            let ghost pre = self@;
            let outcome = self.step();
            proof {
                lemma_run_frame_step(pre);
            }
            match outcome {
                Ok(c) => {
                    if c >= CYCLES_PER_FRAME {
                        return Ok(());
                    }
                },
                Err(e) => {
                    return Err(e);
                },
            }
        }
    }

    /// Load an iNES image into the cartridge slot and reset the machine.
    /// A load error leaves the engine exactly as it was.
    pub fn load_rom(&mut self, data: &Vec<u8>) -> (r: Result<(), EmuError>)
        requires
            old(self).wf(),
        ensures
            final(self).wf(),
            match spec_parse_ines(data@) {
                Ok(c) => r is Ok && final(self)@ == (HardwareView {
                    bus: spec_bus_reset(BusView { cartridge: c, ..old(self)@.bus }),
                    cpu_cycles: 0,
                    total_cycles: 0,
                }),
                Err(e) => r == Err::<(), EmuError>(e) && final(self)@ == old(self)@,
            },
    {
        let outcome = self.bus.cartridge.load_ines_rom(data);
        match outcome {
            Ok(()) => {
                self.bus.reset();
                self.cpu_cycles = 0;
                self.total_cycles = 0;
                Ok(())
            },
            Err(e) => Err(e),
        }
    }

    /// Read one CPU register.
    pub fn get_cpu_reg(&self, register: Registers) -> (r: u8)
        ensures
            r == crate::cpu::spec_reg_get(self@.bus.cpu, register),
    {
        self.bus.cpu.get(register)
    }

    /// The program counter.
    pub fn get_pc(&self) -> (r: u16)
        ensures
            r == self@.bus.cpu.pc,
    {
        self.bus.cpu.get_counter()
    }

    /// Read one status flag as 0 or 1.
    pub fn get_flag(&self, flag: Flags) -> (r: u8)
        ensures
            r == (if flag_set(self@.bus.cpu.p, crate::cpu::spec_flag_mask(flag)) {
                1u8
            } else {
                0u8
            }),
    {
        match flag {
            Flags::Carry => self.bus.cpu.get_carry(),
            Flags::Zero => self.bus.cpu.get_zero(),
            Flags::InterruptDisable => self.bus.cpu.get_interrupt_disable(),
            Flags::DecimalMode => self.bus.cpu.get_decimal_mode(),
            Flags::BreakCommand => self.bus.cpu.get_break(),
            Flags::Overflow => self.bus.cpu.get_overflow(),
            Flags::Negative => self.bus.cpu.get_negative(),
        }
    }

    /// CPU cycles counted inside the current frame.
    pub fn get_cycle(&self) -> (r: u32)
        ensures
            r == self@.cpu_cycles,
    {
        self.cpu_cycles
    }

    /// The 32 palette entries resolved to RGBA colours.
    pub fn get_palette(&self) -> (r: Vec<Color>)
        requires
            self.wf(),
        ensures
            r@.len() == 32,
            forall|i: int|
                0 <= i < 32 ==> r@[i] == crate::ppu::spec_nes_color(
                    #[trigger] self@.bus.ppu.palette[i],
                ),
    {
        self.bus.ppu.get_palette_rgba()
    }

    /// One pattern table rendered as a 128x128 RGBA image on the grey
    /// ramp: sixteen tiles across, sixteen down, table 0 or 1.
    pub fn get_chr_image(&self, table_number: u8) -> (r: Vec<u8>)
        requires
            self.wf(),
        ensures
            r@.len() == 65536,
            forall|py: int, px: int|
                #![trigger spec_chr_pixel(self@.bus.cartridge.mapper, table_number, py, px)]
                0 <= py < 128 && 0 <= px < 128 ==> {
                    let c = spec_chr_pixel(self@.bus.cartridge.mapper, table_number, py, px);
                    &&& r@[(py * 128 + px) * 4] == c.r
                    &&& r@[(py * 128 + px) * 4 + 1] == c.g
                    &&& r@[(py * 128 + px) * 4 + 2] == c.b
                    &&& r@[(py * 128 + px) * 4 + 3] == c.a
                },
    {
        let start: u16 = if table_number == 0 {
            0
        } else {
            256
        };
        let mut image: Vec<u8> = Vec::new();
        let mut py: u16 = 0;
        while py < 128
            invariant
                self.wf(),
                start == (if table_number == 0 {
                    0u16
                } else {
                    256u16
                }),
                py <= 128,
                image@.len() == py * 512,
                forall|y: int, x: int|
                    #![trigger spec_chr_pixel(self@.bus.cartridge.mapper, table_number, y, x)]
                    0 <= y < py && 0 <= x < 128 ==> {
                        let c = spec_chr_pixel(self@.bus.cartridge.mapper, table_number, y, x);
                        &&& image@[(y * 128 + x) * 4] == c.r
                        &&& image@[(y * 128 + x) * 4 + 1] == c.g
                        &&& image@[(y * 128 + x) * 4 + 2] == c.b
                        &&& image@[(y * 128 + x) * 4 + 3] == c.a
                    },
            decreases 128 - py,
        {
            let mut px: u16 = 0;
            while px < 128
                invariant
                    self.wf(),
                    start == (if table_number == 0 {
                        0u16
                    } else {
                        256u16
                    }),
                    py < 128,
                    px <= 128,
                    image@.len() == py * 512 + px * 4,
                    forall|y: int, x: int|
                        #![trigger spec_chr_pixel(self@.bus.cartridge.mapper, table_number, y, x)]
                        (0 <= y < py && 0 <= x < 128) || (y == py && 0 <= x < px) ==> {
                            let c = spec_chr_pixel(self@.bus.cartridge.mapper, table_number, y, x);
                            &&& image@[(y * 128 + x) * 4] == c.r
                            &&& image@[(y * 128 + x) * 4 + 1] == c.g
                            &&& image@[(y * 128 + x) * 4 + 2] == c.b
                            &&& image@[(y * 128 + x) * 4 + 3] == c.a
                        },
                decreases 128 - px,
            {
                let tile: u16 = start + (py / 8) * 16 + px / 8;
                let row: u16 = py % 8;
                let low_plane = match self.bus.cartridge.mapper.ppu_read(tile * 16 + row) {
                    Some(v) => v,
                    None => 0,
                };
                let high_plane = match self.bus.cartridge.mapper.ppu_read(tile * 16 + row + 8) {
                    Some(v) => v,
                    None => 0,
                };
                let shift: u8 = (7 - (px % 8)) as u8;
                let pix: u8 = (((high_plane >> shift) & 1) << 1) | ((low_plane >> shift) & 1);
                let color = crate::bus::tile_gray_level(pix);
                image.push(color.r);
                image.push(color.g);
                image.push(color.b);
                image.push(color.a);
                px = px + 1;
            }
            py = py + 1;
        }
        image
    }

    /// The 256x240 RGBA frame the PPU last produced.
    pub fn frame_buffer(&self) -> (r: &Vec<u8>)
        ensures
            r@ == self@.bus.ppu.frame_buffer,
    {
        &self.bus.ppu.frame_buffer
    }
}

} // verus!
