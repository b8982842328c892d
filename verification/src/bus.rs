//! The central address decoder that joins CPU, RAM, PPU and cartridge, the
//! hardware stack helpers and the addressing-mode evaluator.
//!
//! CPU-side address map: 0x0000..0x1FFF internal RAM (mirrored every
//! 0x0800); 0x2000..0x3FFF the eight PPU registers (mirrored every eight
//! bytes); 0x4000..0x4017 the APU/input stub (reads return 0, writes are
//! accepted silently); 0x4018..0x401F disabled; 0x4020..0xFFFF cartridge.

use vstd::prelude::*;

use crate::cartridge::{
    spec_mapper_cpu_read, spec_mapper_cpu_write, spec_mapper_ppu_read, spec_mapper_ppu_write,
    Cartridge, CartridgeView,
};
use crate::cpu::{
    spec_cpu_power_on, with_flag, CPU, FLAG_BREAK, FLAG_INTERRUPT, FLAG_UNUSED,
};
use crate::errors::EmuError;
use crate::instructions::{pc_len, AddressMode};
use crate::memory::{spec_ram_read, spec_ram_write, Memory};
use crate::ppu::{spec_ppu_power_on, spec_reg_read, spec_reg_write, Ppu, PpuView};
use crate::utils::Color;

verus! {

/// What the addressing-mode evaluator hands an executor: the operand value,
/// the effective address, and the extra cycle a crossed page boundary costs.
#[derive(Clone, Copy, Debug, PartialEq, Eq, Structural)]
pub struct ReadAddressWithModeResult {
    pub value: u8,
    pub address: u16,
    pub cycles: u8,
}

/// The whole machine state as the specifications see it.
#[verifier::ext_equal]
pub struct BusView {
    pub cpu: CPU,
    pub memory: Seq<u8>,
    pub ppu: PpuView,
    pub cartridge: CartridgeView,
}

/// The machine after a CPU-side read, and the byte it returns.  Reads of
/// the PPU register window carry that window's side effects; reads the
/// cartridge does not serve return 0.
pub open spec fn spec_bus_read(b: BusView, address: u16) -> (BusView, u8) {
    if address < 0x2000 {
        (b, spec_ram_read(b.memory, address))
    } else if address < 0x4000 {
        let pr = spec_reg_read(b.ppu, b.cartridge, address);
        (BusView { ppu: pr.0, ..b }, pr.1)
    } else if address < 0x4020 {
        (b, 0)
    } else {
        (
            b,
            match spec_mapper_cpu_read(b.cartridge.mapper, address) {
                Some(v) => v,
                None => 0,
            },
        )
    }
}

/// The machine after a CPU-side write.  Writes to read-only or unmapped
/// windows are ignored.
pub open spec fn spec_bus_write(b: BusView, address: u16, value: u8) -> BusView {
    if address < 0x2000 {
        BusView { memory: spec_ram_write(b.memory, address, value), ..b }
    } else if address < 0x4000 {
        let pr = spec_reg_write(b.ppu, b.cartridge, address, value);
        BusView { ppu: pr.0, cartridge: pr.1, ..b }
    } else if address < 0x4020 {
        b
    } else {
        BusView {
            cartridge: CartridgeView {
                mapper: spec_mapper_cpu_write(b.cartridge.mapper, address, value),
                ..b.cartridge
            },
            ..b
        }
    }
}

/// A little-endian word read: low byte first, high byte from the next
/// address (wrapping at the top of the address space).
pub open spec fn spec_bus_read_word(b: BusView, address: u16) -> (BusView, u16) {
    let r1 = spec_bus_read(b, address);
    let r2 = spec_bus_read(r1.0, vstd::wrapping::u16_specs::wrapping_add(address, 1));
    (r2.0, (r1.1 + 256 * r2.1) as u16)
}

/// The hardware's indirect-read quirk: when the pointer's low byte is 0xFF
/// the high byte comes from the start of the same page, not the next one.
pub open spec fn spec_bus_read_word_buggy(b: BusView, address: u16) -> (BusView, u16) {
    let high_addr: u16 = if address & 0x00FF == 0x00FF {
        address & 0xFF00
    } else {
        vstd::wrapping::u16_specs::wrapping_add(address, 1)
    };
    let r1 = spec_bus_read(b, address);
    let r2 = spec_bus_read(r1.0, high_addr);
    (r2.0, (r1.1 + 256 * r2.1) as u16)
}

/// The machine after a push: the stack pointer moves down (wrapping) and
/// the byte lands in page 0x01 of the RAM.
pub open spec fn spec_stack_push(b: BusView, value: u8) -> BusView {
    let s2 = vstd::wrapping::u8_specs::wrapping_sub(b.cpu.s, 1);
    BusView {
        cpu: CPU { s: s2, ..b.cpu },
        memory: spec_ram_write(b.memory, (0x100 + s2 as u16) as u16, value),
        ..b
    }
}

/// The machine after a pull, and the byte it returns.
pub open spec fn spec_stack_pull(b: BusView) -> (BusView, u8) {
    (
        BusView { cpu: CPU { s: vstd::wrapping::u8_specs::wrapping_add(b.cpu.s, 1), ..b.cpu }, ..b },
        spec_ram_read(b.memory, (0x100 + b.cpu.s as u16) as u16),
    )
}

/// A word push: high byte first, then low byte.
pub open spec fn spec_stack_push_word(b: BusView, value: u16) -> BusView {
    spec_stack_push(spec_stack_push(b, (value / 256) as u8), (value % 256) as u8)
}

/// A word pull: low byte first, then high byte.
pub open spec fn spec_stack_pull_word(b: BusView) -> (BusView, u16) {
    let r1 = spec_stack_pull(b);
    let r2 = spec_stack_pull(r1.0);
    (r2.0, (r1.1 + 256 * r2.1) as u16)
}

/// The branch target of a relative operand: the address of the following
/// instruction plus the sign-extended offset.
pub open spec fn spec_rel_target(pc: u16, offset: u8) -> u16 {
    vstd::wrapping::u16_specs::wrapping_add(
        vstd::wrapping::u16_specs::wrapping_add(pc, 2),
        if offset < 0x80 {
            offset as u16
        } else {
            (offset + 0xFF00) as u16
        },
    )
}

/// A CPU-side read leaves the register file, the RAM and the dot counter
/// of the PPU alone.
pub proof fn lemma_bus_read_ticks(b: BusView, address: u16)
    ensures
        spec_bus_read(b, address).0.ppu.ticks == b.ppu.ticks,
        spec_bus_read(b, address).0.cpu == b.cpu,
        spec_bus_read(b, address).0.memory == b.memory,
{
}

/// A CPU-side write leaves the dot counter of the PPU alone.
pub proof fn lemma_bus_write_ticks(b: BusView, address: u16, value: u8)
    ensures
        spec_bus_write(b, address, value).ppu.ticks == b.ppu.ticks,
{
}

/// A word read leaves the register file, the RAM and the dot counter of
/// the PPU alone.
pub proof fn lemma_bus_read_word_ticks(b: BusView, address: u16)
    ensures
        spec_bus_read_word(b, address).0.ppu.ticks == b.ppu.ticks,
        spec_bus_read_word(b, address).0.cpu == b.cpu,
        spec_bus_read_word(b, address).0.memory == b.memory,
{
    lemma_bus_read_ticks(b, address);
    lemma_bus_read_ticks(
        spec_bus_read(b, address).0,
        vstd::wrapping::u16_specs::wrapping_add(address, 1),
    );
}

/// The quirky word read leaves the register file, the RAM and the dot
/// counter of the PPU alone.
pub proof fn lemma_bus_read_word_buggy_ticks(b: BusView, address: u16)
    ensures
        spec_bus_read_word_buggy(b, address).0.ppu.ticks == b.ppu.ticks,
        spec_bus_read_word_buggy(b, address).0.cpu == b.cpu,
        spec_bus_read_word_buggy(b, address).0.memory == b.memory,
{
    let high_addr: u16 = if address & 0x00FF == 0x00FF {
        address & 0xFF00
    } else {
        vstd::wrapping::u16_specs::wrapping_add(address, 1)
    };
    lemma_bus_read_ticks(b, address);
    lemma_bus_read_ticks(spec_bus_read(b, address).0, high_addr);
}

/// The interrupt sequence leaves the dot counter of the PPU alone.
pub proof fn lemma_nmi_ticks(b: BusView)
    ensures
        spec_nmi(b).ppu.ticks == b.ppu.ticks,
{
    let b1 = spec_stack_push_word(b, b.cpu.pc);
    let b2 = spec_stack_push(b1, (b1.cpu.p & !FLAG_BREAK) | FLAG_UNUSED);
    let b3 = BusView { cpu: CPU { p: with_flag(b2.cpu.p, FLAG_INTERRUPT, true), ..b2.cpu }, ..b2 };
    lemma_bus_read_word_ticks(b3, 0xFFFA);
}

/// Operand evaluation leaves the register file, the RAM and the dot
/// counter of the PPU alone.
pub proof fn lemma_eval_ticks(b: BusView, mode: AddressMode)
    ensures
        spec_eval(b, mode).0.ppu.ticks == b.ppu.ticks,
        spec_eval(b, mode).0.cpu == b.cpu,
        spec_eval(b, mode).0.memory == b.memory,
{
    let pc = b.cpu.pc;
    let op_addr = vstd::wrapping::u16_specs::wrapping_add(pc, 1);
    lemma_bus_read_ticks(b, op_addr);
    lemma_bus_read_word_ticks(b, op_addr);
    let r1 = spec_bus_read(b, op_addr);
    let w1 = spec_bus_read_word(b, op_addr);
    match mode {
        AddressMode::Implicit => {},
        AddressMode::Accumulator => {},
        AddressMode::Immediate => {},
        AddressMode::Relative => {},
        AddressMode::ZeroPage => {
            lemma_bus_read_ticks(r1.0, r1.1 as u16);
        },
        AddressMode::ZeroPageX => {
            lemma_bus_read_ticks(
                r1.0,
                vstd::wrapping::u8_specs::wrapping_add(r1.1, b.cpu.x) as u16,
            );
        },
        AddressMode::ZeroPageY => {
            lemma_bus_read_ticks(
                r1.0,
                vstd::wrapping::u8_specs::wrapping_add(r1.1, b.cpu.y) as u16,
            );
        },
        AddressMode::Absolute => {
            lemma_bus_read_ticks(w1.0, w1.1);
        },
        AddressMode::AbsoluteX => {
            lemma_bus_read_ticks(
                w1.0,
                vstd::wrapping::u16_specs::wrapping_add(w1.1, b.cpu.x as u16),
            );
        },
        AddressMode::AbsoluteY => {
            lemma_bus_read_ticks(
                w1.0,
                vstd::wrapping::u16_specs::wrapping_add(w1.1, b.cpu.y as u16),
            );
        },
        AddressMode::Indirect => {
            lemma_bus_read_word_buggy_ticks(w1.0, w1.1);
        },
        AddressMode::IndirectX => {
            let zp = vstd::wrapping::u8_specs::wrapping_add(r1.1, b.cpu.x);
            lemma_bus_read_ticks(r1.0, zp as u16);
            let r2 = spec_bus_read(r1.0, zp as u16);
            lemma_bus_read_ticks(r2.0, vstd::wrapping::u8_specs::wrapping_add(zp, 1) as u16);
            let r3 = spec_bus_read(r2.0, vstd::wrapping::u8_specs::wrapping_add(zp, 1) as u16);
            lemma_bus_read_ticks(r3.0, (r2.1 + 256 * r3.1) as u16);
        },
        AddressMode::IndirectY => {
            lemma_bus_read_ticks(r1.0, r1.1 as u16);
            let r2 = spec_bus_read(r1.0, r1.1 as u16);
            lemma_bus_read_ticks(r2.0, vstd::wrapping::u8_specs::wrapping_add(r1.1, 1) as u16);
            let r3 = spec_bus_read(r2.0, vstd::wrapping::u8_specs::wrapping_add(r1.1, 1) as u16);
            let base = (r2.1 + 256 * r3.1) as u16;
            lemma_bus_read_ticks(r3.0, vstd::wrapping::u16_specs::wrapping_add(base, b.cpu.y as u16));
        },
    }
}

/// The machine after evaluating an operand under the given addressing
/// mode (the program counter still points at the opcode), together with
/// the operand value, effective address and page-cross cycle.
pub open spec fn spec_eval(b: BusView, mode: AddressMode) -> (BusView, ReadAddressWithModeResult) {
    let pc = b.cpu.pc;
    let op_addr = vstd::wrapping::u16_specs::wrapping_add(pc, 1);
    match mode {
        AddressMode::Implicit => (
            b,
            ReadAddressWithModeResult { value: b.cpu.a, address: 0, cycles: 0 },
        ),
        AddressMode::Accumulator => (
            b,
            ReadAddressWithModeResult { value: b.cpu.a, address: 0, cycles: 0 },
        ),
        AddressMode::Immediate => {
            let r1 = spec_bus_read(b, op_addr);
            (r1.0, ReadAddressWithModeResult { value: r1.1, address: 0, cycles: 0 })
        },
        AddressMode::Relative => {
            let r1 = spec_bus_read(b, op_addr);
            (
                r1.0,
                ReadAddressWithModeResult {
                    value: 0,
                    address: spec_rel_target(pc, r1.1),
                    cycles: 0,
                },
            )
        },
        AddressMode::ZeroPage => {
            let r1 = spec_bus_read(b, op_addr);
            let r2 = spec_bus_read(r1.0, r1.1 as u16);
            (r2.0, ReadAddressWithModeResult { value: r2.1, address: r1.1 as u16, cycles: 0 })
        },
        AddressMode::ZeroPageX => {
            let r1 = spec_bus_read(b, op_addr);
            let a = vstd::wrapping::u8_specs::wrapping_add(r1.1, b.cpu.x) as u16;
            let r2 = spec_bus_read(r1.0, a);
            (r2.0, ReadAddressWithModeResult { value: r2.1, address: a, cycles: 0 })
        },
        AddressMode::ZeroPageY => {
            let r1 = spec_bus_read(b, op_addr);
            let a = vstd::wrapping::u8_specs::wrapping_add(r1.1, b.cpu.y) as u16;
            let r2 = spec_bus_read(r1.0, a);
            (r2.0, ReadAddressWithModeResult { value: r2.1, address: a, cycles: 0 })
        },
        AddressMode::Absolute => {
            let r1 = spec_bus_read_word(b, op_addr);
            let r2 = spec_bus_read(r1.0, r1.1);
            (r2.0, ReadAddressWithModeResult { value: r2.1, address: r1.1, cycles: 0 })
        },
        AddressMode::AbsoluteX => {
            let r1 = spec_bus_read_word(b, op_addr);
            let a = vstd::wrapping::u16_specs::wrapping_add(r1.1, b.cpu.x as u16);
            let r2 = spec_bus_read(r1.0, a);
            (
                r2.0,
                ReadAddressWithModeResult {
                    value: r2.1,
                    address: a,
                    cycles: if r1.1 & 0xFF00 != a & 0xFF00 {
                        1
                    } else {
                        0
                    },
                },
            )
        },
        AddressMode::AbsoluteY => {
            let r1 = spec_bus_read_word(b, op_addr);
            let a = vstd::wrapping::u16_specs::wrapping_add(r1.1, b.cpu.y as u16);
            let r2 = spec_bus_read(r1.0, a);
            (
                r2.0,
                ReadAddressWithModeResult {
                    value: r2.1,
                    address: a,
                    cycles: if r1.1 & 0xFF00 != a & 0xFF00 {
                        1
                    } else {
                        0
                    },
                },
            )
        },
        AddressMode::Indirect => {
            let r1 = spec_bus_read_word(b, op_addr);
            let r2 = spec_bus_read_word_buggy(r1.0, r1.1);
            (r2.0, ReadAddressWithModeResult { value: 0, address: r2.1, cycles: 0 })
        },
        AddressMode::IndirectX => {
            let r1 = spec_bus_read(b, op_addr);
            let zp = vstd::wrapping::u8_specs::wrapping_add(r1.1, b.cpu.x);
            let r2 = spec_bus_read(r1.0, zp as u16);
            let r3 = spec_bus_read(r2.0, vstd::wrapping::u8_specs::wrapping_add(zp, 1) as u16);
            let a = (r2.1 + 256 * r3.1) as u16;
            let r4 = spec_bus_read(r3.0, a);
            (r4.0, ReadAddressWithModeResult { value: r4.1, address: a, cycles: 0 })
        },
        AddressMode::IndirectY => {
            let r1 = spec_bus_read(b, op_addr);
            let r2 = spec_bus_read(r1.0, r1.1 as u16);
            let r3 = spec_bus_read(r2.0, vstd::wrapping::u8_specs::wrapping_add(r1.1, 1) as u16);
            let base = (r2.1 + 256 * r3.1) as u16;
            let a = vstd::wrapping::u16_specs::wrapping_add(base, b.cpu.y as u16);
            let r4 = spec_bus_read(r3.0, a);
            (
                r4.0,
                ReadAddressWithModeResult {
                    value: r4.1,
                    address: a,
                    cycles: if base & 0xFF00 != a & 0xFF00 {
                        1
                    } else {
                        0
                    },
                },
            )
        },
    }
}

/// The non-maskable interrupt sequence: push the program counter (high
/// byte first), push the status with B clear and U set, raise interrupt
/// disable, and continue at the vector stored at 0xFFFA/0xFFFB.
pub open spec fn spec_nmi(b: BusView) -> BusView {
    let b1 = spec_stack_push_word(b, b.cpu.pc);
    let b2 = spec_stack_push(b1, (b1.cpu.p & !FLAG_BREAK) | FLAG_UNUSED);
    let b3 = BusView { cpu: CPU { p: with_flag(b2.cpu.p, FLAG_INTERRUPT, true), ..b2.cpu }, ..b2 };
    let r4 = spec_bus_read_word(b3, 0xFFFA);
    BusView { cpu: CPU { pc: r4.1, ..r4.0.cpu }, ..r4.0 }
}

/// The machine after a reset: registers at power-on, PPU timing cleared,
/// and the program counter loaded from the reset vector at 0xFFFC/0xFFFD.
pub open spec fn spec_bus_reset(b: BusView) -> BusView {
    let b1 = BusView {
        cpu: spec_cpu_power_on(),
        ppu: PpuView {
            oam: b.ppu.oam,
            palette: b.ppu.palette,
            nametable: b.ppu.nametable,
            frame_buffer: b.ppu.frame_buffer,
            ..spec_ppu_power_on()
        },
        ..b
    };
    let r = spec_bus_read_word(b1, 0xFFFC);
    BusView { cpu: CPU { pc: r.1, ..r.0.cpu }, ..r.0 }
}

/// The aggregate of the machine: the CPU register file, the work RAM, the
/// PPU and the cartridge slot.
#[derive(Clone, Debug)]
#[verifier::ext_equal]
pub struct Bus {
    pub cpu: CPU,
    pub memory: Memory,
    pub ppu: Ppu,
    pub cartridge: Cartridge,
}

impl View for Bus {
    type V = BusView;

    open spec fn view(&self) -> BusView {
        BusView {
            cpu: self.cpu,
            memory: self.memory@,
            ppu: self.ppu@,
            cartridge: self.cartridge@,
        }
    }
}

impl Bus {
    pub open spec fn wf(&self) -> bool {
        &&& self.memory.wf()
        &&& self.ppu.wf()
        &&& self.cartridge.wf()
    }

    /// A machine with power-on CPU and PPU, zeroed RAM and an empty
    /// cartridge slot.
    pub fn new() -> (r: Bus)
        ensures
            r.wf(),
            r@.cpu == spec_cpu_power_on(),
            r@.ppu == spec_ppu_power_on(),
            r@.memory == Seq::<u8>::new(0x800, |i: int| 0u8),
    {
        Bus { cpu: CPU::new(), memory: Memory::new(), ppu: Ppu::new(), cartridge: Cartridge::new() }
    }

    /// Advance the program counter by the length of an instruction of the
    /// given mode.
    pub fn increment_pc(&mut self, address_mode: &AddressMode)
        ensures
            final(self)@ == (BusView {
                cpu: CPU {
                    pc: vstd::wrapping::u16_specs::wrapping_add(
                        old(self).cpu.pc,
                        pc_len(*address_mode),
                    ),
                    ..old(self).cpu
                },
                ..old(self)@
            }),
    {
        let value: u16 = match address_mode {
            AddressMode::Implicit => 1,
            AddressMode::Accumulator => 1,
            AddressMode::Immediate => 2,
            AddressMode::ZeroPage => 2,
            AddressMode::ZeroPageX => 2,
            AddressMode::ZeroPageY => 2,
            AddressMode::Relative => 2,
            AddressMode::IndirectX => 2,
            AddressMode::IndirectY => 2,
            AddressMode::Absolute => 3,
            AddressMode::AbsoluteX => 3,
            AddressMode::AbsoluteY => 3,
            AddressMode::Indirect => 3,
        };
        let pc = self.cpu.get_counter();
        self.cpu.set_counter(pc.wrapping_add(value));
    }

    /// Advance the program counter by `value` bytes.
    pub fn increment_pc_by(&mut self, value: u16)
        ensures
            final(self)@ == (BusView {
                cpu: CPU {
                    pc: vstd::wrapping::u16_specs::wrapping_add(old(self).cpu.pc, value),
                    ..old(self).cpu
                },
                ..old(self)@
            }),
    {
        let pc = self.cpu.get_counter();
        self.cpu.set_counter(pc.wrapping_add(value));
    }

    /// CPU-side read of the full address map.
    pub fn read(&mut self, address: u16) -> (r: u8)
        requires
            old(self).wf(),
        ensures
            final(self).wf(),
            (final(self)@, r) == spec_bus_read(old(self)@, address),
    {
        if address < 0x2000 {
            self.memory.read(address)
        } else if address < 0x4000 {
            self.ppu.read_register(address, &self.cartridge)
        } else if address < 0x4020 {
            0
        } else {
            match self.cartridge.mapper.cpu_read(address) {
                Some(v) => v,
                None => 0,
            }
        }
    }

    /// Fetch the byte the program counter points at.
    pub fn read_instruct(&mut self) -> (r: u8)
        requires
            old(self).wf(),
        ensures
            final(self).wf(),
            (final(self)@, r) == spec_bus_read(old(self)@, old(self).cpu.pc),
    {
        let pc = self.cpu.get_counter();
        self.read(pc)
    }

    /// Fetch the byte after the opcode.
    pub fn read_next(&mut self) -> (r: u8)
        requires
            old(self).wf(),
        ensures
            final(self).wf(),
            (final(self)@, r) == spec_bus_read(
                old(self)@,
                vstd::wrapping::u16_specs::wrapping_add(old(self).cpu.pc, 1),
            ),
    {
        let pc = self.cpu.get_counter();
        self.read(pc.wrapping_add(1))
    }

    /// Read a little-endian word.
    pub fn read_word(&mut self, address: u16) -> (r: u16)
        requires
            old(self).wf(),
        ensures
            final(self).wf(),
            (final(self)@, r) == spec_bus_read_word(old(self)@, address),
    {
        let low_byte = self.read(address);
        let high_byte = self.read(address.wrapping_add(1));
        (low_byte as u16) + 256 * (high_byte as u16)
    }

    /// Read a little-endian word with the same-page quirk for pointers
    /// whose low byte is 0xFF.
    pub fn read_word_buggy(&mut self, address: u16) -> (r: u16)
        requires
            old(self).wf(),
        ensures
            final(self).wf(),
            (final(self)@, r) == spec_bus_read_word_buggy(old(self)@, address),
    {
        let low = self.read(address);
        let high = if address & 0x00FF == 0x00FF {
            self.read(address & 0xFF00)
        } else {
            self.read(address.wrapping_add(1))
        };
        (low as u16) + 256 * (high as u16)
    }

    /// Read the little-endian word after the opcode.
    pub fn read_next_word(&mut self) -> (r: u16)
        requires
            old(self).wf(),
        ensures
            final(self).wf(),
            (final(self)@, r) == spec_bus_read_word(
                old(self)@,
                vstd::wrapping::u16_specs::wrapping_add(old(self).cpu.pc, 1),
            ),
    {
        let pc = self.cpu.get_counter();
        self.read_word(pc.wrapping_add(1))
    }

    /// CPU-side write of the full address map.
    pub fn write(&mut self, address: u16, value: u8)
        requires
            old(self).wf(),
        ensures
            final(self).wf(),
            final(self)@ == spec_bus_write(old(self)@, address, value),
    {
        if address < 0x2000 {
            self.memory.write(address, value);
        } else if address < 0x4000 {
            self.ppu.write_register(address, value, &mut self.cartridge);
        } else if address < 0x4020 {
        } else {
            self.cartridge.mapper.cpu_write(address, value);
        }
    }

    /// Push a byte onto the hardware stack.
    pub fn stack_push(&mut self, value: u8)
        requires
            old(self).wf(),
        ensures
            final(self).wf(),
            final(self)@ == spec_stack_push(old(self)@, value),
    {
        self.cpu.stack_push(&mut self.memory, value);
    }

    /// Pull a byte from the hardware stack.
    pub fn stack_pull(&mut self) -> (r: u8)
        requires
            old(self).wf(),
        ensures
            final(self).wf(),
            (final(self)@, r) == spec_stack_pull(old(self)@),
    {
        self.cpu.stack_pull(&self.memory)
    }

    /// Push a word, high byte first.
    pub fn stack_push_word(&mut self, value: u16)
        requires
            old(self).wf(),
        ensures
            final(self).wf(),
            final(self)@ == spec_stack_push_word(old(self)@, value),
    {
        let low_byte: u8 = (value % 256) as u8;
        let high_byte: u8 = (value / 256) as u8;
        self.stack_push(high_byte);
        self.stack_push(low_byte);
    }

    /// Pull a word, low byte first.
    pub fn stack_pull_word(&mut self) -> (r: u16)
        requires
            old(self).wf(),
        ensures
            final(self).wf(),
            (final(self)@, r) == spec_stack_pull_word(old(self)@),
    {
        let low_byte = self.stack_pull();
        let high_byte = self.stack_pull();
        (low_byte as u16) + 256 * (high_byte as u16)
    }

    /// Evaluate the operand of the current instruction under an addressing
    /// mode; the program counter still points at the opcode.
    pub fn read_address_with_mode(&mut self, address_mode: &AddressMode) -> (r:
        ReadAddressWithModeResult)
        requires
            old(self).wf(),
        ensures
            final(self).wf(),
            (final(self)@, r) == spec_eval(old(self)@, *address_mode),
    {
        match address_mode {
            AddressMode::Implicit => ReadAddressWithModeResult {
                value: self.cpu.get(crate::cpu::Registers::A),
                address: 0,
                cycles: 0,
            },
            AddressMode::Accumulator => ReadAddressWithModeResult {
                value: self.cpu.get(crate::cpu::Registers::A),
                address: 0,
                cycles: 0,
            },
            AddressMode::Immediate => {
                let value = self.read_next();
                ReadAddressWithModeResult { value, address: 0, cycles: 0 }
            },
            AddressMode::Relative => {
                let offset = self.read_next();
                let pc = self.cpu.get_counter();
                let delta: u16 = if offset < 0x80 {
                    offset as u16
                } else {
                    (offset as u16) + 0xFF00
                };
                let target = pc.wrapping_add(2).wrapping_add(delta);
                ReadAddressWithModeResult { value: 0, address: target, cycles: 0 }
            },
            AddressMode::ZeroPage => {
                let operand = self.read_next();
                let address = operand as u16;
                let value = self.read(address);
                ReadAddressWithModeResult { value, address, cycles: 0 }
            },
            AddressMode::ZeroPageX => {
                let operand = self.read_next();
                let address = operand.wrapping_add(self.cpu.x) as u16;
                let value = self.read(address);
                ReadAddressWithModeResult { value, address, cycles: 0 }
            },
            AddressMode::ZeroPageY => {
                let operand = self.read_next();
                let address = operand.wrapping_add(self.cpu.y) as u16;
                let value = self.read(address);
                ReadAddressWithModeResult { value, address, cycles: 0 }
            },
            AddressMode::Absolute => {
                let address = self.read_next_word();
                let value = self.read(address);
                ReadAddressWithModeResult { value, address, cycles: 0 }
            },
            AddressMode::AbsoluteX => {
                let base = self.read_next_word();
                let address = base.wrapping_add(self.cpu.x as u16);
                let crossed = base & 0xFF00 != address & 0xFF00;
                let value = self.read(address);
                ReadAddressWithModeResult {
                    value,
                    address,
                    cycles: if crossed {
                        1
                    } else {
                        0
                    },
                }
            },
            AddressMode::AbsoluteY => {
                let base = self.read_next_word();
                let address = base.wrapping_add(self.cpu.y as u16);
                let crossed = base & 0xFF00 != address & 0xFF00;
                let value = self.read(address);
                ReadAddressWithModeResult {
                    value,
                    address,
                    cycles: if crossed {
                        1
                    } else {
                        0
                    },
                }
            },
            AddressMode::Indirect => {
                let pointer = self.read_next_word();
                let address = self.read_word_buggy(pointer);
                ReadAddressWithModeResult { value: 0, address, cycles: 0 }
            },
            AddressMode::IndirectX => {
                let operand = self.read_next();
                let zero_page_pointer = operand.wrapping_add(self.cpu.x);
                let low_byte = self.read(zero_page_pointer as u16);
                let high_byte = self.read(zero_page_pointer.wrapping_add(1) as u16);
                let address = (low_byte as u16) + 256 * (high_byte as u16);
                let value = self.read(address);
                ReadAddressWithModeResult { value, address, cycles: 0 }
            },
            AddressMode::IndirectY => {
                let operand = self.read_next();
                let low_byte = self.read(operand as u16);
                let high_byte = self.read(operand.wrapping_add(1) as u16);
                let base = (low_byte as u16) + 256 * (high_byte as u16);
                let address = base.wrapping_add(self.cpu.y as u16);
                let crossed = base & 0xFF00 != address & 0xFF00;
                let value = self.read(address);
                ReadAddressWithModeResult {
                    value,
                    address,
                    cycles: if crossed {
                        1
                    } else {
                        0
                    },
                }
            },
        }
    }

    /// Run the non-maskable interrupt sequence; it costs seven cycles.
    pub fn nmi(&mut self) -> (cycles: u8)
        requires
            old(self).wf(),
        ensures
            final(self).wf(),
            final(self)@ == spec_nmi(old(self)@),
            cycles == 7,
    {
        let pc = self.cpu.get_counter();
        self.stack_push_word(pc);
        let pushed = (self.cpu.p & !FLAG_BREAK) | FLAG_UNUSED;
        self.stack_push(pushed);
        self.cpu.set_interrupt_disable(true);
        let vector = self.read_word(0xFFFA);
        self.cpu.set_counter(vector);
        7
    }

    /// Reset CPU and PPU and load the program counter from the reset
    /// vector.
    pub fn reset(&mut self)
        requires
            old(self).wf(),
        ensures
            final(self).wf(),
            final(self)@ == spec_bus_reset(old(self)@),
    {
        self.cpu.reset();
        self.ppu.reset();
        let vector = self.read_word(0xFFFC);
        self.cpu.set_counter(vector);
    }

    /// PPU-side write through the cartridge mapper.
    pub fn ppu_write(&mut self, address: u16, value: u8)
        requires
            old(self).wf(),
        ensures
            final(self).wf(),
            final(self)@ == (BusView {
                cartridge: CartridgeView {
                    mapper: spec_mapper_ppu_write(old(self)@.cartridge.mapper, address, value),
                    ..old(self)@.cartridge
                },
                ..old(self)@
            }),
    {
        self.cartridge.mapper.ppu_write(address, value);
    }

    /// PPU-side read through the cartridge mapper.
    pub fn ppu_read(&self, address: u16) -> (r: Option<u8>)
        requires
            self.wf(),
        ensures
            r == spec_mapper_ppu_read(self@.cartridge.mapper, address),
    {
        self.cartridge.mapper.ppu_read(address)
    }

    /// CPU-side read of the cartridge alone; an unmapped address is the
    /// one condition the mapper reports as an error.
    pub fn cpu_read(&self, address: u16) -> (r: Result<u8, EmuError>)
        requires
            self.wf(),
        ensures
            match spec_mapper_cpu_read(self@.cartridge.mapper, address) {
                Some(v) => r == Ok::<u8, EmuError>(v),
                None => r == Err::<u8, EmuError>(EmuError::MapperOutOfRange(address)),
            },
    {
        match self.cartridge.mapper.cpu_read(address) {
            Some(v) => Ok(v),
            None => Err(EmuError::MapperOutOfRange(address)),
        }
    }

    /// CPU-side write of the cartridge alone.
    pub fn cpu_write(&mut self, addr: u16, value: u8)
        requires
            old(self).wf(),
        ensures
            final(self).wf(),
            final(self)@ == (BusView {
                cartridge: CartridgeView {
                    mapper: spec_mapper_cpu_write(old(self)@.cartridge.mapper, addr, value),
                    ..old(self)@.cartridge
                },
                ..old(self)@
            }),
    {
        self.cartridge.mapper.cpu_write(addr, value);
    }

    /// The sixteen bytes of one pattern-table tile.
    pub fn read_tile(&self, tile_index: u16) -> (r: Vec<u8>)
        requires
            self.wf(),
            tile_index < 512,
        ensures
            r@.len() == 16,
            forall|i: int|
                0 <= i < 16 ==> r@[i] == (match spec_mapper_ppu_read(
                    self@.cartridge.mapper,
                    (tile_index * 16 + i) as u16,
                ) {
                    Some(v) => v,
                    None => 0u8,
                }),
    {
        let mut tile_data: Vec<u8> = Vec::new();
        let mut i: u16 = 0;
        while i < 16
            invariant
                self.wf(),
                tile_index < 512,
                i <= 16,
                tile_data@.len() == i,
                forall|j: int|
                    0 <= j < i ==> tile_data@[j] == (match spec_mapper_ppu_read(
                        self@.cartridge.mapper,
                        (tile_index * 16 + j) as u16,
                    ) {
                        Some(v) => v,
                        None => 0u8,
                    }),
            decreases 16 - i,
        {
            let byte = match self.cartridge.mapper.ppu_read(tile_index * 16 + i) {
                Some(v) => v,
                None => 0,
            };
            tile_data.push(byte);
            i = i + 1;
        }
        tile_data
    }

    /// One tile rendered to 8x8 RGBA texels in a fixed four-step grey
    /// ramp: each pixel combines one bit from the tile's low plane and one
    /// from its high plane.
    pub fn tile_to_rgb(&self, tile_data: &Vec<u8>) -> (r: Vec<u8>)
        requires
            tile_data@.len() == 16,
        ensures
            r@.len() == 256,
            forall|row: int, col: int|
                #![trigger spec_tile_color(tile_data@, row, col)]
                0 <= row < 8 && 0 <= col < 8 ==> {
                    let c = spec_tile_color(tile_data@, row, col);
                    &&& r@[(row * 8 + col) * 4] == c.r
                    &&& r@[(row * 8 + col) * 4 + 1] == c.g
                    &&& r@[(row * 8 + col) * 4 + 2] == c.b
                    &&& r@[(row * 8 + col) * 4 + 3] == c.a
                },
    {
        let mut rgb_data: Vec<u8> = Vec::new();
        let mut row: usize = 0;
        while row < 8
            invariant
                tile_data@.len() == 16,
                row <= 8,
                rgb_data@.len() == row * 32,
                forall|r2: int, c2: int|
                    #![trigger spec_tile_color(tile_data@, r2, c2)]
                    0 <= r2 < row && 0 <= c2 < 8 ==> {
                        let c = spec_tile_color(tile_data@, r2, c2);
                        &&& rgb_data@[(r2 * 8 + c2) * 4] == c.r
                        &&& rgb_data@[(r2 * 8 + c2) * 4 + 1] == c.g
                        &&& rgb_data@[(r2 * 8 + c2) * 4 + 2] == c.b
                        &&& rgb_data@[(r2 * 8 + c2) * 4 + 3] == c.a
                    },
            decreases 8 - row,
        {
            let mut col: usize = 0;
            while col < 8
                invariant
                    tile_data@.len() == 16,
                    row < 8,
                    col <= 8,
                    rgb_data@.len() == row * 32 + col * 4,
                    forall|r2: int, c2: int|
                        #![trigger spec_tile_color(tile_data@, r2, c2)]
                        (0 <= r2 < row && 0 <= c2 < 8) || (r2 == row && 0 <= c2 < col) ==> {
                            let c = spec_tile_color(tile_data@, r2, c2);
                            &&& rgb_data@[(r2 * 8 + c2) * 4] == c.r
                            &&& rgb_data@[(r2 * 8 + c2) * 4 + 1] == c.g
                            &&& rgb_data@[(r2 * 8 + c2) * 4 + 2] == c.b
                            &&& rgb_data@[(r2 * 8 + c2) * 4 + 3] == c.a
                        },
                decreases 8 - col,
            {
                let shift: u8 = (7 - col) as u8;
                let bit0: u8 = (tile_data[row] >> shift) & 0x1;
                let bit1: u8 = (tile_data[row + 8] >> shift) & 0x1;
                let color_index: u8 = (bit1 << 1) | bit0;
                let color = tile_gray_level(color_index);
                rgb_data.push(color.r);
                rgb_data.push(color.g);
                rgb_data.push(color.b);
                rgb_data.push(color.a);
                col = col + 1;
            }
            row = row + 1;
        }
        rgb_data
    }
}

/// The two-bit colour number of one tile pixel: bit (7 - col) of the low
/// plane byte and of the high plane byte, combined.
pub open spec fn spec_tile_pixel(tile: Seq<u8>, row: int, col: int) -> u8 {
    let shift = (7 - col) as u8;
    let bit0 = (tile[row] >> shift) & 0x1;
    let bit1 = (tile[row + 8] >> shift) & 0x1;
    (bit1 << 1) | bit0
}

/// The grey ramp used for the raw pattern-table view.
pub open spec fn spec_gray_level(color_index: u8) -> Color {
    if color_index == 0 {
        Color { r: 0, g: 0, b: 0, a: 255 }
    } else if color_index == 1 {
        Color { r: 75, g: 75, b: 75, a: 255 }
    } else if color_index == 2 {
        Color { r: 200, g: 200, b: 200, a: 255 }
    } else {
        Color { r: 255, g: 255, b: 255, a: 255 }
    }
}

/// The grey colour of one tile pixel.
pub open spec fn spec_tile_color(tile: Seq<u8>, row: int, col: int) -> Color {
    spec_gray_level(spec_tile_pixel(tile, row, col))
}

/// Resolve a two-bit colour number on the grey ramp.
pub fn tile_gray_level(color_index: u8) -> (c: Color)
    ensures
        c == spec_gray_level(color_index),
{
    if color_index == 0 {
        Color { r: 0, g: 0, b: 0, a: 255 }
    } else if color_index == 1 {
        Color { r: 75, g: 75, b: 75, a: 255 }
    } else if color_index == 2 {
        Color { r: 200, g: 200, b: 200, a: 255 }
    } else {
        Color { r: 255, g: 255, b: 255, a: 255 }
    }
}

} // verus!
