//! The picture processing unit: the 341x262 dot clock, the loopy scroll
//! registers, OAM, palette RAM, the nametables with cartridge-controlled
//! mirroring, the CPU-visible register window and the frame buffer.

use vstd::prelude::*;

use crate::cartridge::{
    spec_mapper_ppu_read, spec_mapper_ppu_write, Cartridge, CartridgeView, ScreenMirroring,
};
use crate::memory::zero_bytes;
use crate::utils::Color;

verus! {

/// The PPU state as the specifications see it.
#[verifier::ext_equal]
pub struct PpuView {
    pub cycle: u16,
    pub scanline: u16,
    pub frame_complete: bool,
    pub control: u8,
    pub mask: u8,
    pub status: u8,
    pub oam_addr: u8,
    pub oam: Seq<u8>,
    pub w: bool,
    pub vram_addr: u16,
    pub temp_addr: u16,
    pub fine_x: u8,
    pub buffered_data: u8,
    pub palette: Seq<u8>,
    pub nametable: Seq<u8>,
    pub frame_buffer: Seq<u8>,
    pub nmi_pending: bool,
    pub ticks: u64,
}

/// The physical nametable cell a PPU address in 0x2000..0x3EFF maps to,
/// under the cartridge's mirroring.  The 2 KiB of nametable RAM hold two
/// tables; four-screen falls back to the vertical arrangement here.
pub open spec fn nt_index(m: ScreenMirroring, addr: u16) -> int {
    let r = (addr - 0x2000) % 0x1000;
    let table = r / 0x400;
    let off = r % 0x400;
    let phys: int = match m {
        ScreenMirroring::Horizontal => table / 2,
        ScreenMirroring::Vertical => table % 2,
        ScreenMirroring::Single => 0,
        ScreenMirroring::FourScreen => table % 2,
    };
    phys * 0x400 + off
}

/// The palette cell a PPU address in 0x3F00..0x3FFF maps to: 32 entries,
/// with 0x3F10/14/18/1C folded onto 0x3F00/04/08/0C.
pub open spec fn palette_fold(addr: u16) -> int {
    let i = (addr - 0x3F00) % 0x20;
    if i >= 0x10 && i % 4 == 0 {
        i - 0x10
    } else {
        i
    }
}

/// What a read of the 14-bit PPU address space returns: pattern tables from
/// the cartridge (0 where it stores nothing), nametables, palette.
pub open spec fn spec_vram_peek(p: PpuView, c: CartridgeView, addr: u16) -> u8 {
    let a = addr & 0x3FFF;
    if a < 0x2000 {
        match spec_mapper_ppu_read(c.mapper, a) {
            Some(v) => v,
            None => 0,
        }
    } else if a < 0x3F00 {
        p.nametable[nt_index(c.mirroring, a)]
    } else {
        p.palette[palette_fold(a)]
    }
}

/// The PPU and cartridge after a write to the 14-bit PPU address space.
pub open spec fn spec_vram_write(p: PpuView, c: CartridgeView, addr: u16, value: u8) -> (
    PpuView,
    CartridgeView,
) {
    let a = addr & 0x3FFF;
    if a < 0x2000 {
        (p, CartridgeView { mapper: spec_mapper_ppu_write(c.mapper, a, value), ..c })
    } else if a < 0x3F00 {
        (PpuView { nametable: p.nametable.update(nt_index(c.mirroring, a), value), ..p }, c)
    } else {
        (PpuView { palette: p.palette.update(palette_fold(a), value), ..p }, c)
    }
}

/// How far a data-port access moves the VRAM address: 32 with control
/// bit 2 set, 1 otherwise.
pub open spec fn vram_increment(control: u8) -> u16 {
    if control & 0x04 != 0 {
        32u16
    } else {
        1u16
    }
}

/// The PPU after a CPU read of one of the eight registers, and the byte the
/// read returns.  Reads of write-only registers return 0 and change nothing.
pub open spec fn spec_reg_read(p: PpuView, c: CartridgeView, addr: u16) -> (PpuView, u8) {
    let reg = addr & 0x2007;
    if reg == 0x2002 {
        (PpuView { status: p.status & 0x7F, w: false, ..p }, p.status)
    } else if reg == 0x2004 {
        (p, p.oam[p.oam_addr as int])
    } else if reg == 0x2007 {
        let a = p.vram_addr & 0x3FFF;
        let v2 = vstd::wrapping::u16_specs::wrapping_add(p.vram_addr, vram_increment(p.control));
        if a >= 0x3F00 {
            (PpuView { vram_addr: v2, ..p }, spec_vram_peek(p, c, a))
        } else {
            (
                PpuView { vram_addr: v2, buffered_data: spec_vram_peek(p, c, a), ..p },
                p.buffered_data,
            )
        }
    } else {
        (p, 0)
    }
}

/// The PPU and cartridge after a CPU write to one of the eight registers.
pub open spec fn spec_reg_write(p: PpuView, c: CartridgeView, addr: u16, value: u8) -> (
    PpuView,
    CartridgeView,
) {
    let reg = addr & 0x2007;
    if reg == 0x2000 {
        let t2 = (p.temp_addr & 0xF3FF) | (((value as u16) & 0x03) << 10);
        let raise = (p.control & 0x80 == 0) && (value & 0x80 != 0) && (p.status & 0x80 != 0);
        (
            PpuView {
                control: value,
                temp_addr: t2,
                nmi_pending: p.nmi_pending || raise,
                ..p
            },
            c,
        )
    } else if reg == 0x2001 {
        (PpuView { mask: value, ..p }, c)
    } else if reg == 0x2003 {
        (PpuView { oam_addr: value, ..p }, c)
    } else if reg == 0x2004 {
        (
            PpuView {
                oam: p.oam.update(p.oam_addr as int, value),
                oam_addr: vstd::wrapping::u8_specs::wrapping_add(p.oam_addr, 1),
                ..p
            },
            c,
        )
    } else if reg == 0x2005 {
        if !p.w {
            (
                PpuView {
                    temp_addr: (p.temp_addr & 0xFFE0) | ((value >> 3) as u16),
                    fine_x: value & 0x07,
                    w: true,
                    ..p
                },
                c,
            )
        } else {
            let t1 = (p.temp_addr & 0x8FFF) | (((value as u16) & 0x07) << 12);
            let t2 = (t1 & 0xFC1F) | (((value as u16) & 0xF8) << 2);
            (PpuView { temp_addr: t2, w: false, ..p }, c)
        }
    } else if reg == 0x2006 {
        if !p.w {
            (
                PpuView {
                    temp_addr: (p.temp_addr & 0x00FF) | (((value as u16) & 0x3F) << 8),
                    w: true,
                    ..p
                },
                c,
            )
        } else {
            let t2 = (p.temp_addr & 0xFF00) | (value as u16);
            (PpuView { temp_addr: t2, vram_addr: t2, w: false, ..p }, c)
        }
    } else if reg == 0x2007 {
        let w = spec_vram_write(p, c, p.vram_addr & 0x3FFF, value);
        let v2 = vstd::wrapping::u16_specs::wrapping_add(p.vram_addr, vram_increment(p.control));
        (PpuView { vram_addr: v2, ..w.0 }, w.1)
    } else {
        (p, c)
    }
}

/// The picture processing unit.
#[derive(Clone, Debug)]
#[verifier::ext_equal]
pub struct Ppu {
    pub cycle: u16,
    pub scanline: u16,
    pub frame_complete: bool,
    pub control: u8,
    pub mask: u8,
    pub status: u8,
    pub oam_addr: u8,
    pub oam_data: Vec<u8>,
    pub w: bool,
    pub vram_addr: u16,
    pub temp_addr: u16,
    pub fine_x: u8,
    pub buffered_data: u8,
    pub palette: Vec<u8>,
    pub nametable: Vec<u8>,
    pub frame_buffer: Vec<u8>,
    pub nmi_pending: bool,
    pub ticks: u64,
}

impl View for Ppu {
    type V = PpuView;

    open spec fn view(&self) -> PpuView {
        PpuView {
            cycle: self.cycle,
            scanline: self.scanline,
            frame_complete: self.frame_complete,
            control: self.control,
            mask: self.mask,
            status: self.status,
            oam_addr: self.oam_addr,
            oam: self.oam_data@,
            w: self.w,
            vram_addr: self.vram_addr,
            temp_addr: self.temp_addr,
            fine_x: self.fine_x,
            buffered_data: self.buffered_data,
            palette: self.palette@,
            nametable: self.nametable@,
            frame_buffer: self.frame_buffer@,
            nmi_pending: self.nmi_pending,
            ticks: self.ticks,
        }
    }
}

/// The PPU state at power-on.
pub open spec fn spec_ppu_power_on() -> PpuView {
    PpuView {
        cycle: 0,
        scanline: 0,
        frame_complete: false,
        control: 0,
        mask: 0,
        status: 0,
        oam_addr: 0,
        oam: Seq::<u8>::new(256, |i: int| 0u8),
        w: false,
        vram_addr: 0,
        temp_addr: 0,
        fine_x: 0,
        buffered_data: 0,
        palette: Seq::<u8>::new(32, |i: int| 0u8),
        nametable: Seq::<u8>::new(0x800, |i: int| 0u8),
        frame_buffer: Seq::<u8>::new(245760, |i: int| 0u8),
        nmi_pending: false,
        ticks: 0,
    }
}

impl Ppu {
    /// Sizes of the byte stores, and the dot position inside its grid.
    pub open spec fn wf(&self) -> bool {
        &&& self.oam_data@.len() == 256
        &&& self.palette@.len() == 32
        &&& self.nametable@.len() == 0x800
        &&& self.frame_buffer@.len() == 245760
        &&& self.cycle <= 340
        &&& self.scanline <= 261
    }

    /// A PPU in the power-on state.
    pub fn new() -> (r: Ppu)
        ensures
            r.wf(),
            r@ == spec_ppu_power_on(),
    {
        Ppu {
            cycle: 0,
            scanline: 0,
            frame_complete: false,
            control: 0,
            mask: 0,
            status: 0,
            oam_addr: 0,
            oam_data: zero_bytes(256),
            w: false,
            vram_addr: 0,
            temp_addr: 0,
            fine_x: 0,
            buffered_data: 0,
            palette: zero_bytes(32),
            nametable: zero_bytes(0x800),
            frame_buffer: zero_bytes(245760),
            nmi_pending: false,
            ticks: 0,
        }
    }

    /// Return the registers and the dot position to the power-on state; the
    /// OAM, palette and frame buffer contents are kept.
    pub fn reset(&mut self)
        requires
            old(self).wf(),
        ensures
            final(self).wf(),
            final(self)@ == (PpuView {
                oam: old(self)@.oam,
                palette: old(self)@.palette,
                nametable: old(self)@.nametable,
                frame_buffer: old(self)@.frame_buffer,
                ..spec_ppu_power_on()
            }),
    {
        self.cycle = 0;
        self.scanline = 0;
        self.frame_complete = false;
        self.control = 0;
        self.mask = 0;
        self.status = 0;
        self.oam_addr = 0;
        self.w = false;
        self.vram_addr = 0;
        self.temp_addr = 0;
        self.fine_x = 0;
        self.buffered_data = 0;
        self.nmi_pending = false;
        self.ticks = 0;
    }

    /// Whether a non-maskable interrupt is waiting for the CPU.
    pub fn get_nmi_pending(&self) -> (r: bool)
        ensures
            r == self@.nmi_pending,
    {
        self.nmi_pending
    }

    /// Raise or clear the pending non-maskable interrupt.
    pub fn set_nmi_pending(&mut self, status: bool)
        ensures
            final(self)@ == (PpuView { nmi_pending: status, ..old(self)@ }),
    {
        self.nmi_pending = status;
    }

    /// Read a byte of the 14-bit PPU address space without side effects.
    pub fn read_vram(&self, cart: &Cartridge, addr: u16) -> (r: u8)
        requires
            self.wf(),
            cart.wf(),
        ensures
            r == spec_vram_peek(self@, cart@, addr),
    {
        let a = addr & 0x3FFF;
        if a < 0x2000 {
            match cart.mapper.ppu_read(a) {
                Some(v) => v,
                None => 0,
            }
        } else if a < 0x3F00 {
            let r0: u16 = (a - 0x2000) % 0x1000;
            let table: u16 = r0 / 0x400;
            let off: u16 = r0 % 0x400;
            let phys: u16 = match self.mirroring_of(cart) {
                ScreenMirroring::Horizontal => table / 2,
                ScreenMirroring::Vertical => table % 2,
                ScreenMirroring::Single => 0,
                ScreenMirroring::FourScreen => table % 2,
            };
            self.nametable[(phys * 0x400 + off) as usize]
        } else {
            let i: u16 = (a - 0x3F00) % 0x20;
            let i2: u16 = if i >= 0x10 && i % 4 == 0 {
                i - 0x10
            } else {
                i
            };
            self.palette[i2 as usize]
        }
    }

    /// The cartridge's mirroring mode.
    fn mirroring_of(&self, cart: &Cartridge) -> (m: ScreenMirroring)
        ensures
            m == cart@.mirroring,
    {
        cart.mirroring
    }

    /// Write a byte of the 14-bit PPU address space.
    pub fn write_vram(&mut self, cart: &mut Cartridge, addr: u16, value: u8)
        requires
            old(self).wf(),
            old(cart).wf(),
        ensures
            final(self).wf(),
            final(cart).wf(),
            (final(self)@, final(cart)@) == spec_vram_write(old(self)@, old(cart)@, addr, value),
    {
        let a = addr & 0x3FFF;
        if a < 0x2000 {
            cart.mapper.ppu_write(a, value);
        } else if a < 0x3F00 {
            let r0: u16 = (a - 0x2000) % 0x1000;
            let table: u16 = r0 / 0x400;
            let off: u16 = r0 % 0x400;
            let phys: u16 = match self.mirroring_of(cart) {
                ScreenMirroring::Horizontal => table / 2,
                ScreenMirroring::Vertical => table % 2,
                ScreenMirroring::Single => 0,
                ScreenMirroring::FourScreen => table % 2,
            };
            self.nametable[(phys * 0x400 + off) as usize] = value;
        } else {
            let i: u16 = (a - 0x3F00) % 0x20;
            let i2: u16 = if i >= 0x10 && i % 4 == 0 {
                i - 0x10
            } else {
                i
            };
            self.palette[i2 as usize] = value;
        }
    }

    /// CPU read of one of the eight PPU registers (mirrored over
    /// 0x2000..0x3FFF), with the documented side effects.
    pub fn read_register(&mut self, addr: u16, cart: &Cartridge) -> (r: u8)
        requires
            old(self).wf(),
            cart.wf(),
        ensures
            final(self).wf(),
            final(self)@ == spec_reg_read(old(self)@, cart@, addr).0,
            r == spec_reg_read(old(self)@, cart@, addr).1,
    {
        let reg = addr & 0x2007;
        if reg == 0x2002 {
            let value = self.status;
            self.status = self.status & 0x7F;
            self.w = false;
            value
        } else if reg == 0x2004 {
            self.oam_data[self.oam_addr as usize]
        } else if reg == 0x2007 {
            let a = self.vram_addr & 0x3FFF;
            let fetched = self.read_vram(cart, a);
            let result = if a >= 0x3F00 {
                fetched
            } else {
                let buffered = self.buffered_data;
                self.buffered_data = fetched;
                buffered
            };
            let inc: u16 = if self.control & 0x04 != 0 {
                32
            } else {
                1
            };
            self.vram_addr = self.vram_addr.wrapping_add(inc);
            result
        } else {
            0
        }
    }

    /// CPU write to one of the eight PPU registers (mirrored over
    /// 0x2000..0x3FFF), with the documented side effects.  Writing the
    /// control register with the interrupt-enable bit while the VBlank flag
    /// is up raises the pending interrupt at once.
    pub fn write_register(&mut self, addr: u16, value: u8, cart: &mut Cartridge)
        requires
            old(self).wf(),
            old(cart).wf(),
        ensures
            final(self).wf(),
            final(cart).wf(),
            (final(self)@, final(cart)@) == spec_reg_write(old(self)@, old(cart)@, addr, value),
            (addr & 0x2007 == 0x2000 && value & 0x80 != 0 && old(self)@.status & 0x80 != 0
                && old(self)@.control & 0x80 == 0) ==> final(self)@.nmi_pending,
    {
        let reg = addr & 0x2007;
        if reg == 0x2000 {
            let nmi_was_enabled = self.control & 0x80 != 0;
            self.control = value;
            self.temp_addr = (self.temp_addr & 0xF3FF) | (((value as u16) & 0x03) << 10);
            if !nmi_was_enabled && value & 0x80 != 0 && self.status & 0x80 != 0 {
                self.nmi_pending = true;
            }
        } else if reg == 0x2001 {
            self.mask = value;
        } else if reg == 0x2003 {
            self.oam_addr = value;
        } else if reg == 0x2004 {
            self.oam_data[self.oam_addr as usize] = value;
            self.oam_addr = self.oam_addr.wrapping_add(1);
        } else if reg == 0x2005 {
            if !self.w {
                self.temp_addr = (self.temp_addr & 0xFFE0) | ((value >> 3) as u16);
                self.fine_x = value & 0x07;
                self.w = true;
            } else {
                self.temp_addr = (self.temp_addr & 0x8FFF) | (((value as u16) & 0x07) << 12);
                self.temp_addr = (self.temp_addr & 0xFC1F) | (((value as u16) & 0xF8) << 2);
                self.w = false;
            }
        } else if reg == 0x2006 {
            if !self.w {
                self.temp_addr = (self.temp_addr & 0x00FF) | (((value as u16) & 0x3F) << 8);
                self.w = true;
            } else {
                self.temp_addr = (self.temp_addr & 0xFF00) | (value as u16);
                self.vram_addr = self.temp_addr;
                self.w = false;
            }
        } else if reg == 0x2007 {
            let target = self.vram_addr & 0x3FFF;
            self.write_vram(cart, target, value);
            let inc: u16 = if self.control & 0x04 != 0 {
                32
            } else {
                1
            };
            self.vram_addr = self.vram_addr.wrapping_add(inc);
        }
    }

    /// Render the background pixel the loopy registers currently select,
    /// for screen column `x`.
    fn render_pixel(&self, cart: &Cartridge, x: u16) -> (col: Color)
        requires
            self.wf(),
            cart.wf(),
        ensures
            col == spec_pixel(self@, cart@, x),
    {
        let v = self.vram_addr;
        let tile_id = self.read_vram(cart, 0x2000 | (v & 0x0FFF));
        let fy: u16 = (v >> 12) & 0x0007;
        let pattern_base: u16 = if self.control & 0x10 != 0 {
            0x1000
        } else {
            0
        };
        proof {
            assert((v >> 12) & 0x0007 <= 7) by (bit_vector);
        }
        let pat: u16 = pattern_base + (tile_id as u16) * 16 + fy;
        let lo = self.read_vram(cart, pat);
        let hi = self.read_vram(cart, pat + 8);
        let bit: u16 = 7 - ((x % 8) + (self.fine_x as u16)) % 8;
        let b: u8 = bit as u8;
        let low_bit: u8 = (lo >> b) & 1;
        let high_bit: u8 = (hi >> b) & 1;
        let pix: u8 = low_bit | (high_bit << 1);
        let attr = self.read_vram(cart, 0x23C0 | (v & 0x0C00) | ((v >> 4) & 0x38) | ((v >> 2)
            & 0x07));
        let shift_amt: u16 = ((v >> 4) & 0x0004) | (v & 0x0002);
        proof {
            assert(((v >> 4) & 0x0004) | (v & 0x0002) <= 6) by (bit_vector);
        }
        let sel: u8 = (attr >> (shift_amt as u8)) & 0x03;
        proof {
            let lo8 = lo;
            let hi8 = hi;
            let attr8 = attr;
            let s8 = shift_amt as u8;
            assert(((lo8 >> b) & 1) | (((hi8 >> b) & 1) << 1) <= 3) by (bit_vector);
            assert((attr8 >> s8) & 0x03 <= 3) by (bit_vector);
        }
        let pal_index: u8 = if pix == 0 {
            self.palette[0]
        } else {
            self.palette[(sel * 4 + pix) as usize]
        };
        self.get_nes_color(pal_index)
    }

    /// Render one visible dot into the frame buffer at (`sl`, `x`).
    fn render_dot(&mut self, cart: &Cartridge, sl: u16, x: u16)
        requires
            old(self).wf(),
            cart.wf(),
            sl < 240,
            x < 256,
        ensures
            final(self).wf(),
            final(self)@ == spec_render_dot(old(self)@, cart@, sl, x),
    {
        let col = self.render_pixel(cart, x);
        let base: usize = ((sl as usize) * 256 + (x as usize)) * 4;
        self.frame_buffer[base] = col.r;
        self.frame_buffer[base + 1] = col.g;
        self.frame_buffer[base + 2] = col.b;
        self.frame_buffer[base + 3] = col.a;
    }

    /// Advance the dot clock by one PPU cycle.
    ///
    /// At scanline 241 dot 1 the VBlank flag rises, the frame is marked
    /// complete and, with interrupt generation enabled, the pending
    /// interrupt is raised; at scanline 261 dot 1 the VBlank, sprite-zero
    /// and overflow bits fall.  During visible scanlines the loopy address
    /// advances and one background pixel lands in the frame buffer.
    pub fn tick(&mut self, cart: &Cartridge)
        requires
            old(self).wf(),
            cart.wf(),
            old(self).ticks < u64::MAX,
        ensures
            final(self).wf(),
            final(self)@ == spec_tick(old(self)@, cart@),
            final(self)@.ticks == old(self)@.ticks + 1,
            final(self)@.nmi_pending == (old(self)@.nmi_pending || (old(self).scanline == 241
                && old(self).cycle == 0 && old(self)@.control & 0x80 != 0)),
            (old(self).scanline == 241 && old(self).cycle == 0) ==> (final(self)@.status == (old(
                self,
            )@.status | 0x80) && final(self)@.frame_complete),
            (old(self).scanline == 261 && old(self).cycle == 0) ==> final(self)@.status == (old(
                self,
            )@.status & 0x1F),
    {
        let c2: u16 = self.cycle + 1;
        let sl: u16 = self.scanline;
        if sl < 240 {
            if 1 <= c2 && c2 <= 256 {
                self.render_dot(cart, sl, c2 - 1);
                if c2 % 8 == 0 {
                    self.vram_addr = inc_coarse_x(self.vram_addr);
                }
                if c2 == 256 {
                    self.vram_addr = inc_y(self.vram_addr);
                }
            } else if c2 == 257 {
                self.vram_addr = copy_horizontal(self.vram_addr, self.temp_addr);
            }
        } else if sl == 241 && c2 == 1 {
            self.status = self.status | 0x80;
            self.frame_complete = true;
            if self.control & 0x80 != 0 {
                self.nmi_pending = true;
            }
        } else if sl == 261 {
            if c2 == 1 {
                self.status = self.status & 0x1F;
            } else if 280 <= c2 && c2 <= 304 {
                self.vram_addr = copy_vertical(self.vram_addr, self.temp_addr);
            }
        }
        if c2 >= 341 {
            self.cycle = 0;
            self.scanline = if sl + 1 >= 262 {
                0
            } else {
                sl + 1
            };
        } else {
            self.cycle = c2;
        }
        self.ticks = self.ticks + 1;
    }

    /// The 32 bytes of palette RAM.
    pub fn get_palette(&self) -> (r: &Vec<u8>)
        ensures
            r@ == self@.palette,
    {
        &self.palette
    }

    /// Store one palette entry; indices past the palette are ignored.
    pub fn set_palette(&mut self, index: usize, value: u8)
        requires
            old(self).wf(),
        ensures
            final(self).wf(),
            final(self)@ == (PpuView {
                palette: if index < 32 {
                    old(self)@.palette.update(index as int, value)
                } else {
                    old(self)@.palette
                },
                ..old(self)@
            }),
    {
        if index < self.palette.len() {
            self.palette[index] = value;
        }
    }

    /// The RGBA colour of one entry of the console's fixed 64-colour
    /// palette; the index is taken modulo 64.
    pub fn get_nes_color(&self, index: u8) -> (col: Color)
        ensures
            col == spec_nes_color(index),
    {
        nes_color_lookup(index)
    }

    /// The 32 palette entries resolved to their RGBA colours.
    pub fn get_palette_rgba(&self) -> (r: Vec<Color>)
        requires
            self.wf(),
        ensures
            r@.len() == 32,
            forall|i: int|
                0 <= i < 32 ==> r@[i] == spec_nes_color(#[trigger] self@.palette[i]),
    {
        let mut out: Vec<Color> = Vec::new();
        let mut i: usize = 0;
        while i < 32
            invariant
                self.wf(),
                i <= 32,
                out@.len() == i,
                forall|j: int|
                    0 <= j < i ==> out@[j] == spec_nes_color(#[trigger] self@.palette[j]),
            decreases 32 - i,
        {
            out.push(nes_color_lookup(self.palette[i]));
            i = i + 1;
        }
        out
    }
}

/// Coarse X stepping of the loopy address: wraps from 31 to 0 and flips the
/// horizontal nametable bit.
pub open spec fn spec_inc_coarse_x(v: u16) -> u16 {
    if v & 0x001F == 0x001F {
        (v & 0xFFE0) ^ 0x0400
    } else {
        (v + 1) as u16
    }
}

/// Y stepping of the loopy address: fine Y carries into coarse Y; coarse
/// Y wraps from 29 to 0 flipping the vertical nametable bit, and from 31
/// to 0 without the flip.
pub open spec fn spec_inc_y(v: u16) -> u16 {
    if v & 0x7000 != 0x7000 {
        (v + 0x1000) as u16
    } else {
        let v1 = v & 0x8FFF;
        let cy = (v1 & 0x03E0) >> 5;
        if cy == 29 {
            (v1 & 0xFC1F) ^ 0x0800
        } else if cy == 31 {
            v1 & 0xFC1F
        } else {
            (v1 & 0xFC1F) | (((cy + 1) as u16) << 5)
        }
    }
}

/// The horizontal bits (coarse X, nametable X) of `t` copied into `v`.
pub open spec fn spec_copy_horizontal(v: u16, t: u16) -> u16 {
    (v & 0x7BE0) | (t & 0x041F)
}

/// The vertical bits (fine Y, coarse Y, nametable Y) of `t` copied into `v`.
pub open spec fn spec_copy_vertical(v: u16, t: u16) -> u16 {
    (v & 0x041F) | (t & 0x7BE0)
}

fn inc_coarse_x(v: u16) -> (r: u16)
    ensures
        r == spec_inc_coarse_x(v),
{
    if v & 0x001F == 0x001F {
        (v & 0xFFE0) ^ 0x0400
    } else {
        proof {
            assert(v & 0x001F != 0x001F ==> v < 0xFFFF) by (bit_vector);
        }
        v + 1
    }
}

fn inc_y(v: u16) -> (r: u16)
    ensures
        r == spec_inc_y(v),
{
    if v & 0x7000 != 0x7000 {
        proof {
            assert(v & 0x7000 != 0x7000 ==> v <= 0xEFFF) by (bit_vector);
        }
        v + 0x1000
    } else {
        let v1: u16 = v & 0x8FFF;
        let cy: u16 = (v1 & 0x03E0) >> 5;
        proof {
            assert((v1 & 0x03E0) >> 5 <= 31) by (bit_vector);
        }
        if cy == 29 {
            (v1 & 0xFC1F) ^ 0x0800
        } else if cy == 31 {
            v1 & 0xFC1F
        } else {
            (v1 & 0xFC1F) | ((cy + 1) << 5)
        }
    }
}

fn copy_horizontal(v: u16, t: u16) -> (r: u16)
    ensures
        r == spec_copy_horizontal(v, t),
{
    (v & 0x7BE0) | (t & 0x041F)
}

fn copy_vertical(v: u16, t: u16) -> (r: u16)
    ensures
        r == spec_copy_vertical(v, t),
{
    (v & 0x041F) | (t & 0x7BE0)
}

/// The background pixel colour the loopy registers select for screen
/// column `x`: nametable fetch, attribute fetch, pattern fetch, fine-x
/// bit select, palette lookup.
pub open spec fn spec_pixel(p: PpuView, c: CartridgeView, x: u16) -> Color {
    let v = p.vram_addr;
    let tile_id = spec_vram_peek(p, c, 0x2000 | (v & 0x0FFF));
    let fy = (v >> 12) & 0x0007;
    let pattern_base: u16 = if p.control & 0x10 != 0 {
        0x1000
    } else {
        0
    };
    let pat = (pattern_base + tile_id * 16 + fy) as u16;
    let lo = spec_vram_peek(p, c, pat);
    let hi = spec_vram_peek(p, c, (pat + 8) as u16);
    let b = (7 - ((x % 8) + (p.fine_x as u16)) % 8) as u8;
    let pix = ((lo >> b) & 1) | (((hi >> b) & 1) << 1);
    let attr = spec_vram_peek(p, c, 0x23C0 | (v & 0x0C00) | ((v >> 4) & 0x38) | ((v >> 2) & 0x07));
    let shift_amt = (((v >> 4) & 0x0004) | (v & 0x0002)) as u8;
    let sel = (attr >> shift_amt) & 0x03;
    let pal_index = if pix == 0 {
        p.palette[0]
    } else {
        p.palette[sel * 4 + pix]
    };
    spec_nes_color(pal_index)
}

/// The frame buffer with the pixel for (`sl`, `x`) written as one RGBA
/// texel.
pub open spec fn spec_render_dot(p: PpuView, c: CartridgeView, sl: u16, x: u16) -> PpuView {
    let col = spec_pixel(p, c, x);
    let base = (sl * 256 + x) * 4;
    PpuView {
        frame_buffer: p.frame_buffer.update(base, col.r).update(base + 1, col.g).update(
            base + 2,
            col.b,
        ).update(base + 3, col.a),
        ..p
    }
}

/// One step of the dot clock: the scanline events, the loopy address
/// stepping during visible lines, and the cycle/scanline wrap.
pub open spec fn spec_tick(p: PpuView, c: CartridgeView) -> PpuView {
    let c2 = (p.cycle + 1) as u16;
    let sl = p.scanline;
    let p1 = if sl < 240 {
        if 1 <= c2 && c2 <= 256 {
            let pr = spec_render_dot(p, c, sl, (c2 - 1) as u16);
            let px = if c2 % 8 == 0 {
                PpuView { vram_addr: spec_inc_coarse_x(pr.vram_addr), ..pr }
            } else {
                pr
            };
            if c2 == 256 {
                PpuView { vram_addr: spec_inc_y(px.vram_addr), ..px }
            } else {
                px
            }
        } else if c2 == 257 {
            PpuView { vram_addr: spec_copy_horizontal(p.vram_addr, p.temp_addr), ..p }
        } else {
            p
        }
    } else if sl == 241 && c2 == 1 {
        PpuView {
            status: p.status | 0x80,
            frame_complete: true,
            nmi_pending: p.nmi_pending || p.control & 0x80 != 0,
            ..p
        }
    } else if sl == 261 {
        if c2 == 1 {
            PpuView { status: p.status & 0x1F, ..p }
        } else if 280 <= c2 && c2 <= 304 {
            PpuView { vram_addr: spec_copy_vertical(p.vram_addr, p.temp_addr), ..p }
        } else {
            p
        }
    } else {
        p
    };
    let p2 = if c2 >= 341 {
        PpuView {
            cycle: 0,
            scanline: if sl + 1 >= 262 {
                0u16
            } else {
                (sl + 1) as u16
            },
            ..p1
        }
    } else {
        PpuView { cycle: c2, ..p1 }
    };
    PpuView { ticks: (p2.ticks + 1) as u64, ..p2 }
}

/// The dot clock never raises the interrupt line while the control
/// register's interrupt-enable bit is clear, and it never changes the
/// control register itself.
pub proof fn lemma_tick_quiet(p: PpuView, c: CartridgeView)
    requires
        !p.nmi_pending,
        p.control & 0x80 == 0,
    ensures
        !spec_tick(p, c).nmi_pending,
        spec_tick(p, c).control == p.control,
{
}

/// The console's fixed 64-colour palette, as RGBA; the index is taken
/// modulo 64.
pub open spec fn spec_nes_color(index: u8) -> Color {
    match index & 0x3F {
        0x00 => Color { r: 84, g: 84, b: 84, a: 255 },
        0x01 => Color { r: 0, g: 30, b: 116, a: 255 },
        0x02 => Color { r: 8, g: 16, b: 144, a: 255 },
        0x03 => Color { r: 48, g: 0, b: 136, a: 255 },
        0x04 => Color { r: 68, g: 0, b: 100, a: 255 },
        0x05 => Color { r: 92, g: 0, b: 48, a: 255 },
        0x06 => Color { r: 84, g: 4, b: 0, a: 255 },
        0x07 => Color { r: 60, g: 24, b: 0, a: 255 },
        0x08 => Color { r: 32, g: 42, b: 0, a: 255 },
        0x09 => Color { r: 8, g: 58, b: 0, a: 255 },
        0x0A => Color { r: 0, g: 64, b: 0, a: 255 },
        0x0B => Color { r: 0, g: 60, b: 0, a: 255 },
        0x0C => Color { r: 0, g: 50, b: 60, a: 255 },
        0x0D => Color { r: 0, g: 0, b: 0, a: 255 },
        0x0E => Color { r: 0, g: 0, b: 0, a: 255 },
        0x0F => Color { r: 0, g: 0, b: 0, a: 255 },
        0x10 => Color { r: 152, g: 150, b: 152, a: 255 },
        0x11 => Color { r: 8, g: 76, b: 196, a: 255 },
        0x12 => Color { r: 48, g: 50, b: 236, a: 255 },
        0x13 => Color { r: 92, g: 30, b: 228, a: 255 },
        0x14 => Color { r: 136, g: 20, b: 176, a: 255 },
        0x15 => Color { r: 160, g: 20, b: 100, a: 255 },
        0x16 => Color { r: 152, g: 34, b: 32, a: 255 },
        0x17 => Color { r: 120, g: 60, b: 0, a: 255 },
        0x18 => Color { r: 84, g: 90, b: 0, a: 255 },
        0x19 => Color { r: 40, g: 114, b: 0, a: 255 },
        0x1A => Color { r: 8, g: 124, b: 0, a: 255 },
        0x1B => Color { r: 0, g: 118, b: 40, a: 255 },
        0x1C => Color { r: 0, g: 102, b: 120, a: 255 },
        0x1D => Color { r: 0, g: 0, b: 0, a: 255 },
        0x1E => Color { r: 0, g: 0, b: 0, a: 255 },
        0x1F => Color { r: 0, g: 0, b: 0, a: 255 },
        0x20 => Color { r: 236, g: 238, b: 236, a: 255 },
        0x21 => Color { r: 76, g: 154, b: 236, a: 255 },
        0x22 => Color { r: 120, g: 124, b: 236, a: 255 },
        0x23 => Color { r: 176, g: 98, b: 236, a: 255 },
        0x24 => Color { r: 228, g: 84, b: 236, a: 255 },
        0x25 => Color { r: 236, g: 88, b: 180, a: 255 },
        0x26 => Color { r: 236, g: 106, b: 100, a: 255 },
        0x27 => Color { r: 212, g: 136, b: 32, a: 255 },
        0x28 => Color { r: 160, g: 170, b: 0, a: 255 },
        0x29 => Color { r: 116, g: 196, b: 0, a: 255 },
        0x2A => Color { r: 76, g: 208, b: 32, a: 255 },
        0x2B => Color { r: 56, g: 204, b: 108, a: 255 },
        0x2C => Color { r: 56, g: 180, b: 204, a: 255 },
        0x2D => Color { r: 60, g: 60, b: 60, a: 255 },
        0x2E => Color { r: 0, g: 0, b: 0, a: 255 },
        0x2F => Color { r: 0, g: 0, b: 0, a: 255 },
        0x30 => Color { r: 236, g: 238, b: 236, a: 255 },
        0x31 => Color { r: 168, g: 204, b: 236, a: 255 },
        0x32 => Color { r: 188, g: 188, b: 236, a: 255 },
        0x33 => Color { r: 212, g: 178, b: 236, a: 255 },
        0x34 => Color { r: 236, g: 174, b: 236, a: 255 },
        0x35 => Color { r: 236, g: 174, b: 212, a: 255 },
        0x36 => Color { r: 236, g: 180, b: 176, a: 255 },
        0x37 => Color { r: 228, g: 196, b: 144, a: 255 },
        0x38 => Color { r: 204, g: 210, b: 120, a: 255 },
        0x39 => Color { r: 180, g: 222, b: 120, a: 255 },
        0x3A => Color { r: 168, g: 226, b: 144, a: 255 },
        0x3B => Color { r: 152, g: 226, b: 180, a: 255 },
        0x3C => Color { r: 160, g: 214, b: 228, a: 255 },
        0x3D => Color { r: 160, g: 162, b: 160, a: 255 },
        0x3E => Color { r: 0, g: 0, b: 0, a: 255 },
        0x3F => Color { r: 0, g: 0, b: 0, a: 255 },
        _ => Color { r: 0, g: 0, b: 0, a: 255 },
    }
}

/// Resolve one entry of the console's fixed 64-colour palette.
pub fn nes_color_lookup(index: u8) -> (col: Color)
    ensures
        col == spec_nes_color(index),
{
    match index & 0x3F {
        0x00 => Color { r: 84, g: 84, b: 84, a: 255 },
        0x01 => Color { r: 0, g: 30, b: 116, a: 255 },
        0x02 => Color { r: 8, g: 16, b: 144, a: 255 },
        0x03 => Color { r: 48, g: 0, b: 136, a: 255 },
        0x04 => Color { r: 68, g: 0, b: 100, a: 255 },
        0x05 => Color { r: 92, g: 0, b: 48, a: 255 },
        0x06 => Color { r: 84, g: 4, b: 0, a: 255 },
        0x07 => Color { r: 60, g: 24, b: 0, a: 255 },
        0x08 => Color { r: 32, g: 42, b: 0, a: 255 },
        0x09 => Color { r: 8, g: 58, b: 0, a: 255 },
        0x0A => Color { r: 0, g: 64, b: 0, a: 255 },
        0x0B => Color { r: 0, g: 60, b: 0, a: 255 },
        0x0C => Color { r: 0, g: 50, b: 60, a: 255 },
        0x0D => Color { r: 0, g: 0, b: 0, a: 255 },
        0x0E => Color { r: 0, g: 0, b: 0, a: 255 },
        0x0F => Color { r: 0, g: 0, b: 0, a: 255 },
        0x10 => Color { r: 152, g: 150, b: 152, a: 255 },
        0x11 => Color { r: 8, g: 76, b: 196, a: 255 },
        0x12 => Color { r: 48, g: 50, b: 236, a: 255 },
        0x13 => Color { r: 92, g: 30, b: 228, a: 255 },
        0x14 => Color { r: 136, g: 20, b: 176, a: 255 },
        0x15 => Color { r: 160, g: 20, b: 100, a: 255 },
        0x16 => Color { r: 152, g: 34, b: 32, a: 255 },
        0x17 => Color { r: 120, g: 60, b: 0, a: 255 },
        0x18 => Color { r: 84, g: 90, b: 0, a: 255 },
        0x19 => Color { r: 40, g: 114, b: 0, a: 255 },
        0x1A => Color { r: 8, g: 124, b: 0, a: 255 },
        0x1B => Color { r: 0, g: 118, b: 40, a: 255 },
        0x1C => Color { r: 0, g: 102, b: 120, a: 255 },
        0x1D => Color { r: 0, g: 0, b: 0, a: 255 },
        0x1E => Color { r: 0, g: 0, b: 0, a: 255 },
        0x1F => Color { r: 0, g: 0, b: 0, a: 255 },
        0x20 => Color { r: 236, g: 238, b: 236, a: 255 },
        0x21 => Color { r: 76, g: 154, b: 236, a: 255 },
        0x22 => Color { r: 120, g: 124, b: 236, a: 255 },
        0x23 => Color { r: 176, g: 98, b: 236, a: 255 },
        0x24 => Color { r: 228, g: 84, b: 236, a: 255 },
        0x25 => Color { r: 236, g: 88, b: 180, a: 255 },
        0x26 => Color { r: 236, g: 106, b: 100, a: 255 },
        0x27 => Color { r: 212, g: 136, b: 32, a: 255 },
        0x28 => Color { r: 160, g: 170, b: 0, a: 255 },
        0x29 => Color { r: 116, g: 196, b: 0, a: 255 },
        0x2A => Color { r: 76, g: 208, b: 32, a: 255 },
        0x2B => Color { r: 56, g: 204, b: 108, a: 255 },
        0x2C => Color { r: 56, g: 180, b: 204, a: 255 },
        0x2D => Color { r: 60, g: 60, b: 60, a: 255 },
        0x2E => Color { r: 0, g: 0, b: 0, a: 255 },
        0x2F => Color { r: 0, g: 0, b: 0, a: 255 },
        0x30 => Color { r: 236, g: 238, b: 236, a: 255 },
        0x31 => Color { r: 168, g: 204, b: 236, a: 255 },
        0x32 => Color { r: 188, g: 188, b: 236, a: 255 },
        0x33 => Color { r: 212, g: 178, b: 236, a: 255 },
        0x34 => Color { r: 236, g: 174, b: 236, a: 255 },
        0x35 => Color { r: 236, g: 174, b: 212, a: 255 },
        0x36 => Color { r: 236, g: 180, b: 176, a: 255 },
        0x37 => Color { r: 228, g: 196, b: 144, a: 255 },
        0x38 => Color { r: 204, g: 210, b: 120, a: 255 },
        0x39 => Color { r: 180, g: 222, b: 120, a: 255 },
        0x3A => Color { r: 168, g: 226, b: 144, a: 255 },
        0x3B => Color { r: 152, g: 226, b: 180, a: 255 },
        0x3C => Color { r: 160, g: 214, b: 228, a: 255 },
        0x3D => Color { r: 160, g: 162, b: 160, a: 255 },
        0x3E => Color { r: 0, g: 0, b: 0, a: 255 },
        0x3F => Color { r: 0, g: 0, b: 0, a: 255 },
        _ => Color { r: 0, g: 0, b: 0, a: 255 },
    }
}

} // verus!
