//! The 6502 register file: accumulator, index registers, stack pointer,
//! program counter and the processor status bitfield.
//!
//! Status layout (bit 0 = least significant): C carry, Z zero, I interrupt
//! disable, D decimal, B break (meaningful only on pushed copies), U unused
//! (stuck at 1 on pushed copies), V overflow, N negative.

use vstd::prelude::*;

use crate::memory::{spec_ram_read, spec_ram_write, Memory};

verus! {

/// Mask of the carry flag inside the status register.
pub const FLAG_CARRY: u8 = 0x01;

/// Mask of the zero flag.
pub const FLAG_ZERO: u8 = 0x02;

/// Mask of the interrupt-disable flag.
pub const FLAG_INTERRUPT: u8 = 0x04;

/// Mask of the decimal-mode flag (never consulted on this console variant).
pub const FLAG_DECIMAL: u8 = 0x08;

/// Mask of the break flag; only meaningful in values pushed to the stack.
pub const FLAG_BREAK: u8 = 0x10;

/// Mask of the unused bit, stuck at 1 in pushed status values.
pub const FLAG_UNUSED: u8 = 0x20;

/// Mask of the overflow flag.
pub const FLAG_OVERFLOW: u8 = 0x40;

/// Mask of the negative flag.
pub const FLAG_NEGATIVE: u8 = 0x80;

/// Whether a status flag (given by its mask) is set in `p`.
pub open spec fn flag_set(p: u8, mask: u8) -> bool {
    p & mask != 0
}

/// The status byte with one flag (given by its mask) forced on or off.
pub open spec fn with_flag(p: u8, mask: u8, on: bool) -> u8 {
    if on {
        p | mask
    } else {
        p & !mask
    }
}

/// The status byte after storing a result: Z tracks `value == 0` and
/// N tracks bit 7 of `value`; all other flags keep their state.
pub open spec fn with_nz(p: u8, value: u8) -> u8 {
    with_flag(with_flag(p, FLAG_ZERO, value == 0), FLAG_NEGATIVE, value & 0x80 != 0)
}

/// Updating one flag leaves every other flag alone, and the updated flag
/// reads back exactly as written.
pub proof fn lemma_with_flag(p: u8, mask: u8, on: bool)
    by (bit_vector)
    ensures
        forall|k: u8| k & mask == 0 ==> flag_set(#[trigger] with_flag(p, mask, on), k) == flag_set(
            p,
            k,
        ),
        mask != 0 ==> flag_set(with_flag(p, mask, on), mask) == on,
{
}

/// Names of the CPU registers.
#[derive(Clone, Copy, Debug, PartialEq, Eq, Structural)]
pub enum Registers {
    A,
    X,
    Y,
    S,
    P,
}

/// Names of the processor status flags.
#[derive(Clone, Copy, Debug, PartialEq, Eq, Structural)]
pub enum Flags {
    Carry,
    Zero,
    InterruptDisable,
    DecimalMode,
    BreakCommand,
    Overflow,
    Negative,
}

/// The 6502 register file.  `delayed_interrupt` is the one-slot queue that
/// records an interrupt-disable state produced by a status pull, which takes
/// effect only after the following instruction.
#[derive(Clone, Copy, Debug)]
#[verifier::ext_equal]
pub struct CPU {
    pub a: u8,
    pub x: u8,
    pub y: u8,
    pub s: u8,
    pub p: u8,
    pub pc: u16,
    pub delayed_interrupt: Option<bool>,
}

/// The register values at power-on: stack pointer 0xFD, interrupt disable
/// and the unused status bit set, everything else zero.
pub open spec fn spec_cpu_power_on() -> CPU {
    CPU { a: 0, x: 0, y: 0, s: 0xFD, p: 0x24, pc: 0, delayed_interrupt: None }
}

impl CPU {
    /// A register file in the power-on state.
    pub fn new() -> (r: CPU)
        ensures
            r == spec_cpu_power_on(),
    {
        CPU { a: 0, x: 0, y: 0, s: 0xFD, p: 0x24, pc: 0, delayed_interrupt: None }
    }

    /// Force one status bit (by bit index) on or off.
    pub fn set_status(&mut self, bit: u8, state: bool)
        requires
            bit < 8,
        ensures
            *final(self) == (CPU { p: with_flag(old(self).p, 1u8 << bit, state), ..*old(self) }),
    {
        if state {
            self.p = self.p | (1u8 << bit);
        } else {
            self.p = self.p & !(1u8 << bit);
        }
    }

    /// Read one status bit (by bit index) as 0 or 1.
    pub fn get_status(&self, bit: u8) -> (r: u8)
        requires
            bit < 8,
        ensures
            r == (self.p >> bit) & 1,
    {
        (self.p >> bit) & 1
    }

    /// Set or clear the carry flag.
    pub fn set_carry(&mut self, state: bool)
        ensures
            *final(self) == (CPU { p: with_flag(old(self).p, FLAG_CARRY, state), ..*old(self) }),
    {
        if state {
            self.p = self.p | FLAG_CARRY;
        } else {
            self.p = self.p & !FLAG_CARRY;
        }
    }

    /// Set or clear the zero flag.
    pub fn set_zero(&mut self, state: bool)
        ensures
            *final(self) == (CPU { p: with_flag(old(self).p, FLAG_ZERO, state), ..*old(self) }),
    {
        if state {
            self.p = self.p | FLAG_ZERO;
        } else {
            self.p = self.p & !FLAG_ZERO;
        }
    }

    /// Set or clear the interrupt-disable flag.
    pub fn set_interrupt_disable(&mut self, state: bool)
        ensures
            *final(self) == (CPU {
                p: with_flag(old(self).p, FLAG_INTERRUPT, state),
                ..*old(self)
            }),
    {
        if state {
            self.p = self.p | FLAG_INTERRUPT;
        } else {
            self.p = self.p & !FLAG_INTERRUPT;
        }
    }

    /// Set or clear the decimal-mode flag.
    pub fn set_decimal(&mut self, state: bool)
        ensures
            *final(self) == (CPU { p: with_flag(old(self).p, FLAG_DECIMAL, state), ..*old(self) }),
    {
        if state {
            self.p = self.p | FLAG_DECIMAL;
        } else {
            self.p = self.p & !FLAG_DECIMAL;
        }
    }

    /// Set or clear the overflow flag.
    pub fn set_overflow(&mut self, state: bool)
        ensures
            *final(self) == (CPU {
                p: with_flag(old(self).p, FLAG_OVERFLOW, state),
                ..*old(self)
            }),
    {
        if state {
            self.p = self.p | FLAG_OVERFLOW;
        } else {
            self.p = self.p & !FLAG_OVERFLOW;
        }
    }

    /// Set or clear the negative flag.
    pub fn set_negative(&mut self, state: bool)
        ensures
            *final(self) == (CPU {
                p: with_flag(old(self).p, FLAG_NEGATIVE, state),
                ..*old(self)
            }),
    {
        if state {
            self.p = self.p | FLAG_NEGATIVE;
        } else {
            self.p = self.p & !FLAG_NEGATIVE;
        }
    }

    /// Set or clear the break flag.
    pub fn set_break(&mut self, state: bool)
        ensures
            *final(self) == (CPU { p: with_flag(old(self).p, FLAG_BREAK, state), ..*old(self) }),
    {
        if state {
            self.p = self.p | FLAG_BREAK;
        } else {
            self.p = self.p & !FLAG_BREAK;
        }
    }

    /// Set Z from `value == 0` and N from bit 7 of `value`.
    pub fn update_nz(&mut self, value: u8)
        ensures
            *final(self) == (CPU { p: with_nz(old(self).p, value), ..*old(self) }),
    {
        self.set_zero(value == 0);
        self.set_negative(value & 0x80 != 0);
    }

    /// The carry flag as 0 or 1.
    pub fn get_carry(&self) -> (r: u8)
        ensures
            r == (if flag_set(self.p, FLAG_CARRY) {
                1u8
            } else {
                0u8
            }),
    {
        if self.p & FLAG_CARRY != 0 {
            1
        } else {
            0
        }
    }

    /// The zero flag as 0 or 1.
    pub fn get_zero(&self) -> (r: u8)
        ensures
            r == (if flag_set(self.p, FLAG_ZERO) {
                1u8
            } else {
                0u8
            }),
    {
        if self.p & FLAG_ZERO != 0 {
            1
        } else {
            0
        }
    }

    /// The decimal-mode flag as 0 or 1.
    pub fn get_decimal_mode(&self) -> (r: u8)
        ensures
            r == (if flag_set(self.p, FLAG_DECIMAL) {
                1u8
            } else {
                0u8
            }),
    {
        if self.p & FLAG_DECIMAL != 0 {
            1
        } else {
            0
        }
    }

    /// The interrupt-disable flag as 0 or 1.
    pub fn get_interrupt_disable(&self) -> (r: u8)
        ensures
            r == (if flag_set(self.p, FLAG_INTERRUPT) {
                1u8
            } else {
                0u8
            }),
    {
        if self.p & FLAG_INTERRUPT != 0 {
            1
        } else {
            0
        }
    }

    /// The overflow flag as 0 or 1.
    pub fn get_overflow(&self) -> (r: u8)
        ensures
            r == (if flag_set(self.p, FLAG_OVERFLOW) {
                1u8
            } else {
                0u8
            }),
    {
        if self.p & FLAG_OVERFLOW != 0 {
            1
        } else {
            0
        }
    }

    /// The negative flag as 0 or 1.
    pub fn get_negative(&self) -> (r: u8)
        ensures
            r == (if flag_set(self.p, FLAG_NEGATIVE) {
                1u8
            } else {
                0u8
            }),
    {
        if self.p & FLAG_NEGATIVE != 0 {
            1
        } else {
            0
        }
    }

    /// The break flag as 0 or 1.
    pub fn get_break(&self) -> (r: u8)
        ensures
            r == (if flag_set(self.p, FLAG_BREAK) {
                1u8
            } else {
                0u8
            }),
    {
        if self.p & FLAG_BREAK != 0 {
            1
        } else {
            0
        }
    }

    /// Read one 8-bit register by name.
    pub fn get(&self, register: Registers) -> (r: u8)
        ensures
            r == spec_reg_get(*self, register),
    {
        match register {
            Registers::A => self.a,
            Registers::X => self.x,
            Registers::Y => self.y,
            Registers::S => self.s,
            Registers::P => self.p,
        }
    }

    /// Write one 8-bit register by name.
    pub fn set(&mut self, register: Registers, value: u8)
        ensures
            *final(self) == spec_reg_set(*old(self), register, value),
    {
        match register {
            Registers::A => {
                self.a = value;
            },
            Registers::X => {
                self.x = value;
            },
            Registers::Y => {
                self.y = value;
            },
            Registers::S => {
                self.s = value;
            },
            Registers::P => {
                self.p = value;
            },
        }
    }

    /// The program counter.
    pub fn get_counter(&self) -> (r: u16)
        ensures
            r == self.pc,
    {
        self.pc
    }

    /// Overwrite the program counter.
    pub fn set_counter(&mut self, value: u16)
        ensures
            *final(self) == (CPU { pc: value, ..*old(self) }),
    {
        self.pc = value;
    }

    /// Return the registers to the power-on state.  The program counter is
    /// left at 0; the bus loads it from the reset vector.
    pub fn reset(&mut self)
        ensures
            *final(self) == spec_cpu_power_on(),
    {
        self.a = 0;
        self.x = 0;
        self.y = 0;
        self.s = 0xFD;
        self.p = 0x24;
        self.pc = 0;
        self.delayed_interrupt = None;
    }

    /// Push a byte onto the hardware stack in page 0x01 of the given RAM,
    /// moving the stack pointer down with wrap-around.
    pub fn stack_push(&mut self, memory: &mut Memory, value: u8)
        requires
            old(memory).wf(),
        ensures
            final(memory).wf(),
            *final(self) == (CPU {
                s: vstd::wrapping::u8_specs::wrapping_sub(old(self).s, 1),
                ..*old(self)
            }),
            final(memory)@ == spec_ram_write(
                old(memory)@,
                (0x100 + vstd::wrapping::u8_specs::wrapping_sub(old(self).s, 1) as u16) as u16,
                value,
            ),
    {
        let new_sp = self.s.wrapping_sub(1);
        self.s = new_sp;
        memory.write(0x100 + new_sp as u16, value);
    }

    /// Pull a byte from the hardware stack of the given RAM, moving the
    /// stack pointer up with wrap-around.
    pub fn stack_pull(&mut self, memory: &Memory) -> (r: u8)
        requires
            memory.wf(),
        ensures
            *final(self) == (CPU {
                s: vstd::wrapping::u8_specs::wrapping_add(old(self).s, 1),
                ..*old(self)
            }),
            r == spec_ram_read(memory@, (0x100 + old(self).s as u16) as u16),
    {
        let sp = self.s;
        self.s = sp.wrapping_add(1);
        memory.read(0x100 + sp as u16)
    }

    /// Push a 16-bit word onto the stack, high byte first.
    pub fn stack_push_word(&mut self, memory: &mut Memory, value: u16)
        requires
            old(memory).wf(),
        ensures
            final(memory).wf(),
            final(self).s == vstd::wrapping::u8_specs::wrapping_sub(old(self).s, 2),
            *final(self) == (CPU { s: final(self).s, ..*old(self) }),
            final(memory)@ == spec_ram_write(
                spec_ram_write(
                    old(memory)@,
                    (0x100 + vstd::wrapping::u8_specs::wrapping_sub(old(self).s, 1) as u16) as u16,
                    (value / 256) as u8,
                ),
                (0x100 + vstd::wrapping::u8_specs::wrapping_sub(old(self).s, 2) as u16) as u16,
                (value % 256) as u8,
            ),
    {
        let low_byte: u8 = (value % 256) as u8;
        let high_byte: u8 = (value / 256) as u8;
        self.stack_push(memory, high_byte);
        self.stack_push(memory, low_byte);
    }

    /// Pull a 16-bit word from the stack, low byte first.
    pub fn stack_pull_word(&mut self, memory: &Memory) -> (r: u16)
        requires
            memory.wf(),
        ensures
            *final(self) == (CPU {
                s: vstd::wrapping::u8_specs::wrapping_add(old(self).s, 2),
                ..*old(self)
            }),
            r == spec_ram_read(memory@, (0x100 + old(self).s as u16) as u16) as u16 + 256
                * spec_ram_read(
                memory@,
                (0x100 + vstd::wrapping::u8_specs::wrapping_add(old(self).s, 1) as u16) as u16,
            ) as u16,
    {
        let low_byte = self.stack_pull(memory);
        let high_byte = self.stack_pull(memory);
        (low_byte as u16) + 256 * (high_byte as u16)
    }
}

/// The status mask a flag name denotes.
pub open spec fn spec_flag_mask(flag: Flags) -> u8 {
    match flag {
        Flags::Carry => FLAG_CARRY,
        Flags::Zero => FLAG_ZERO,
        Flags::InterruptDisable => FLAG_INTERRUPT,
        Flags::DecimalMode => FLAG_DECIMAL,
        Flags::BreakCommand => FLAG_BREAK,
        Flags::Overflow => FLAG_OVERFLOW,
        Flags::Negative => FLAG_NEGATIVE,
    }
}

/// The value of one 8-bit register by name.
pub open spec fn spec_reg_get(c: CPU, register: Registers) -> u8 {
    match register {
        Registers::A => c.a,
        Registers::X => c.x,
        Registers::Y => c.y,
        Registers::S => c.s,
        Registers::P => c.p,
    }
}

/// The register file with one 8-bit register replaced by name.
pub open spec fn spec_reg_set(c: CPU, register: Registers, value: u8) -> CPU {
    match register {
        Registers::A => CPU { a: value, ..c },
        Registers::X => CPU { x: value, ..c },
        Registers::Y => CPU { y: value, ..c },
        Registers::S => CPU { s: value, ..c },
        Registers::P => CPU { p: value, ..c },
    }
}

} // verus!
