//! The 6502 instruction set: addressing modes, mnemonics, the per-mode
//! program-counter advance, the reference cycle table and one executor
//! function per mnemonic.

use vstd::prelude::*;

use crate::bus::{
    spec_bus_read, spec_eval, spec_stack_pull, spec_stack_pull_word, spec_stack_push,
    spec_stack_push_word, Bus, BusView,
};
use crate::cpu::{
    flag_set, with_flag, with_nz, Registers, CPU, FLAG_BREAK, FLAG_CARRY, FLAG_DECIMAL,
    FLAG_INTERRUPT, FLAG_NEGATIVE, FLAG_OVERFLOW, FLAG_UNUSED, FLAG_ZERO,
};

verus! {

/// The thirteen addressing modes of the 6502.
#[derive(Clone, Copy, Debug, PartialEq, Eq, Structural)]
pub enum AddressMode {
    Implicit,
    Immediate,
    Accumulator,
    ZeroPage,
    ZeroPageX,
    ZeroPageY,
    Absolute,
    AbsoluteX,
    AbsoluteY,
    Relative,
    Indirect,
    IndirectX,
    IndirectY,
}

/// The 56 documented mnemonics of the 6502.
#[derive(Clone, Copy, Debug, PartialEq, Eq, Structural)]
pub enum Mnemonic {
    ADC,
    AND,
    ASL,
    BCC,
    BCS,
    BEQ,
    BIT,
    BMI,
    BNE,
    BPL,
    BRK,
    BVC,
    BVS,
    CLC,
    CLD,
    CLI,
    CLV,
    CMP,
    CPX,
    CPY,
    DEC,
    DEX,
    DEY,
    EOR,
    INC,
    INX,
    INY,
    JMP,
    JSR,
    LDA,
    LDX,
    LDY,
    LSR,
    NOP,
    ORA,
    PHA,
    PHP,
    PLA,
    PLP,
    ROL,
    ROR,
    RTI,
    RTS,
    SBC,
    SEC,
    SED,
    SEI,
    STA,
    STX,
    STY,
    TAX,
    TAY,
    TSX,
    TXA,
    TXS,
    TYA,
}

/// How many bytes an instruction of the given mode occupies, which is how
/// far the program counter advances when the instruction does not set it
/// explicitly.
pub open spec fn pc_len(mode: AddressMode) -> u16 {
    match mode {
        AddressMode::Implicit => 1,
        AddressMode::Accumulator => 1,
        AddressMode::Immediate => 2,
        AddressMode::ZeroPage => 2,
        AddressMode::ZeroPageX => 2,
        AddressMode::ZeroPageY => 2,
        AddressMode::Relative => 2,
        AddressMode::IndirectX => 2,
        AddressMode::IndirectY => 2,
        AddressMode::Absolute => 3,
        AddressMode::AbsoluteX => 3,
        AddressMode::AbsoluteY => 3,
        AddressMode::Indirect => 3,
    }
}

/// Resolve the instruction length of a mode at run time.
pub fn instruction_len(mode: AddressMode) -> (r: u8)
    ensures
        r == pc_len(mode),
{
    match mode {
        AddressMode::Implicit => 1,
        AddressMode::Accumulator => 1,
        AddressMode::Immediate => 2,
        AddressMode::ZeroPage => 2,
        AddressMode::ZeroPageX => 2,
        AddressMode::ZeroPageY => 2,
        AddressMode::Relative => 2,
        AddressMode::IndirectX => 2,
        AddressMode::IndirectY => 2,
        AddressMode::Absolute => 3,
        AddressMode::AbsoluteX => 3,
        AddressMode::AbsoluteY => 3,
        AddressMode::Indirect => 3,
    }
}

/// The program counter advanced past an instruction of the given mode.
pub open spec fn adv_pc(pc: u16, mode: AddressMode) -> u16 {
    vstd::wrapping::u16_specs::wrapping_add(pc, pc_len(mode))
}

/// Base cycle cost of the read-operand ALU group (ADC, AND, CMP, EOR,
/// LDA, ORA, SBC) per mode.
pub open spec fn alu_cycles(mode: AddressMode) -> u8 {
    match mode {
        AddressMode::Immediate => 2,
        AddressMode::ZeroPage => 3,
        AddressMode::ZeroPageX => 4,
        AddressMode::Absolute => 4,
        AddressMode::AbsoluteX => 4,
        AddressMode::AbsoluteY => 4,
        AddressMode::IndirectX => 6,
        AddressMode::IndirectY => 5,
        _ => 0,
    }
}

/// Base cycle cost of the shift/rotate group per mode.
pub open spec fn shift_cycles(mode: AddressMode) -> u8 {
    match mode {
        AddressMode::Accumulator => 2,
        AddressMode::ZeroPage => 5,
        AddressMode::ZeroPageX => 6,
        AddressMode::Absolute => 6,
        AddressMode::AbsoluteX => 7,
        _ => 0,
    }
}

/// Base cycle cost of memory increment/decrement per mode.
pub open spec fn incdec_cycles(mode: AddressMode) -> u8 {
    match mode {
        AddressMode::ZeroPage => 5,
        AddressMode::ZeroPageX => 6,
        AddressMode::Absolute => 6,
        AddressMode::AbsoluteX => 7,
        _ => 0,
    }
}

/// The 6502 reference cycle table: the base cost of every documented
/// (mnemonic, mode) pair.  Page-cross and branch penalties come on top.
pub open spec fn base_cycles(mn: Mnemonic, mode: AddressMode) -> u8 {
    match mn {
        Mnemonic::ADC => alu_cycles(mode),
        Mnemonic::AND => alu_cycles(mode),
        Mnemonic::CMP => alu_cycles(mode),
        Mnemonic::EOR => alu_cycles(mode),
        Mnemonic::LDA => alu_cycles(mode),
        Mnemonic::ORA => alu_cycles(mode),
        Mnemonic::SBC => alu_cycles(mode),
        Mnemonic::LDX => match mode {
            AddressMode::Immediate => 2,
            AddressMode::ZeroPage => 3,
            AddressMode::ZeroPageY => 4,
            AddressMode::Absolute => 4,
            AddressMode::AbsoluteY => 4,
            _ => 0,
        },
        Mnemonic::LDY => match mode {
            AddressMode::Immediate => 2,
            AddressMode::ZeroPage => 3,
            AddressMode::ZeroPageX => 4,
            AddressMode::Absolute => 4,
            AddressMode::AbsoluteX => 4,
            _ => 0,
        },
        Mnemonic::ASL => shift_cycles(mode),
        Mnemonic::LSR => shift_cycles(mode),
        Mnemonic::ROL => shift_cycles(mode),
        Mnemonic::ROR => shift_cycles(mode),
        Mnemonic::INC => incdec_cycles(mode),
        Mnemonic::DEC => incdec_cycles(mode),
        Mnemonic::BIT => match mode {
            AddressMode::ZeroPage => 3,
            AddressMode::Absolute => 4,
            _ => 0,
        },
        Mnemonic::CPX => match mode {
            AddressMode::Immediate => 2,
            AddressMode::ZeroPage => 3,
            AddressMode::Absolute => 4,
            _ => 0,
        },
        Mnemonic::CPY => match mode {
            AddressMode::Immediate => 2,
            AddressMode::ZeroPage => 3,
            AddressMode::Absolute => 4,
            _ => 0,
        },
        Mnemonic::STA => match mode {
            AddressMode::ZeroPage => 3,
            AddressMode::ZeroPageX => 4,
            AddressMode::Absolute => 4,
            AddressMode::AbsoluteX => 5,
            AddressMode::AbsoluteY => 5,
            AddressMode::IndirectX => 6,
            AddressMode::IndirectY => 6,
            _ => 0,
        },
        Mnemonic::STX => match mode {
            AddressMode::ZeroPage => 3,
            AddressMode::ZeroPageY => 4,
            AddressMode::Absolute => 4,
            _ => 0,
        },
        Mnemonic::STY => match mode {
            AddressMode::ZeroPage => 3,
            AddressMode::ZeroPageX => 4,
            AddressMode::Absolute => 4,
            _ => 0,
        },
        Mnemonic::JMP => match mode {
            AddressMode::Absolute => 3,
            AddressMode::Indirect => 5,
            _ => 0,
        },
        Mnemonic::JSR => 6,
        Mnemonic::RTS => 6,
        Mnemonic::RTI => 6,
        Mnemonic::BRK => 7,
        Mnemonic::PHA => 3,
        Mnemonic::PHP => 3,
        Mnemonic::PLA => 4,
        Mnemonic::PLP => 4,
        Mnemonic::BCC => 2,
        Mnemonic::BCS => 2,
        Mnemonic::BEQ => 2,
        Mnemonic::BMI => 2,
        Mnemonic::BNE => 2,
        Mnemonic::BPL => 2,
        Mnemonic::BVC => 2,
        Mnemonic::BVS => 2,
        _ => 2,
    }
}

/// The reference cycle table never exceeds seven cycles.
pub proof fn lemma_base_cycles_bound(mn: Mnemonic, mode: AddressMode)
    ensures
        base_cycles(mn, mode) <= 7,
{
}

/// Resolve the reference cycle table at run time.
pub fn base_cycles_of(mn: Mnemonic, mode: AddressMode) -> (r: u8)
    ensures
        r == base_cycles(mn, mode),
        r <= 7,
{
    match mn {
        Mnemonic::ADC | Mnemonic::AND | Mnemonic::CMP | Mnemonic::EOR | Mnemonic::LDA
        | Mnemonic::ORA | Mnemonic::SBC => match mode {
            AddressMode::Immediate => 2,
            AddressMode::ZeroPage => 3,
            AddressMode::ZeroPageX => 4,
            AddressMode::Absolute => 4,
            AddressMode::AbsoluteX => 4,
            AddressMode::AbsoluteY => 4,
            AddressMode::IndirectX => 6,
            AddressMode::IndirectY => 5,
            _ => 0,
        },
        Mnemonic::LDX => match mode {
            AddressMode::Immediate => 2,
            AddressMode::ZeroPage => 3,
            AddressMode::ZeroPageY => 4,
            AddressMode::Absolute => 4,
            AddressMode::AbsoluteY => 4,
            _ => 0,
        },
        Mnemonic::LDY => match mode {
            AddressMode::Immediate => 2,
            AddressMode::ZeroPage => 3,
            AddressMode::ZeroPageX => 4,
            AddressMode::Absolute => 4,
            AddressMode::AbsoluteX => 4,
            _ => 0,
        },
        Mnemonic::ASL | Mnemonic::LSR | Mnemonic::ROL | Mnemonic::ROR => match mode {
            AddressMode::Accumulator => 2,
            AddressMode::ZeroPage => 5,
            AddressMode::ZeroPageX => 6,
            AddressMode::Absolute => 6,
            AddressMode::AbsoluteX => 7,
            _ => 0,
        },
        Mnemonic::INC | Mnemonic::DEC => match mode {
            AddressMode::ZeroPage => 5,
            AddressMode::ZeroPageX => 6,
            AddressMode::Absolute => 6,
            AddressMode::AbsoluteX => 7,
            _ => 0,
        },
        Mnemonic::BIT => match mode {
            AddressMode::ZeroPage => 3,
            AddressMode::Absolute => 4,
            _ => 0,
        },
        Mnemonic::CPX | Mnemonic::CPY => match mode {
            AddressMode::Immediate => 2,
            AddressMode::ZeroPage => 3,
            AddressMode::Absolute => 4,
            _ => 0,
        },
        Mnemonic::STA => match mode {
            AddressMode::ZeroPage => 3,
            AddressMode::ZeroPageX => 4,
            AddressMode::Absolute => 4,
            AddressMode::AbsoluteX => 5,
            AddressMode::AbsoluteY => 5,
            AddressMode::IndirectX => 6,
            AddressMode::IndirectY => 6,
            _ => 0,
        },
        Mnemonic::STX => match mode {
            AddressMode::ZeroPage => 3,
            AddressMode::ZeroPageY => 4,
            AddressMode::Absolute => 4,
            _ => 0,
        },
        Mnemonic::STY => match mode {
            AddressMode::ZeroPage => 3,
            AddressMode::ZeroPageX => 4,
            AddressMode::Absolute => 4,
            _ => 0,
        },
        Mnemonic::JMP => match mode {
            AddressMode::Absolute => 3,
            AddressMode::Indirect => 5,
            _ => 0,
        },
        Mnemonic::JSR | Mnemonic::RTS | Mnemonic::RTI => 6,
        Mnemonic::BRK => 7,
        Mnemonic::PHA | Mnemonic::PHP => 3,
        Mnemonic::PLA | Mnemonic::PLP => 4,
        _ => 2,
    }
}

/// A machine state with its register file replaced.
pub open spec fn with_cpu(b: BusView, c: CPU) -> BusView {
    BusView { cpu: c, ..b }
}

/// A page-cross cycle is never more than one.
pub proof fn lemma_eval_cycles_bound(b: BusView, mode: AddressMode)
    ensures
        spec_eval(b, mode).1.cycles <= 1,
{
}

/// The result of a register load: the value lands in the named register,
/// Z and N track it, the program counter advances, and a crossed page
/// costs one extra cycle.
#[verifier::opaque]
pub open spec fn load_result(pre: BusView, mode: AddressMode, mn: Mnemonic, reg: Registers) -> (
    BusView,
    u8,
) {
    let e = spec_eval(pre, mode);
    let b1 = e.0;
    let ev = e.1;
    let c1 = crate::cpu::spec_reg_set(b1.cpu, reg, ev.value);
    let c2 = CPU { p: with_nz(b1.cpu.p, ev.value), pc: adv_pc(b1.cpu.pc, mode), ..c1 };
    (with_cpu(b1, c2), (base_cycles(mn, mode) + ev.cycles) as u8)
}

/// The result of a register store: the register's byte goes to the
/// effective address; stores always pay the fixed cost of their mode.
#[verifier::opaque]
pub open spec fn store_result(pre: BusView, mode: AddressMode, mn: Mnemonic, reg: Registers) -> (
    BusView,
    u8,
) {
    let e = spec_eval(pre, mode);
    let b1 = e.0;
    let ev = e.1;
    let b2 = crate::bus::spec_bus_write(b1, ev.address, crate::cpu::spec_reg_get(b1.cpu, reg));
    (with_cpu(b2, CPU { pc: adv_pc(b2.cpu.pc, mode), ..b2.cpu }), base_cycles(mn, mode))
}

/// The result of AND, ORA or EOR: the accumulator combined with the
/// operand, Z and N tracking the outcome.
#[verifier::opaque]
pub open spec fn logic_result(pre: BusView, mode: AddressMode, mn: Mnemonic) -> (BusView, u8) {
    let e = spec_eval(pre, mode);
    let b1 = e.0;
    let ev = e.1;
    let r = match mn {
        Mnemonic::AND => b1.cpu.a & ev.value,
        Mnemonic::ORA => b1.cpu.a | ev.value,
        _ => b1.cpu.a ^ ev.value,
    };
    let c2 = CPU { a: r, p: with_nz(b1.cpu.p, r), pc: adv_pc(b1.cpu.pc, mode), ..b1.cpu };
    (with_cpu(b1, c2), (base_cycles(mn, mode) + ev.cycles) as u8)
}

/// The result of ADC, or of SBC as ADC of the inverted operand: the
/// binary sum with carry-in, and C, Z, V, N from the outcome.  Decimal
/// mode does not exist on this CPU variant.
#[verifier::opaque]
pub open spec fn adc_result(pre: BusView, mode: AddressMode, mn: Mnemonic) -> (BusView, u8) {
    let e = spec_eval(pre, mode);
    let b1 = e.0;
    let ev = e.1;
    let m: u8 = if mn == Mnemonic::SBC {
        !ev.value
    } else {
        ev.value
    };
    let carry_in: u8 = if flag_set(b1.cpu.p, FLAG_CARRY) {
        1u8
    } else {
        0u8
    };
    let sum = b1.cpu.a + m + carry_in;
    let r = (sum % 256) as u8;
    let p1 = with_flag(b1.cpu.p, FLAG_CARRY, sum > 255);
    let p2 = with_flag(p1, FLAG_ZERO, r == 0);
    let p3 = with_flag(p2, FLAG_OVERFLOW, (b1.cpu.a ^ r) & (m ^ r) & 0x80 != 0);
    let p4 = with_flag(p3, FLAG_NEGATIVE, r & 0x80 != 0);
    let c2 = CPU { a: r, p: p4, pc: adv_pc(b1.cpu.pc, mode), ..b1.cpu };
    (with_cpu(b1, c2), (base_cycles(mn, mode) + ev.cycles) as u8)
}

/// The result of CMP, CPX or CPY: C says the register is at least the
/// operand, Z says they are equal, N is bit 7 of their difference.
#[verifier::opaque]
pub open spec fn compare_result(pre: BusView, mode: AddressMode, mn: Mnemonic, reg: Registers) -> (
    BusView,
    u8,
) {
    let e = spec_eval(pre, mode);
    let b1 = e.0;
    let ev = e.1;
    let lhs = crate::cpu::spec_reg_get(b1.cpu, reg);
    let diff = vstd::wrapping::u8_specs::wrapping_sub(lhs, ev.value);
    let p1 = with_flag(b1.cpu.p, FLAG_CARRY, lhs >= ev.value);
    let p2 = with_flag(p1, FLAG_ZERO, lhs == ev.value);
    let p3 = with_flag(p2, FLAG_NEGATIVE, diff & 0x80 != 0);
    let c2 = CPU { p: p3, pc: adv_pc(b1.cpu.pc, mode), ..b1.cpu };
    (with_cpu(b1, c2), (base_cycles(mn, mode) + ev.cycles) as u8)
}

/// The result of BIT: Z from the masked accumulator, V and N copied from
/// bits 6 and 7 of the operand.
#[verifier::opaque]
pub open spec fn bit_result(pre: BusView, mode: AddressMode) -> (BusView, u8) {
    let e = spec_eval(pre, mode);
    let b1 = e.0;
    let ev = e.1;
    let p1 = with_flag(b1.cpu.p, FLAG_ZERO, b1.cpu.a & ev.value == 0);
    let p2 = with_flag(p1, FLAG_OVERFLOW, ev.value & 0x40 != 0);
    let p3 = with_flag(p2, FLAG_NEGATIVE, ev.value & 0x80 != 0);
    let c2 = CPU { p: p3, pc: adv_pc(b1.cpu.pc, mode), ..b1.cpu };
    (with_cpu(b1, c2), (base_cycles(Mnemonic::BIT, mode) + ev.cycles) as u8)
}

/// The result of a shift or rotate: C takes the bit shifted out, Z and N
/// track the result (LSR clears N always), and the result goes back to
/// the accumulator or the effective address.  The cost is fixed per mode.
#[verifier::opaque]
pub open spec fn shift_result(pre: BusView, mode: AddressMode, mn: Mnemonic) -> (BusView, u8) {
    let e = spec_eval(pre, mode);
    let b1 = e.0;
    let ev = e.1;
    let carry_in: u8 = if flag_set(b1.cpu.p, FLAG_CARRY) {
        1u8
    } else {
        0u8
    };
    let r: u8 = match mn {
        Mnemonic::ASL => ev.value << 1,
        Mnemonic::LSR => ev.value >> 1,
        Mnemonic::ROL => (ev.value << 1) | carry_in,
        _ => (ev.value >> 1) | (carry_in << 7),
    };
    let carry_out: bool = match mn {
        Mnemonic::ASL => ev.value & 0x80 != 0,
        Mnemonic::ROL => ev.value & 0x80 != 0,
        _ => ev.value & 0x01 != 0,
    };
    let n_out: bool = if mn == Mnemonic::LSR {
        false
    } else {
        r & 0x80 != 0
    };
    let p1 = with_flag(b1.cpu.p, FLAG_CARRY, carry_out);
    let p2 = with_flag(p1, FLAG_ZERO, r == 0);
    let p3 = with_flag(p2, FLAG_NEGATIVE, n_out);
    if mode == AddressMode::Accumulator {
        (
            with_cpu(b1, CPU { a: r, p: p3, pc: adv_pc(b1.cpu.pc, mode), ..b1.cpu }),
            base_cycles(mn, mode),
        )
    } else {
        let b2 = crate::bus::spec_bus_write(b1, ev.address, r);
        (
            with_cpu(b2, CPU { p: p3, pc: adv_pc(b2.cpu.pc, mode), ..b2.cpu }),
            base_cycles(mn, mode),
        )
    }
}

/// The result of a memory increment or decrement: the cell steps by one
/// (wrapping), Z and N track the new value, at a fixed cost per mode.
/// Under the accumulator mode the accumulator steps instead.
#[verifier::opaque]
pub open spec fn incdec_result(pre: BusView, mode: AddressMode, mn: Mnemonic) -> (BusView, u8) {
    let e = spec_eval(pre, mode);
    let b1 = e.0;
    let ev = e.1;
    let r: u8 = if mn == Mnemonic::INC {
        vstd::wrapping::u8_specs::wrapping_add(ev.value, 1)
    } else {
        vstd::wrapping::u8_specs::wrapping_sub(ev.value, 1)
    };
    let p = with_nz(b1.cpu.p, r);
    if mode == AddressMode::Accumulator {
        (
            with_cpu(b1, CPU { a: r, p, pc: adv_pc(b1.cpu.pc, mode), ..b1.cpu }),
            base_cycles(mn, mode),
        )
    } else {
        let b2 = crate::bus::spec_bus_write(b1, ev.address, r);
        (with_cpu(b2, CPU { p, pc: adv_pc(b2.cpu.pc, mode), ..b2.cpu }), base_cycles(mn, mode))
    }
}

/// The result of stepping an index register by one (wrapping), with Z and
/// N tracking the new value.
#[verifier::opaque]
pub open spec fn step_reg_result(pre: BusView, mode: AddressMode, reg: Registers, up: bool) -> (
    BusView,
    u8,
) {
    let v = crate::cpu::spec_reg_get(pre.cpu, reg);
    let r: u8 = if up {
        vstd::wrapping::u8_specs::wrapping_add(v, 1)
    } else {
        vstd::wrapping::u8_specs::wrapping_sub(v, 1)
    };
    let c1 = crate::cpu::spec_reg_set(pre.cpu, reg, r);
    let c2 = CPU { p: with_nz(pre.cpu.p, r), pc: adv_pc(pre.cpu.pc, mode), ..c1 };
    (with_cpu(pre, c2), 2)
}

/// The result of a register transfer; all but TXS let Z and N track the
/// moved value.
#[verifier::opaque]
pub open spec fn transfer_result(
    pre: BusView,
    mode: AddressMode,
    src: Registers,
    dst: Registers,
    flags: bool,
) -> (BusView, u8) {
    let v = crate::cpu::spec_reg_get(pre.cpu, src);
    let c1 = crate::cpu::spec_reg_set(pre.cpu, dst, v);
    let c2 = CPU {
        p: if flags {
            with_nz(pre.cpu.p, v)
        } else {
            pre.cpu.p
        },
        pc: adv_pc(pre.cpu.pc, mode),
        ..c1
    };
    (with_cpu(pre, c2), 2)
}

/// The result of NOP: only the program counter moves.
#[verifier::opaque]
pub open spec fn nop_result(pre: BusView, mode: AddressMode) -> (BusView, u8) {
    (with_cpu(pre, CPU { pc: adv_pc(pre.cpu.pc, mode), ..pre.cpu }), 2)
}

/// The result of a conditional branch on one status flag.  Not taken: the
/// program counter moves past the two instruction bytes for two cycles.
/// Taken: the program counter becomes the relative target, for one extra
/// cycle, and one more when the target sits on another page than the
/// instruction that follows the branch.
#[verifier::opaque]
pub open spec fn branch_result(pre: BusView, mode: AddressMode, mask: u8, wanted: bool) -> (
    BusView,
    u8,
) {
    let e = spec_eval(pre, mode);
    let b1 = e.0;
    let ev = e.1;
    let next = vstd::wrapping::u16_specs::wrapping_add(b1.cpu.pc, 2);
    if flag_set(b1.cpu.p, mask) == wanted {
        let crossed = next & 0xFF00 != ev.address & 0xFF00;
        (
            with_cpu(b1, CPU { pc: ev.address, ..b1.cpu }),
            if crossed {
                4u8
            } else {
                3u8
            },
        )
    } else {
        (with_cpu(b1, CPU { pc: next, ..b1.cpu }), 2)
    }
}

/// The result of a flag instruction: one status flag forced on or off.
#[verifier::opaque]
pub open spec fn flag_result(pre: BusView, mode: AddressMode, mask: u8, on: bool) -> (BusView, u8) {
    (
        with_cpu(
            pre,
            CPU { p: with_flag(pre.cpu.p, mask, on), pc: adv_pc(pre.cpu.pc, mode), ..pre.cpu },
        ),
        2,
    )
}

/// The result of PHA: the accumulator pushed.
#[verifier::opaque]
pub open spec fn pha_result(pre: BusView, mode: AddressMode) -> (BusView, u8) {
    let b1 = with_cpu(pre, CPU { pc: adv_pc(pre.cpu.pc, mode), ..pre.cpu });
    (spec_stack_push(b1, pre.cpu.a), 3)
}

/// The result of PHP: the status pushed with the break and unused bits
/// forced on, as every software push does.
#[verifier::opaque]
pub open spec fn php_result(pre: BusView, mode: AddressMode) -> (BusView, u8) {
    let b1 = with_cpu(pre, CPU { pc: adv_pc(pre.cpu.pc, mode), ..pre.cpu });
    (spec_stack_push(b1, pre.cpu.p | (FLAG_BREAK | FLAG_UNUSED)), 3)
}

/// The result of PLA: a byte pulled into the accumulator with Z and N.
#[verifier::opaque]
pub open spec fn pla_result(pre: BusView, mode: AddressMode) -> (BusView, u8) {
    let e = spec_stack_pull(pre);
    let b1 = e.0;
    let v = e.1;
    (
        with_cpu(b1, CPU { a: v, p: with_nz(b1.cpu.p, v), pc: adv_pc(b1.cpu.pc, mode), ..b1.cpu }),
        4,
    )
}

/// The result of PLP: the pulled status takes effect at once except that
/// the break bit is discarded, the unused bit is forced on, and the
/// pulled interrupt-disable state is queued to take effect only after the
/// next instruction.
#[verifier::opaque]
pub open spec fn plp_result(pre: BusView, mode: AddressMode) -> (BusView, u8) {
    let e = spec_stack_pull(pre);
    let b1 = e.0;
    let v = e.1;
    let new_p = ((v & 0xEB) | FLAG_UNUSED) | (b1.cpu.p & FLAG_INTERRUPT);
    (
        with_cpu(
            b1,
            CPU {
                p: new_p,
                delayed_interrupt: Some(v & FLAG_INTERRUPT != 0),
                pc: adv_pc(b1.cpu.pc, mode),
                ..b1.cpu
            },
        ),
        4,
    )
}

/// The result of JMP: the program counter becomes the effective address.
#[verifier::opaque]
pub open spec fn jmp_result(pre: BusView, mode: AddressMode) -> (BusView, u8) {
    let e = spec_eval(pre, mode);
    let b1 = e.0;
    let ev = e.1;
    (with_cpu(b1, CPU { pc: ev.address, ..b1.cpu }), base_cycles(Mnemonic::JMP, mode))
}

/// The result of JSR: the address of the instruction after the call,
/// minus one, is pushed high byte first, and execution continues at the
/// call target.
#[verifier::opaque]
pub open spec fn jsr_result(pre: BusView, mode: AddressMode) -> (BusView, u8) {
    let e = spec_eval(pre, mode);
    let b1 = e.0;
    let ev = e.1;
    let b2 = spec_stack_push_word(b1, vstd::wrapping::u16_specs::wrapping_add(b1.cpu.pc, 2));
    (with_cpu(b2, CPU { pc: ev.address, ..b2.cpu }), 6)
}

/// The result of RTS: a word pulled and execution resumed one past it.
#[verifier::opaque]
pub open spec fn rts_result(pre: BusView) -> (BusView, u8) {
    let e = spec_stack_pull_word(pre);
    (
        with_cpu(e.0, CPU { pc: vstd::wrapping::u16_specs::wrapping_add(e.1, 1), ..e.0.cpu }),
        6,
    )
}

/// The result of RTI: the status pulled (break discarded, unused forced
/// on, with immediate effect), then the program counter pulled.
#[verifier::opaque]
pub open spec fn rti_result(pre: BusView) -> (BusView, u8) {
    let e1 = spec_stack_pull(pre);
    let new_p = (e1.1 & !FLAG_BREAK) | FLAG_UNUSED;
    let e2 = spec_stack_pull_word(e1.0);
    (with_cpu(e2.0, CPU { p: new_p, pc: e2.1, ..e2.0.cpu }), 6)
}

/// The result of BRK: the address two past the opcode pushed, the status
/// pushed with break and unused on, interrupt disable raised, and
/// execution continued at the vector stored at 0xFFFE/0xFFFF.
#[verifier::opaque]
pub open spec fn brk_result(pre: BusView) -> (BusView, u8) {
    let b1 = spec_stack_push_word(pre, vstd::wrapping::u16_specs::wrapping_add(pre.cpu.pc, 2));
    let b2 = spec_stack_push(b1, pre.cpu.p | (FLAG_BREAK | FLAG_UNUSED));
    let e3 = spec_bus_read(b2, 0xFFFE);
    let e4 = spec_bus_read(e3.0, 0xFFFF);
    (
        with_cpu(
            e4.0,
            CPU {
                p: with_flag(e4.0.cpu.p, FLAG_INTERRUPT, true),
                pc: (e3.1 + 256 * e4.1) as u16,
                ..e4.0.cpu
            },
        ),
        7,
    )
}

/// Branch when the carry flag is clear.
pub fn bcc(bus: &mut Bus, address_mode: AddressMode) -> (cycles: u8)
    requires
        old(bus).wf(),
    ensures
        final(bus).wf(),
        (final(bus)@, cycles) == branch_result(old(bus)@, address_mode, FLAG_CARRY, false),
{
    proof {
        reveal(branch_result);
    }
    let val = bus.read_address_with_mode(&address_mode);
    let next = bus.cpu.get_counter().wrapping_add(2);
    if bus.cpu.get_carry() == 0 {
        let crossed = next & 0xFF00 != val.address & 0xFF00;
        bus.cpu.set_counter(val.address);
        if crossed {
            4
        } else {
            3
        }
    } else {
        bus.cpu.set_counter(next);
        2
    }
}

/// Branch when the carry flag is set.
pub fn bcs(bus: &mut Bus, address_mode: AddressMode) -> (cycles: u8)
    requires
        old(bus).wf(),
    ensures
        final(bus).wf(),
        (final(bus)@, cycles) == branch_result(old(bus)@, address_mode, FLAG_CARRY, true),
{
    proof {
        reveal(branch_result);
    }
    let val = bus.read_address_with_mode(&address_mode);
    let next = bus.cpu.get_counter().wrapping_add(2);
    if bus.cpu.get_carry() != 0 {
        let crossed = next & 0xFF00 != val.address & 0xFF00;
        bus.cpu.set_counter(val.address);
        if crossed {
            4
        } else {
            3
        }
    } else {
        bus.cpu.set_counter(next);
        2
    }
}

/// Branch when the zero flag is set.
pub fn beq(bus: &mut Bus, address_mode: AddressMode) -> (cycles: u8)
    requires
        old(bus).wf(),
    ensures
        final(bus).wf(),
        (final(bus)@, cycles) == branch_result(old(bus)@, address_mode, FLAG_ZERO, true),
{
    proof {
        reveal(branch_result);
    }
    let val = bus.read_address_with_mode(&address_mode);
    let next = bus.cpu.get_counter().wrapping_add(2);
    if bus.cpu.get_zero() != 0 {
        let crossed = next & 0xFF00 != val.address & 0xFF00;
        bus.cpu.set_counter(val.address);
        if crossed {
            4
        } else {
            3
        }
    } else {
        bus.cpu.set_counter(next);
        2
    }
}

/// Branch when the zero flag is clear.
pub fn bne(bus: &mut Bus, address_mode: AddressMode) -> (cycles: u8)
    requires
        old(bus).wf(),
    ensures
        final(bus).wf(),
        (final(bus)@, cycles) == branch_result(old(bus)@, address_mode, FLAG_ZERO, false),
{
    proof {
        reveal(branch_result);
    }
    let val = bus.read_address_with_mode(&address_mode);
    let next = bus.cpu.get_counter().wrapping_add(2);
    if bus.cpu.get_zero() == 0 {
        let crossed = next & 0xFF00 != val.address & 0xFF00;
        bus.cpu.set_counter(val.address);
        if crossed {
            4
        } else {
            3
        }
    } else {
        bus.cpu.set_counter(next);
        2
    }
}

/// Branch when the negative flag is set.
pub fn bmi(bus: &mut Bus, address_mode: AddressMode) -> (cycles: u8)
    requires
        old(bus).wf(),
    ensures
        final(bus).wf(),
        (final(bus)@, cycles) == branch_result(old(bus)@, address_mode, FLAG_NEGATIVE, true),
{
    proof {
        reveal(branch_result);
    }
    let val = bus.read_address_with_mode(&address_mode);
    let next = bus.cpu.get_counter().wrapping_add(2);
    if bus.cpu.get_negative() != 0 {
        let crossed = next & 0xFF00 != val.address & 0xFF00;
        bus.cpu.set_counter(val.address);
        if crossed {
            4
        } else {
            3
        }
    } else {
        bus.cpu.set_counter(next);
        2
    }
}

/// Branch when the negative flag is clear.
pub fn bpl(bus: &mut Bus, address_mode: AddressMode) -> (cycles: u8)
    requires
        old(bus).wf(),
    ensures
        final(bus).wf(),
        (final(bus)@, cycles) == branch_result(old(bus)@, address_mode, FLAG_NEGATIVE, false),
{
    proof {
        reveal(branch_result);
    }
    let val = bus.read_address_with_mode(&address_mode);
    let next = bus.cpu.get_counter().wrapping_add(2);
    if bus.cpu.get_negative() == 0 {
        let crossed = next & 0xFF00 != val.address & 0xFF00;
        bus.cpu.set_counter(val.address);
        if crossed {
            4
        } else {
            3
        }
    } else {
        bus.cpu.set_counter(next);
        2
    }
}

/// Branch when the overflow flag is clear.
pub fn bvc(bus: &mut Bus, address_mode: AddressMode) -> (cycles: u8)
    requires
        old(bus).wf(),
    ensures
        final(bus).wf(),
        (final(bus)@, cycles) == branch_result(old(bus)@, address_mode, FLAG_OVERFLOW, false),
{
    proof {
        reveal(branch_result);
    }
    let val = bus.read_address_with_mode(&address_mode);
    let next = bus.cpu.get_counter().wrapping_add(2);
    if bus.cpu.get_overflow() == 0 {
        let crossed = next & 0xFF00 != val.address & 0xFF00;
        bus.cpu.set_counter(val.address);
        if crossed {
            4
        } else {
            3
        }
    } else {
        bus.cpu.set_counter(next);
        2
    }
}

/// Branch when the overflow flag is set.
pub fn bvs(bus: &mut Bus, address_mode: AddressMode) -> (cycles: u8)
    requires
        old(bus).wf(),
    ensures
        final(bus).wf(),
        (final(bus)@, cycles) == branch_result(old(bus)@, address_mode, FLAG_OVERFLOW, true),
{
    proof {
        reveal(branch_result);
    }
    let val = bus.read_address_with_mode(&address_mode);
    let next = bus.cpu.get_counter().wrapping_add(2);
    if bus.cpu.get_overflow() != 0 {
        let crossed = next & 0xFF00 != val.address & 0xFF00;
        bus.cpu.set_counter(val.address);
        if crossed {
            4
        } else {
            3
        }
    } else {
        bus.cpu.set_counter(next);
        2
    }
}

/// Clear the carry flag.
pub fn clc(bus: &mut Bus, address_mode: AddressMode) -> (cycles: u8)
    requires
        old(bus).wf(),
    ensures
        final(bus).wf(),
        (final(bus)@, cycles) == flag_result(old(bus)@, address_mode, FLAG_CARRY, false),
{
    proof {
        reveal(flag_result);
    }
    bus.increment_pc(&address_mode);
    bus.cpu.set_carry(false);
    2
}

/// Set the carry flag.
pub fn sec(bus: &mut Bus, address_mode: AddressMode) -> (cycles: u8)
    requires
        old(bus).wf(),
    ensures
        final(bus).wf(),
        (final(bus)@, cycles) == flag_result(old(bus)@, address_mode, FLAG_CARRY, true),
{
    proof {
        reveal(flag_result);
    }
    bus.increment_pc(&address_mode);
    bus.cpu.set_carry(true);
    2
}

/// Clear the decimal-mode flag.
pub fn cld(bus: &mut Bus, address_mode: AddressMode) -> (cycles: u8)
    requires
        old(bus).wf(),
    ensures
        final(bus).wf(),
        (final(bus)@, cycles) == flag_result(old(bus)@, address_mode, FLAG_DECIMAL, false),
{
    proof {
        reveal(flag_result);
    }
    bus.increment_pc(&address_mode);
    bus.cpu.set_decimal(false);
    2
}

/// Set the decimal-mode flag.
pub fn sed(bus: &mut Bus, address_mode: AddressMode) -> (cycles: u8)
    requires
        old(bus).wf(),
    ensures
        final(bus).wf(),
        (final(bus)@, cycles) == flag_result(old(bus)@, address_mode, FLAG_DECIMAL, true),
{
    proof {
        reveal(flag_result);
    }
    bus.increment_pc(&address_mode);
    bus.cpu.set_decimal(true);
    2
}

/// Clear the interrupt-disable flag.
pub fn cli(bus: &mut Bus, address_mode: AddressMode) -> (cycles: u8)
    requires
        old(bus).wf(),
    ensures
        final(bus).wf(),
        (final(bus)@, cycles) == flag_result(old(bus)@, address_mode, FLAG_INTERRUPT, false),
{
    proof {
        reveal(flag_result);
    }
    bus.increment_pc(&address_mode);
    bus.cpu.set_interrupt_disable(false);
    2
}

/// Set the interrupt-disable flag.
pub fn sei(bus: &mut Bus, address_mode: AddressMode) -> (cycles: u8)
    requires
        old(bus).wf(),
    ensures
        final(bus).wf(),
        (final(bus)@, cycles) == flag_result(old(bus)@, address_mode, FLAG_INTERRUPT, true),
{
    proof {
        reveal(flag_result);
    }
    bus.increment_pc(&address_mode);
    bus.cpu.set_interrupt_disable(true);
    2
}

/// Clear the overflow flag.
pub fn clv(bus: &mut Bus, address_mode: AddressMode) -> (cycles: u8)
    requires
        old(bus).wf(),
    ensures
        final(bus).wf(),
        (final(bus)@, cycles) == flag_result(old(bus)@, address_mode, FLAG_OVERFLOW, false),
{
    proof {
        reveal(flag_result);
    }
    bus.increment_pc(&address_mode);
    bus.cpu.set_overflow(false);
    2
}

/// Push the accumulator.
pub fn pha(bus: &mut Bus, address_mode: AddressMode) -> (cycles: u8)
    requires
        old(bus).wf(),
    ensures
        final(bus).wf(),
        (final(bus)@, cycles) == pha_result(old(bus)@, address_mode),
{
    proof {
        reveal(pha_result);
    }
    bus.increment_pc(&address_mode);
    let byte = bus.cpu.get(Registers::A);
    bus.stack_push(byte);
    3
}

/// Push the processor status; the pushed copy carries the break and
/// unused bits set.
pub fn php(bus: &mut Bus, address_mode: AddressMode) -> (cycles: u8)
    requires
        old(bus).wf(),
    ensures
        final(bus).wf(),
        (final(bus)@, cycles) == php_result(old(bus)@, address_mode),
{
    proof {
        reveal(php_result);
    }
    bus.increment_pc(&address_mode);
    let byte = bus.cpu.get(Registers::P) | (FLAG_BREAK | FLAG_UNUSED);
    bus.stack_push(byte);
    3
}

/// Pull the accumulator.
pub fn pla(bus: &mut Bus, address_mode: AddressMode) -> (cycles: u8)
    requires
        old(bus).wf(),
    ensures
        final(bus).wf(),
        (final(bus)@, cycles) == pla_result(old(bus)@, address_mode),
{
    proof {
        reveal(pla_result);
    }
    let v = bus.stack_pull();
    bus.cpu.update_nz(v);
    bus.cpu.set(Registers::A, v);
    bus.increment_pc(&address_mode);
    4
}

/// Pull the processor status; the interrupt-disable change is deferred
/// until after the next instruction.
pub fn plp(bus: &mut Bus, address_mode: AddressMode) -> (cycles: u8)
    requires
        old(bus).wf(),
    ensures
        final(bus).wf(),
        (final(bus)@, cycles) == plp_result(old(bus)@, address_mode),
{
    proof {
        reveal(plp_result);
    }
    let v = bus.stack_pull();
    let new_p = ((v & 0xEB) | FLAG_UNUSED) | (bus.cpu.p & FLAG_INTERRUPT);
    bus.cpu.delayed_interrupt = Some(v & FLAG_INTERRUPT != 0);
    bus.cpu.set(Registers::P, new_p);
    bus.increment_pc(&address_mode);
    4
}

/// Jump to the effective address.
pub fn jmp(bus: &mut Bus, address_mode: AddressMode) -> (cycles: u8)
    requires
        old(bus).wf(),
    ensures
        final(bus).wf(),
        (final(bus)@, cycles) == jmp_result(old(bus)@, address_mode),
{
    proof {
        reveal(jmp_result);
    }
    let val = bus.read_address_with_mode(&address_mode);
    bus.cpu.set_counter(val.address);
    base_cycles_of(Mnemonic::JMP, address_mode)
}

/// Jump to a subroutine, remembering where to come back to.
pub fn jsr(bus: &mut Bus, address_mode: AddressMode) -> (cycles: u8)
    requires
        old(bus).wf(),
    ensures
        final(bus).wf(),
        (final(bus)@, cycles) == jsr_result(old(bus)@, address_mode),
{
    proof {
        reveal(jsr_result);
    }
    let val = bus.read_address_with_mode(&address_mode);
    let ret = bus.cpu.get_counter().wrapping_add(2);
    bus.stack_push_word(ret);
    bus.cpu.set_counter(val.address);
    6
}

/// Return from a subroutine.
pub fn rts(bus: &mut Bus, address_mode: AddressMode) -> (cycles: u8)
    requires
        old(bus).wf(),
    ensures
        final(bus).wf(),
        (final(bus)@, cycles) == rts_result(old(bus)@),
{
    proof {
        reveal(rts_result);
    }
    let word = bus.stack_pull_word();
    bus.cpu.set_counter(word.wrapping_add(1));
    6
}

/// Return from an interrupt handler.
pub fn rti(bus: &mut Bus, address_mode: AddressMode) -> (cycles: u8)
    requires
        old(bus).wf(),
    ensures
        final(bus).wf(),
        (final(bus)@, cycles) == rti_result(old(bus)@),
{
    proof {
        reveal(rti_result);
    }
    let flags = bus.stack_pull();
    let new_p = (flags & !FLAG_BREAK) | FLAG_UNUSED;
    bus.cpu.set(Registers::P, new_p);
    let word = bus.stack_pull_word();
    bus.cpu.set_counter(word);
    6
}

/// Force an interrupt through the 0xFFFE vector.
pub fn brk(bus: &mut Bus, address_mode: AddressMode) -> (cycles: u8)
    requires
        old(bus).wf(),
    ensures
        final(bus).wf(),
        (final(bus)@, cycles) == brk_result(old(bus)@),
{
    proof {
        reveal(brk_result);
    }
    let pc = bus.cpu.get_counter();
    bus.stack_push_word(pc.wrapping_add(2));
    let byte = bus.cpu.get(Registers::P) | (FLAG_BREAK | FLAG_UNUSED);
    bus.stack_push(byte);
    bus.cpu.set_interrupt_disable(true);
    let low_byte = bus.read(0xFFFE);
    let high_byte = bus.read(0xFFFF);
    bus.cpu.set_counter((low_byte as u16) + 256 * (high_byte as u16));
    7
}

/// What one instruction does to the machine, and what it costs: the
/// single semantic table behind every executor.
#[verifier::opaque]
pub open spec fn instr_result(pre: BusView, mn: Mnemonic, mode: AddressMode) -> (BusView, u8) {
    match mn {
        Mnemonic::ADC => adc_result(pre, mode, Mnemonic::ADC),
        Mnemonic::SBC => adc_result(pre, mode, Mnemonic::SBC),
        Mnemonic::AND => logic_result(pre, mode, Mnemonic::AND),
        Mnemonic::ORA => logic_result(pre, mode, Mnemonic::ORA),
        Mnemonic::EOR => logic_result(pre, mode, Mnemonic::EOR),
        Mnemonic::CMP => compare_result(pre, mode, Mnemonic::CMP, Registers::A),
        Mnemonic::CPX => compare_result(pre, mode, Mnemonic::CPX, Registers::X),
        Mnemonic::CPY => compare_result(pre, mode, Mnemonic::CPY, Registers::Y),
        Mnemonic::BIT => bit_result(pre, mode),
        Mnemonic::LDA => load_result(pre, mode, Mnemonic::LDA, Registers::A),
        Mnemonic::LDX => load_result(pre, mode, Mnemonic::LDX, Registers::X),
        Mnemonic::LDY => load_result(pre, mode, Mnemonic::LDY, Registers::Y),
        Mnemonic::STA => store_result(pre, mode, Mnemonic::STA, Registers::A),
        Mnemonic::STX => store_result(pre, mode, Mnemonic::STX, Registers::X),
        Mnemonic::STY => store_result(pre, mode, Mnemonic::STY, Registers::Y),
        Mnemonic::ASL => shift_result(pre, mode, Mnemonic::ASL),
        Mnemonic::LSR => shift_result(pre, mode, Mnemonic::LSR),
        Mnemonic::ROL => shift_result(pre, mode, Mnemonic::ROL),
        Mnemonic::ROR => shift_result(pre, mode, Mnemonic::ROR),
        Mnemonic::INC => incdec_result(pre, mode, Mnemonic::INC),
        Mnemonic::DEC => incdec_result(pre, mode, Mnemonic::DEC),
        Mnemonic::INX => step_reg_result(pre, mode, Registers::X, true),
        Mnemonic::INY => step_reg_result(pre, mode, Registers::Y, true),
        Mnemonic::DEX => step_reg_result(pre, mode, Registers::X, false),
        Mnemonic::DEY => step_reg_result(pre, mode, Registers::Y, false),
        Mnemonic::TAX => transfer_result(pre, mode, Registers::A, Registers::X, true),
        Mnemonic::TAY => transfer_result(pre, mode, Registers::A, Registers::Y, true),
        Mnemonic::TXA => transfer_result(pre, mode, Registers::X, Registers::A, true),
        Mnemonic::TYA => transfer_result(pre, mode, Registers::Y, Registers::A, true),
        Mnemonic::TSX => transfer_result(pre, mode, Registers::S, Registers::X, true),
        Mnemonic::TXS => transfer_result(pre, mode, Registers::X, Registers::S, false),
        Mnemonic::BCC => branch_result(pre, mode, FLAG_CARRY, false),
        Mnemonic::BCS => branch_result(pre, mode, FLAG_CARRY, true),
        Mnemonic::BEQ => branch_result(pre, mode, FLAG_ZERO, true),
        Mnemonic::BNE => branch_result(pre, mode, FLAG_ZERO, false),
        Mnemonic::BMI => branch_result(pre, mode, FLAG_NEGATIVE, true),
        Mnemonic::BPL => branch_result(pre, mode, FLAG_NEGATIVE, false),
        Mnemonic::BVC => branch_result(pre, mode, FLAG_OVERFLOW, false),
        Mnemonic::BVS => branch_result(pre, mode, FLAG_OVERFLOW, true),
        Mnemonic::CLC => flag_result(pre, mode, FLAG_CARRY, false),
        Mnemonic::SEC => flag_result(pre, mode, FLAG_CARRY, true),
        Mnemonic::CLD => flag_result(pre, mode, FLAG_DECIMAL, false),
        Mnemonic::SED => flag_result(pre, mode, FLAG_DECIMAL, true),
        Mnemonic::CLI => flag_result(pre, mode, FLAG_INTERRUPT, false),
        Mnemonic::SEI => flag_result(pre, mode, FLAG_INTERRUPT, true),
        Mnemonic::CLV => flag_result(pre, mode, FLAG_OVERFLOW, false),
        Mnemonic::PHA => pha_result(pre, mode),
        Mnemonic::PHP => php_result(pre, mode),
        Mnemonic::PLA => pla_result(pre, mode),
        Mnemonic::PLP => plp_result(pre, mode),
        Mnemonic::JMP => jmp_result(pre, mode),
        Mnemonic::JSR => jsr_result(pre, mode),
        Mnemonic::RTS => rts_result(pre),
        Mnemonic::RTI => rti_result(pre),
        Mnemonic::BRK => brk_result(pre),
        Mnemonic::NOP => nop_result(pre, mode),
    }
}

/// Write-back never touches the dot counter of the PPU, whatever byte
/// lands on the bus.
proof fn lemma_write_ticks_all(b: BusView, address: u16)
    ensures
        forall|v: u8| #[trigger] crate::bus::spec_bus_write(b, address, v).ppu.ticks
            == b.ppu.ticks,
{
    assert forall|v: u8| #[trigger] crate::bus::spec_bus_write(b, address, v).ppu.ticks
        == b.ppu.ticks by {
        crate::bus::lemma_bus_write_ticks(b, address, v);
    }
}

/// Instruction properties of the alu group: the PPU dot counter is
/// untouched, and a documented pairing costs at least one cycle.
#[verifier::rlimit(80)]
#[verifier::spinoff_prover]
proof fn lemma_instr_props_alu(pre: BusView, mn: Mnemonic, mode: AddressMode)
    requires
        mn == Mnemonic::ADC || mn == Mnemonic::SBC || mn == Mnemonic::AND || mn == Mnemonic::ORA
            || mn == Mnemonic::EOR || mn == Mnemonic::CMP || mn == Mnemonic::CPX || mn
            == Mnemonic::CPY || mn == Mnemonic::BIT || mn == Mnemonic::LDA || mn == Mnemonic::LDX
            || mn == Mnemonic::LDY || mn == Mnemonic::STA || mn == Mnemonic::STX || mn
            == Mnemonic::STY,
    ensures
        instr_result(pre, mn, mode).0.ppu.ticks == pre.ppu.ticks,
        base_cycles(mn, mode) >= 2 ==> instr_result(pre, mn, mode).1 >= 1,
{
    reveal(instr_result);
    reveal(load_result);
    reveal(store_result);
    reveal(logic_result);
    reveal(adc_result);
    reveal(compare_result);
    reveal(bit_result);
    crate::bus::lemma_eval_ticks(pre, mode);
    lemma_eval_cycles_bound(pre, mode);
    lemma_base_cycles_bound(mn, mode);
    let e = spec_eval(pre, mode);
    lemma_write_ticks_all(e.0, e.1.address);
}

/// Instruction properties of the rmw group: the PPU dot counter is
/// untouched, and a documented pairing costs at least one cycle.
#[verifier::rlimit(80)]
#[verifier::spinoff_prover]
proof fn lemma_instr_props_rmw(pre: BusView, mn: Mnemonic, mode: AddressMode)
    requires
        mn == Mnemonic::ASL || mn == Mnemonic::LSR || mn == Mnemonic::ROL || mn == Mnemonic::ROR
            || mn == Mnemonic::INC || mn == Mnemonic::DEC || mn == Mnemonic::INX || mn
            == Mnemonic::INY || mn == Mnemonic::DEX || mn == Mnemonic::DEY || mn == Mnemonic::TAX
            || mn == Mnemonic::TAY || mn == Mnemonic::TXA || mn == Mnemonic::TYA || mn
            == Mnemonic::TSX || mn == Mnemonic::TXS || mn == Mnemonic::NOP,
    ensures
        instr_result(pre, mn, mode).0.ppu.ticks == pre.ppu.ticks,
        base_cycles(mn, mode) >= 2 ==> instr_result(pre, mn, mode).1 >= 1,
{
    reveal(instr_result);
    reveal(shift_result);
    reveal(incdec_result);
    reveal(step_reg_result);
    reveal(transfer_result);
    reveal(nop_result);
    crate::bus::lemma_eval_ticks(pre, mode);
    lemma_base_cycles_bound(mn, mode);
    let e = spec_eval(pre, mode);
    lemma_write_ticks_all(e.0, e.1.address);
}

/// Instruction properties of the branch-and-flag group: the PPU dot
/// counter is untouched, and every instruction costs at least one cycle.
#[verifier::rlimit(80)]
#[verifier::spinoff_prover]
proof fn lemma_instr_props_branch(pre: BusView, mn: Mnemonic, mode: AddressMode)
    requires
        mn == Mnemonic::BCC || mn == Mnemonic::BCS || mn == Mnemonic::BEQ || mn == Mnemonic::BNE
            || mn == Mnemonic::BMI || mn == Mnemonic::BPL || mn == Mnemonic::BVC || mn
            == Mnemonic::BVS || mn == Mnemonic::CLC || mn == Mnemonic::SEC || mn == Mnemonic::CLD
            || mn == Mnemonic::SED || mn == Mnemonic::CLI || mn == Mnemonic::SEI || mn
            == Mnemonic::CLV,
    ensures
        instr_result(pre, mn, mode).0.ppu.ticks == pre.ppu.ticks,
        instr_result(pre, mn, mode).1 >= 1,
{
    reveal(instr_result);
    reveal(branch_result);
    reveal(flag_result);
    crate::bus::lemma_eval_ticks(pre, mode);
}

/// Instruction properties of the stack-and-flow group: the PPU dot
/// counter is untouched, and every instruction costs at least one cycle.
#[verifier::rlimit(80)]
#[verifier::spinoff_prover]
proof fn lemma_instr_props_flow(pre: BusView, mn: Mnemonic, mode: AddressMode)
    requires
        mn == Mnemonic::PHA || mn == Mnemonic::PHP || mn == Mnemonic::PLA || mn == Mnemonic::PLP
            || mn == Mnemonic::JMP || mn == Mnemonic::JSR || mn == Mnemonic::RTS || mn
            == Mnemonic::RTI || mn == Mnemonic::BRK,
    ensures
        instr_result(pre, mn, mode).0.ppu.ticks == pre.ppu.ticks,
        base_cycles(mn, mode) >= 2 ==> instr_result(pre, mn, mode).1 >= 1,
{
    reveal(instr_result);
    reveal(pha_result);
    reveal(php_result);
    reveal(pla_result);
    reveal(plp_result);
    reveal(jmp_result);
    reveal(jsr_result);
    reveal(rts_result);
    reveal(rti_result);
    reveal(brk_result);
    crate::bus::lemma_eval_ticks(pre, mode);
    if mn == Mnemonic::BRK {
        let b1 = spec_stack_push_word(pre, vstd::wrapping::u16_specs::wrapping_add(pre.cpu.pc, 2));
        let b2 = spec_stack_push(b1, pre.cpu.p | (FLAG_BREAK | FLAG_UNUSED));
        crate::bus::lemma_bus_read_ticks(b2, 0xFFFE);
        crate::bus::lemma_bus_read_ticks(spec_bus_read(b2, 0xFFFE).0, 0xFFFF);
    }
}

/// Every instruction leaves the PPU dot counter alone, and a documented
/// (mnemonic, mode) pairing costs at least one cycle.
pub proof fn lemma_instr_props(pre: BusView, mn: Mnemonic, mode: AddressMode)
    ensures
        instr_result(pre, mn, mode).0.ppu.ticks == pre.ppu.ticks,
        base_cycles(mn, mode) >= 2 ==> instr_result(pre, mn, mode).1 >= 1,
{
    match mn {
        Mnemonic::ADC | Mnemonic::SBC | Mnemonic::AND | Mnemonic::ORA | Mnemonic::EOR
        | Mnemonic::CMP | Mnemonic::CPX | Mnemonic::CPY | Mnemonic::BIT | Mnemonic::LDA
        | Mnemonic::LDX | Mnemonic::LDY | Mnemonic::STA | Mnemonic::STX | Mnemonic::STY => {
            lemma_instr_props_alu(pre, mn, mode);
        },
        Mnemonic::ASL | Mnemonic::LSR | Mnemonic::ROL | Mnemonic::ROR | Mnemonic::INC
        | Mnemonic::DEC | Mnemonic::INX | Mnemonic::INY | Mnemonic::DEX | Mnemonic::DEY
        | Mnemonic::TAX | Mnemonic::TAY | Mnemonic::TXA | Mnemonic::TYA | Mnemonic::TSX
        | Mnemonic::TXS | Mnemonic::NOP => {
            lemma_instr_props_rmw(pre, mn, mode);
        },
        Mnemonic::BCC | Mnemonic::BCS | Mnemonic::BEQ | Mnemonic::BNE | Mnemonic::BMI
        | Mnemonic::BPL | Mnemonic::BVC | Mnemonic::BVS | Mnemonic::CLC | Mnemonic::SEC
        | Mnemonic::CLD | Mnemonic::SED | Mnemonic::CLI | Mnemonic::SEI | Mnemonic::CLV => {
            lemma_instr_props_branch(pre, mn, mode);
        },
        Mnemonic::PHA | Mnemonic::PHP | Mnemonic::PLA | Mnemonic::PLP | Mnemonic::JMP
        | Mnemonic::JSR | Mnemonic::RTS | Mnemonic::RTI | Mnemonic::BRK => {
            lemma_instr_props_flow(pre, mn, mode);
        },
    }
}

/// Run one decoded instruction of the alu group.
#[verifier::spinoff_prover]
fn execute_alu(bus: &mut Bus, mn: Mnemonic, mode: AddressMode) -> (cycles: u8)
    requires
        old(bus).wf(),
        mn == Mnemonic::ADC || mn == Mnemonic::SBC || mn == Mnemonic::AND || mn == Mnemonic::ORA || mn == Mnemonic::EOR || mn == Mnemonic::CMP || mn == Mnemonic::CPX || mn == Mnemonic::CPY || mn == Mnemonic::BIT || mn == Mnemonic::LDA || mn == Mnemonic::LDX || mn == Mnemonic::LDY || mn == Mnemonic::STA || mn == Mnemonic::STX || mn == Mnemonic::STY,
    ensures
        final(bus).wf(),
        (final(bus)@, cycles) == instr_result(old(bus)@, mn, mode),
{
    proof {
        reveal(instr_result);
    }
    match mn {
        Mnemonic::ADC => adc(bus, mode),
        Mnemonic::SBC => sbc(bus, mode),
        Mnemonic::AND => and(bus, mode),
        Mnemonic::ORA => ora(bus, mode),
        Mnemonic::EOR => eor(bus, mode),
        Mnemonic::CMP => cmp(bus, mode),
        Mnemonic::CPX => cpx(bus, mode),
        Mnemonic::CPY => cpy(bus, mode),
        Mnemonic::BIT => bit(bus, mode),
        Mnemonic::LDA => lda(bus, mode),
        Mnemonic::LDX => ldx(bus, mode),
        Mnemonic::LDY => ldy(bus, mode),
        Mnemonic::STA => sta(bus, mode),
        Mnemonic::STX => stx(bus, mode),
        Mnemonic::STY => sty(bus, mode),
        _ => vstd::pervasive::unreached(),
    }
}

/// Run one decoded instruction of the rmw group.
#[verifier::spinoff_prover]
fn execute_rmw(bus: &mut Bus, mn: Mnemonic, mode: AddressMode) -> (cycles: u8)
    requires
        old(bus).wf(),
        mn == Mnemonic::ASL || mn == Mnemonic::LSR || mn == Mnemonic::ROL || mn == Mnemonic::ROR || mn == Mnemonic::INC || mn == Mnemonic::DEC || mn == Mnemonic::INX || mn == Mnemonic::INY || mn == Mnemonic::DEX || mn == Mnemonic::DEY || mn == Mnemonic::TAX || mn == Mnemonic::TAY || mn == Mnemonic::TXA || mn == Mnemonic::TYA || mn == Mnemonic::TSX || mn == Mnemonic::TXS || mn == Mnemonic::NOP,
    ensures
        final(bus).wf(),
        (final(bus)@, cycles) == instr_result(old(bus)@, mn, mode),
{
    proof {
        reveal(instr_result);
    }
    match mn {
        Mnemonic::ASL => asl(bus, mode),
        Mnemonic::LSR => lsr(bus, mode),
        Mnemonic::ROL => rol(bus, mode),
        Mnemonic::ROR => ror(bus, mode),
        Mnemonic::INC => inc(bus, mode),
        Mnemonic::DEC => dec(bus, mode),
        Mnemonic::INX => inx(bus, mode),
        Mnemonic::INY => iny(bus, mode),
        Mnemonic::DEX => dex(bus, mode),
        Mnemonic::DEY => dey(bus, mode),
        Mnemonic::TAX => tax(bus, mode),
        Mnemonic::TAY => tay(bus, mode),
        Mnemonic::TXA => txa(bus, mode),
        Mnemonic::TYA => tya(bus, mode),
        Mnemonic::TSX => tsx(bus, mode),
        Mnemonic::TXS => txs(bus, mode),
        Mnemonic::NOP => nop(bus, mode),
        _ => vstd::pervasive::unreached(),
    }
}

/// Run one decoded instruction of the branch group.
#[verifier::spinoff_prover]
fn execute_branch(bus: &mut Bus, mn: Mnemonic, mode: AddressMode) -> (cycles: u8)
    requires
        old(bus).wf(),
        mn == Mnemonic::BCC || mn == Mnemonic::BCS || mn == Mnemonic::BEQ || mn == Mnemonic::BNE || mn == Mnemonic::BMI || mn == Mnemonic::BPL || mn == Mnemonic::BVC || mn == Mnemonic::BVS || mn == Mnemonic::CLC || mn == Mnemonic::SEC || mn == Mnemonic::CLD || mn == Mnemonic::SED || mn == Mnemonic::CLI || mn == Mnemonic::SEI || mn == Mnemonic::CLV,
    ensures
        final(bus).wf(),
        (final(bus)@, cycles) == instr_result(old(bus)@, mn, mode),
{
    proof {
        reveal(instr_result);
    }
    match mn {
        Mnemonic::BCC => bcc(bus, mode),
        Mnemonic::BCS => bcs(bus, mode),
        Mnemonic::BEQ => beq(bus, mode),
        Mnemonic::BNE => bne(bus, mode),
        Mnemonic::BMI => bmi(bus, mode),
        Mnemonic::BPL => bpl(bus, mode),
        Mnemonic::BVC => bvc(bus, mode),
        Mnemonic::BVS => bvs(bus, mode),
        Mnemonic::CLC => clc(bus, mode),
        Mnemonic::SEC => sec(bus, mode),
        Mnemonic::CLD => cld(bus, mode),
        Mnemonic::SED => sed(bus, mode),
        Mnemonic::CLI => cli(bus, mode),
        Mnemonic::SEI => sei(bus, mode),
        Mnemonic::CLV => clv(bus, mode),
        _ => vstd::pervasive::unreached(),
    }
}

/// Run one decoded instruction of the flow group.
#[verifier::spinoff_prover]
fn execute_flow(bus: &mut Bus, mn: Mnemonic, mode: AddressMode) -> (cycles: u8)
    requires
        old(bus).wf(),
        mn == Mnemonic::PHA || mn == Mnemonic::PHP || mn == Mnemonic::PLA || mn == Mnemonic::PLP || mn == Mnemonic::JMP || mn == Mnemonic::JSR || mn == Mnemonic::RTS || mn == Mnemonic::RTI || mn == Mnemonic::BRK,
    ensures
        final(bus).wf(),
        (final(bus)@, cycles) == instr_result(old(bus)@, mn, mode),
{
    proof {
        reveal(instr_result);
    }
    match mn {
        Mnemonic::PHA => pha(bus, mode),
        Mnemonic::PHP => php(bus, mode),
        Mnemonic::PLA => pla(bus, mode),
        Mnemonic::PLP => plp(bus, mode),
        Mnemonic::JMP => jmp(bus, mode),
        Mnemonic::JSR => jsr(bus, mode),
        Mnemonic::RTS => rts(bus, mode),
        Mnemonic::RTI => rti(bus, mode),
        Mnemonic::BRK => brk(bus, mode),
        _ => vstd::pervasive::unreached(),
    }
}

/// Run one decoded instruction.
pub fn execute_instruction(bus: &mut Bus, mn: Mnemonic, mode: AddressMode) -> (cycles: u8)
    requires
        old(bus).wf(),
    ensures
        final(bus).wf(),
        (final(bus)@, cycles) == instr_result(old(bus)@, mn, mode),
{
    match mn {
        Mnemonic::ADC | Mnemonic::SBC | Mnemonic::AND | Mnemonic::ORA | Mnemonic::EOR | Mnemonic::CMP | Mnemonic::CPX | Mnemonic::CPY | Mnemonic::BIT | Mnemonic::LDA | Mnemonic::LDX | Mnemonic::LDY | Mnemonic::STA | Mnemonic::STX | Mnemonic::STY => execute_alu(bus, mn, mode),
        Mnemonic::ASL | Mnemonic::LSR | Mnemonic::ROL | Mnemonic::ROR | Mnemonic::INC | Mnemonic::DEC | Mnemonic::INX | Mnemonic::INY | Mnemonic::DEX | Mnemonic::DEY | Mnemonic::TAX | Mnemonic::TAY | Mnemonic::TXA | Mnemonic::TYA | Mnemonic::TSX | Mnemonic::TXS | Mnemonic::NOP => execute_rmw(bus, mn, mode),
        Mnemonic::BCC | Mnemonic::BCS | Mnemonic::BEQ | Mnemonic::BNE | Mnemonic::BMI | Mnemonic::BPL | Mnemonic::BVC | Mnemonic::BVS | Mnemonic::CLC | Mnemonic::SEC | Mnemonic::CLD | Mnemonic::SED | Mnemonic::CLI | Mnemonic::SEI | Mnemonic::CLV => execute_branch(bus, mn, mode),
        Mnemonic::PHA | Mnemonic::PHP | Mnemonic::PLA | Mnemonic::PLP | Mnemonic::JMP | Mnemonic::JSR | Mnemonic::RTS | Mnemonic::RTI | Mnemonic::BRK => execute_flow(bus, mn, mode),
    }
}

/// Shift the operand left one bit; bit 7 falls into the carry.
pub fn asl(bus: &mut Bus, address_mode: AddressMode) -> (cycles: u8)
    requires
        old(bus).wf(),
    ensures
        final(bus).wf(),
        (final(bus)@, cycles) == shift_result(old(bus)@, address_mode, Mnemonic::ASL),
{
    proof {
        reveal(shift_result);
    }
    let val = bus.read_address_with_mode(&address_mode);
    let result: u8 = val.value << 1;
    bus.cpu.set_carry(val.value & 0x80 != 0);
    bus.cpu.set_zero(result == 0);
    bus.cpu.set_negative(result & 0x80 != 0);
    if address_mode == AddressMode::Accumulator {
        bus.cpu.set(Registers::A, result);
    } else {
        bus.write(val.address, result);
    }
    bus.increment_pc(&address_mode);
    base_cycles_of(Mnemonic::ASL, address_mode)
}

/// Shift the operand right one bit; bit 0 falls into the carry and N is
/// always left clear.
pub fn lsr(bus: &mut Bus, address_mode: AddressMode) -> (cycles: u8)
    requires
        old(bus).wf(),
    ensures
        final(bus).wf(),
        (final(bus)@, cycles) == shift_result(old(bus)@, address_mode, Mnemonic::LSR),
        !flag_set(final(bus)@.cpu.p, FLAG_NEGATIVE),
{
    proof {
        reveal(shift_result);
    }
    let val = bus.read_address_with_mode(&address_mode);
    let result: u8 = val.value >> 1;
    bus.cpu.set_carry(val.value & 0x01 != 0);
    bus.cpu.set_zero(result == 0);
    bus.cpu.set_negative(false);
    if address_mode == AddressMode::Accumulator {
        bus.cpu.set(Registers::A, result);
    } else {
        bus.write(val.address, result);
    }
    bus.increment_pc(&address_mode);
    proof {
        let p2 = with_flag(
            with_flag(old(bus)@.cpu.p, FLAG_CARRY, val.value & 0x01 != 0),
            FLAG_ZERO,
            result == 0,
        );
        crate::cpu::lemma_with_flag(p2, FLAG_NEGATIVE, false);
    }
    base_cycles_of(Mnemonic::LSR, address_mode)
}

/// Rotate the operand left through the carry.
pub fn rol(bus: &mut Bus, address_mode: AddressMode) -> (cycles: u8)
    requires
        old(bus).wf(),
    ensures
        final(bus).wf(),
        (final(bus)@, cycles) == shift_result(old(bus)@, address_mode, Mnemonic::ROL),
{
    proof {
        reveal(shift_result);
    }
    let val = bus.read_address_with_mode(&address_mode);
    let carry_in = bus.cpu.get_carry();
    let result: u8 = (val.value << 1) | carry_in;
    bus.cpu.set_carry(val.value & 0x80 != 0);
    bus.cpu.set_zero(result == 0);
    bus.cpu.set_negative(result & 0x80 != 0);
    if address_mode == AddressMode::Accumulator {
        bus.cpu.set(Registers::A, result);
    } else {
        bus.write(val.address, result);
    }
    bus.increment_pc(&address_mode);
    base_cycles_of(Mnemonic::ROL, address_mode)
}

/// Rotate the operand right through the carry.
pub fn ror(bus: &mut Bus, address_mode: AddressMode) -> (cycles: u8)
    requires
        old(bus).wf(),
    ensures
        final(bus).wf(),
        (final(bus)@, cycles) == shift_result(old(bus)@, address_mode, Mnemonic::ROR),
{
    proof {
        reveal(shift_result);
    }
    let val = bus.read_address_with_mode(&address_mode);
    let carry_in = bus.cpu.get_carry();
    let result: u8 = (val.value >> 1) | (carry_in << 7);
    bus.cpu.set_carry(val.value & 0x01 != 0);
    bus.cpu.set_zero(result == 0);
    bus.cpu.set_negative(result & 0x80 != 0);
    if address_mode == AddressMode::Accumulator {
        bus.cpu.set(Registers::A, result);
    } else {
        bus.write(val.address, result);
    }
    bus.increment_pc(&address_mode);
    base_cycles_of(Mnemonic::ROR, address_mode)
}

/// Increment the addressed memory cell.
pub fn inc(bus: &mut Bus, address_mode: AddressMode) -> (cycles: u8)
    requires
        old(bus).wf(),
    ensures
        final(bus).wf(),
        (final(bus)@, cycles) == incdec_result(old(bus)@, address_mode, Mnemonic::INC),
{
    proof {
        reveal(incdec_result);
    }
    let val = bus.read_address_with_mode(&address_mode);
    let result = val.value.wrapping_add(1);
    bus.cpu.update_nz(result);
    if address_mode == AddressMode::Accumulator {
        bus.cpu.set(Registers::A, result);
    } else {
        bus.write(val.address, result);
    }
    bus.increment_pc(&address_mode);
    base_cycles_of(Mnemonic::INC, address_mode)
}

/// Decrement the addressed memory cell.
pub fn dec(bus: &mut Bus, address_mode: AddressMode) -> (cycles: u8)
    requires
        old(bus).wf(),
    ensures
        final(bus).wf(),
        (final(bus)@, cycles) == incdec_result(old(bus)@, address_mode, Mnemonic::DEC),
{
    proof {
        reveal(incdec_result);
    }
    let val = bus.read_address_with_mode(&address_mode);
    let result = val.value.wrapping_sub(1);
    bus.cpu.update_nz(result);
    if address_mode == AddressMode::Accumulator {
        bus.cpu.set(Registers::A, result);
    } else {
        bus.write(val.address, result);
    }
    bus.increment_pc(&address_mode);
    base_cycles_of(Mnemonic::DEC, address_mode)
}

/// Increment the X register.
pub fn inx(bus: &mut Bus, address_mode: AddressMode) -> (cycles: u8)
    requires
        old(bus).wf(),
    ensures
        final(bus).wf(),
        (final(bus)@, cycles) == step_reg_result(old(bus)@, address_mode, Registers::X, true),
{
    proof {
        reveal(step_reg_result);
    }
    let result = bus.cpu.x.wrapping_add(1);
    bus.cpu.update_nz(result);
    bus.cpu.set(Registers::X, result);
    bus.increment_pc(&address_mode);
    2
}

/// Increment the Y register.
pub fn iny(bus: &mut Bus, address_mode: AddressMode) -> (cycles: u8)
    requires
        old(bus).wf(),
    ensures
        final(bus).wf(),
        (final(bus)@, cycles) == step_reg_result(old(bus)@, address_mode, Registers::Y, true),
{
    proof {
        reveal(step_reg_result);
    }
    let result = bus.cpu.y.wrapping_add(1);
    bus.cpu.update_nz(result);
    bus.cpu.set(Registers::Y, result);
    bus.increment_pc(&address_mode);
    2
}

/// Decrement the X register.
pub fn dex(bus: &mut Bus, address_mode: AddressMode) -> (cycles: u8)
    requires
        old(bus).wf(),
    ensures
        final(bus).wf(),
        (final(bus)@, cycles) == step_reg_result(old(bus)@, address_mode, Registers::X, false),
{
    proof {
        reveal(step_reg_result);
    }
    let result = bus.cpu.x.wrapping_sub(1);
    bus.cpu.update_nz(result);
    bus.cpu.set(Registers::X, result);
    bus.increment_pc(&address_mode);
    2
}

/// Decrement the Y register.
pub fn dey(bus: &mut Bus, address_mode: AddressMode) -> (cycles: u8)
    requires
        old(bus).wf(),
    ensures
        final(bus).wf(),
        (final(bus)@, cycles) == step_reg_result(old(bus)@, address_mode, Registers::Y, false),
{
    proof {
        reveal(step_reg_result);
    }
    let result = bus.cpu.y.wrapping_sub(1);
    bus.cpu.update_nz(result);
    bus.cpu.set(Registers::Y, result);
    bus.increment_pc(&address_mode);
    2
}

/// Copy the accumulator into X.
pub fn tax(bus: &mut Bus, address_mode: AddressMode) -> (cycles: u8)
    requires
        old(bus).wf(),
    ensures
        final(bus).wf(),
        (final(bus)@, cycles) == transfer_result(old(bus)@, address_mode, Registers::A,
        Registers::X, true),
{
    proof {
        reveal(transfer_result);
    }
    let v = bus.cpu.get(Registers::A);
    bus.cpu.update_nz(v);
    bus.cpu.set(Registers::X, v);
    bus.increment_pc(&address_mode);
    2
}

/// Copy the accumulator into Y.
pub fn tay(bus: &mut Bus, address_mode: AddressMode) -> (cycles: u8)
    requires
        old(bus).wf(),
    ensures
        final(bus).wf(),
        (final(bus)@, cycles) == transfer_result(old(bus)@, address_mode, Registers::A,
        Registers::Y, true),
{
    proof {
        reveal(transfer_result);
    }
    let v = bus.cpu.get(Registers::A);
    bus.cpu.update_nz(v);
    bus.cpu.set(Registers::Y, v);
    bus.increment_pc(&address_mode);
    2
}

/// Copy X into the accumulator.
pub fn txa(bus: &mut Bus, address_mode: AddressMode) -> (cycles: u8)
    requires
        old(bus).wf(),
    ensures
        final(bus).wf(),
        (final(bus)@, cycles) == transfer_result(old(bus)@, address_mode, Registers::X,
        Registers::A, true),
{
    proof {
        reveal(transfer_result);
    }
    let v = bus.cpu.get(Registers::X);
    bus.cpu.update_nz(v);
    bus.cpu.set(Registers::A, v);
    bus.increment_pc(&address_mode);
    2
}

/// Copy Y into the accumulator.
pub fn tya(bus: &mut Bus, address_mode: AddressMode) -> (cycles: u8)
    requires
        old(bus).wf(),
    ensures
        final(bus).wf(),
        (final(bus)@, cycles) == transfer_result(old(bus)@, address_mode, Registers::Y,
        Registers::A, true),
{
    proof {
        reveal(transfer_result);
    }
    let v = bus.cpu.get(Registers::Y);
    bus.cpu.update_nz(v);
    bus.cpu.set(Registers::A, v);
    bus.increment_pc(&address_mode);
    2
}

/// Copy the stack pointer into X.
pub fn tsx(bus: &mut Bus, address_mode: AddressMode) -> (cycles: u8)
    requires
        old(bus).wf(),
    ensures
        final(bus).wf(),
        (final(bus)@, cycles) == transfer_result(old(bus)@, address_mode, Registers::S,
        Registers::X, true),
{
    proof {
        reveal(transfer_result);
    }
    let v = bus.cpu.get(Registers::S);
    bus.cpu.update_nz(v);
    bus.cpu.set(Registers::X, v);
    bus.increment_pc(&address_mode);
    2
}

/// Copy X into the stack pointer; no flags change.
pub fn txs(bus: &mut Bus, address_mode: AddressMode) -> (cycles: u8)
    requires
        old(bus).wf(),
    ensures
        final(bus).wf(),
        (final(bus)@, cycles) == transfer_result(old(bus)@, address_mode, Registers::X,
        Registers::S, false),
{
    proof {
        reveal(transfer_result);
    }
    let v = bus.cpu.get(Registers::X);
    bus.cpu.set(Registers::S, v);
    bus.increment_pc(&address_mode);
    2
}

/// No operation.
pub fn nop(bus: &mut Bus, address_mode: AddressMode) -> (cycles: u8)
    requires
        old(bus).wf(),
    ensures
        final(bus).wf(),
        (final(bus)@, cycles) == nop_result(old(bus)@, address_mode),
{
    proof {
        reveal(nop_result);
    }
    bus.increment_pc(&address_mode);
    2
}

/// Add the operand and the carry to the accumulator.
pub fn adc(bus: &mut Bus, address_mode: AddressMode) -> (cycles: u8)
    requires
        old(bus).wf(),
    ensures
        final(bus).wf(),
        (final(bus)@, cycles) == adc_result(old(bus)@, address_mode, Mnemonic::ADC),
{
    proof {
        reveal(adc_result);
    }
    let val = bus.read_address_with_mode(&address_mode);
    let acc = bus.cpu.a;
    let carry = bus.cpu.get_carry();
    let sum: u16 = (acc as u16) + (val.value as u16) + (carry as u16);
    let result: u8 = (sum % 256) as u8;
    bus.cpu.set_carry(sum > 0xFF);
    bus.cpu.set_zero(result == 0);
    bus.cpu.set_overflow((acc ^ result) & (val.value ^ result) & 0x80 != 0);
    bus.cpu.set_negative(result & 0x80 != 0);
    bus.cpu.set(Registers::A, result);
    bus.increment_pc(&address_mode);
    proof {
        lemma_eval_cycles_bound(old(bus)@, address_mode);
    }
    base_cycles_of(Mnemonic::ADC, address_mode) + val.cycles
}

/// Subtract the operand from the accumulator with borrow: the binary add
/// of the inverted operand.
pub fn sbc(bus: &mut Bus, address_mode: AddressMode) -> (cycles: u8)
    requires
        old(bus).wf(),
    ensures
        final(bus).wf(),
        (final(bus)@, cycles) == adc_result(old(bus)@, address_mode, Mnemonic::SBC),
{
    proof {
        reveal(adc_result);
    }
    let val = bus.read_address_with_mode(&address_mode);
    let operand: u8 = !val.value;
    let acc = bus.cpu.a;
    let carry = bus.cpu.get_carry();
    let sum: u16 = (acc as u16) + (operand as u16) + (carry as u16);
    let result: u8 = (sum % 256) as u8;
    bus.cpu.set_carry(sum > 0xFF);
    bus.cpu.set_zero(result == 0);
    bus.cpu.set_overflow((acc ^ result) & (operand ^ result) & 0x80 != 0);
    bus.cpu.set_negative(result & 0x80 != 0);
    bus.cpu.set(Registers::A, result);
    bus.increment_pc(&address_mode);
    proof {
        lemma_eval_cycles_bound(old(bus)@, address_mode);
    }
    base_cycles_of(Mnemonic::SBC, address_mode) + val.cycles
}

/// Bitwise AND of accumulator and operand.
pub fn and(bus: &mut Bus, address_mode: AddressMode) -> (cycles: u8)
    requires
        old(bus).wf(),
    ensures
        final(bus).wf(),
        (final(bus)@, cycles) == logic_result(old(bus)@, address_mode, Mnemonic::AND),
{
    proof {
        reveal(logic_result);
    }
    let val = bus.read_address_with_mode(&address_mode);
    let result = bus.cpu.a & val.value;
    bus.cpu.update_nz(result);
    bus.cpu.set(Registers::A, result);
    bus.increment_pc(&address_mode);
    proof {
        lemma_eval_cycles_bound(old(bus)@, address_mode);
    }
    base_cycles_of(Mnemonic::AND, address_mode) + val.cycles
}

/// Bitwise OR of accumulator and operand.
pub fn ora(bus: &mut Bus, address_mode: AddressMode) -> (cycles: u8)
    requires
        old(bus).wf(),
    ensures
        final(bus).wf(),
        (final(bus)@, cycles) == logic_result(old(bus)@, address_mode, Mnemonic::ORA),
{
    proof {
        reveal(logic_result);
    }
    let val = bus.read_address_with_mode(&address_mode);
    let result = bus.cpu.a | val.value;
    bus.cpu.update_nz(result);
    bus.cpu.set(Registers::A, result);
    bus.increment_pc(&address_mode);
    proof {
        lemma_eval_cycles_bound(old(bus)@, address_mode);
    }
    base_cycles_of(Mnemonic::ORA, address_mode) + val.cycles
}

/// Bitwise exclusive OR of accumulator and operand.
pub fn eor(bus: &mut Bus, address_mode: AddressMode) -> (cycles: u8)
    requires
        old(bus).wf(),
    ensures
        final(bus).wf(),
        (final(bus)@, cycles) == logic_result(old(bus)@, address_mode, Mnemonic::EOR),
{
    proof {
        reveal(logic_result);
    }
    let val = bus.read_address_with_mode(&address_mode);
    let result = bus.cpu.a ^ val.value;
    bus.cpu.update_nz(result);
    bus.cpu.set(Registers::A, result);
    bus.increment_pc(&address_mode);
    proof {
        lemma_eval_cycles_bound(old(bus)@, address_mode);
    }
    base_cycles_of(Mnemonic::EOR, address_mode) + val.cycles
}

/// Compare the accumulator with the operand.
pub fn cmp(bus: &mut Bus, address_mode: AddressMode) -> (cycles: u8)
    requires
        old(bus).wf(),
    ensures
        final(bus).wf(),
        (final(bus)@, cycles) == compare_result(old(bus)@, address_mode, Mnemonic::CMP,
        Registers::A),
{
    proof {
        reveal(compare_result);
    }
    let val = bus.read_address_with_mode(&address_mode);
    let lhs = bus.cpu.a;
    let diff = lhs.wrapping_sub(val.value);
    bus.cpu.set_carry(lhs >= val.value);
    bus.cpu.set_zero(lhs == val.value);
    bus.cpu.set_negative(diff & 0x80 != 0);
    bus.increment_pc(&address_mode);
    proof {
        lemma_eval_cycles_bound(old(bus)@, address_mode);
    }
    base_cycles_of(Mnemonic::CMP, address_mode) + val.cycles
}

/// Compare the X register with the operand.
pub fn cpx(bus: &mut Bus, address_mode: AddressMode) -> (cycles: u8)
    requires
        old(bus).wf(),
    ensures
        final(bus).wf(),
        (final(bus)@, cycles) == compare_result(old(bus)@, address_mode, Mnemonic::CPX,
        Registers::X),
{
    proof {
        reveal(compare_result);
    }
    let val = bus.read_address_with_mode(&address_mode);
    let lhs = bus.cpu.x;
    let diff = lhs.wrapping_sub(val.value);
    bus.cpu.set_carry(lhs >= val.value);
    bus.cpu.set_zero(lhs == val.value);
    bus.cpu.set_negative(diff & 0x80 != 0);
    bus.increment_pc(&address_mode);
    proof {
        lemma_eval_cycles_bound(old(bus)@, address_mode);
    }
    base_cycles_of(Mnemonic::CPX, address_mode) + val.cycles
}

/// Compare the Y register with the operand.
pub fn cpy(bus: &mut Bus, address_mode: AddressMode) -> (cycles: u8)
    requires
        old(bus).wf(),
    ensures
        final(bus).wf(),
        (final(bus)@, cycles) == compare_result(old(bus)@, address_mode, Mnemonic::CPY,
        Registers::Y),
{
    proof {
        reveal(compare_result);
    }
    let val = bus.read_address_with_mode(&address_mode);
    let lhs = bus.cpu.y;
    let diff = lhs.wrapping_sub(val.value);
    bus.cpu.set_carry(lhs >= val.value);
    bus.cpu.set_zero(lhs == val.value);
    bus.cpu.set_negative(diff & 0x80 != 0);
    bus.increment_pc(&address_mode);
    proof {
        lemma_eval_cycles_bound(old(bus)@, address_mode);
    }
    base_cycles_of(Mnemonic::CPY, address_mode) + val.cycles
}

/// Test bits of the operand against the accumulator.
pub fn bit(bus: &mut Bus, address_mode: AddressMode) -> (cycles: u8)
    requires
        old(bus).wf(),
    ensures
        final(bus).wf(),
        (final(bus)@, cycles) == bit_result(old(bus)@, address_mode),
{
    proof {
        reveal(bit_result);
    }
    let val = bus.read_address_with_mode(&address_mode);
    bus.cpu.set_zero(bus.cpu.a & val.value == 0);
    bus.cpu.set_overflow(val.value & 0x40 != 0);
    bus.cpu.set_negative(val.value & 0x80 != 0);
    bus.increment_pc(&address_mode);
    proof {
        lemma_eval_cycles_bound(old(bus)@, address_mode);
    }
    base_cycles_of(Mnemonic::BIT, address_mode) + val.cycles
}

/// Store the accumulator at the effective address.
pub fn sta(bus: &mut Bus, address_mode: AddressMode) -> (cycles: u8)
    requires
        old(bus).wf(),
    ensures
        final(bus).wf(),
        (final(bus)@, cycles) == store_result(old(bus)@, address_mode, Mnemonic::STA, Registers::A),
{
    proof {
        reveal(store_result);
    }
    let val = bus.read_address_with_mode(&address_mode);
    let byte = bus.cpu.get(Registers::A);
    bus.write(val.address, byte);
    bus.increment_pc(&address_mode);
    base_cycles_of(Mnemonic::STA, address_mode)
}

/// Store the X register at the effective address.
pub fn stx(bus: &mut Bus, address_mode: AddressMode) -> (cycles: u8)
    requires
        old(bus).wf(),
    ensures
        final(bus).wf(),
        (final(bus)@, cycles) == store_result(old(bus)@, address_mode, Mnemonic::STX, Registers::X),
{
    proof {
        reveal(store_result);
    }
    let val = bus.read_address_with_mode(&address_mode);
    let byte = bus.cpu.get(Registers::X);
    bus.write(val.address, byte);
    bus.increment_pc(&address_mode);
    base_cycles_of(Mnemonic::STX, address_mode)
}

/// Store the Y register at the effective address.
pub fn sty(bus: &mut Bus, address_mode: AddressMode) -> (cycles: u8)
    requires
        old(bus).wf(),
    ensures
        final(bus).wf(),
        (final(bus)@, cycles) == store_result(old(bus)@, address_mode, Mnemonic::STY, Registers::Y),
{
    proof {
        reveal(store_result);
    }
    let val = bus.read_address_with_mode(&address_mode);
    let byte = bus.cpu.get(Registers::Y);
    bus.write(val.address, byte);
    bus.increment_pc(&address_mode);
    base_cycles_of(Mnemonic::STY, address_mode)
}

/// Load the X register.
pub fn ldx(bus: &mut Bus, address_mode: AddressMode) -> (cycles: u8)
    requires
        old(bus).wf(),
    ensures
        final(bus).wf(),
        (final(bus)@, cycles) == load_result(old(bus)@, address_mode, Mnemonic::LDX, Registers::X),
{
    proof {
        reveal(load_result);
    }
    let val = bus.read_address_with_mode(&address_mode);
    bus.cpu.update_nz(val.value);
    bus.cpu.set(Registers::X, val.value);
    bus.increment_pc(&address_mode);
    proof {
        lemma_eval_cycles_bound(old(bus)@, address_mode);
    }
    base_cycles_of(Mnemonic::LDX, address_mode) + val.cycles
}

/// Load the Y register.
pub fn ldy(bus: &mut Bus, address_mode: AddressMode) -> (cycles: u8)
    requires
        old(bus).wf(),
    ensures
        final(bus).wf(),
        (final(bus)@, cycles) == load_result(old(bus)@, address_mode, Mnemonic::LDY, Registers::Y),
{
    proof {
        reveal(load_result);
    }
    let val = bus.read_address_with_mode(&address_mode);
    bus.cpu.update_nz(val.value);
    bus.cpu.set(Registers::Y, val.value);
    bus.increment_pc(&address_mode);
    proof {
        lemma_eval_cycles_bound(old(bus)@, address_mode);
    }
    base_cycles_of(Mnemonic::LDY, address_mode) + val.cycles
}

/// Load the accumulator.
pub fn lda(bus: &mut Bus, address_mode: AddressMode) -> (cycles: u8)
    requires
        old(bus).wf(),
    ensures
        final(bus).wf(),
        (final(bus)@, cycles) == load_result(old(bus)@, address_mode, Mnemonic::LDA, Registers::A),
{
    proof {
        reveal(load_result);
    }
    let val = bus.read_address_with_mode(&address_mode);
    bus.cpu.update_nz(val.value);
    bus.cpu.set(Registers::A, val.value);
    bus.increment_pc(&address_mode);
    proof {
        lemma_eval_cycles_bound(old(bus)@, address_mode);
    }
    base_cycles_of(Mnemonic::LDA, address_mode) + val.cycles
}

} // verus!
