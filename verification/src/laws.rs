//! The laws of the machine that relate several operations: address
//! mirroring, stack round trips, call-and-return pairing, and the bits of
//! pushed status values.

use vstd::prelude::*;

use crate::bus::{
    spec_bus_read, spec_bus_write, spec_eval, spec_nmi, spec_stack_pull, spec_stack_pull_word,
    spec_stack_push, spec_stack_push_word, BusView,
};
use crate::cartridge::{spec_mapper_cpu_read, Mapper0View};
use crate::cpu::{flag_set, lemma_with_flag, CPU, FLAG_BREAK, FLAG_CARRY, FLAG_NEGATIVE,
    FLAG_OVERFLOW, FLAG_UNUSED, FLAG_ZERO};
use crate::hardware::{lemma_tick_n_quiet, spec_step, spec_step_n, HardwareView};
use crate::instructions::{
    adc_result, adv_pc, base_cycles, bit_result, branch_result, compare_result, flag_result,
    incdec_result, instr_result, jmp_result, jsr_result, lemma_base_cycles_bound,
    lemma_eval_cycles_bound, load_result, logic_result, nop_result, pc_len, pha_result,
    php_result, pla_result, plp_result, rti_result, rts_result, shift_result, step_reg_result,
    store_result, transfer_result, AddressMode, Mnemonic,
};

verus! {

/// The mnemonics that read an operand and pay one extra cycle when the
/// indexed address crosses a page.
pub open spec fn reads_operand(mn: Mnemonic) -> bool {
    ||| mn == Mnemonic::ADC
    ||| mn == Mnemonic::SBC
    ||| mn == Mnemonic::AND
    ||| mn == Mnemonic::ORA
    ||| mn == Mnemonic::EOR
    ||| mn == Mnemonic::CMP
    ||| mn == Mnemonic::CPX
    ||| mn == Mnemonic::CPY
    ||| mn == Mnemonic::BIT
    ||| mn == Mnemonic::LDA
    ||| mn == Mnemonic::LDX
    ||| mn == Mnemonic::LDY
}

/// The eight conditional branches.
pub open spec fn is_branch(mn: Mnemonic) -> bool {
    ||| mn == Mnemonic::BCC
    ||| mn == Mnemonic::BCS
    ||| mn == Mnemonic::BEQ
    ||| mn == Mnemonic::BNE
    ||| mn == Mnemonic::BMI
    ||| mn == Mnemonic::BPL
    ||| mn == Mnemonic::BVC
    ||| mn == Mnemonic::BVS
}

/// The mnemonics that set the program counter themselves: jumps, calls,
/// returns, the forced interrupt and the branches.
pub open spec fn sets_pc_explicitly(mn: Mnemonic) -> bool {
    ||| mn == Mnemonic::JMP
    ||| mn == Mnemonic::JSR
    ||| mn == Mnemonic::RTS
    ||| mn == Mnemonic::RTI
    ||| mn == Mnemonic::BRK
    ||| is_branch(mn)
}

/// Cycle accounting of the read-operand instructions.
#[verifier::rlimit(80)]
#[verifier::spinoff_prover]
proof fn lemma_cycle_table_reads(pre: BusView, mn: Mnemonic, mode: AddressMode)
    requires
        reads_operand(mn),
    ensures
        instr_result(pre, mn, mode).1 == base_cycles(mn, mode) + spec_eval(pre, mode).1.cycles,
{
    reveal(instr_result);
    reveal(load_result);
    reveal(logic_result);
    reveal(adc_result);
    reveal(compare_result);
    reveal(bit_result);
    lemma_eval_cycles_bound(pre, mode);
    lemma_base_cycles_bound(mn, mode);
}

/// Cycle accounting of the write-back instructions.
#[verifier::rlimit(80)]
#[verifier::spinoff_prover]
proof fn lemma_cycle_table_writes(pre: BusView, mn: Mnemonic, mode: AddressMode)
    requires
        mn == Mnemonic::STA || mn == Mnemonic::STX || mn == Mnemonic::STY || mn == Mnemonic::ASL
            || mn == Mnemonic::LSR || mn == Mnemonic::ROL || mn == Mnemonic::ROR || mn
            == Mnemonic::INC || mn == Mnemonic::DEC,
    ensures
        instr_result(pre, mn, mode).1 == base_cycles(mn, mode),
{
    reveal(instr_result);
    reveal(store_result);
    reveal(shift_result);
    reveal(incdec_result);
}

/// Cycle accounting of the register and flag instructions.
#[verifier::rlimit(80)]
#[verifier::spinoff_prover]
proof fn lemma_cycle_table_register(pre: BusView, mn: Mnemonic, mode: AddressMode)
    requires
        mn == Mnemonic::INX || mn == Mnemonic::INY || mn == Mnemonic::DEX || mn == Mnemonic::DEY
            || mn == Mnemonic::TAX || mn == Mnemonic::TAY || mn == Mnemonic::TXA || mn
            == Mnemonic::TYA || mn == Mnemonic::TSX || mn == Mnemonic::TXS || mn == Mnemonic::NOP
            || mn == Mnemonic::CLC || mn == Mnemonic::SEC || mn == Mnemonic::CLD || mn
            == Mnemonic::SED || mn == Mnemonic::CLI || mn == Mnemonic::SEI || mn == Mnemonic::CLV,
    ensures
        instr_result(pre, mn, mode).1 == base_cycles(mn, mode),
{
    reveal(instr_result);
    reveal(step_reg_result);
    reveal(transfer_result);
    reveal(nop_result);
    reveal(flag_result);
}

/// Cycle accounting of the stack and flow instructions.
#[verifier::rlimit(80)]
#[verifier::spinoff_prover]
proof fn lemma_cycle_table_flow(pre: BusView, mn: Mnemonic, mode: AddressMode)
    requires
        mn == Mnemonic::PHA || mn == Mnemonic::PHP || mn == Mnemonic::PLA || mn == Mnemonic::PLP
            || mn == Mnemonic::JMP || mn == Mnemonic::JSR || mn == Mnemonic::RTS || mn
            == Mnemonic::RTI || mn == Mnemonic::BRK,
    ensures
        instr_result(pre, mn, mode).1 == base_cycles(mn, mode),
{
    reveal(instr_result);
    reveal(pha_result);
    reveal(php_result);
    reveal(pla_result);
    reveal(plp_result);
    reveal(jmp_result);
    reveal(jsr_result);
    reveal(rts_result);
    reveal(rti_result);
    reveal(crate::instructions::brk_result);
}

/// The cycle count of every instruction follows the reference table:
/// read-operand instructions pay the table entry plus the page-cross
/// cycle the evaluator reports; everything else outside the branches
/// pays the table entry exactly.
pub proof fn lemma_cycle_table(pre: BusView, mn: Mnemonic, mode: AddressMode)
    ensures
        reads_operand(mn) ==> instr_result(pre, mn, mode).1 == base_cycles(mn, mode) + spec_eval(
            pre,
            mode,
        ).1.cycles,
        !reads_operand(mn) && !is_branch(mn) ==> instr_result(pre, mn, mode).1 == base_cycles(
            mn,
            mode,
        ),
{
    match mn {
        Mnemonic::ADC | Mnemonic::SBC | Mnemonic::AND | Mnemonic::ORA | Mnemonic::EOR
        | Mnemonic::CMP | Mnemonic::CPX | Mnemonic::CPY | Mnemonic::BIT | Mnemonic::LDA
        | Mnemonic::LDX | Mnemonic::LDY => {
            lemma_cycle_table_reads(pre, mn, mode);
        },
        Mnemonic::STA | Mnemonic::STX | Mnemonic::STY | Mnemonic::ASL | Mnemonic::LSR
        | Mnemonic::ROL | Mnemonic::ROR | Mnemonic::INC | Mnemonic::DEC => {
            lemma_cycle_table_writes(pre, mn, mode);
        },
        Mnemonic::INX | Mnemonic::INY | Mnemonic::DEX | Mnemonic::DEY | Mnemonic::TAX
        | Mnemonic::TAY | Mnemonic::TXA | Mnemonic::TYA | Mnemonic::TSX | Mnemonic::TXS
        | Mnemonic::NOP | Mnemonic::CLC | Mnemonic::SEC | Mnemonic::CLD | Mnemonic::SED
        | Mnemonic::CLI | Mnemonic::SEI | Mnemonic::CLV => {
            lemma_cycle_table_register(pre, mn, mode);
        },
        Mnemonic::PHA | Mnemonic::PHP | Mnemonic::PLA | Mnemonic::PLP | Mnemonic::JMP
        | Mnemonic::JSR | Mnemonic::RTS | Mnemonic::RTI | Mnemonic::BRK => {
            lemma_cycle_table_flow(pre, mn, mode);
        },
        _ => {},
    }
}

/// A taken branch pays one cycle beyond the base two, and exactly one
/// more when its target sits on another page than the instruction after
/// the branch.
pub proof fn lemma_branch_cycles(pre: BusView, mn: Mnemonic, mode: AddressMode)
    requires
        is_branch(mn),
    ensures
        ({
            let e = spec_eval(pre, mode);
            let taken = flag_set(e.0.cpu.p, branch_mask(mn)) == branch_wanted(mn);
            let next = vstd::wrapping::u16_specs::wrapping_add(e.0.cpu.pc, 2);
            instr_result(pre, mn, mode).1 == (if !taken {
                2int
            } else if next & 0xFF00 != e.1.address & 0xFF00 {
                4int
            } else {
                3int
            })
        }),
{
    reveal(instr_result);
    reveal(branch_result);
}

/// The status flag a branch tests.
pub open spec fn branch_mask(mn: Mnemonic) -> u8 {
    match mn {
        Mnemonic::BCC => FLAG_CARRY,
        Mnemonic::BCS => FLAG_CARRY,
        Mnemonic::BEQ => FLAG_ZERO,
        Mnemonic::BNE => FLAG_ZERO,
        Mnemonic::BMI => FLAG_NEGATIVE,
        Mnemonic::BPL => FLAG_NEGATIVE,
        Mnemonic::BVC => FLAG_OVERFLOW,
        _ => FLAG_OVERFLOW,
    }
}

/// The flag state on which a branch is taken.
pub open spec fn branch_wanted(mn: Mnemonic) -> bool {
    match mn {
        Mnemonic::BCS => true,
        Mnemonic::BEQ => true,
        Mnemonic::BMI => true,
        Mnemonic::BVS => true,
        _ => false,
    }
}

/// Program-counter advance of the read-operand instructions.
#[verifier::rlimit(80)]
#[verifier::spinoff_prover]
proof fn lemma_pc_advance_reads(pre: BusView, mn: Mnemonic, mode: AddressMode)
    requires
        reads_operand(mn),
    ensures
        instr_result(pre, mn, mode).0.cpu.pc == adv_pc(pre.cpu.pc, mode),
{
    reveal(instr_result);
    reveal(load_result);
    reveal(logic_result);
    reveal(adc_result);
    reveal(compare_result);
    reveal(bit_result);
    crate::bus::lemma_eval_ticks(pre, mode);
}

/// Program-counter advance of the write-back instructions.
#[verifier::rlimit(80)]
#[verifier::spinoff_prover]
proof fn lemma_pc_advance_writes(pre: BusView, mn: Mnemonic, mode: AddressMode)
    requires
        mn == Mnemonic::STA || mn == Mnemonic::STX || mn == Mnemonic::STY || mn == Mnemonic::ASL
            || mn == Mnemonic::LSR || mn == Mnemonic::ROL || mn == Mnemonic::ROR || mn
            == Mnemonic::INC || mn == Mnemonic::DEC,
    ensures
        instr_result(pre, mn, mode).0.cpu.pc == adv_pc(pre.cpu.pc, mode),
{
    reveal(instr_result);
    reveal(store_result);
    reveal(shift_result);
    reveal(incdec_result);
    crate::bus::lemma_eval_ticks(pre, mode);
    let e = spec_eval(pre, mode);
    assert forall|v: u8| #[trigger] crate::bus::spec_bus_write(e.0, e.1.address, v).cpu
        == e.0.cpu by {}
}

/// Program-counter advance of the register, flag and stack instructions.
#[verifier::rlimit(80)]
#[verifier::spinoff_prover]
proof fn lemma_pc_advance_register(pre: BusView, mn: Mnemonic, mode: AddressMode)
    requires
        mn == Mnemonic::INX || mn == Mnemonic::INY || mn == Mnemonic::DEX || mn == Mnemonic::DEY
            || mn == Mnemonic::TAX || mn == Mnemonic::TAY || mn == Mnemonic::TXA || mn
            == Mnemonic::TYA || mn == Mnemonic::TSX || mn == Mnemonic::TXS || mn == Mnemonic::NOP
            || mn == Mnemonic::CLC || mn == Mnemonic::SEC || mn == Mnemonic::CLD || mn
            == Mnemonic::SED || mn == Mnemonic::CLI || mn == Mnemonic::SEI || mn == Mnemonic::CLV
            || mn == Mnemonic::PHA || mn == Mnemonic::PHP || mn == Mnemonic::PLA || mn
            == Mnemonic::PLP,
    ensures
        instr_result(pre, mn, mode).0.cpu.pc == adv_pc(pre.cpu.pc, mode),
{
    reveal(instr_result);
    reveal(step_reg_result);
    reveal(transfer_result);
    reveal(nop_result);
    reveal(flag_result);
    reveal(pha_result);
    reveal(php_result);
    reveal(pla_result);
    reveal(plp_result);
}

/// After any instruction that does not set the program counter
/// explicitly, the counter stands exactly one, two or three bytes past
/// where it was, as the addressing mode dictates.
pub proof fn lemma_pc_advance(pre: BusView, mn: Mnemonic, mode: AddressMode)
    requires
        !sets_pc_explicitly(mn),
    ensures
        instr_result(pre, mn, mode).0.cpu.pc == adv_pc(pre.cpu.pc, mode),
        1 <= pc_len(mode) <= 3,
{
    match mn {
        Mnemonic::ADC | Mnemonic::SBC | Mnemonic::AND | Mnemonic::ORA | Mnemonic::EOR
        | Mnemonic::CMP | Mnemonic::CPX | Mnemonic::CPY | Mnemonic::BIT | Mnemonic::LDA
        | Mnemonic::LDX | Mnemonic::LDY => {
            lemma_pc_advance_reads(pre, mn, mode);
        },
        Mnemonic::STA | Mnemonic::STX | Mnemonic::STY | Mnemonic::ASL | Mnemonic::LSR
        | Mnemonic::ROL | Mnemonic::ROR | Mnemonic::INC | Mnemonic::DEC => {
            lemma_pc_advance_writes(pre, mn, mode);
        },
        _ => {
            lemma_pc_advance_register(pre, mn, mode);
        },
    }
}


/// A byte of the work RAM reads the same through all four of its mirror
/// windows: 0x0000, 0x0800, 0x1000 and 0x1800 plus the same offset.
pub proof fn lemma_ram_mirroring(b: BusView, k: u16)
    requires
        k < 0x800,
    ensures
        spec_bus_read(b, k).1 == spec_bus_read(b, (0x0800 + k) as u16).1,
        spec_bus_read(b, k).1 == spec_bus_read(b, (0x1000 + k) as u16).1,
        spec_bus_read(b, k).1 == spec_bus_read(b, (0x1800 + k) as u16).1,
{
    assert(k % 0x800 == (0x0800 + k) % 0x800);
    assert(k % 0x800 == (0x1000 + k) % 0x800);
    assert(k % 0x800 == (0x1800 + k) % 0x800);
}

/// A byte written anywhere in the RAM window reads back through any
/// address with the same offset into the 2 KiB.
pub proof fn lemma_ram_write_read(b: BusView, addr: u16, k: u16, value: u8)
    requires
        b.memory.len() == 0x800,
        addr < 0x2000,
        k < 0x2000,
        addr % 0x800 == k % 0x800,
    ensures
        spec_bus_read(spec_bus_write(b, addr, value), k).1 == value,
{
}

/// With a 16 KiB PRG image, the upper half of the cartridge window
/// mirrors the lower half byte for byte.
pub proof fn lemma_prg_mirroring(m: Mapper0View, k: u16)
    requires
        m.prg_rom.len() == 0x4000,
        k < 0x4000,
    ensures
        spec_mapper_cpu_read(m, (0x8000 + k) as u16) == spec_mapper_cpu_read(
            m,
            (0xC000 + k) as u16,
        ),
{
}

/// A pushed byte pulls back unchanged, and the stack pointer returns to
/// where it started.
pub proof fn lemma_stack_byte_roundtrip(b: BusView, value: u8)
    requires
        b.memory.len() == 0x800,
    ensures
        spec_stack_pull(spec_stack_push(b, value)).1 == value,
        spec_stack_pull(spec_stack_push(b, value)).0.cpu.s == b.cpu.s,
{
}

/// A pushed word pulls back unchanged, and the stack pointer returns to
/// where it started.
pub proof fn lemma_stack_word_roundtrip(b: BusView, value: u16)
    requires
        b.memory.len() == 0x800,
    ensures
        spec_stack_pull_word(spec_stack_push_word(b, value)).1 == value,
        spec_stack_pull_word(spec_stack_push_word(b, value)).0.cpu.s == b.cpu.s,
{
}

/// A subroutine return lands at the instruction immediately after its
/// call: jumping to a subroutine and returning advances the program
/// counter by exactly the three bytes of the call, with the stack pointer
/// restored.
pub proof fn lemma_jsr_rts(b: BusView)
    requires
        b.memory.len() == 0x800,
    ensures
        rts_result(jsr_result(b, AddressMode::Absolute).0).0.cpu.pc
            == vstd::wrapping::u16_specs::wrapping_add(b.cpu.pc, 3),
        rts_result(jsr_result(b, AddressMode::Absolute).0).0.cpu.s == b.cpu.s,
{
    reveal(jsr_result);
    reveal(rts_result);
    crate::bus::lemma_eval_ticks(b, AddressMode::Absolute);
}

/// The bits of every status value the machine pushes: software pushes
/// carry the break and unused bits set; the hardware-interrupt push
/// carries the unused bit set and the break bit clear.
pub proof fn lemma_pushed_status_bits(p: u8)
    by (bit_vector)
    ensures
        (p | (FLAG_BREAK | FLAG_UNUSED)) & FLAG_UNUSED != 0,
        (p | (FLAG_BREAK | FLAG_UNUSED)) & FLAG_BREAK != 0,
        ((p & !FLAG_BREAK) | FLAG_UNUSED) & FLAG_UNUSED != 0,
        ((p & !FLAG_BREAK) | FLAG_UNUSED) & FLAG_BREAK == 0,
{
}

/// The status byte a PHP deposits on the stack reads back with the
/// unused and break bits set, whatever the live status was.
pub proof fn lemma_php_pushed_bits(b: BusView, mode: AddressMode)
    requires
        b.memory.len() == 0x800,
    ensures
        spec_stack_pull(php_result(b, mode).0).1 & FLAG_UNUSED != 0,
        spec_stack_pull(php_result(b, mode).0).1 & FLAG_BREAK != 0,
{
    reveal(php_result);
    lemma_pushed_status_bits(b.cpu.p);
}

/// The status byte a BRK deposits on the stack (pushed after the return
/// address, so the first byte pulled) carries the unused and break bits
/// set.
pub proof fn lemma_brk_pushed_bits(b: BusView)
    requires
        b.memory.len() == 0x800,
    ensures
        spec_stack_pull(crate::instructions::brk_result(b).0).1 & FLAG_UNUSED != 0,
        spec_stack_pull(crate::instructions::brk_result(b).0).1 & FLAG_BREAK != 0,
{
    reveal(crate::instructions::brk_result);
    lemma_pushed_status_bits(b.cpu.p);
    let b1 = spec_stack_push_word(b, vstd::wrapping::u16_specs::wrapping_add(b.cpu.pc, 2));
    let b2 = spec_stack_push(b1, b.cpu.p | (FLAG_BREAK | FLAG_UNUSED));
    crate::bus::lemma_bus_read_ticks(b2, 0xFFFE);
    crate::bus::lemma_bus_read_ticks(spec_bus_read(b2, 0xFFFE).0, 0xFFFF);
}

/// What a pulled status byte becomes when it lands in the live register.
pub proof fn lemma_pulled_status_bits(v: u8, p: u8)
    by (bit_vector)
    ensures
        ((v & !FLAG_BREAK) | FLAG_UNUSED) & FLAG_UNUSED != 0,
        ((v & !FLAG_BREAK) | FLAG_UNUSED) & FLAG_BREAK == 0,
        (((v & 0xEB) | FLAG_UNUSED) | (p & 0x04)) & FLAG_UNUSED != 0,
        (((v & 0xEB) | FLAG_UNUSED) | (p & 0x04)) & FLAG_BREAK == 0,
{
}

/// A status pull, by RTI or by PLP, discards the pulled break bit and
/// forces the unused bit on before the value reaches the live register.
pub proof fn lemma_status_pull_discards_break(b: BusView, mode: AddressMode)
    ensures
        flag_set(rti_result(b).0.cpu.p, FLAG_UNUSED),
        !flag_set(rti_result(b).0.cpu.p, FLAG_BREAK),
        flag_set(plp_result(b, mode).0.cpu.p, FLAG_UNUSED),
        !flag_set(plp_result(b, mode).0.cpu.p, FLAG_BREAK),
{
    reveal(rti_result);
    reveal(plp_result);
    let pulled = spec_stack_pull(b).1;
    lemma_pulled_status_bits(pulled, spec_stack_pull(b).0.cpu.p);
}

/// The status byte the interrupt sequence deposits on the stack (it is
/// the last byte pushed, so the first one pulled) carries the unused bit
/// set and the break bit clear.
pub proof fn lemma_nmi_pushed_bits(b: BusView)
    requires
        b.memory.len() == 0x800,
    ensures
        spec_stack_pull(spec_nmi(b)).1 & FLAG_UNUSED != 0,
        spec_stack_pull(spec_nmi(b)).1 & FLAG_BREAK == 0,
{
    lemma_pushed_status_bits(b.cpu.p);
    let b1 = spec_stack_push_word(b, b.cpu.pc);
    let b2 = spec_stack_push(b1, (b1.cpu.p & !FLAG_BREAK) | FLAG_UNUSED);
    let b3 = BusView {
        cpu: crate::cpu::CPU {
            p: crate::cpu::with_flag(b2.cpu.p, crate::cpu::FLAG_INTERRUPT, true),
            ..b2.cpu
        },
        ..b2
    };
    crate::bus::lemma_bus_read_word_ticks(b3, 0xFFFA);
}

/// The machine states from which the increment-and-jump loop runs: the
/// program counter stands at an increment instruction that an absolute
/// jump back to it follows, no interrupt is pending or able to arise, no
/// deferred interrupt-disable change is queued, and the index register
/// carries the pass count modulo 256 with the zero flag tracking it.
pub open spec fn inx_loop_state(h: HardwareView, n: nat) -> bool {
    &&& h.bus.cpu.pc == 0x8002
    &&& h.bus.cpu.x as nat == n % 256
    &&& flag_set(h.bus.cpu.p, FLAG_ZERO) == (n % 256 == 0)
    &&& h.bus.cpu.delayed_interrupt is None
    &&& !h.bus.ppu.nmi_pending
    &&& h.bus.ppu.control & 0x80 == 0
    &&& spec_mapper_cpu_read(h.bus.cartridge.mapper, 0x8002) == Some(0xE8u8)
    &&& spec_mapper_cpu_read(h.bus.cartridge.mapper, 0x8003) == Some(0x4Cu8)
    &&& spec_mapper_cpu_read(h.bus.cartridge.mapper, 0x8004) == Some(0x02u8)
    &&& spec_mapper_cpu_read(h.bus.cartridge.mapper, 0x8005) == Some(0x80u8)
}

/// The increment half of a loop pass: the step succeeds and stops on the
/// jump with the index register stepped, the zero flag tracking it, and
/// the loop's standing conditions intact.
#[verifier::rlimit(100)]
#[verifier::spinoff_prover]
proof fn lemma_inx_loop_first_step(h: HardwareView, n: nat)
    requires
        inx_loop_state(h, n),
    ensures
        spec_step(h).1 is Ok,
        ({
            let m = spec_step(h).0;
            &&& m.bus.cpu.pc == 0x8003
            &&& m.bus.cpu.x as nat == (n + 1) % 256
            &&& flag_set(m.bus.cpu.p, FLAG_ZERO) == ((n + 1) % 256 == 0)
            &&& m.bus.cpu.delayed_interrupt is None
            &&& !m.bus.ppu.nmi_pending
            &&& m.bus.ppu.control & 0x80 == 0
            &&& m.bus.cartridge == h.bus.cartridge
        }),
{
    reveal(instr_result);
    reveal(step_reg_result);
    let b0 = h.bus;
    let bc = BusView { cpu: CPU { delayed_interrupt: None, ..b0.cpu }, ..b0 };
    assert(bc == b0);
    let r = vstd::wrapping::u8_specs::wrapping_add(b0.cpu.x, 1);
    vstd::arithmetic::div_mod::lemma_add_mod_noop(n as int, 1, 256);
    assert(r as nat == (n + 1) % 256);
    assert(FLAG_ZERO & FLAG_NEGATIVE == 0) by (bit_vector);
    lemma_with_flag(b0.cpu.p, FLAG_ZERO, r == 0);
    lemma_with_flag(
        crate::cpu::with_flag(b0.cpu.p, FLAG_ZERO, r == 0),
        FLAG_NEGATIVE,
        r & 0x80 != 0,
    );
    let e = instr_result(bc, Mnemonic::INX, AddressMode::Implicit);
    lemma_tick_n_quiet(e.0.ppu, e.0.cartridge, (3 * e.1) as nat);
}

/// The jump half of a loop pass: the step succeeds, sends the program
/// counter back to the increment instruction, and leaves the register
/// file, the cartridge and the loop's standing conditions intact.
#[verifier::rlimit(100)]
#[verifier::spinoff_prover]
proof fn lemma_inx_loop_second_step(h: HardwareView)
    requires
        h.bus.cpu.pc == 0x8003,
        h.bus.cpu.delayed_interrupt is None,
        !h.bus.ppu.nmi_pending,
        h.bus.ppu.control & 0x80 == 0,
        spec_mapper_cpu_read(h.bus.cartridge.mapper, 0x8003) == Some(0x4Cu8),
        spec_mapper_cpu_read(h.bus.cartridge.mapper, 0x8004) == Some(0x02u8),
        spec_mapper_cpu_read(h.bus.cartridge.mapper, 0x8005) == Some(0x80u8),
    ensures
        spec_step(h).1 is Ok,
        ({
            let m = spec_step(h).0;
            &&& m.bus.cpu == (CPU { pc: 0x8002, ..h.bus.cpu })
            &&& !m.bus.ppu.nmi_pending
            &&& m.bus.ppu.control & 0x80 == 0
            &&& m.bus.cartridge == h.bus.cartridge
        }),
{
    reveal(instr_result);
    reveal(jmp_result);
    let b0 = h.bus;
    let bc = BusView { cpu: CPU { delayed_interrupt: None, ..b0.cpu }, ..b0 };
    assert(bc == b0);
    let e = instr_result(bc, Mnemonic::JMP, AddressMode::Absolute);
    lemma_tick_n_quiet(e.0.ppu, e.0.cartridge, (3 * e.1) as nat);
}

/// One full pass of the loop body: both steps succeed and carry a loop
/// state for `n` passes to the loop state for `n + 1`.
proof fn lemma_inx_loop_iteration(h: HardwareView, n: nat)
    requires
        inx_loop_state(h, n),
    ensures
        spec_step(h).1 is Ok,
        spec_step(spec_step(h).0).1 is Ok,
        inx_loop_state(spec_step(spec_step(h).0).0, n + 1),
{
    lemma_inx_loop_first_step(h, n);
    lemma_inx_loop_second_step(spec_step(h).0);
}

/// Entering the loop: from the program's leading immediate load of zero
/// the first step succeeds and establishes the loop state for zero
/// passes at the increment instruction.
#[verifier::rlimit(100)]
#[verifier::spinoff_prover]
pub proof fn lemma_inx_loop_entry(h: HardwareView)
    requires
        h.bus.cpu.pc == 0x8000,
        h.bus.cpu.delayed_interrupt is None,
        !h.bus.ppu.nmi_pending,
        h.bus.ppu.control & 0x80 == 0,
        spec_mapper_cpu_read(h.bus.cartridge.mapper, 0x8000) == Some(0xA2u8),
        spec_mapper_cpu_read(h.bus.cartridge.mapper, 0x8001) == Some(0x00u8),
        spec_mapper_cpu_read(h.bus.cartridge.mapper, 0x8002) == Some(0xE8u8),
        spec_mapper_cpu_read(h.bus.cartridge.mapper, 0x8003) == Some(0x4Cu8),
        spec_mapper_cpu_read(h.bus.cartridge.mapper, 0x8004) == Some(0x02u8),
        spec_mapper_cpu_read(h.bus.cartridge.mapper, 0x8005) == Some(0x80u8),
    ensures
        spec_step(h).1 is Ok,
        inx_loop_state(spec_step(h).0, 0),
{
    reveal(instr_result);
    reveal(load_result);
    let b0 = h.bus;
    let bc = BusView { cpu: CPU { delayed_interrupt: None, ..b0.cpu }, ..b0 };
    assert(bc == b0);
    assert(FLAG_ZERO & FLAG_NEGATIVE == 0) by (bit_vector);
    lemma_with_flag(b0.cpu.p, FLAG_ZERO, 0u8 == 0);
    lemma_with_flag(
        crate::cpu::with_flag(b0.cpu.p, FLAG_ZERO, 0u8 == 0),
        FLAG_NEGATIVE,
        0u8 & 0x80 != 0,
    );
    let e = instr_result(bc, Mnemonic::LDX, AddressMode::Immediate);
    lemma_tick_n_quiet(e.0.ppu, e.0.cartridge, (3 * e.1) as nat);
}

/// The loop law: from any state in which the increment-and-jump loop
/// stands entered, after `n` passes of its two instructions the index
/// register holds `n` modulo 256, the zero flag is set exactly when that
/// residue is zero, the program counter stands back at the increment
/// instruction, and no step of the run has faulted.
pub proof fn lemma_inx_jmp_loop(h: HardwareView, n: nat)
    requires
        inx_loop_state(h, 0),
    ensures
        inx_loop_state(spec_step_n(h, 2 * n), n),
        spec_step_n(h, 2 * n).bus.cpu.x as nat == n % 256,
        flag_set(spec_step_n(h, 2 * n).bus.cpu.p, FLAG_ZERO) == (n % 256 == 0),
        spec_step_n(h, 2 * n).bus.cpu.pc == 0x8002,
        forall|k: nat| k < 2 * n ==> (#[trigger] spec_step(spec_step_n(h, k)).1) is Ok,
    decreases n,
{
    if n == 0 {
        assert(spec_step_n(h, 0) == h);
    } else {
        let p = (n - 1) as nat;
        lemma_inx_jmp_loop(h, p);
        let s = spec_step_n(h, 2 * p);
        lemma_inx_loop_iteration(s, p);
        assert(spec_step_n(h, (2 * p + 1) as nat) == spec_step(s).0);
        assert(spec_step_n(h, 2 * n) == spec_step(spec_step_n(h, (2 * p + 1) as nat)).0);
        assert forall|k: nat| k < 2 * n implies (#[trigger] spec_step(
            spec_step_n(h, k),
        ).1) is Ok by {
            if k == 2 * p {
                assert(spec_step_n(h, k) == s);
            } else if k == 2 * p + 1 {
                assert(spec_step_n(h, k) == spec_step(s).0);
            }
        }
    }
}

} // verus!
