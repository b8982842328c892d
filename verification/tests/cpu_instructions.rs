//! Instruction-level behaviour: arithmetic edges, flags, stack round
//! trips, branches and the decode table.

use nes_core::cpu::{Flags, Registers};
use nes_core::errors::EmuError;
use nes_core::hardware::Hardware;

/// A 16 KiB NROM image whose PRG starts with `program` and whose reset
/// vector points at 0x8000.
fn rom_with_program(program: &[u8]) -> Vec<u8> {
    let mut rom: Vec<u8> = Vec::new();
    rom.extend_from_slice(&[0x4E, 0x45, 0x53, 0x1A, 1, 0, 0, 0, 0, 0, 0, 0, 0, 0, 0, 0]);
    let mut prg = vec![0u8; 0x4000];
    prg[..program.len()].copy_from_slice(program);
    prg[0x3FFC] = 0x00;
    prg[0x3FFD] = 0x80;
    rom.extend_from_slice(&prg);
    rom
}

fn machine_with_program(program: &[u8]) -> Hardware {
    let mut hw = Hardware::new();
    hw.load_rom(&rom_with_program(program)).expect("load");
    hw
}

#[test]
fn adc_overflow_sets_v_and_n() {
    // LDA #$7F; ADC #$01 with carry clear
    let mut hw = machine_with_program(&[0xA9, 0x7F, 0x69, 0x01]);
    hw.step().unwrap();
    hw.step().unwrap();
    assert_eq!(hw.get_cpu_reg(Registers::A), 0x80);
    assert_eq!(hw.get_flag(Flags::Overflow), 1);
    assert_eq!(hw.get_flag(Flags::Negative), 1);
}

#[test]
fn adc_carry_wraps_to_zero() {
    // LDA #$FF; ADC #$01 with carry clear
    let mut hw = machine_with_program(&[0xA9, 0xFF, 0x69, 0x01]);
    hw.step().unwrap();
    hw.step().unwrap();
    assert_eq!(hw.get_cpu_reg(Registers::A), 0x00);
    assert_eq!(hw.get_flag(Flags::Carry), 1);
    assert_eq!(hw.get_flag(Flags::Zero), 1);
    assert_eq!(hw.get_flag(Flags::Overflow), 0);
}

#[test]
fn sbc_borrow() {
    // SEC; LDA #$05; SBC #$03 -> 2, carry stays set (no borrow)
    let mut hw = machine_with_program(&[0x38, 0xA9, 0x05, 0xE9, 0x03]);
    for _ in 0..3 {
        hw.step().unwrap();
    }
    assert_eq!(hw.get_cpu_reg(Registers::A), 0x02);
    assert_eq!(hw.get_flag(Flags::Carry), 1);
}

#[test]
fn inx_wraps_and_sets_zero() {
    // LDX #$FF; INX
    let mut hw = machine_with_program(&[0xA2, 0xFF, 0xE8]);
    hw.step().unwrap();
    hw.step().unwrap();
    assert_eq!(hw.get_cpu_reg(Registers::X), 0x00);
    assert_eq!(hw.get_flag(Flags::Zero), 1);
    assert_eq!(hw.get_flag(Flags::Negative), 0);
}

#[test]
fn asl_shifts_top_bit_into_carry() {
    // LDA #$80; ASL A
    let mut hw = machine_with_program(&[0xA9, 0x80, 0x0A]);
    hw.step().unwrap();
    hw.step().unwrap();
    assert_eq!(hw.get_cpu_reg(Registers::A), 0x00);
    assert_eq!(hw.get_flag(Flags::Carry), 1);
    assert_eq!(hw.get_flag(Flags::Zero), 1);
}

#[test]
fn lsr_always_clears_negative() {
    // LDA #$FF; LSR A
    let mut hw = machine_with_program(&[0xA9, 0xFF, 0x4A]);
    hw.step().unwrap();
    hw.step().unwrap();
    assert_eq!(hw.get_cpu_reg(Registers::A), 0x7F);
    assert_eq!(hw.get_flag(Flags::Negative), 0);
    // LDA #$01; LSR A
    let mut hw2 = machine_with_program(&[0xA9, 0x01, 0x4A]);
    hw2.step().unwrap();
    hw2.step().unwrap();
    assert_eq!(hw2.get_cpu_reg(Registers::A), 0x00);
    assert_eq!(hw2.get_flag(Flags::Negative), 0);
    assert_eq!(hw2.get_flag(Flags::Carry), 1);
}

#[test]
fn compare_sets_carry_zero_negative() {
    // LDA #$10; CMP #$10 then CMP #$20
    let mut hw = machine_with_program(&[0xA9, 0x10, 0xC9, 0x10, 0xC9, 0x20]);
    hw.step().unwrap();
    hw.step().unwrap();
    assert_eq!(hw.get_flag(Flags::Carry), 1);
    assert_eq!(hw.get_flag(Flags::Zero), 1);
    hw.step().unwrap();
    assert_eq!(hw.get_flag(Flags::Carry), 0);
    assert_eq!(hw.get_flag(Flags::Zero), 0);
    assert_eq!(hw.get_flag(Flags::Negative), 1);
}

#[test]
fn taken_branch_costs_one_extra_cycle() {
    // LDA #$00 (2 cycles); BEQ +0x10 inside the same page (3 cycles)
    let mut hw = machine_with_program(&[0xA9, 0x00, 0xF0, 0x10]);
    assert_eq!(hw.step().unwrap(), 2);
    assert_eq!(hw.step().unwrap(), 5);
    assert_eq!(hw.get_pc(), 0x8014);
}

#[test]
fn taken_branch_across_page_costs_two_extra_cycles() {
    // LDA #$00; JMP $80FB; at 0x80FB a BEQ +0x10 whose target sits on
    // the next page: base 2, +1 taken, +1 page crossed.
    let mut program = vec![0xA9, 0x00, 0x4C, 0xFB, 0x80];
    program.resize(0xFB, 0xEA);
    program.extend_from_slice(&[0xF0, 0x10]);
    let mut hw = machine_with_program(&program);
    assert_eq!(hw.step().unwrap(), 2);
    assert_eq!(hw.step().unwrap(), 5);
    assert_eq!(hw.get_pc(), 0x80FB);
    assert_eq!(hw.step().unwrap(), 9);
    assert_eq!(hw.get_pc(), 0x810D);
}

#[test]
fn branch_not_taken_costs_base_cycles() {
    // LDA #$01 clears Z; BEQ is not taken and falls through
    let mut hw = machine_with_program(&[0xA9, 0x01, 0xF0, 0x10]);
    assert_eq!(hw.step().unwrap(), 2);
    assert_eq!(hw.step().unwrap(), 4);
    assert_eq!(hw.get_pc(), 0x8004);
}

#[test]
fn jsr_rts_returns_after_the_call() {
    // JSR $8010; at 0x8010 RTS
    let mut program = vec![0x20, 0x10, 0x80];
    program.resize(0x10, 0xEA);
    program.push(0x60);
    let mut hw = machine_with_program(&program);
    let s0 = hw.get_cpu_reg(Registers::S);
    hw.step().unwrap();
    assert_eq!(hw.get_pc(), 0x8010);
    hw.step().unwrap();
    assert_eq!(hw.get_pc(), 0x8003);
    assert_eq!(hw.get_cpu_reg(Registers::S), s0);
}

#[test]
fn indirect_jmp_wraps_inside_the_page() {
    // The pointer 0x03FF reads its high byte from 0x0300, not 0x0400.
    let mut hw = machine_with_program(&[0x6C, 0xFF, 0x03]);
    hw.bus.write(0x03FF, 0x34);
    hw.bus.write(0x0300, 0x12);
    hw.bus.write(0x0400, 0x99);
    hw.step().unwrap();
    assert_eq!(hw.get_pc(), 0x1234);
}

#[test]
fn php_pushes_break_and_unused_bits() {
    // PHP: the pushed copy carries B and U whatever the live status held
    let mut hw = machine_with_program(&[0x08]);
    hw.step().unwrap();
    let pushed = hw.bus.stack_pull();
    assert_eq!(pushed & 0x30, 0x30);
}

#[test]
fn plp_defers_the_interrupt_disable_change() {
    // LDA #$00 (I clear in the pushed byte); PHA; PLP; SEC
    let mut hw = machine_with_program(&[0xA9, 0x00, 0x48, 0x28, 0x38]);
    hw.step().unwrap();
    hw.step().unwrap();
    // I is set at power-on
    assert_eq!(hw.get_flag(Flags::InterruptDisable), 1);
    hw.step().unwrap();
    // PLP keeps the live I bit and queues the pulled one
    assert_eq!(hw.get_flag(Flags::InterruptDisable), 1);
    hw.step().unwrap();
    // the queued clear lands after the following instruction
    assert_eq!(hw.get_flag(Flags::InterruptDisable), 0);
}

#[test]
fn undocumented_opcode_reports_pc_and_byte() {
    let mut hw = machine_with_program(&[0x02]);
    assert_eq!(hw.step(), Err(EmuError::InvalidOpcode(0x8000, 0x02)));
}

#[test]
fn rotates_move_the_carry_through() {
    // SEC; LDA #$80; ROL A -> A = 0x01, carry takes old bit 7
    let mut hw = machine_with_program(&[0x38, 0xA9, 0x80, 0x2A]);
    for _ in 0..3 {
        hw.step().unwrap();
    }
    assert_eq!(hw.get_cpu_reg(Registers::A), 0x01);
    assert_eq!(hw.get_flag(Flags::Carry), 1);
    // SEC; LDA #$01; ROR A -> A = 0x80, carry takes old bit 0
    let mut hw2 = machine_with_program(&[0x38, 0xA9, 0x01, 0x6A]);
    for _ in 0..3 {
        hw2.step().unwrap();
    }
    assert_eq!(hw2.get_cpu_reg(Registers::A), 0x80);
    assert_eq!(hw2.get_flag(Flags::Carry), 1);
    assert_eq!(hw2.get_flag(Flags::Negative), 1);
}

#[test]
fn bit_copies_operand_bits_into_v_and_n() {
    // LDA #$C0; STA $20; LDA #$00; BIT $20
    let mut hw = machine_with_program(&[0xA9, 0xC0, 0x85, 0x20, 0xA9, 0x00, 0x24, 0x20]);
    for _ in 0..4 {
        hw.step().unwrap();
    }
    assert_eq!(hw.get_flag(Flags::Zero), 1);
    assert_eq!(hw.get_flag(Flags::Overflow), 1);
    assert_eq!(hw.get_flag(Flags::Negative), 1);
}

#[test]
fn zero_page_indexing_wraps_inside_the_page() {
    // LDX #$02; LDA $FF,X reads from 0x0001, not 0x0101
    let mut hw = machine_with_program(&[0xA2, 0x02, 0xB5, 0xFF]);
    hw.bus.write(0x0001, 0x5C);
    hw.bus.write(0x0101, 0x99);
    hw.step().unwrap();
    hw.step().unwrap();
    assert_eq!(hw.get_cpu_reg(Registers::A), 0x5C);
}

#[test]
fn absolute_indexed_page_cross_costs_one_extra_cycle() {
    // LDY #$01; LDA $80FF,Y crosses into page 0x81: 4 + 1 cycles
    let mut hw = machine_with_program(&[0xA0, 0x01, 0xB9, 0xFF, 0x80]);
    assert_eq!(hw.step().unwrap(), 2);
    assert_eq!(hw.step().unwrap(), 7);
    // LDY #$01; LDA $8000,Y stays on the page: 4 cycles
    let mut hw2 = machine_with_program(&[0xA0, 0x01, 0xB9, 0x00, 0x80]);
    assert_eq!(hw2.step().unwrap(), 2);
    assert_eq!(hw2.step().unwrap(), 6);
}

#[test]
fn store_pays_a_fixed_cost_even_across_pages() {
    // LDY #$01; STA $10FF,Y: absolute-indexed stores cost five cycles
    let mut hw = machine_with_program(&[0xA0, 0x01, 0x99, 0xFF, 0x10]);
    assert_eq!(hw.step().unwrap(), 2);
    assert_eq!(hw.step().unwrap(), 7);
}

#[test]
fn indirect_indexed_load() {
    // LDY #$03; LDA ($40),Y with pointer 0x0040 -> 0x0200
    let mut hw = machine_with_program(&[0xA0, 0x03, 0xB1, 0x40]);
    hw.bus.write(0x0040, 0x00);
    hw.bus.write(0x0041, 0x02);
    hw.bus.write(0x0203, 0x7E);
    hw.step().unwrap();
    hw.step().unwrap();
    assert_eq!(hw.get_cpu_reg(Registers::A), 0x7E);
}

#[test]
fn indexed_indirect_load_wraps_the_pointer() {
    // LDX #$04; LDA ($FE,X): the pointer 0x02 reads its bytes from
    // 0x0002/0x0003
    let mut hw = machine_with_program(&[0xA2, 0x04, 0xA1, 0xFE]);
    hw.bus.write(0x0002, 0x34);
    hw.bus.write(0x0003, 0x02);
    hw.bus.write(0x0234, 0x61);
    hw.step().unwrap();
    hw.step().unwrap();
    assert_eq!(hw.get_cpu_reg(Registers::A), 0x61);
}

#[test]
fn transfers_and_register_steps() {
    // LDA #$7F; TAX; INX; TXA; TAY; DEY
    let mut hw = machine_with_program(&[0xA9, 0x7F, 0xAA, 0xE8, 0x8A, 0xA8, 0x88]);
    for _ in 0..7 {
        hw.step().unwrap();
    }
    assert_eq!(hw.get_cpu_reg(Registers::X), 0x80);
    assert_eq!(hw.get_cpu_reg(Registers::A), 0x80);
    assert_eq!(hw.get_cpu_reg(Registers::Y), 0x7F);
}

#[test]
fn brk_pushes_and_vectors() {
    // The vector at 0xFFFE names 0x9000; BRK pushes PC+2 and the status
    // with the break and unused bits set, and raises interrupt disable.
    let mut rom: Vec<u8> = Vec::new();
    rom.extend_from_slice(&[0x4E, 0x45, 0x53, 0x1A, 1, 0, 0, 0, 0, 0, 0, 0, 0, 0, 0, 0]);
    let mut prg = vec![0u8; 0x4000];
    prg[0] = 0x00;
    prg[0x3FFC] = 0x00;
    prg[0x3FFD] = 0x80;
    prg[0x3FFE] = 0x00;
    prg[0x3FFF] = 0x90;
    rom.extend_from_slice(&prg);
    let mut hw = Hardware::new();
    hw.load_rom(&rom).expect("load");
    assert_eq!(hw.step().unwrap(), 7);
    assert_eq!(hw.get_pc(), 0x9000);
    assert_eq!(hw.get_flag(Flags::InterruptDisable), 1);
    let pushed_status = hw.bus.stack_pull();
    assert_eq!(pushed_status & 0x30, 0x30);
    assert_eq!(hw.bus.stack_pull_word(), 0x8002);
}

#[test]
fn rti_restores_status_and_counter() {
    // Prepare a stack as an interrupt would leave it, then RTI
    let mut hw = machine_with_program(&[0x40]);
    hw.bus.stack_push_word(0x8123);
    hw.bus.stack_push(0xFF);
    hw.step().unwrap();
    assert_eq!(hw.get_pc(), 0x8123);
    // the pulled break bit is discarded, the unused bit forced on
    assert_eq!(hw.get_cpu_reg(Registers::P), 0xEF);
    assert_eq!(hw.get_flag(Flags::BreakCommand), 0);
}

#[test]
fn decode_table_covers_the_documented_opcodes() {
    let documented = (0u16..256).filter(|op| {
        nes_core::opcode::get_instruction(*op as u8).is_some()
    }).count();
    assert_eq!(documented, 151);
    assert!(nes_core::opcode::get_instruction(0xEA).is_some());
    assert!(nes_core::opcode::get_instruction(0x02).is_none());
}
