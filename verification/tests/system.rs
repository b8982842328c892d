//! Whole-machine scenarios: reset, small programs, bus mirroring, the
//! CPU/PPU clock ratio and the inspection views.

use nes_core::cpu::{Flags, Registers};
use nes_core::hardware::Hardware;

fn rom_with_program(program: &[u8]) -> Vec<u8> {
    let mut rom: Vec<u8> = Vec::new();
    rom.extend_from_slice(&[0x4E, 0x45, 0x53, 0x1A, 1, 0, 0, 0, 0, 0, 0, 0, 0, 0, 0, 0]);
    let mut prg = vec![0u8; 0x4000];
    prg[..program.len()].copy_from_slice(program);
    prg[0x3FFC] = 0x00;
    prg[0x3FFD] = 0x80;
    rom.extend_from_slice(&prg);
    rom
}

fn machine_with_program(program: &[u8]) -> Hardware {
    let mut hw = Hardware::new();
    hw.load_rom(&rom_with_program(program)).expect("load");
    hw
}

#[test]
fn reset_vector_and_first_nop() {
    // A PRG-only image whose reset vector names 0x8000 and whose first
    // byte is NOP: the counter lands there and one step costs two cycles.
    let mut hw = machine_with_program(&[0xEA]);
    assert_eq!(hw.get_pc(), 0x8000);
    assert_eq!(hw.step().unwrap(), 2);
    assert_eq!(hw.get_pc(), 0x8001);
}

#[test]
fn load_store_load_roundtrip() {
    // LDA #$05; STA $10; LDA $10
    let mut hw = machine_with_program(&[0xA9, 0x05, 0x85, 0x10, 0xA5, 0x10]);
    hw.step().unwrap();
    hw.step().unwrap();
    let total = hw.step().unwrap();
    assert_eq!(hw.get_cpu_reg(Registers::A), 0x05);
    assert_eq!(hw.bus.memory.read(0x0010), 0x05);
    assert_eq!(hw.get_flag(Flags::Zero), 0);
    assert_eq!(hw.get_flag(Flags::Negative), 0);
    assert_eq!(total, 2 + 3 + 3);
}

#[test]
fn inx_jmp_loop_counts_modulo_256() {
    // LDX #$00 then an INX / JMP $8002 loop
    let mut hw = machine_with_program(&[0xA2, 0x00, 0xE8, 0x4C, 0x02, 0x80]);
    hw.step().unwrap();
    for _ in 0..5 {
        hw.step().unwrap();
        hw.step().unwrap();
    }
    assert_eq!(hw.get_cpu_reg(Registers::X), 5);
    for _ in 5..256 {
        hw.step().unwrap();
        hw.step().unwrap();
    }
    assert_eq!(hw.get_cpu_reg(Registers::X), 0);
    assert_eq!(hw.get_flag(Flags::Zero), 1);
    for _ in 0..3 {
        hw.step().unwrap();
        hw.step().unwrap();
    }
    assert_eq!(hw.get_cpu_reg(Registers::X), 3);
}

#[test]
fn ppu_sees_three_dots_per_cpu_cycle() {
    let mut hw = machine_with_program(&[0xA9, 0x05, 0x85, 0x10, 0xA5, 0x10, 0xEA]);
    for _ in 0..4 {
        hw.step().unwrap();
    }
    assert_eq!(hw.bus.ppu.ticks, 3 * hw.total_cycles);
    assert_eq!(hw.total_cycles, 2 + 3 + 3 + 2);
}

#[test]
fn ram_reads_the_same_through_all_four_mirrors() {
    let mut hw = Hardware::new();
    for k in [0u16, 1, 0x123, 0x7FF] {
        hw.bus.write(k, 0xAB);
        assert_eq!(hw.bus.read(k), 0xAB);
        assert_eq!(hw.bus.read(0x0800 + k), 0xAB);
        assert_eq!(hw.bus.read(0x1000 + k), 0xAB);
        assert_eq!(hw.bus.read(0x1800 + k), 0xAB);
    }
}

#[test]
fn ram_write_reads_back_through_a_mirror() {
    let mut hw = Hardware::new();
    hw.bus.write(0x1955, 0x42);
    assert_eq!(hw.bus.read(0x0155), 0x42);
}

#[test]
fn sixteen_kib_prg_mirrors_into_the_upper_window() {
    let mut hw = machine_with_program(&[0x11, 0x22, 0x33]);
    for k in [0u16, 1, 2, 0x3FFC] {
        assert_eq!(hw.bus.read(0x8000 + k), hw.bus.read(0xC000 + k));
    }
}

#[test]
fn stack_byte_and_word_roundtrip() {
    let mut hw = Hardware::new();
    let s0 = hw.bus.cpu.s;
    hw.bus.stack_push(0x5A);
    assert_eq!(hw.bus.stack_pull(), 0x5A);
    assert_eq!(hw.bus.cpu.s, s0);
    hw.bus.stack_push_word(0xBEEF);
    assert_eq!(hw.bus.stack_pull_word(), 0xBEEF);
    assert_eq!(hw.bus.cpu.s, s0);
}

#[test]
fn nmi_is_taken_between_instructions() {
    // The vector at 0xFFFA names 0x9000; a pending interrupt runs the
    // seven-cycle sequence with B clear and U set in the pushed status.
    let mut rom = Vec::new();
    rom.extend_from_slice(&[0x4E, 0x45, 0x53, 0x1A, 1, 0, 0, 0, 0, 0, 0, 0, 0, 0, 0, 0]);
    let mut prg = vec![0u8; 0x4000];
    prg[0] = 0xEA;
    prg[0x3FFA] = 0x00;
    prg[0x3FFB] = 0x90;
    prg[0x3FFC] = 0x00;
    prg[0x3FFD] = 0x80;
    rom.extend_from_slice(&prg);
    let mut hw = Hardware::new();
    hw.load_rom(&rom).expect("load");
    hw.bus.ppu.set_nmi_pending(true);
    assert_eq!(hw.step().unwrap(), 7);
    assert_eq!(hw.get_pc(), 0x9000);
    assert_eq!(hw.get_flag(Flags::InterruptDisable), 1);
    let pushed_status = hw.bus.stack_pull();
    assert_eq!(pushed_status & 0x20, 0x20);
    assert_eq!(pushed_status & 0x10, 0x00);
    assert_eq!(hw.bus.stack_pull_word(), 0x8000);
}

#[test]
fn memory_dump_formats_hex_lines() {
    let hw = machine_with_program(&[0xA9, 0x05, 0x85, 0x10]);
    assert_eq!(hw.get_memory_dump(0x8000, 4), "8000: A9 05 85 10 ");
    let two_lines = hw.get_memory_dump(0x8000, 33);
    assert!(two_lines.starts_with("8000: "));
    assert!(two_lines.contains("\n8020: "));
}

#[test]
fn assembly_listing_renders_the_program() {
    let hw = machine_with_program(&[0xA9, 0x05, 0x85, 0x10, 0xA5, 0x10, 0xEA, 0x4C, 0x00, 0x80]);
    let (lines, current) = hw.get_assembly(5);
    assert_eq!(current, 0);
    assert_eq!(lines.len(), 5);
    assert_eq!(lines[0], "LDA $05");
    assert_eq!(lines[1], "STA $10");
    assert_eq!(lines[2], "LDA $10");
    assert_eq!(lines[3], "NOP");
    assert_eq!(lines[4], "JMP $8000");
}

#[test]
fn frame_counter_rolls_back_after_one_frame() {
    // An INX / JMP loop runs a whole frame under tick()
    let mut hw = machine_with_program(&[0xA2, 0x00, 0xE8, 0x4C, 0x02, 0x80]);
    hw.tick().unwrap();
    assert_eq!(hw.get_cycle(), 0);
    assert!(hw.total_cycles >= 29780);
    assert_eq!(hw.bus.ppu.ticks, 3 * hw.total_cycles);
}
