//! The accumulator ALU block, BCD correction, the stack instructions, and
//! the remaining control flow, driven through `Cpu::step`.
use gbemu::bus::Bus;
use gbemu::cartridge::Cartridge;
use gbemu::cpu::{Cpu, TargetRegister};
use gbemu::gpu::Gpu;
use gbemu::ram::Ram;

fn make_cpu(rom: Vec<u8>) -> Cpu {
    let bus = Bus::new(
        Cartridge::new(rom),
        Ram::with_size(0x2000),
        Ram::with_size(0x80),
        Ram::with_size(0xA0),
        Ram::with_size(0x2000),
        Gpu::new(),
    );
    Cpu::new(bus)
}

fn rom_with(program: &[u8]) -> Vec<u8> {
    let mut rom = vec![0u8; 0x8000];
    rom[0x100..0x100 + program.len()].copy_from_slice(program);
    rom
}

fn run(cpu: &mut Cpu, steps: usize) {
    for _ in 0..steps {
        cpu.step().unwrap();
    }
}

#[test]
fn adc_adds_the_carry_in() {
    // SCF; ADC A,0x00 with A=0x0F: 0x0F + 0 + 1 = 0x10, half-carry.
    let mut cpu = make_cpu(rom_with(&[0x37, 0xCE, 0x00]));
    cpu.set_register(TargetRegister::A, 0x0F);
    run(&mut cpu, 2);
    assert_eq!(cpu.register(TargetRegister::A), 0x10);
    assert!(cpu.flags().get_h());
    assert!(!cpu.flags().get_c());
    assert!(!cpu.flags().get_z());
}

#[test]
fn sub_of_itself_sets_zero_and_subtract() {
    let mut cpu = make_cpu(rom_with(&[0x90])); // SUB A,B
    cpu.set_register(TargetRegister::A, 0x3E);
    cpu.set_register(TargetRegister::B, 0x3E);
    run(&mut cpu, 1);
    assert_eq!(cpu.register(TargetRegister::A), 0x00);
    assert!(cpu.flags().get_z());
    assert!(cpu.flags().get_n());
    assert!(!cpu.flags().get_h());
    assert!(!cpu.flags().get_c());
}

#[test]
fn sbc_borrows_through_the_carry() {
    // SCF; SBC A,B with A=0x00, B=0x00: 0 - 0 - 1 = 0xFF, both borrows.
    let mut cpu = make_cpu(rom_with(&[0x37, 0x98]));
    cpu.set_register(TargetRegister::A, 0x00);
    cpu.set_register(TargetRegister::B, 0x00);
    run(&mut cpu, 2);
    assert_eq!(cpu.register(TargetRegister::A), 0xFF);
    assert!(cpu.flags().get_n());
    assert!(cpu.flags().get_h());
    assert!(cpu.flags().get_c());
}

#[test]
fn and_sets_half_carry_always() {
    let mut cpu = make_cpu(rom_with(&[0xE6, 0x38])); // AND A,0x38
    cpu.set_register(TargetRegister::A, 0x5A);
    run(&mut cpu, 1);
    assert_eq!(cpu.register(TargetRegister::A), 0x18);
    assert!(cpu.flags().get_h());
    assert!(!cpu.flags().get_n());
    assert!(!cpu.flags().get_c());
    assert!(!cpu.flags().get_z());
}

#[test]
fn or_of_zeros_sets_zero_only() {
    let mut cpu = make_cpu(rom_with(&[0xB0])); // OR A,B
    cpu.set_register(TargetRegister::A, 0x00);
    cpu.set_register(TargetRegister::B, 0x00);
    run(&mut cpu, 1);
    assert_eq!(cpu.register(TargetRegister::A), 0x00);
    assert!(cpu.flags().get_z());
    assert!(!cpu.flags().get_h());
}

#[test]
fn cp_register_compares_without_writing() {
    let mut cpu = make_cpu(rom_with(&[0xB8])); // CP A,B
    cpu.set_register(TargetRegister::A, 0x42);
    cpu.set_register(TargetRegister::B, 0x42);
    run(&mut cpu, 1);
    assert_eq!(cpu.register(TargetRegister::A), 0x42);
    assert!(cpu.flags().get_z());
    assert!(cpu.flags().get_n());
}

#[test]
fn daa_corrects_bcd_addition() {
    // LD A,0x45; ADD A,0x38; DAA: 0x45 + 0x38 = 0x7D, corrected to 0x83.
    let mut cpu = make_cpu(rom_with(&[0x3E, 0x45, 0xC6, 0x38, 0x27]));
    run(&mut cpu, 3);
    assert_eq!(cpu.register(TargetRegister::A), 0x83);
    assert!(!cpu.flags().get_c());
    assert!(!cpu.flags().get_h());
}

#[test]
fn daa_corrects_bcd_subtraction() {
    // LD A,0x42; SUB A,B with B=0x09: 0x39; DAA corrects to 0x33.
    let mut cpu = make_cpu(rom_with(&[0x3E, 0x42, 0x90, 0x27]));
    cpu.set_register(TargetRegister::B, 0x09);
    run(&mut cpu, 3);
    assert_eq!(cpu.register(TargetRegister::A), 0x33);
    assert!(cpu.flags().get_n());
}

#[test]
fn cpl_complements_the_accumulator() {
    let mut cpu = make_cpu(rom_with(&[0x2F]));
    cpu.set_register(TargetRegister::A, 0x35);
    run(&mut cpu, 1);
    assert_eq!(cpu.register(TargetRegister::A), 0xCA);
    assert!(cpu.flags().get_n());
    assert!(cpu.flags().get_h());
}

#[test]
fn scf_and_ccf_drive_the_carry() {
    let mut cpu = make_cpu(rom_with(&[0x37, 0x3F]));
    run(&mut cpu, 1);
    assert!(cpu.flags().get_c());
    run(&mut cpu, 1);
    assert!(!cpu.flags().get_c());
}

#[test]
fn rla_rotates_through_carry() {
    // SCF; RLA with A=0x80: carry out 1, carry in 1 -> A=0x01.
    let mut cpu = make_cpu(rom_with(&[0x37, 0x17]));
    cpu.set_register(TargetRegister::A, 0x80);
    run(&mut cpu, 2);
    assert_eq!(cpu.register(TargetRegister::A), 0x01);
    assert!(cpu.flags().get_c());
}

#[test]
fn rra_rotates_through_carry() {
    // SCF; RRA with A=0x01: carry out 1, carry in 1 -> A=0x80.
    let mut cpu = make_cpu(rom_with(&[0x37, 0x1F]));
    cpu.set_register(TargetRegister::A, 0x01);
    run(&mut cpu, 2);
    assert_eq!(cpu.register(TargetRegister::A), 0x80);
    assert!(cpu.flags().get_c());
}

#[test]
fn push_pop_are_lifo() {
    // LD BC,0x1122; LD DE,0x3344; PUSH BC; PUSH DE; POP BC; POP DE.
    let mut cpu = make_cpu(rom_with(&[
        0x01, 0x22, 0x11, 0x11, 0x44, 0x33, 0xC5, 0xD5, 0xC1, 0xD1,
    ]));
    run(&mut cpu, 6);
    assert_eq!(cpu.register(TargetRegister::B), 0x33);
    assert_eq!(cpu.register(TargetRegister::C), 0x44);
    assert_eq!(cpu.register(TargetRegister::D), 0x11);
    assert_eq!(cpu.register(TargetRegister::E), 0x22);
    assert_eq!(cpu.sp(), 0xFFFE);
}

#[test]
fn pop_af_masks_the_flag_nibble() {
    // LD BC,0x12FF; PUSH BC; POP AF; PUSH AF; POP DE.
    let mut cpu = make_cpu(rom_with(&[0x01, 0xFF, 0x12, 0xC5, 0xF1, 0xF5, 0xD1]));
    run(&mut cpu, 5);
    assert_eq!(cpu.register(TargetRegister::A), 0x12);
    assert_eq!(cpu.register(TargetRegister::D), 0x12);
    assert_eq!(cpu.register(TargetRegister::E), 0xF0);
}

#[test]
fn rst_jumps_to_its_vector() {
    let mut cpu = make_cpu(rom_with(&[0xEF])); // RST 0x28
    run(&mut cpu, 1);
    assert_eq!(cpu.pc(), 0x28);
    assert_eq!(cpu.sp(), 0xFFFC);
    // Return address 0x0101 on the stack, high byte first.
    assert_eq!(cpu.bus_read_byte(0xFFFD), 0x01);
    assert_eq!(cpu.bus_read_byte(0xFFFC), 0x01);
}

#[test]
fn conditional_jp_taken_and_not() {
    // JP NZ,0x2000 with Z set (reset flags): not taken.
    let mut cpu = make_cpu(rom_with(&[0xC2, 0x00, 0x20]));
    run(&mut cpu, 1);
    assert_eq!(cpu.pc(), 0x103);
    // JP NC,0x2000 with C set at reset... C is set; use JP C instead.
    let mut cpu2 = make_cpu(rom_with(&[0xDA, 0x00, 0x20]));
    assert!(cpu2.flags().get_c());
    run(&mut cpu2, 1);
    assert_eq!(cpu2.pc(), 0x2000);
}

#[test]
fn jp_hl_and_ld_sp_hl() {
    // LD HL,0x1234; JP (HL).
    let mut cpu = make_cpu(rom_with(&[0x21, 0x34, 0x12, 0xE9]));
    run(&mut cpu, 2);
    assert_eq!(cpu.pc(), 0x1234);
    // LD HL,0xD000; LD SP,HL.
    let mut cpu2 = make_cpu(rom_with(&[0x21, 0x00, 0xD0, 0xF9]));
    run(&mut cpu2, 2);
    assert_eq!(cpu2.sp(), 0xD000);
}

#[test]
fn inc_dec_memory_at_hl() {
    // LD HL,0xC010; INC (HL); INC (HL); DEC (HL).
    let mut cpu = make_cpu(rom_with(&[0x21, 0x10, 0xC0, 0x34, 0x34, 0x35]));
    run(&mut cpu, 3);
    assert_eq!(cpu.bus_read_byte(0xC010), 2);
    run(&mut cpu, 1);
    assert_eq!(cpu.bus_read_byte(0xC010), 1);
    assert!(cpu.flags().get_n());
}

#[test]
fn inc_and_dec_sp_wrap() {
    // LD SP,0xFFFF; INC SP; INC SP; DEC SP.
    let mut cpu = make_cpu(rom_with(&[0x31, 0xFF, 0xFF, 0x33, 0x33, 0x3B]));
    run(&mut cpu, 2);
    assert_eq!(cpu.sp(), 0x0000);
    run(&mut cpu, 1);
    assert_eq!(cpu.sp(), 0x0001);
    run(&mut cpu, 1);
    assert_eq!(cpu.sp(), 0x0000);
}

#[test]
fn add_hl_sp_uses_the_add_hl_flag_rule() {
    // LD SP,0x0FFF; LD HL,0x0001; ADD HL,SP: half-carry from bit 11.
    let mut cpu = make_cpu(rom_with(&[0x31, 0xFF, 0x0F, 0x21, 0x01, 0x00, 0x39]));
    let z_before = cpu.flags().get_z();
    run(&mut cpu, 3);
    assert_eq!(cpu.register(TargetRegister::H), 0x10);
    assert_eq!(cpu.register(TargetRegister::L), 0x00);
    assert_eq!(cpu.flags().get_z(), z_before);
    assert!(!cpu.flags().get_n());
    assert!(cpu.flags().get_h());
    assert!(!cpu.flags().get_c());
    assert_eq!(cpu.sp(), 0x0FFF);
}

#[test]
fn add_sp_signed_offset() {
    // ADD SP,+2 from 0xFFFE wraps to 0x0000 with both carries.
    let mut cpu = make_cpu(rom_with(&[0xE8, 0x02]));
    run(&mut cpu, 1);
    assert_eq!(cpu.sp(), 0x0000);
    assert!(cpu.flags().get_h());
    assert!(cpu.flags().get_c());
    assert!(!cpu.flags().get_z());
}

#[test]
fn ld_hl_sp_negative_offset() {
    // LD HL,SP-2 from 0xFFFE.
    let mut cpu = make_cpu(rom_with(&[0xF8, 0xFE]));
    run(&mut cpu, 1);
    assert_eq!(cpu.register(TargetRegister::H), 0xFF);
    assert_eq!(cpu.register(TargetRegister::L), 0xFC);
    assert_eq!(cpu.sp(), 0xFFFE);
}

#[test]
fn absolute_load_and_store() {
    // LD A,0x9C; LD (0xC234),A; LD A,0x00; LD A,(0xC234).
    let mut cpu = make_cpu(rom_with(&[
        0x3E, 0x9C, 0xEA, 0x34, 0xC2, 0x3E, 0x00, 0xFA, 0x34, 0xC2,
    ]));
    run(&mut cpu, 4);
    assert_eq!(cpu.bus_read_byte(0xC234), 0x9C);
    assert_eq!(cpu.register(TargetRegister::A), 0x9C);
}

#[test]
fn alu_hl_operand_reads_memory() {
    // LD HL,0xC020; LD (HL),u8 0x06; ADD A,(HL) with A=0x04.
    let mut cpu = make_cpu(rom_with(&[0x21, 0x20, 0xC0, 0x36, 0x06, 0x86]));
    cpu.set_register(TargetRegister::A, 0x04);
    run(&mut cpu, 3);
    assert_eq!(cpu.register(TargetRegister::A), 0x0A);
}
