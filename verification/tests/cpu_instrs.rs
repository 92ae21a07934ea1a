//! Instruction-level scenarios driven through `Cpu::step`.
use gbemu::bus::Bus;
use gbemu::cartridge::Cartridge;
use gbemu::cpu::{Cpu, TargetRegister};
use gbemu::gpu::Gpu;
use gbemu::ram::Ram;
use gbemu::EmuError;

fn make_cpu(rom: Vec<u8>) -> Cpu {
    let bus = Bus::new(
        Cartridge::new(rom),
        Ram::with_size(0x2000),
        Ram::with_size(0x80),
        Ram::with_size(0xA0),
        Ram::with_size(0x2000),
        Gpu::new(),
    );
    Cpu::new(bus)
}

fn flat_rom() -> Vec<u8> {
    vec![0u8; 0x8000]
}

#[test]
fn add_a_b_flag_scenario() {
    let mut rom = flat_rom();
    rom[0x100] = 0x80; // ADD A,B
    let mut cpu = make_cpu(rom);
    cpu.set_register(TargetRegister::A, 0x3A);
    cpu.set_register(TargetRegister::B, 0xC6);
    cpu.step().unwrap();
    assert_eq!(cpu.register(TargetRegister::A), 0x00);
    assert!(cpu.flags().get_z());
    assert!(!cpu.flags().get_n());
    assert!(cpu.flags().get_h());
    assert!(cpu.flags().get_c());
}

#[test]
fn dec_a_half_carry() {
    let mut rom = flat_rom();
    rom[0x100] = 0x3D; // DEC A
    let mut cpu = make_cpu(rom);
    cpu.set_register(TargetRegister::A, 0x10);
    let carry_before = cpu.flags().get_c();
    cpu.step().unwrap();
    assert_eq!(cpu.register(TargetRegister::A), 0x0F);
    assert!(!cpu.flags().get_z());
    assert!(cpu.flags().get_n());
    assert!(cpu.flags().get_h());
    assert_eq!(cpu.flags().get_c(), carry_before);
}

#[test]
fn relative_jump_backward() {
    let mut rom = flat_rom();
    rom[0x150] = 0x18; // JR -4
    rom[0x151] = 0xFC;
    let mut cpu = make_cpu(rom);
    cpu.set_pc(0x150);
    cpu.step().unwrap();
    assert_eq!(cpu.pc(), 0x14E);
}

#[test]
fn call_ret_round_trip() {
    let mut rom = flat_rom();
    rom[0x150] = 0xCD; // CALL 0x2000
    rom[0x151] = 0x00;
    rom[0x152] = 0x20;
    rom[0x2000] = 0xC9; // RET
    let mut cpu = make_cpu(rom);
    cpu.set_pc(0x150);
    assert_eq!(cpu.sp(), 0xFFFE);
    cpu.step().unwrap();
    assert_eq!(cpu.pc(), 0x2000);
    assert_eq!(cpu.sp(), 0xFFFC);
    cpu.step().unwrap();
    assert_eq!(cpu.pc(), 0x153);
    assert_eq!(cpu.sp(), 0xFFFE);
}

#[test]
fn push_pop_order_via_call() {
    // CALL pushes the high byte of the return address above its low byte.
    let mut rom = flat_rom();
    rom[0x150] = 0xCD;
    rom[0x151] = 0x00;
    rom[0x152] = 0x20;
    let mut cpu = make_cpu(rom);
    cpu.set_pc(0x150);
    cpu.step().unwrap();
    // Return address 0x0153: high byte at 0xFFFD, low byte at 0xFFFC.
    assert_eq!(cpu.bus_read_byte(0xFFFD), 0x01);
    assert_eq!(cpu.bus_read_byte(0xFFFC), 0x53);
}

#[test]
fn xor_a_clears_accumulator() {
    let mut rom = flat_rom();
    rom[0x100] = 0xAF; // XOR A,A
    let mut cpu = make_cpu(rom);
    cpu.set_register(TargetRegister::A, 0x5C);
    cpu.step().unwrap();
    assert_eq!(cpu.register(TargetRegister::A), 0);
    assert!(cpu.flags().get_z());
    assert!(!cpu.flags().get_n());
    assert!(!cpu.flags().get_h());
    assert!(!cpu.flags().get_c());
}

#[test]
fn cp_sets_borrow_flags() {
    let mut rom = flat_rom();
    rom[0x100] = 0xFE; // CP A,0x20
    rom[0x101] = 0x20;
    let mut cpu = make_cpu(rom);
    cpu.set_register(TargetRegister::A, 0x10);
    cpu.step().unwrap();
    assert_eq!(cpu.register(TargetRegister::A), 0x10);
    assert!(!cpu.flags().get_z());
    assert!(cpu.flags().get_n());
    assert!(!cpu.flags().get_h());
    assert!(cpu.flags().get_c());
    assert_eq!(cpu.pc(), 0x102);
}

#[test]
fn inc_low_nibble_overflow() {
    let mut rom = flat_rom();
    rom[0x100] = 0x04; // INC B
    let mut cpu = make_cpu(rom);
    cpu.set_register(TargetRegister::B, 0x0F);
    cpu.step().unwrap();
    assert_eq!(cpu.register(TargetRegister::B), 0x10);
    assert!(!cpu.flags().get_z());
    assert!(!cpu.flags().get_n());
    assert!(cpu.flags().get_h());
}

#[test]
fn rlca_rotates_and_clears_zero() {
    let mut rom = flat_rom();
    rom[0x100] = 0x07; // RLCA
    let mut cpu = make_cpu(rom);
    cpu.set_register(TargetRegister::A, 0x85);
    cpu.step().unwrap();
    assert_eq!(cpu.register(TargetRegister::A), 0x0B);
    assert!(cpu.flags().get_c());
    assert!(!cpu.flags().get_z());
}

#[test]
fn rrca_rotates_through_bit0() {
    let mut rom = flat_rom();
    rom[0x100] = 0x0F; // RRCA
    let mut cpu = make_cpu(rom);
    cpu.set_register(TargetRegister::A, 0x01);
    cpu.step().unwrap();
    assert_eq!(cpu.register(TargetRegister::A), 0x80);
    assert!(cpu.flags().get_c());
}

#[test]
fn add_hl_rr_keeps_zero_flag() {
    let mut rom = flat_rom();
    rom[0x100] = 0x09; // ADD HL,BC
    let mut cpu = make_cpu(rom);
    // HL = 0x0FFF, BC = 0x0001: half-carry from bit 11, no carry.
    cpu.set_register(TargetRegister::H, 0x0F);
    cpu.set_register(TargetRegister::L, 0xFF);
    cpu.set_register(TargetRegister::B, 0x00);
    cpu.set_register(TargetRegister::C, 0x01);
    let z_before = cpu.flags().get_z();
    cpu.step().unwrap();
    assert_eq!(cpu.register(TargetRegister::H), 0x10);
    assert_eq!(cpu.register(TargetRegister::L), 0x00);
    assert_eq!(cpu.flags().get_z(), z_before);
    assert!(!cpu.flags().get_n());
    assert!(cpu.flags().get_h());
    assert!(!cpu.flags().get_c());
}

#[test]
fn ld_hl_plus_stores_and_increments() {
    let mut rom = flat_rom();
    rom[0x100] = 0x22; // LD (HL+),A
    let mut cpu = make_cpu(rom);
    cpu.set_register(TargetRegister::H, 0xC0);
    cpu.set_register(TargetRegister::L, 0x00);
    cpu.set_register(TargetRegister::A, 0x42);
    cpu.step().unwrap();
    assert_eq!(cpu.bus_read_byte(0xC000), 0x42);
    assert_eq!(cpu.register(TargetRegister::H), 0xC0);
    assert_eq!(cpu.register(TargetRegister::L), 0x01);
}

#[test]
fn conditional_jump_not_taken_advances() {
    let mut rom = flat_rom();
    rom[0x100] = 0x20; // JR NZ,+5 with Z set: not taken
    rom[0x101] = 0x05;
    let mut cpu = make_cpu(rom);
    // The reset flags have Z set.
    assert!(cpu.flags().get_z());
    cpu.step().unwrap();
    assert_eq!(cpu.pc(), 0x102);
}

#[test]
fn unimplemented_opcode_reported() {
    let mut rom = flat_rom();
    rom[0x100] = 0xD3;
    let mut cpu = make_cpu(rom);
    assert_eq!(cpu.step(), Err(EmuError::UnimplementedOpcode(0xD3)));
    // Only the fetch happened.
    assert_eq!(cpu.pc(), 0x101);
}

#[test]
fn halt_stops_the_clock() {
    let mut rom = flat_rom();
    rom[0x100] = 0x76; // HALT
    let mut cpu = make_cpu(rom);
    cpu.step().unwrap();
    assert!(cpu.is_halted());
    let pc = cpu.pc();
    cpu.step().unwrap();
    assert_eq!(cpu.pc(), pc);
}
