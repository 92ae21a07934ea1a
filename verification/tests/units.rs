//! Unit checks of the register file, flag encoding, word splitting, and
//! the cartridge facade.
use gbemu::cartridge::Cartridge;
use gbemu::cpu::{FlagRegister, Registers, TargetPair, TargetRegister};
use gbemu::emulator::Emulator;
use gbemu::{join_half_words, split_word};

fn fresh_registers() -> Registers {
    Registers {
        a: 0,
        b: 0,
        c: 0,
        d: 0,
        e: 0,
        h: 0,
        l: 0,
        f: FlagRegister::from_byte(0),
    }
}

#[test]
fn join_and_split_words() {
    assert_eq!(join_half_words(0x12, 0x34), 0x1234);
    assert_eq!(split_word(0xABCD), (0xAB, 0xCD));
    assert_eq!(join_half_words(0x00, 0x00), 0x0000);
    assert_eq!(split_word(0x00FF), (0x00, 0xFF));
}

#[test]
fn register_write_read_round_trip() {
    let regs = [
        TargetRegister::A,
        TargetRegister::B,
        TargetRegister::C,
        TargetRegister::D,
        TargetRegister::E,
        TargetRegister::H,
        TargetRegister::L,
    ];
    let mut file = fresh_registers();
    for (i, r) in regs.iter().enumerate() {
        let b = (0x11 * (i as u8 + 1)) as u8;
        file.write(*r, b);
        assert_eq!(file.read(*r), b);
    }
}

#[test]
fn pair_write_read_round_trip() {
    let mut file = fresh_registers();
    file.write_pair(TargetPair::BC, 0xABCD);
    assert_eq!(file.read_pair(TargetPair::BC), 0xABCD);
    file.write_pair(TargetPair::DE, 0x0001);
    assert_eq!(file.read_pair(TargetPair::DE), 0x0001);
    file.write_pair(TargetPair::HL, 0xFFFF);
    assert_eq!(file.read_pair(TargetPair::HL), 0xFFFF);
    // AF masks the flag register's low nibble.
    file.write_pair(TargetPair::AF, 0x1234);
    assert_eq!(file.read_pair(TargetPair::AF), 0x1230);
    file.write_pair(TargetPair::AF, 0xFFFF);
    assert_eq!(file.read_pair(TargetPair::AF), 0xFFF0);
}

#[test]
fn flag_byte_layout() {
    let f = FlagRegister::from_byte(0xB0);
    assert!(f.get_z());
    assert!(!f.get_n());
    assert!(f.get_h());
    assert!(f.get_c());
    assert_eq!(f.to_byte(), 0xB0);
    // The low nibble always reads as zero.
    assert_eq!(FlagRegister::from_byte(0xFF).to_byte(), 0xF0);
    assert_eq!(FlagRegister::from_byte(0x0F).to_byte(), 0x00);
}

#[test]
fn flag_setters_drive_single_bits() {
    let mut f = FlagRegister::from_byte(0);
    f.set_z(true);
    assert_eq!(f.to_byte(), 0x80);
    f.set_n(true);
    assert_eq!(f.to_byte(), 0xC0);
    f.set_h(true);
    assert_eq!(f.to_byte(), 0xE0);
    f.set_c(true);
    assert_eq!(f.to_byte(), 0xF0);
    f.set_z(false);
    assert_eq!(f.to_byte(), 0x70);
}

#[test]
fn cartridge_reads_rom_and_guards_bounds() {
    let mut rom = vec![0u8; 0x8000];
    rom[0] = 0xC3;
    rom[0x7FFF] = 0x55;
    let cart = Cartridge::new(rom);
    assert_eq!(cart.read(0x0000), 0xC3);
    assert_eq!(cart.read(0x7FFF), 0x55);
    // Outside every window the cartridge reads 0xFF.
    assert_eq!(cart.read(0xC000), 0xFF);
}

#[test]
fn short_cartridge_reads_ff_beyond_image() {
    let cart = Cartridge::new(vec![0x01, 0x02]);
    assert_eq!(cart.read(0x0000), 0x01);
    assert_eq!(cart.read(0x0001), 0x02);
    assert_eq!(cart.read(0x0002), 0xFF);
}

#[test]
fn cartridge_rom_writes_are_dropped() {
    let mut cart = Cartridge::new(vec![0x42; 0x8000]);
    cart.write(0x2000, 0x01);
    assert_eq!(cart.read(0x2000), 0x42);
}

#[test]
fn cartridge_external_ram_round_trip() {
    let mut cart = Cartridge::new(vec![0u8; 0x8000]);
    cart.write(0xA123, 0x99);
    assert_eq!(cart.read(0xA123), 0x99);
    assert_eq!(cart.read(0xA124), 0x00);
}

#[test]
fn header_checksum_verifies_the_header() {
    // All-zero header bytes: 25 folds of `x - 0 - 1` from zero give 0xE7.
    let mut rom = vec![0u8; 0x8000];
    let cart = Cartridge::new(rom.clone());
    assert!(!cart.header_checksum_ok());
    rom[0x14D] = 0xE7;
    let cart2 = Cartridge::new(rom);
    assert!(cart2.header_checksum_ok());
    // A short image cannot carry a header.
    assert!(!Cartridge::new(vec![0u8; 0x40]).header_checksum_ok());
}

fn mbc1_rom(banks: usize) -> Vec<u8> {
    // Each 16 KiB bank starts with its own number.
    let mut rom = vec![0u8; banks * 0x4000];
    rom[0x147] = 0x01;
    for b in 0..banks {
        rom[b * 0x4000] = b as u8;
    }
    rom
}

#[test]
fn mbc1_switches_rom_banks() {
    let mut cart = Cartridge::new(mbc1_rom(4));
    // The fixed window shows bank 0; the switchable one starts at bank 1.
    assert_eq!(cart.read(0x0000), 0);
    assert_eq!(cart.read(0x4000), 1);
    cart.write(0x2000, 0x02);
    assert_eq!(cart.read(0x4000), 2);
    cart.write(0x2000, 0x03);
    assert_eq!(cart.read(0x4000), 3);
    // The fixed window never moves, and ROM bytes never changed.
    assert_eq!(cart.read(0x0000), 0);
}

#[test]
fn mbc1_bank_zero_select_reads_bank_one() {
    let mut cart = Cartridge::new(mbc1_rom(4));
    cart.write(0x2000, 0x00);
    assert_eq!(cart.read(0x4000), 1);
}

#[test]
fn mbc1_bank_beyond_image_reads_ff() {
    let mut cart = Cartridge::new(mbc1_rom(2));
    cart.write(0x2000, 0x03);
    assert_eq!(cart.read(0x4000), 0xFF);
}

#[test]
fn mbc1_ram_gate_guards_external_ram() {
    let mut cart = Cartridge::new(mbc1_rom(2));
    // Disabled: writes sink and reads return 0xFF.
    cart.write(0xA000, 0x42);
    assert_eq!(cart.read(0xA000), 0xFF);
    // Enable with the 0x0A pattern.
    cart.write(0x0000, 0x0A);
    assert_eq!(cart.read(0xA000), 0x00);
    cart.write(0xA000, 0x42);
    assert_eq!(cart.read(0xA000), 0x42);
    // Disabling again hides the contents without erasing them.
    cart.write(0x0000, 0x00);
    assert_eq!(cart.read(0xA000), 0xFF);
    cart.write(0x0000, 0x0A);
    assert_eq!(cart.read(0xA000), 0x42);
}

#[test]
fn mbc1_cartridge_boots_in_the_emulator() {
    let mut rom = mbc1_rom(4);
    // NOPs from the entry point; one step just advances PC.
    rom[0x100] = 0x00;
    let mut emu = Emulator::from_rom_byte(rom).unwrap();
    emu.step().unwrap();
    assert_eq!(emu.cpu().pc(), 0x101);
}
