//! Whole-machine runs: long NOP slides, serial output, memory echo, and
//! PPU timing and rendering.
use gbemu::bus::Bus;
use gbemu::cartridge::Cartridge;
use gbemu::cpu::Cpu;
use gbemu::emulator::Emulator;
use gbemu::gpu::Gpu;
use gbemu::ram::Ram;
use gbemu::EmuError;

fn flat_rom() -> Vec<u8> {
    vec![0u8; 0x8000]
}

fn make_cpu(rom: Vec<u8>) -> Cpu {
    let bus = Bus::new(
        Cartridge::new(rom),
        Ram::with_size(0x2000),
        Ram::with_size(0x80),
        Ram::with_size(0xA0),
        Ram::with_size(0x2000),
        Gpu::new(),
    );
    Cpu::new(bus)
}

#[test]
fn nop_rom_runs_a_million_cycles() {
    let mut rom = flat_rom();
    // A spin-in-place tail at the end of the slide.
    rom[0x7FF0] = 0x18;
    rom[0x7FF1] = 0xFE;
    let mut emu = Emulator::from_rom_byte(rom).unwrap();
    // 1,000,000 cycles at 4 cycles per NOP step.
    for _ in 0..250_000 {
        emu.step().unwrap();
    }
    assert_eq!(emu.cpu().sp(), 0xFFFE);
    // The slide runs to the tail and spins there: JR -2 lands back on
    // itself every step.
    assert_ne!(emu.cpu().pc(), 0x100);
    assert_eq!(emu.cpu().pc(), 0x7FF0);
}

#[test]
fn serial_test_rom_prints_passed() {
    let mut rom = flat_rom();
    let mut at: usize = 0x100;
    for &ch in b"Passed" {
        rom[at] = 0x3E; // LD A,ch
        rom[at + 1] = ch;
        rom[at + 2] = 0xE0; // LDH (0xFF01),A
        rom[at + 3] = 0x01;
        rom[at + 4] = 0x3E; // LD A,0x81
        rom[at + 5] = 0x81;
        rom[at + 6] = 0xE0; // LDH (0xFF02),A: transfer start
        rom[at + 7] = 0x02;
        at += 8;
    }
    rom[at] = 0x76; // HALT
    let mut emu = Emulator::from_rom_byte(rom).unwrap();
    for _ in 0..100 {
        emu.step().unwrap();
        if emu.cpu().is_halted() {
            break;
        }
    }
    assert!(emu.cpu().is_halted());
    assert_eq!(emu.cpu().serial_output().as_slice(), b"Passed");
}

#[test]
fn serial_transfer_completes_immediately() {
    let mut cpu = make_cpu(flat_rom());
    assert_eq!(cpu.serial_output().len(), 0);
    cpu.bus_write_byte(0xFF01, 0x5A);
    cpu.bus_write_byte(0xFF02, 0x81);
    assert_eq!(cpu.serial_output().as_slice(), &[0x5A]);
    assert_eq!(cpu.bus_read_byte(0xFF01), 0x5A);
    // The start bit clears as the transfer completes at once.
    assert_eq!(cpu.bus_read_byte(0xFF02), 0x01);
}

#[test]
fn memory_echo_mirrors_work_ram() {
    let mut cpu = make_cpu(flat_rom());
    cpu.bus_write_byte(0xC123, 0xAB);
    assert_eq!(cpu.bus_read_byte(0xE123), 0xAB);
    cpu.bus_write_byte(0xE200, 0x7E);
    assert_eq!(cpu.bus_read_byte(0xC200), 0x7E);
}

#[test]
fn rom_writes_never_mutate_rom() {
    let mut rom = flat_rom();
    rom[0x1234] = 0x99;
    let mut cpu = make_cpu(rom);
    cpu.bus_write_byte(0x1234, 0x55);
    assert_eq!(cpu.bus_read_byte(0x1234), 0x99);
}

#[test]
fn external_ram_reads_back() {
    let mut cpu = make_cpu(flat_rom());
    cpu.bus_write_byte(0xA000, 0x77);
    assert_eq!(cpu.bus_read_byte(0xA000), 0x77);
}

#[test]
fn unmapped_addresses_read_ff() {
    let mut cpu = make_cpu(flat_rom());
    assert_eq!(cpu.bus_read_byte(0xFEA5), 0xFF);
    assert_eq!(cpu.bus_read_byte(0xFF10), 0xFF);
    // Unknown I/O offsets past the PPU's 0xFF4B read 0xFF and sink writes.
    assert_eq!(cpu.bus_read_byte(0xFF4C), 0xFF);
    cpu.bus_write_byte(0xFF4C, 0x12);
    assert_eq!(cpu.bus_read_byte(0xFF4C), 0xFF);
    cpu.bus_write_byte(0xFF7F, 0x34);
    assert_eq!(cpu.bus_read_byte(0xFF7F), 0xFF);
}

#[test]
fn ppu_registers_reachable_over_the_bus() {
    let mut cpu = make_cpu(flat_rom());
    assert_eq!(cpu.bus_read_byte(0xFF40), 0x91); // LCDC reset value
    assert_eq!(cpu.bus_read_byte(0xFF47), 0xFC); // BGP reset value
    cpu.bus_write_byte(0xFF42, 5); // SCY
    assert_eq!(cpu.bus_read_byte(0xFF42), 5);
    // LY is read-only.
    cpu.bus_write_byte(0xFF44, 99);
    assert_eq!(cpu.bus_read_byte(0xFF44), 0);
}

#[test]
fn joypad_matrix_reads_selected_rows() {
    let mut cpu = make_cpu(flat_rom());
    // Nothing selected: both select bits high, low nibble all released.
    assert_eq!(cpu.bus_read_byte(0xFF00), 0xFF);
    // Select the direction row with Right pressed (bit 0 of the snapshot).
    cpu.set_joypad(0x01);
    cpu.bus_write_byte(0xFF00, 0x20);
    assert_eq!(cpu.bus_read_byte(0xFF00), 0xEE);
    // Select the action row with Start pressed (bit 7 of the snapshot).
    cpu.set_joypad(0x80);
    cpu.bus_write_byte(0xFF00, 0x10);
    assert_eq!(cpu.bus_read_byte(0xFF00), 0xD7);
    // Releasing everything reads all keys high again.
    cpu.set_joypad(0x00);
    assert_eq!(cpu.bus_read_byte(0xFF00), 0xDF);
}

#[test]
fn external_ram_persists_as_a_blob() {
    let mut cpu = make_cpu(flat_rom());
    cpu.bus_write_byte(0xA000, 0x42);
    assert_eq!(cpu.external_ram()[0], 0x42);
    // Restore a saved blob.
    let mut blob = vec![0u8; 0x2000];
    blob[0] = 0x99;
    assert!(cpu.load_external_ram(blob));
    assert_eq!(cpu.bus_read_byte(0xA000), 0x99);
    // A blob of the wrong size is refused and changes nothing.
    assert!(!cpu.load_external_ram(vec![0u8; 10]));
    assert_eq!(cpu.bus_read_byte(0xA000), 0x99);
}

#[test]
fn lyc_coincidence_raises_the_stat_interrupt() {
    let mut cpu = make_cpu(flat_rom());
    cpu.bus_write_byte(0xFF41, 0x40); // enable the LYC=LY source
    cpu.bus_write_byte(0xFF45, 0x01); // LYC = 1
    for _ in 0..113 {
        cpu.step_gpu();
    }
    assert_eq!(cpu.bus_read_byte(0xFF0F) & 0x02, 0);
    cpu.step_gpu();
    assert_eq!(cpu.bus_read_byte(0xFF44), 1);
    assert_eq!(cpu.bus_read_byte(0xFF0F) & 0x02, 0x02);
}

#[test]
fn hblank_entry_raises_the_stat_interrupt() {
    let mut cpu = make_cpu(flat_rom());
    cpu.bus_write_byte(0xFF41, 0x08); // enable the HBlank source
    for _ in 0..62 {
        cpu.step_gpu();
    }
    assert_eq!(cpu.bus_read_byte(0xFF0F) & 0x02, 0);
    cpu.step_gpu();
    assert_eq!(cpu.bus_read_byte(0xFF41) & 3, 0);
    assert_eq!(cpu.bus_read_byte(0xFF0F) & 0x02, 0x02);
}

#[test]
fn stat_fires_only_on_the_rising_edge_of_the_or() {
    let mut cpu = make_cpu(flat_rom());
    // LY == LYC == 0 holds the line high through the coincidence source.
    cpu.bus_write_byte(0xFF41, 0x48); // LYC source and HBlank source
    for _ in 0..63 {
        cpu.step_gpu();
    }
    // Entering HBlank while the line is already high must not fire.
    assert_eq!(cpu.bus_read_byte(0xFF41) & 3, 0);
    assert_eq!(cpu.bus_read_byte(0xFF0F) & 0x02, 0);
    // The line falls when LY leaves 0 (mid-line, no HBlank), and the next
    // HBlank entry is a fresh rising edge.
    for _ in 0..51 {
        cpu.step_gpu();
    }
    assert_eq!(cpu.bus_read_byte(0xFF44), 1);
    assert_eq!(cpu.bus_read_byte(0xFF0F) & 0x02, 0);
    for _ in 0..63 {
        cpu.step_gpu();
    }
    assert_eq!(cpu.bus_read_byte(0xFF0F) & 0x02, 0x02);
}

#[test]
fn rom_too_short_is_fatal() {
    assert!(matches!(
        Emulator::from_rom_byte(vec![0u8; 0x100]),
        Err(EmuError::RomTooShort)
    ));
}

#[test]
fn unsupported_cartridge_type_is_fatal() {
    let mut rom = flat_rom();
    rom[0x147] = 0x05; // a controller family the core does not support
    assert!(matches!(
        Emulator::from_rom_byte(rom),
        Err(EmuError::UnsupportedCartridgeType(0x05))
    ));
}

#[test]
fn scanline_timing_114_steps_per_line() {
    let mut rom = flat_rom();
    rom[0x100] = 0x76; // HALT: only the PPU advances, 4 cycles a step.
    let mut emu = Emulator::from_rom_byte(rom).unwrap();
    assert_eq!(emu.cpu().bus_read_byte(0xFF44), 0);
    for _ in 0..113 {
        emu.step().unwrap();
    }
    assert_eq!(emu.cpu().bus_read_byte(0xFF44), 0);
    emu.step().unwrap();
    assert_eq!(emu.cpu().bus_read_byte(0xFF44), 1);
}

#[test]
fn frame_timing_70224_cycles() {
    let mut rom = flat_rom();
    rom[0x100] = 0x76;
    let mut emu = Emulator::from_rom_byte(rom).unwrap();
    // One full frame: 154 lines of 456 cycles, in 4-cycle steps.
    for _ in 0..17556 {
        emu.step().unwrap();
    }
    assert_eq!(emu.cpu().bus_read_byte(0xFF44), 0);
    // LY holds through the next line and increments at its boundary.
    for _ in 0..113 {
        emu.step().unwrap();
    }
    assert_eq!(emu.cpu().bus_read_byte(0xFF44), 0);
    emu.step().unwrap();
    assert_eq!(emu.cpu().bus_read_byte(0xFF44), 1);
}

#[test]
fn stat_reports_mode_and_coincidence() {
    let mut cpu = make_cpu(flat_rom());
    // At the top of the frame: OAM scan (mode 2), LY == LYC == 0.
    assert_eq!(cpu.bus_read_byte(0xFF41), 0x86);
    // STAT stores only its four interrupt-enable bits.
    cpu.bus_write_byte(0xFF41, 0xFF);
    assert_eq!(cpu.bus_read_byte(0xFF41), 0xFE);
    // A non-matching LYC clears the coincidence bit.
    cpu.bus_write_byte(0xFF45, 5);
    assert_eq!(cpu.bus_read_byte(0xFF41), 0xFA);
}

#[test]
fn ppu_mode_walks_through_the_scanline() {
    let mut cpu = make_cpu(flat_rom());
    // Cycles 0..79: OAM scan.
    assert_eq!(cpu.bus_read_byte(0xFF41) & 3, 2);
    for _ in 0..20 {
        cpu.step_gpu();
    }
    // Cycles 80..251: drawing.
    assert_eq!(cpu.bus_read_byte(0xFF41) & 3, 3);
    for _ in 0..43 {
        cpu.step_gpu();
    }
    // Cycles 252..: horizontal blank.
    assert_eq!(cpu.bus_read_byte(0xFF41) & 3, 0);
    // Through line 144: vertical blank.
    for _ in 0..(114 * 144 - 63) {
        cpu.step_gpu();
    }
    assert_eq!(cpu.bus_read_byte(0xFF44), 144);
    assert_eq!(cpu.bus_read_byte(0xFF41) & 3, 1);
}

#[test]
fn vram_locks_out_the_cpu_while_drawing() {
    let mut cpu = make_cpu(flat_rom());
    // Mode 2: VRAM accessible.
    cpu.bus_write_byte(0x8000, 0x42);
    assert_eq!(cpu.bus_read_byte(0x8000), 0x42);
    for _ in 0..20 {
        cpu.step_gpu();
    }
    // Mode 3: reads return 0xFF and writes sink.
    assert_eq!(cpu.bus_read_byte(0x8000), 0xFF);
    cpu.bus_write_byte(0x8000, 0x99);
    for _ in 0..43 {
        cpu.step_gpu();
    }
    // Horizontal blank: the dropped write never landed.
    assert_eq!(cpu.bus_read_byte(0x8000), 0x42);
}

#[test]
fn oam_locks_out_the_cpu_until_blank() {
    let mut cpu = make_cpu(flat_rom());
    // OAM scan: blocked.
    assert_eq!(cpu.bus_read_byte(0xFE00), 0xFF);
    cpu.bus_write_byte(0xFE00, 0x55);
    for _ in 0..63 {
        cpu.step_gpu();
    }
    // Horizontal blank: accessible, and the earlier write was dropped.
    assert_eq!(cpu.bus_read_byte(0xFE00), 0x00);
    cpu.bus_write_byte(0xFE00, 0x77);
    assert_eq!(cpu.bus_read_byte(0xFE00), 0x77);
}

#[test]
fn vblank_interrupt_dispatches_through_its_vector() {
    let mut rom = flat_rom();
    // Handler at the VBlank vector 0x40: count the interrupt, return.
    rom[0x40] = 0x04; // INC B
    rom[0x41] = 0xD9; // RETI
    // Program: enable the VBlank source in IE, enable IME, halt.
    rom[0x100] = 0x3E; // LD A,0x01
    rom[0x101] = 0x01;
    rom[0x102] = 0xE0; // LDH (0xFFFF),A: IE = 1
    rom[0x103] = 0xFF;
    rom[0x104] = 0xFB; // EI
    rom[0x105] = 0x76; // HALT
    let mut emu = Emulator::from_rom_byte(rom).unwrap();
    // One frame reaches the vertical blank at line 144.
    for _ in 0..20_000 {
        emu.step().unwrap();
    }
    // The halt was woken, the handler ran once, the flag was acknowledged,
    // and the stack is balanced again.
    assert!(!emu.cpu().is_halted());
    assert_eq!(emu.cpu().register(gbemu::cpu::TargetRegister::B), 1);
    assert_eq!(emu.cpu().bus_read_byte(0xFF0F) & 0x01, 0);
    assert_eq!(emu.cpu().sp(), 0xFFFE);
    assert!(emu.cpu().pc() >= 0x106);
}

#[test]
fn pending_interrupt_wakes_halt_without_ime() {
    let mut rom = flat_rom();
    rom[0x100] = 0x3E; // LD A,0x01
    rom[0x101] = 0x01;
    rom[0x102] = 0xE0; // LDH (0xFFFF),A: IE = 1, IME stays off
    rom[0x103] = 0xFF;
    rom[0x104] = 0x76; // HALT
    let mut emu = Emulator::from_rom_byte(rom).unwrap();
    for _ in 0..20_000 {
        emu.step().unwrap();
    }
    // Woken by the pending VBlank, but never dispatched: the flag stays
    // set and execution just continued past the halt.
    assert!(!emu.cpu().is_halted());
    assert_eq!(emu.cpu().register(gbemu::cpu::TargetRegister::B), 0);
    assert_eq!(emu.cpu().bus_read_byte(0xFF0F) & 0x01, 1);
    assert!(emu.cpu().pc() >= 0x105);
}

#[test]
fn di_cancels_a_scheduled_enable() {
    let mut rom = flat_rom();
    rom[0x100] = 0x3E; // LD A,0x01
    rom[0x101] = 0x01;
    rom[0x102] = 0xE0; // LDH (0xFFFF),A: IE = 1
    rom[0x103] = 0xFF;
    rom[0x104] = 0xFB; // EI
    rom[0x105] = 0xF3; // DI: cancels the enable before it lands
    rom[0x106] = 0x76; // HALT
    let mut emu = Emulator::from_rom_byte(rom).unwrap();
    for _ in 0..20_000 {
        emu.step().unwrap();
    }
    // Woken, not dispatched.
    assert_eq!(emu.cpu().register(gbemu::cpu::TargetRegister::B), 0);
    assert_eq!(emu.cpu().bus_read_byte(0xFF0F) & 0x01, 1);
}

#[test]
fn background_line_renders_from_tile_data() {
    let mut cpu = make_cpu(flat_rom());
    // LCDC resets to 0x91: unsigned tile data at 0x8000, tilemap at 0x9800.
    // Tile 1, row 0, low plane all ones: color index 1 across the row.
    cpu.bus_write_byte(0x8010, 0xFF);
    // Tilemap entry (0, 0) selects tile 1; the rest stay tile 0 (all zero).
    cpu.bus_write_byte(0x9800, 0x01);
    // Complete line 0: 114 PPU steps of 4 cycles.
    for _ in 0..114 {
        cpu.step_gpu();
    }
    let fb = cpu.framebuffer();
    // BGP resets to 0xFC: color index 1 maps to 3, index 0 to 0.
    assert_eq!(fb[0], 3);
    assert_eq!(fb[7], 3);
    assert_eq!(fb[8], 0);
    // An untouched later line stays clear.
    assert_eq!(fb[160 + 0], 0);
}

#[test]
fn lcd_disable_resets_and_freezes_the_clock() {
    let mut cpu = make_cpu(flat_rom());
    for _ in 0..114 {
        cpu.step_gpu();
    }
    assert_eq!(cpu.bus_read_byte(0xFF44), 1);
    // Disabling the LCD resets LY and halts all timing.
    cpu.bus_write_byte(0xFF40, 0x11);
    assert_eq!(cpu.bus_read_byte(0xFF44), 0);
    for _ in 0..200 {
        cpu.step_gpu();
    }
    assert_eq!(cpu.bus_read_byte(0xFF44), 0);
    // Re-enabling resumes from the top of the frame.
    cpu.bus_write_byte(0xFF40, 0x91);
    for _ in 0..114 {
        cpu.step_gpu();
    }
    assert_eq!(cpu.bus_read_byte(0xFF44), 1);
}

#[test]
fn window_overlays_the_background() {
    let mut cpu = make_cpu(flat_rom());
    // Window enabled from its own tilemap at 0x9C00; background from
    // 0x9800 stays tile 0.
    cpu.bus_write_byte(0xFF40, 0xF1);
    cpu.bus_write_byte(0x8010, 0xFF); // tile 1, row 0: color index 1
    cpu.bus_write_byte(0x9C00, 0x01); // window tilemap (0, 0) -> tile 1
    // Anchor the window at pixel 8 of line 0.
    cpu.bus_write_byte(0xFF4A, 0); // WY
    cpu.bus_write_byte(0xFF4B, 15); // WX: covers x >= 8
    for _ in 0..114 {
        cpu.step_gpu();
    }
    let fb = cpu.framebuffer();
    // Left of the window: background tile 0 -> color 0.
    assert_eq!(fb[7], 0);
    // Under the window: window tile 1 -> palette color 3.
    assert_eq!(fb[8], 3);
    assert_eq!(fb[15], 3);
    // Window column 8 falls in window tile 1 (cleared) again.
    assert_eq!(fb[16], 0);
}

#[test]
fn background_disable_blanks_the_line() {
    let mut cpu = make_cpu(flat_rom());
    cpu.bus_write_byte(0xFF40, 0x90); // LCD on, BG/window off
    cpu.bus_write_byte(0x8010, 0xFF);
    cpu.bus_write_byte(0x9800, 0x01);
    for _ in 0..114 {
        cpu.step_gpu();
    }
    let fb = cpu.framebuffer();
    assert_eq!(fb[0], 0);
    assert_eq!(fb[7], 0);
}

#[test]
fn background_scroll_shifts_the_fetch() {
    let mut cpu = make_cpu(flat_rom());
    // SCX = 8: the first fetched tile is tilemap column 1.
    cpu.bus_write_byte(0xFF43, 8);
    cpu.bus_write_byte(0x8010, 0xFF); // tile 1, row 0: color index 1
    cpu.bus_write_byte(0x9801, 0x01); // tilemap (0, 1) -> tile 1
    for _ in 0..114 {
        cpu.step_gpu();
    }
    let fb = cpu.framebuffer();
    assert_eq!(fb[0], 3);
    assert_eq!(fb[8], 0);
}
