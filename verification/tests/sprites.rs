//! Sprite composition: OAM-driven overlay, transparency, priority rules,
//! flips and object palettes.
use gbemu::bus::Bus;
use gbemu::cartridge::Cartridge;
use gbemu::cpu::Cpu;
use gbemu::gpu::Gpu;
use gbemu::ram::Ram;

fn make_cpu() -> Cpu {
    let bus = Bus::new(
        Cartridge::new(vec![0u8; 0x8000]),
        Ram::with_size(0x2000),
        Ram::with_size(0x80),
        Ram::with_size(0xA0),
        Ram::with_size(0x2000),
        Gpu::new(),
    );
    Cpu::new(bus)
}

/// Reaches horizontal blank of line 0, where VRAM and OAM are writable.
fn to_hblank(cpu: &mut Cpu) {
    for _ in 0..63 {
        cpu.step_gpu();
    }
}

/// Finishes line 0 so it is composed into the framebuffer.
fn finish_line(cpu: &mut Cpu) {
    for _ in 0..51 {
        cpu.step_gpu();
    }
}

fn put_sprite(cpu: &mut Cpu, slot: u16, y: u8, x: u8, tile: u8, attr: u8) {
    let base = 0xFE00 + slot * 4;
    cpu.bus_write_byte(base, y);
    cpu.bus_write_byte(base + 1, x);
    cpu.bus_write_byte(base + 2, tile);
    cpu.bus_write_byte(base + 3, attr);
}

#[test]
fn sprite_overlays_the_background() {
    let mut cpu = make_cpu();
    to_hblank(&mut cpu);
    cpu.bus_write_byte(0xFF40, 0x93); // LCD on, sprites on
    cpu.bus_write_byte(0xFF48, 0xE4); // OBP0 identity-style palette
    // Tile 2 row 0: high plane set -> color index 2 across the row.
    cpu.bus_write_byte(0x8021, 0xFF);
    // Sprite 0 at the top-left corner.
    put_sprite(&mut cpu, 0, 16, 8, 2, 0x00);
    finish_line(&mut cpu);
    let fb = cpu.framebuffer();
    // Color index 2 through OBP0 0xE4 is shade 2.
    assert_eq!(fb[0], 2);
    assert_eq!(fb[7], 2);
    // Past the sprite: background tile 0 -> 0.
    assert_eq!(fb[8], 0);
}

#[test]
fn transparent_sprite_pixels_show_the_background() {
    let mut cpu = make_cpu();
    to_hblank(&mut cpu);
    cpu.bus_write_byte(0xFF40, 0x93);
    cpu.bus_write_byte(0xFF48, 0xE4);
    // Tile 2 stays all zero: every sprite pixel transparent.
    put_sprite(&mut cpu, 0, 16, 8, 2, 0x00);
    finish_line(&mut cpu);
    assert_eq!(cpu.framebuffer()[0], 0);
}

#[test]
fn background_priority_attribute_defers_to_nonzero_background() {
    let mut cpu = make_cpu();
    to_hblank(&mut cpu);
    cpu.bus_write_byte(0xFF40, 0x93);
    cpu.bus_write_byte(0xFF48, 0xE4);
    // Background tile 1: color index 1; BGP 0xFC maps it to 3.
    cpu.bus_write_byte(0x8010, 0xFF);
    cpu.bus_write_byte(0x9800, 0x01);
    // Sprite tile 2: color index 2, but behind non-zero background.
    cpu.bus_write_byte(0x8021, 0xFF);
    put_sprite(&mut cpu, 0, 16, 8, 2, 0x80);
    finish_line(&mut cpu);
    let fb = cpu.framebuffer();
    assert_eq!(fb[0], 3);
    // Off the background tile (tilemap column 1 is tile 0, color 0): the
    // deferring sprite is gone there anyway; plain background remains.
    assert_eq!(fb[8], 0);
}

#[test]
fn smaller_x_wins_between_overlapping_sprites() {
    let mut cpu = make_cpu();
    to_hblank(&mut cpu);
    cpu.bus_write_byte(0xFF40, 0x93);
    cpu.bus_write_byte(0xFF48, 0xE4);
    // Tile 2 -> color 2; tile 3 -> color 1.
    cpu.bus_write_byte(0x8021, 0xFF);
    cpu.bus_write_byte(0x8030, 0xFF);
    // Sprite 0 at X=12 with tile 2; sprite 1 at X=10 with tile 3.
    put_sprite(&mut cpu, 0, 16, 12, 2, 0x00);
    put_sprite(&mut cpu, 1, 16, 10, 3, 0x00);
    finish_line(&mut cpu);
    let fb = cpu.framebuffer();
    // Both cover pixel 4; the smaller X (sprite 1, color 1) wins.
    assert_eq!(fb[4], 1);
    // Pixel 10 is covered only by sprite 0.
    assert_eq!(fb[10], 2);
}

#[test]
fn x_flip_mirrors_the_row() {
    let mut cpu = make_cpu();
    to_hblank(&mut cpu);
    cpu.bus_write_byte(0xFF40, 0x93);
    cpu.bus_write_byte(0xFF48, 0xE4);
    // Tile 2 row 0 low plane 0x0F: colors 0,0,0,0,1,1,1,1.
    cpu.bus_write_byte(0x8020, 0x0F);
    put_sprite(&mut cpu, 0, 16, 8, 2, 0x20); // X flip
    finish_line(&mut cpu);
    let fb = cpu.framebuffer();
    // Flipped: colors 1,1,1,1,0,0,0,0.
    assert_eq!(fb[0], 1);
    assert_eq!(fb[3], 1);
    assert_eq!(fb[4], 0);
}

#[test]
fn second_object_palette_applies() {
    let mut cpu = make_cpu();
    to_hblank(&mut cpu);
    cpu.bus_write_byte(0xFF40, 0x93);
    cpu.bus_write_byte(0xFF49, 0x04); // OBP1: color 1 -> shade 1
    cpu.bus_write_byte(0x8020, 0xFF); // tile 2 row 0 -> color 1
    put_sprite(&mut cpu, 0, 16, 8, 2, 0x10); // OBP1 select
    finish_line(&mut cpu);
    assert_eq!(cpu.framebuffer()[0], 1);
}

#[test]
fn tall_sprites_stack_two_tiles() {
    let mut cpu = make_cpu();
    to_hblank(&mut cpu);
    cpu.bus_write_byte(0xFF40, 0x97); // LCD on, sprites on, 8x16
    cpu.bus_write_byte(0xFF48, 0xE4);
    // Tile pair 2/3; row 0 of tile 2 -> color 1. Sprite Y=9 puts sprite
    // row 7 on line 0... use Y=16 so line 0 is sprite row 0 (tile 2).
    cpu.bus_write_byte(0x8020, 0xFF);
    // An odd tile index is masked to the even pair base.
    put_sprite(&mut cpu, 0, 16, 8, 3, 0x00);
    finish_line(&mut cpu);
    assert_eq!(cpu.framebuffer()[0], 1);
}

#[test]
fn eleventh_sprite_on_a_line_is_dropped() {
    let mut cpu = make_cpu();
    to_hblank(&mut cpu);
    cpu.bus_write_byte(0xFF40, 0x93);
    cpu.bus_write_byte(0xFF48, 0xE4);
    cpu.bus_write_byte(0x8021, 0xFF); // tile 2 -> color 2
    // Ten sprites parked far right still intersect line 0 and fill the
    // scan's budget.
    for slot in 0..10 {
        put_sprite(&mut cpu, slot, 16, 160, 2, 0x00);
    }
    // The eleventh would cover pixel 0, but the scan is full.
    put_sprite(&mut cpu, 10, 16, 8, 2, 0x00);
    finish_line(&mut cpu);
    assert_eq!(cpu.framebuffer()[0], 0);
}
