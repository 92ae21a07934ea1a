//! The memory bus: decodes each 16-bit address to exactly one backing
//! device and performs the byte access there. The echo range mirrors work
//! RAM, unmapped addresses read 0xFF and drop writes, and the two serial
//! registers complete a transfer immediately into an output buffer.
use vstd::prelude::*;

use crate::cartridge::{spec_cart_read, spec_cart_write, Cartridge, CartridgeView};
use crate::gpu::{
    gpu_view_wf, spec_gpu_reg_read, spec_gpu_reg_write, spec_gpu_step, spec_oam_blocked,
    spec_vram_blocked, Gpu, GpuView,
};
use crate::ram::Ram;
use crate::timer::{
    spec_timer_read, spec_timer_tick, spec_timer_write, timer_view_wf, Timer, TimerView,
};

verus! {

/// The backing device a bus address resolves to, with the device-relative
/// offset.
pub enum Device {
    HRam(u16),
    OamRam(u16),
    WorkingRam(u16),
    VideoRam(u16),
    Cartridge(u16),
    Gpu(u16),
    Serial(u16),
    Timer(u16),
    Joypad,
    InterruptFlag,
    Unmapped,
}

/// The address decoder: every 16-bit address maps to exactly one device.
/// The echo range 0xE000-0xFDFF resolves to the mirrored work-RAM bytes.
pub open spec fn spec_resolve(addr: u16) -> Device {
    if addr < 0x8000 {
        Device::Cartridge(addr)
    } else if addr < 0xA000 {
        Device::VideoRam((addr - 0x8000) as u16)
    } else if addr < 0xC000 {
        Device::Cartridge(addr)
    } else if addr < 0xE000 {
        Device::WorkingRam((addr - 0xC000) as u16)
    } else if addr < 0xFE00 {
        Device::WorkingRam((addr - 0xE000) as u16)
    } else if addr < 0xFEA0 {
        Device::OamRam((addr - 0xFE00) as u16)
    } else if addr == 0xFF00 {
        Device::Joypad
    } else if addr == 0xFF01 || addr == 0xFF02 {
        Device::Serial((addr - 0xFF01) as u16)
    } else if 0xFF04 <= addr && addr < 0xFF08 {
        Device::Timer((addr - 0xFF04) as u16)
    } else if addr == 0xFF0F {
        Device::InterruptFlag
    } else if 0xFF40 <= addr && addr < 0xFF4C {
        Device::Gpu((addr - 0xFF40) as u16)
    } else if 0xFF80 <= addr {
        Device::HRam((addr - 0xFF80) as u16)
    } else {
        Device::Unmapped
    }
}

impl Device {
    /// Decodes `addr` into its backing device and relative offset.
    pub fn resolve_bus_address(addr: u16) -> (r: Device)
        ensures
            r == spec_resolve(addr),
    {
        if addr < 0x8000 {
            Device::Cartridge(addr)
        } else if addr < 0xA000 {
            Device::VideoRam(addr - 0x8000)
        } else if addr < 0xC000 {
            Device::Cartridge(addr)
        } else if addr < 0xE000 {
            Device::WorkingRam(addr - 0xC000)
        } else if addr < 0xFE00 {
            Device::WorkingRam(addr - 0xE000)
        } else if addr < 0xFEA0 {
            Device::OamRam(addr - 0xFE00)
        } else if addr == 0xFF00 {
            Device::Joypad
        } else if addr == 0xFF01 || addr == 0xFF02 {
            Device::Serial(addr - 0xFF01)
        } else if 0xFF04 <= addr && addr < 0xFF08 {
            Device::Timer(addr - 0xFF04)
        } else if addr == 0xFF0F {
            Device::InterruptFlag
        } else if 0xFF40 <= addr && addr < 0xFF4C {
            Device::Gpu(addr - 0xFF40)
        } else if 0xFF80 <= addr {
            Device::HRam(addr - 0xFF80)
        } else {
            Device::Unmapped
        }
    }
}

/// Mathematical model of everything reachable through the bus.
pub ghost struct BusView {
    pub h_ram: Seq<u8>,
    pub oam: Seq<u8>,
    pub wram: Seq<u8>,
    pub vram: Seq<u8>,
    pub cart: CartridgeView,
    pub gpu: GpuView,
    pub timer: TimerView,
    pub int_flag: u8,
    pub joypad_select: u8,
    pub joypad_state: u8,
    pub serial_data: u8,
    pub serial_ctrl: u8,
    pub serial_out: Seq<u8>,
}

/// The joypad register byte: the two row-select bits as written (active
/// low), and in the low nibble the inverted pressed-state of the selected
/// rows of the host's button snapshot (directions in its low nibble,
/// actions in its high one).
pub open spec fn spec_joypad_read(select: u8, state: u8) -> u8 {
    let pressed = (if select & 0x10 == 0 {
        state % 16
    } else {
        0u8
    }) | (if select & 0x20 == 0 {
        state / 16
    } else {
        0u8
    });
    ((0xC0u8 | (select & 0x30)) + (15 - pressed)) as u8
}

/// The interrupt-enable register IE lives at 0xFFFF, the top byte of the
/// high-RAM block.
pub open spec fn spec_int_enable(b: BusView) -> u8 {
    b.h_ram[0x7F]
}

/// The pending-interrupt mask: flagged, enabled, and among the five
/// architected sources.
pub open spec fn spec_pending(b: BusView) -> u8 {
    b.int_flag & spec_int_enable(b) & 0x1F
}

/// Well-formed bus: every backing store covers its full address window.
pub open spec fn bus_view_wf(b: BusView) -> bool {
    &&& b.h_ram.len() == 0x80
    &&& b.oam.len() == 0xA0
    &&& b.wram.len() == 0x2000
    &&& b.vram.len() == 0x2000
    &&& b.cart.ram.len() == 0x2000
    &&& gpu_view_wf(b.gpu)
    &&& timer_view_wf(b.timer)
}

/// The byte a read of `addr` returns. Unmapped addresses read 0xFF, as do
/// video RAM and object attribute memory while the PPU mode locks the CPU
/// out of them.
pub open spec fn spec_bus_read(b: BusView, addr: u16) -> u8 {
    match spec_resolve(addr) {
        Device::HRam(o) => b.h_ram[o as int],
        Device::OamRam(o) => if spec_oam_blocked(b.gpu) {
            0xFF
        } else {
            b.oam[o as int]
        },
        Device::WorkingRam(o) => b.wram[o as int],
        Device::VideoRam(o) => if spec_vram_blocked(b.gpu) {
            0xFF
        } else {
            b.vram[o as int]
        },
        Device::Cartridge(a) => spec_cart_read(b.cart, a),
        Device::Gpu(o) => spec_gpu_reg_read(b.gpu, o),
        Device::Serial(o) => if o == 0 {
            b.serial_data
        } else {
            b.serial_ctrl
        },
        Device::Timer(o) => spec_timer_read(b.timer, o),
        Device::Joypad => spec_joypad_read(b.joypad_select, b.joypad_state),
        Device::InterruptFlag => b.int_flag | 0xE0,
        Device::Unmapped => 0xFF,
    }
}

/// The bus after a byte is written to `addr`. Unmapped writes sink; a write
/// to the serial control register with bit 7 set completes the transfer at
/// once, appending the data byte to the output and clearing bit 7.
pub open spec fn spec_bus_write(b: BusView, addr: u16, byte: u8) -> BusView {
    match spec_resolve(addr) {
        Device::HRam(o) => BusView { h_ram: b.h_ram.update(o as int, byte), ..b },
        Device::OamRam(o) => if spec_oam_blocked(b.gpu) {
            b
        } else {
            BusView { oam: b.oam.update(o as int, byte), ..b }
        },
        Device::WorkingRam(o) => BusView { wram: b.wram.update(o as int, byte), ..b },
        Device::VideoRam(o) => if spec_vram_blocked(b.gpu) {
            b
        } else {
            BusView { vram: b.vram.update(o as int, byte), ..b }
        },
        Device::Cartridge(a) => BusView { cart: spec_cart_write(b.cart, a, byte), ..b },
        Device::Gpu(o) => BusView { gpu: spec_gpu_reg_write(b.gpu, o, byte), ..b },
        Device::Serial(o) => if o == 0 {
            BusView { serial_data: byte, ..b }
        } else if byte & 0x80 == 0x80 {
            BusView {
                serial_ctrl: byte & 0x7F,
                serial_out: b.serial_out.push(b.serial_data),
                ..b
            }
        } else {
            BusView { serial_ctrl: byte, ..b }
        },
        Device::Timer(o) => BusView { timer: spec_timer_write(b.timer, o, byte), ..b },
        Device::Joypad => BusView { joypad_select: byte & 0x30, ..b },
        Device::InterruptFlag => BusView { int_flag: byte & 0x1F, ..b },
        Device::Unmapped => b,
    }
}

/// The OR of two nibbles is a nibble.
proof fn lemma_or_nibble(a: u8, b: u8)
    requires
        a <= 15,
        b <= 15,
    ensures
        (a | b) <= 15,
{
    assert(a <= 15 && b <= 15 ==> (a | b) <= 15) by (bit_vector);
}

/// The bus after one 4-cycle tick of its clocked devices: the PPU, then
/// the timer.
pub open spec fn spec_bus_tick(b: BusView) -> BusView {
    spec_bus_timer_tick(spec_bus_gpu_tick(b))
}

/// The bus after `n` 4-cycle ticks.
pub open spec fn spec_bus_ticks(b: BusView, n: nat) -> BusView
    decreases n,
{
    if n == 0 {
        b
    } else {
        spec_bus_tick(spec_bus_ticks(b, (n - 1) as nat))
    }
}

/// The bus after one timer step: the timer advances by 4 cycles, and the
/// delayed reload after a TIMA overflow raises the timer interrupt flag.
pub open spec fn spec_bus_timer_tick(b: BusView) -> BusView {
    let t = spec_timer_tick(b.timer);
    BusView {
        timer: t.0,
        int_flag: if t.1 {
            b.int_flag | 4
        } else {
            b.int_flag
        },
        ..b
    }
}

/// The bus after one PPU step: the PPU advances; entering vertical blank
/// (LY moving onto line 144) raises the VBlank interrupt flag, and the
/// LCD STAT flag rises exactly on the rising edge of the OR of the
/// enabled STAT sources.
pub open spec fn spec_bus_gpu_tick(b: BusView) -> BusView {
    let g2 = spec_gpu_step(b.gpu, b.vram, b.oam);
    let vblank = b.gpu.ly == 143 && g2.ly == 144;
    let stat_hit = !crate::gpu::spec_stat_line(b.gpu) && crate::gpu::spec_stat_line(g2);
    BusView {
        gpu: g2,
        int_flag: b.int_flag | (if vblank {
            1u8
        } else {
            0u8
        }) | (if stat_hit {
            2u8
        } else {
            0u8
        }),
        ..b
    }
}

/// The next address, wrapping around the 16-bit address space.
pub open spec fn wrap_inc16(a: u16) -> u16 {
    if a == 0xFFFF {
        0u16
    } else {
        (a + 1) as u16
    }
}

/// Memory echo: a byte written anywhere in 0xC000-0xDDFF is read back at
/// the address 0x2000 above it, and the other way round.
pub proof fn lemma_memory_echo(b: BusView, addr: u16, byte: u8)
    requires
        bus_view_wf(b),
        0xC000 <= addr <= 0xDDFF,
    ensures
        spec_bus_read(spec_bus_write(b, addr, byte), (addr + 0x2000) as u16) == byte,
        spec_bus_read(spec_bus_write(b, (addr + 0x2000) as u16, byte), addr) == byte,
{
}

/// The bus: the owning hub of every memory block, the PPU, and the serial
/// port.
pub struct Bus {
    h_ram: Ram,
    oam_ram: Ram,
    working_ram: Ram,
    video_ram: Ram,
    cartridge: Cartridge,
    gpu: Gpu,
    timer: Timer,
    int_flag: u8,
    joypad_select: u8,
    joypad_state: u8,
    serial_data: u8,
    serial_ctrl: u8,
    serial_out: Vec<u8>,
}

impl View for Bus {
    type V = BusView;

    closed spec fn view(&self) -> BusView {
        BusView {
            h_ram: self.h_ram@,
            oam: self.oam_ram@,
            wram: self.working_ram@,
            vram: self.video_ram@,
            cart: self.cartridge@,
            gpu: self.gpu@,
            timer: self.timer@,
            int_flag: self.int_flag,
            joypad_select: self.joypad_select,
            joypad_state: self.joypad_state,
            serial_data: self.serial_data,
            serial_ctrl: self.serial_ctrl,
            serial_out: self.serial_out@,
        }
    }
}

impl Bus {
    /// Well-formed bus.
    pub open spec fn wf(&self) -> bool {
        bus_view_wf(self@)
    }

    /// Assembles a bus over its backing devices.
    pub fn new(
        cartridge: Cartridge,
        video_ram: Ram,
        h_ram: Ram,
        oam_ram: Ram,
        working_ram: Ram,
        gpu: Gpu,
    ) -> (r: Bus)
        requires
            h_ram@.len() == 0x80,
            oam_ram@.len() == 0xA0,
            working_ram@.len() == 0x2000,
            video_ram@.len() == 0x2000,
            cartridge.wf(),
            gpu.wf(),
        ensures
            r.wf(),
            r@ == (BusView {
                h_ram: h_ram@,
                oam: oam_ram@,
                wram: working_ram@,
                vram: video_ram@,
                cart: cartridge@,
                gpu: gpu@,
                timer: (TimerView {
                    div_counter: 0u16,
                    tima: 0u8,
                    tima_counter: 0u32,
                    tma: 0u8,
                    tac: 0u8,
                    reload_pending: false,
                }),
                int_flag: 0u8,
                joypad_select: 0x30u8,
                joypad_state: 0u8,
                serial_data: 0u8,
                serial_ctrl: 0u8,
                serial_out: Seq::<u8>::empty(),
            }),
    {
        let r = Bus {
            h_ram,
            oam_ram,
            working_ram,
            video_ram,
            cartridge,
            gpu,
            timer: Timer::new(),
            int_flag: 0,
            joypad_select: 0x30,
            joypad_state: 0,
            serial_data: 0,
            serial_ctrl: 0,
            serial_out: Vec::new(),
        };
        proof {
            assert(r@.serial_out =~= Seq::<u8>::empty());
        }
        r
    }

    /// Reads the byte at `address` from the device it decodes to.
    pub fn read_byte(&self, address: u16) -> (r: u8)
        requires
            self.wf(),
        ensures
            r == spec_bus_read(self@, address),
    {
        match Device::resolve_bus_address(address) {
            Device::HRam(o) => self.h_ram.read(o),
            Device::OamRam(o) => if self.gpu.oam_blocked() {
                0xFF
            } else {
                self.oam_ram.read(o)
            },
            Device::WorkingRam(o) => self.working_ram.read(o),
            Device::VideoRam(o) => if self.gpu.vram_blocked() {
                0xFF
            } else {
                self.video_ram.read(o)
            },
            Device::Cartridge(a) => self.cartridge.read(a),
            Device::Gpu(o) => self.gpu.read(o),
            Device::Serial(o) => if o == 0 {
                self.serial_data
            } else {
                self.serial_ctrl
            },
            Device::Timer(o) => self.timer.read(o),
            Device::Joypad => {
                let dirs = if self.joypad_select & 0x10 == 0 {
                    self.joypad_state % 16
                } else {
                    0
                };
                let acts = if self.joypad_select & 0x20 == 0 {
                    self.joypad_state / 16
                } else {
                    0
                };
                let sel = self.joypad_select;
                proof {
                    lemma_or_nibble(dirs, acts);
                    assert((0xC0u8 | (sel & 0x30)) <= 0xF0) by (bit_vector);
                }
                (0xC0u8 | (sel & 0x30)) + (15 - (dirs | acts))
            },
            Device::InterruptFlag => self.int_flag | 0xE0,
            Device::Unmapped => 0xFF,
        }
    }

    /// Writes a byte to the device `address` decodes to.
    pub fn write_byte(&mut self, address: u16, byte: u8)
        requires
            old(self).wf(),
        ensures
            final(self)@ == spec_bus_write(old(self)@, address, byte),
            final(self).wf(),
    {
        match Device::resolve_bus_address(address) {
            Device::HRam(o) => self.h_ram.write(o, byte),
            Device::OamRam(o) => if self.gpu.oam_blocked() {
            } else {
                self.oam_ram.write(o, byte)
            },
            Device::WorkingRam(o) => self.working_ram.write(o, byte),
            Device::VideoRam(o) => if self.gpu.vram_blocked() {
            } else {
                self.video_ram.write(o, byte)
            },
            Device::Cartridge(a) => self.cartridge.write(a, byte),
            Device::Gpu(o) => self.gpu.write(o, byte),
            Device::Serial(o) => if o == 0 {
                self.serial_data = byte;
            } else if byte & 0x80 == 0x80 {
                self.serial_out.push(self.serial_data);
                self.serial_ctrl = byte & 0x7F;
            } else {
                self.serial_ctrl = byte;
            },
            Device::Timer(o) => self.timer.write(o, byte),
            Device::Joypad => self.joypad_select = byte & 0x30,
            Device::InterruptFlag => self.int_flag = byte & 0x1F,
            Device::Unmapped => {},
        }
    }

    /// Takes the host's joypad snapshot: pressed buttons as set bits,
    /// directions in the low nibble (right, left, up, down), actions in
    /// the high one (A, B, Select, Start).
    pub fn set_joypad(&mut self, state: u8)
        ensures
            final(self)@ == (BusView { joypad_state: state, ..old(self)@ }),
    {
        self.joypad_state = state;
    }

    /// Writes a 16-bit word as two byte writes, little-endian: the low byte
    /// at `address`, the high byte at the next address.
    pub fn write_word(&mut self, address: u16, word: u16)
        requires
            old(self).wf(),
        ensures
            final(self)@ == spec_bus_write(
                spec_bus_write(old(self)@, address, (word % 256) as u8),
                wrap_inc16(address),
                (word / 256) as u8,
            ),
            final(self).wf(),
    {
        let (upper, lower) = crate::split_word(word);
        self.write_byte(address, lower);
        let next = if address == 0xFFFF {
            0
        } else {
            address + 1
        };
        self.write_byte(next, upper);
    }

    /// Advances the PPU by one 4-cycle step against the bus's video RAM
    /// and OAM, raising the VBlank interrupt on entry into vertical blank
    /// and the LCD STAT interrupt on the rising edge of the STAT line.
    pub fn step_gpu(&mut self)
        requires
            old(self).wf(),
        ensures
            final(self)@ == spec_bus_gpu_tick(old(self)@),
            final(self).wf(),
    {
        let before_ly = self.gpu.ly();
        let before_line = self.gpu.stat_line();
        self.gpu.step(&self.video_ram, &self.oam_ram);
        let vblank = before_ly == 143 && self.gpu.ly() == 144;
        let stat_hit = !before_line && self.gpu.stat_line();
        self.int_flag = self.int_flag | (if vblank {
            1
        } else {
            0
        }) | (if stat_hit {
            2
        } else {
            0
        });
    }

    /// Advances the timer by 4 machine cycles, raising the timer interrupt
    /// when the delayed reload after a TIMA overflow lands.
    pub fn step_timer(&mut self)
        requires
            old(self).wf(),
        ensures
            final(self)@ == spec_bus_timer_tick(old(self)@),
            final(self).wf(),
    {
        let request = self.timer.step();
        if request {
            self.int_flag = self.int_flag | 4;
        }
    }

    /// The pending-interrupt mask: IF and IE bits that are both set, among
    /// the five architected sources.
    pub fn pending_interrupts(&self) -> (r: u8)
        requires
            self.wf(),
        ensures
            r == spec_pending(self@),
    {
        self.int_flag & self.h_ram.read(0x7F) & 0x1F
    }

    /// Acknowledges interrupt source `idx`, clearing its flag bit.
    pub fn clear_interrupt(&mut self, idx: u8)
        requires
            idx < 8,
        ensures
            final(self)@ == (BusView {
                int_flag: old(self)@.int_flag & (0xFFu8 ^ (1u8 << idx)),
                ..old(self)@
            }),
    {
        self.int_flag = self.int_flag & (0xFFu8 ^ (1u8 << idx));
    }

    /// The cartridge's battery-backed external RAM, for the host to
    /// persist.
    pub fn external_ram(&self) -> (r: &Vec<u8>)
        ensures
            r@ == self@.cart.ram,
    {
        self.cartridge.external_ram()
    }

    /// Restores a persisted external RAM blob of the exact window size.
    pub fn load_external_ram(&mut self, data: Vec<u8>) -> (ok: bool)
        requires
            old(self).wf(),
        ensures
            ok == (data@.len() == 0x2000),
            ok ==> final(self)@ == (BusView {
                cart: CartridgeView { ram: data@, ..old(self)@.cart },
                ..old(self)@
            }),
            !ok ==> final(self)@ == old(self)@,
            final(self).wf(),
    {
        self.cartridge.load_external_ram(data)
    }

    /// The bytes emitted through the serial port so far, oldest first.
    pub fn serial_output(&self) -> (r: &Vec<u8>)
        ensures
            r@ == self@.serial_out,
    {
        &self.serial_out
    }

    /// The PPU's framebuffer: 160x144 2-bit colors in row-major order.
    pub fn framebuffer(&self) -> (r: &Vec<u8>)
        ensures
            r@ == self@.gpu.fb,
    {
        self.gpu.framebuffer()
    }
}

} // verus!
