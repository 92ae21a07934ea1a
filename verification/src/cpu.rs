//! The Sharp LR35902 interpreter: register file, flag arithmetic, fetch,
//! decode and execute over the bus, and the stack discipline.
use vstd::prelude::*;

use crate::bus::{bus_view_wf, spec_bus_read, spec_bus_write, spec_pending, wrap_inc16, Bus, BusView};
use crate::{spec_join, EmuError};

verus! {

/// The previous address, wrapping around the 16-bit address space.
pub open spec fn wrap_dec16(a: u16) -> u16 {
    if a == 0 {
        0xFFFFu16
    } else {
        (a - 1) as u16
    }
}

/// One of the eight-bit registers addressable by instructions.
#[derive(Clone, Copy)]
pub enum TargetRegister {
    A,
    B,
    C,
    D,
    E,
    H,
    L,
}

/// One of the 16-bit register pairs.
#[derive(Clone, Copy)]
pub enum TargetPair {
    AF,
    BC,
    DE,
    HL,
}

/// Mathematical model of the flag register: the four observable bits.
pub ghost struct FlagsView {
    pub z: bool,
    pub n: bool,
    pub h: bool,
    pub c: bool,
}

/// The flags decoded from a byte: Z, N, H, C at bits 7 down to 4.
pub open spec fn spec_flags_from_byte(byte: u8) -> FlagsView {
    FlagsView {
        z: byte & 0x80 == 0x80,
        n: byte & 0x40 == 0x40,
        h: byte & 0x20 == 0x20,
        c: byte & 0x10 == 0x10,
    }
}

/// The byte a flag register reads as: bits 7..4 from the flags, low nibble
/// always zero.
pub open spec fn spec_flags_to_byte(f: FlagsView) -> u8 {
    (if f.z { 0x80u8 } else { 0u8 }) | (if f.n { 0x40u8 } else { 0u8 })
        | (if f.h { 0x20u8 } else { 0u8 }) | (if f.c { 0x10u8 } else { 0u8 })
}

/// Flag round-trip: a byte stored into the flag register reads back with
/// its low nibble cleared.
pub proof fn lemma_flag_byte_round_trip(byte: u8)
    ensures
        spec_flags_to_byte(spec_flags_from_byte(byte)) == byte & 0xF0,
{
    assert((if byte & 0x80 == 0x80 { 0x80u8 } else { 0u8 }) | (if byte & 0x40 == 0x40 {
        0x40u8
    } else {
        0u8
    }) | (if byte & 0x20 == 0x20 { 0x20u8 } else { 0u8 }) | (if byte & 0x10 == 0x10 {
        0x10u8
    } else {
        0u8
    }) == byte & 0xF0) by (bit_vector);
}

/// The flag register: zero, subtract, half-carry and carry bits.
pub struct FlagRegister {
    z: bool,
    n: bool,
    h: bool,
    c: bool,
}

impl View for FlagRegister {
    type V = FlagsView;

    closed spec fn view(&self) -> FlagsView {
        FlagsView { z: self.z, n: self.n, h: self.h, c: self.c }
    }
}

impl FlagRegister {
    /// Decodes the four flags from bits 7..4 of a byte.
    pub fn from_byte(byte: u8) -> (r: FlagRegister)
        ensures
            r@ == spec_flags_from_byte(byte),
    {
        FlagRegister {
            z: byte & 0x80 == 0x80,
            n: byte & 0x40 == 0x40,
            h: byte & 0x20 == 0x20,
            c: byte & 0x10 == 0x10,
        }
    }

    /// Encodes the flags as the byte the F register reads as.
    pub fn to_byte(&self) -> (r: u8)
        ensures
            r == spec_flags_to_byte(self@),
    {
        (if self.z { 0x80u8 } else { 0u8 }) | (if self.n { 0x40u8 } else { 0u8 })
            | (if self.h { 0x20u8 } else { 0u8 }) | (if self.c { 0x10u8 } else { 0u8 })
    }

    /// Sets the zero flag.
    pub fn set_z(&mut self, flag: bool)
        ensures
            final(self)@ == (FlagsView { z: flag, ..old(self)@ }),
    {
        self.z = flag
    }

    /// Sets the subtract flag.
    pub fn set_n(&mut self, flag: bool)
        ensures
            final(self)@ == (FlagsView { n: flag, ..old(self)@ }),
    {
        self.n = flag
    }

    /// Sets the half-carry flag.
    pub fn set_h(&mut self, flag: bool)
        ensures
            final(self)@ == (FlagsView { h: flag, ..old(self)@ }),
    {
        self.h = flag
    }

    /// Sets the carry flag.
    pub fn set_c(&mut self, flag: bool)
        ensures
            final(self)@ == (FlagsView { c: flag, ..old(self)@ }),
    {
        self.c = flag
    }

    /// The zero flag.
    pub fn get_z(&self) -> (r: bool)
        ensures
            r == self@.z,
    {
        self.z
    }

    /// The subtract flag.
    pub fn get_n(&self) -> (r: bool)
        ensures
            r == self@.n,
    {
        self.n
    }

    /// The half-carry flag.
    pub fn get_h(&self) -> (r: bool)
        ensures
            r == self@.h,
    {
        self.h
    }

    /// The carry flag.
    pub fn get_c(&self) -> (r: bool)
        ensures
            r == self@.c,
    {
        self.c
    }
}

/// Mathematical model of the register file.
pub ghost struct RegsView {
    pub a: u8,
    pub b: u8,
    pub c: u8,
    pub d: u8,
    pub e: u8,
    pub h: u8,
    pub l: u8,
    pub f: FlagsView,
}

/// The byte held by register `t`.
pub open spec fn read_reg(r: RegsView, t: TargetRegister) -> u8 {
    match t {
        TargetRegister::A => r.a,
        TargetRegister::B => r.b,
        TargetRegister::C => r.c,
        TargetRegister::D => r.d,
        TargetRegister::E => r.e,
        TargetRegister::H => r.h,
        TargetRegister::L => r.l,
    }
}

/// The register file after `byte` is stored into register `t`.
pub open spec fn write_reg(r: RegsView, t: TargetRegister, byte: u8) -> RegsView {
    match t {
        TargetRegister::A => RegsView { a: byte, ..r },
        TargetRegister::B => RegsView { b: byte, ..r },
        TargetRegister::C => RegsView { c: byte, ..r },
        TargetRegister::D => RegsView { d: byte, ..r },
        TargetRegister::E => RegsView { e: byte, ..r },
        TargetRegister::H => RegsView { h: byte, ..r },
        TargetRegister::L => RegsView { l: byte, ..r },
    }
}

/// The 16-bit value held by pair `p`; AF reads the flag register's byte in
/// the low half.
pub open spec fn read_pair(r: RegsView, p: TargetPair) -> u16 {
    match p {
        TargetPair::AF => spec_join(r.a, spec_flags_to_byte(r.f)),
        TargetPair::BC => spec_join(r.b, r.c),
        TargetPair::DE => spec_join(r.d, r.e),
        TargetPair::HL => spec_join(r.h, r.l),
    }
}

/// The register file after `word` is stored into pair `p`; the low byte of
/// AF passes through the flag register and so drops its low nibble.
pub open spec fn write_pair(r: RegsView, p: TargetPair, word: u16) -> RegsView {
    let hi = (word / 256) as u8;
    let lo = (word % 256) as u8;
    match p {
        TargetPair::AF => RegsView { a: hi, f: spec_flags_from_byte(lo), ..r },
        TargetPair::BC => RegsView { b: hi, c: lo, ..r },
        TargetPair::DE => RegsView { d: hi, e: lo, ..r },
        TargetPair::HL => RegsView { h: hi, l: lo, ..r },
    }
}

/// Register round-trip: writing a byte to any 8-bit register and reading it
/// back returns the byte unchanged.
pub proof fn lemma_register_round_trip(r: RegsView, t: TargetRegister, byte: u8)
    ensures
        read_reg(write_reg(r, t, byte), t) == byte,
{
}

/// Pair round-trip: writing a word to a register pair and reading the pair
/// back returns the word, with AF masking the flag register's low nibble.
pub proof fn lemma_pair_round_trip(r: RegsView, p: TargetPair, word: u16)
    ensures
        read_pair(write_pair(r, p, word), p) == (if p == TargetPair::AF {
            word & 0xFFF0
        } else {
            word
        }),
{
    let hi = (word / 256) as u8;
    let lo = (word % 256) as u8;
    if p == TargetPair::AF {
        lemma_flag_byte_round_trip(lo);
        assert((((word % 256) as u8 & 0xF0) as u16) + ((word / 256) as u8 as u16) * 256 == (word
            & 0xFFF0)) by (bit_vector);
    }
}

/// The successor of a byte, wrapping at 0xFF.
pub open spec fn wrap_inc8(v: u8) -> u8 {
    if v == 0xFF {
        0u8
    } else {
        (v + 1) as u8
    }
}

/// The predecessor of a byte, wrapping at 0.
pub open spec fn wrap_dec8(v: u8) -> u8 {
    if v == 0 {
        0xFFu8
    } else {
        (v - 1) as u8
    }
}

/// Flags after INC r: zero by result, subtract cleared, half-carry when the
/// low nibble overflows, carry untouched.
pub open spec fn spec_inc8_flags(f: FlagsView, v: u8) -> FlagsView {
    FlagsView { z: wrap_inc8(v) == 0, n: false, h: v % 16 == 15, c: f.c }
}

/// Flags after DEC r: zero by result, subtract set, half-carry when the low
/// nibble borrows, carry untouched.
pub open spec fn spec_dec8_flags(f: FlagsView, v: u8) -> FlagsView {
    FlagsView { z: wrap_dec8(v) == 0, n: true, h: v % 16 == 0, c: f.c }
}

/// The byte sum, wrapping at 0xFF.
pub open spec fn spec_add8(a: u8, x: u8) -> u8 {
    ((a + x) % 256) as u8
}

/// Flags after ADD A,x: zero by result, subtract cleared, half-carry from
/// bit 3, carry from bit 7.
pub open spec fn spec_add8_flags(a: u8, x: u8) -> FlagsView {
    FlagsView { z: spec_add8(a, x) == 0, n: false, h: a % 16 + x % 16 > 15, c: a + x > 255 }
}

/// Flags after XOR A,x: zero by result, the rest cleared.
pub open spec fn spec_xor8_flags(a: u8, x: u8) -> FlagsView {
    FlagsView { z: (a ^ x) == 0, n: false, h: false, c: false }
}

/// Flags after CP A,x: A itself is untouched; zero on equality, subtract
/// set, half-carry and carry from the would-be subtraction.
pub open spec fn spec_cp_flags(a: u8, x: u8) -> FlagsView {
    FlagsView { z: a == x, n: true, h: a % 16 < x % 16, c: a < x }
}

/// The accumulator rotated left by one, bit 7 into bit 0.
pub open spec fn spec_rlca8(a: u8) -> u8 {
    ((a * 2) % 256 + if a >= 128 {
        1int
    } else {
        0int
    }) as u8
}

/// The accumulator rotated right by one, bit 0 into bit 7.
pub open spec fn spec_rrca8(a: u8) -> u8 {
    (a / 2 + if a % 2 == 1 {
        128int
    } else {
        0int
    }) as u8
}

/// The 16-bit sum, wrapping at 0xFFFF.
pub open spec fn spec_add16(a: u16, b: u16) -> u16 {
    ((a + b) % 0x10000) as u16
}

/// Flags after ADD HL,rr: zero untouched, subtract cleared, half-carry from
/// bit 11, carry from bit 15.
pub open spec fn spec_add16_flags(f: FlagsView, a: u16, b: u16) -> FlagsView {
    FlagsView { z: f.z, n: false, h: a % 0x1000 + b % 0x1000 > 0xFFF, c: a + b > 0xFFFF }
}

/// The target of a relative jump: the post-operand PC plus the
/// sign-extended offset, wrapping around the address space.
pub open spec fn spec_jr_target(pc: u16, off: u8) -> u16 {
    ((pc + off + if off >= 0x80 {
        0xFF00int
    } else {
        0int
    }) % 0x10000) as u16
}

/// The eight-bit register file, with the flag register.
pub struct Registers {
    pub a: u8,
    pub b: u8,
    pub c: u8,
    pub d: u8,
    pub e: u8,
    pub h: u8,
    pub l: u8,
    pub f: FlagRegister,
}

impl View for Registers {
    type V = RegsView;

    closed spec fn view(&self) -> RegsView {
        RegsView {
            a: self.a,
            b: self.b,
            c: self.c,
            d: self.d,
            e: self.e,
            h: self.h,
            l: self.l,
            f: self.f@,
        }
    }
}

impl Registers {
    /// Stores `half_word` into register `target`.
    pub fn write(&mut self, target: TargetRegister, half_word: u8)
        ensures
            final(self)@ == write_reg(old(self)@, target, half_word),
    {
        match target {
            TargetRegister::A => self.a = half_word,
            TargetRegister::B => self.b = half_word,
            TargetRegister::C => self.c = half_word,
            TargetRegister::D => self.d = half_word,
            TargetRegister::E => self.e = half_word,
            TargetRegister::H => self.h = half_word,
            TargetRegister::L => self.l = half_word,
        }
    }

    /// The byte held by register `target`.
    pub fn read(&self, target: TargetRegister) -> (r: u8)
        ensures
            r == read_reg(self@, target),
    {
        match target {
            TargetRegister::A => self.a,
            TargetRegister::B => self.b,
            TargetRegister::C => self.c,
            TargetRegister::D => self.d,
            TargetRegister::E => self.e,
            TargetRegister::H => self.h,
            TargetRegister::L => self.l,
        }
    }

    /// The 16-bit value held by pair `target`.
    pub fn read_pair(&self, target: TargetPair) -> (r: u16)
        ensures
            r == read_pair(self@, target),
    {
        match target {
            TargetPair::AF => crate::join_half_words(self.a, self.f.to_byte()),
            TargetPair::BC => crate::join_half_words(self.b, self.c),
            TargetPair::DE => crate::join_half_words(self.d, self.e),
            TargetPair::HL => crate::join_half_words(self.h, self.l),
        }
    }

    /// Stores `word` into pair `target`.
    pub fn write_pair(&mut self, target: TargetPair, word: u16)
        ensures
            final(self)@ == write_pair(old(self)@, target, word),
    {
        let (hi, lo) = crate::split_word(word);
        match target {
            TargetPair::AF => {
                self.a = hi;
                self.f = FlagRegister::from_byte(lo);
            },
            TargetPair::BC => {
                self.b = hi;
                self.c = lo;
            },
            TargetPair::DE => {
                self.d = hi;
                self.e = lo;
            },
            TargetPair::HL => {
                self.h = hi;
                self.l = lo;
            },
        }
    }
}

/// The 8-bit register operand encoded by a three-bit instruction field;
/// index 6 encodes the memory operand (HL) and yields no register.
pub open spec fn spec_reg_of(i: u8) -> Option<TargetRegister> {
    if i == 0 {
        Some(TargetRegister::B)
    } else if i == 1 {
        Some(TargetRegister::C)
    } else if i == 2 {
        Some(TargetRegister::D)
    } else if i == 3 {
        Some(TargetRegister::E)
    } else if i == 4 {
        Some(TargetRegister::H)
    } else if i == 5 {
        Some(TargetRegister::L)
    } else if i == 7 {
        Some(TargetRegister::A)
    } else {
        None
    }
}

/// Mathematical model of the whole processor: register file, the two
/// 16-bit special registers, the halt and interrupt-enable latches, and
/// everything reachable over the bus.
pub ghost struct CpuView {
    pub regs: RegsView,
    pub pc: u16,
    pub sp: u16,
    pub halted: bool,
    pub ime: bool,
    pub ime_scheduled: bool,
    pub bus: BusView,
}

/// The interpreter: fetches at PC, executes, and owns the bus.
pub struct Cpu {
    registers: Registers,
    pc: u16,
    sp: u16,
    bus: Bus,
    halted: bool,
    ime: bool,
    ime_scheduled: bool,
}

impl View for Cpu {
    type V = CpuView;

    closed spec fn view(&self) -> CpuView {
        CpuView {
            regs: self.registers@,
            pc: self.pc,
            sp: self.sp,
            halted: self.halted,
            ime: self.ime,
            ime_scheduled: self.ime_scheduled,
            bus: self.bus@,
        }
    }
}

/// The register file immediately after the boot ROM hands over control.
pub open spec fn spec_reset_regs() -> RegsView {
    RegsView {
        a: 0x01,
        b: 0x00,
        c: 0x13,
        d: 0x00,
        e: 0xD8,
        h: 0x01,
        l: 0x4D,
        f: spec_flags_from_byte(0xB0),
    }
}

impl Cpu {
    /// Well-formed processor: the bus behind it is well-formed.
    pub open spec fn wf(&self) -> bool {
        bus_view_wf(self@.bus)
    }

    /// A processor in the post-boot state, owning `bus`: PC at the
    /// cartridge entry point 0x0100, SP at 0xFFFE.
    pub fn new(bus: Bus) -> (r: Cpu)
        requires
            bus.wf(),
        ensures
            r.wf(),
            r@ == (CpuView {
                regs: spec_reset_regs(),
                pc: 0x100u16,
                sp: 0xFFFEu16,
                halted: false,
                ime: false,
                ime_scheduled: false,
                bus: bus@,
            }),
    {
        Cpu {
            registers: Registers {
                a: 0x01,
                b: 0x00,
                c: 0x13,
                d: 0x00,
                e: 0xD8,
                h: 0x01,
                l: 0x4D,
                f: FlagRegister::from_byte(0xB0),
            },
            pc: 0x100,
            sp: 0xFFFE,
            bus,
            halted: false,
            ime: false,
            ime_scheduled: false,
        }
    }

    /// Reads the byte at `address` over the bus.
    pub fn bus_read_byte(&self, address: u16) -> (r: u8)
        requires
            self.wf(),
        ensures
            r == spec_bus_read(self@.bus, address),
    {
        self.bus.read_byte(address)
    }

    /// Writes a byte at `address` over the bus.
    pub fn bus_write_byte(&mut self, address: u16, byte: u8)
        requires
            old(self).wf(),
        ensures
            final(self)@ == (CpuView {
                bus: spec_bus_write(old(self)@.bus, address, byte),
                ..old(self)@
            }),
            final(self).wf(),
    {
        self.bus.write_byte(address, byte)
    }

    /// Writes a 16-bit word at `address` over the bus, little-endian.
    pub fn bus_write_word(&mut self, address: u16, word: u16)
        requires
            old(self).wf(),
        ensures
            final(self)@ == (CpuView {
                bus: spec_bus_write(
                    spec_bus_write(old(self)@.bus, address, (word % 256) as u8),
                    wrap_inc16(address),
                    (word / 256) as u8,
                ),
                ..old(self)@
            }),
            final(self).wf(),
    {
        self.bus.write_word(address, word)
    }

    /// Advances the PPU by one 4-cycle step, raising the VBlank interrupt
    /// when the PPU enters vertical blank.
    pub fn step_gpu(&mut self)
        requires
            old(self).wf(),
        ensures
            final(self)@ == (CpuView {
                bus: crate::bus::spec_bus_gpu_tick(old(self)@.bus),
                ..old(self)@
            }),
            final(self).wf(),
    {
        self.bus.step_gpu()
    }

    /// Advances the timer by 4 machine cycles, raising the timer interrupt
    /// when the delayed reload after a TIMA overflow lands.
    pub fn step_timer(&mut self)
        requires
            old(self).wf(),
        ensures
            final(self)@ == (CpuView {
                bus: crate::bus::spec_bus_timer_tick(old(self)@.bus),
                ..old(self)@
            }),
            final(self).wf(),
    {
        self.bus.step_timer()
    }

    /// The program counter.
    pub fn pc(&self) -> (r: u16)
        ensures
            r == self@.pc,
    {
        self.pc
    }

    /// Sets the program counter.
    pub fn set_pc(&mut self, pc: u16)
        ensures
            final(self)@ == (CpuView { pc, ..old(self)@ }),
    {
        self.pc = pc;
    }

    /// The stack pointer.
    pub fn sp(&self) -> (r: u16)
        ensures
            r == self@.sp,
    {
        self.sp
    }

    /// Sets the stack pointer.
    pub fn set_sp(&mut self, sp: u16)
        ensures
            final(self)@ == (CpuView { sp, ..old(self)@ }),
    {
        self.sp = sp;
    }

    /// Whether the processor is halted.
    pub fn is_halted(&self) -> (r: bool)
        ensures
            r == self@.halted,
    {
        self.halted
    }

    /// The byte held by register `target`.
    pub fn register(&self, target: TargetRegister) -> (r: u8)
        ensures
            r == read_reg(self@.regs, target),
    {
        self.registers.read(target)
    }

    /// Stores `byte` into register `target`.
    pub fn set_register(&mut self, target: TargetRegister, byte: u8)
        ensures
            final(self)@ == (CpuView {
                regs: write_reg(old(self)@.regs, target, byte),
                ..old(self)@
            }),
    {
        self.registers.write(target, byte)
    }

    /// The flag register.
    pub fn flags(&self) -> (r: &FlagRegister)
        ensures
            r@ == self@.regs.f,
    {
        &self.registers.f
    }

    /// Takes the host's joypad snapshot: pressed buttons as set bits,
    /// directions in the low nibble, actions in the high one.
    pub fn set_joypad(&mut self, state: u8)
        ensures
            final(self)@ == (CpuView {
                bus: BusView { joypad_state: state, ..old(self)@.bus },
                ..old(self)@
            }),
    {
        self.bus.set_joypad(state)
    }

    /// The cartridge's battery-backed external RAM, for the host to
    /// persist.
    pub fn external_ram(&self) -> (r: &Vec<u8>)
        ensures
            r@ == self@.bus.cart.ram,
    {
        self.bus.external_ram()
    }

    /// Restores a persisted external RAM blob of the exact window size.
    pub fn load_external_ram(&mut self, data: Vec<u8>) -> (ok: bool)
        requires
            old(self).wf(),
        ensures
            ok == (data@.len() == 0x2000),
            ok ==> final(self)@ == (CpuView {
                bus: BusView {
                    cart: crate::cartridge::CartridgeView { ram: data@, ..old(self)@.bus.cart },
                    ..old(self)@.bus
                },
                ..old(self)@
            }),
            !ok ==> final(self)@ == old(self)@,
            final(self).wf(),
    {
        self.bus.load_external_ram(data)
    }

    /// The bytes emitted through the serial port so far, oldest first.
    pub fn serial_output(&self) -> (r: &Vec<u8>)
        ensures
            r@ == self@.bus.serial_out,
    {
        self.bus.serial_output()
    }

    /// The PPU's framebuffer: 160x144 2-bit colors in row-major order.
    pub fn framebuffer(&self) -> (r: &Vec<u8>)
        ensures
            r@ == self@.bus.gpu.fb,
    {
        self.bus.framebuffer()
    }
}

/// The first operand byte: the byte at PC.
pub open spec fn spec_op1(s: CpuView) -> u8 {
    spec_bus_read(s.bus, s.pc)
}

/// The second operand byte: the byte after the one at PC.
pub open spec fn spec_op2(s: CpuView) -> u8 {
    spec_bus_read(s.bus, wrap_inc16(s.pc))
}

/// The processor with PC advanced past a one-byte operand.
pub open spec fn spec_skip1(s: CpuView) -> CpuView {
    CpuView { pc: wrap_inc16(s.pc), ..s }
}

/// The processor with PC advanced past a two-byte operand.
pub open spec fn spec_skip2(s: CpuView) -> CpuView {
    CpuView { pc: wrap_inc16(wrap_inc16(s.pc)), ..s }
}

/// LD rr,u16: the high operand byte into the first register of the pair,
/// the low one into the second.
pub open spec fn spec_ldn_u16(
    s: CpuView,
    r1: TargetRegister,
    r2: TargetRegister,
    lo: u8,
    hi: u8,
) -> CpuView {
    CpuView { regs: write_reg(write_reg(s.regs, r1, hi), r2, lo), ..s }
}

/// LD r,u8: the operand byte into the register.
pub open spec fn spec_ldn_u8(s: CpuView, r: TargetRegister, byte: u8) -> CpuView {
    CpuView { regs: write_reg(s.regs, r, byte), ..s }
}

/// LD (FF00+u8),A: the accumulator into high memory.
pub open spec fn spec_ldn_a(s: CpuView, byte: u8) -> CpuView {
    CpuView { bus: spec_bus_write(s.bus, (0xFF00 + byte) as u16, s.regs.a), ..s }
}

/// LD A,(FF00+u8): a high-memory byte into the accumulator.
pub open spec fn spec_ldu8_a(s: CpuView, byte: u8) -> CpuView {
    CpuView {
        regs: write_reg(s.regs, TargetRegister::A, spec_bus_read(s.bus, (0xFF00 + byte) as u16)),
        ..s
    }
}

/// LD (FF00+C),A: the accumulator into high memory at register C's offset.
pub open spec fn spec_ldc_a(s: CpuView) -> CpuView {
    CpuView { bus: spec_bus_write(s.bus, (0xFF00 + s.regs.c) as u16, s.regs.a), ..s }
}

/// LD A,(FF00+C): a high-memory byte at register C's offset into the
/// accumulator.
pub open spec fn spec_lda_c(s: CpuView) -> CpuView {
    CpuView {
        regs: write_reg(
            s.regs,
            TargetRegister::A,
            spec_bus_read(s.bus, (0xFF00 + s.regs.c) as u16),
        ),
        ..s
    }
}

/// RLCA: rotate the accumulator left; Z, N and H cleared, C from bit 7.
pub open spec fn spec_rlca(s: CpuView) -> CpuView {
    CpuView {
        regs: RegsView {
            a: spec_rlca8(s.regs.a),
            f: FlagsView { z: false, n: false, h: false, c: s.regs.a >= 128 },
            ..s.regs
        },
        ..s
    }
}

/// RRCA: rotate the accumulator right; Z, N and H cleared, C from bit 0.
pub open spec fn spec_rrca(s: CpuView) -> CpuView {
    CpuView {
        regs: RegsView {
            a: spec_rrca8(s.regs.a),
            f: FlagsView { z: false, n: false, h: false, c: s.regs.a % 2 == 1 },
            ..s.regs
        },
        ..s
    }
}

/// LD r,r': a register-to-register move.
pub open spec fn spec_ldrr(s: CpuView, dest: TargetRegister, src: TargetRegister) -> CpuView {
    CpuView { regs: write_reg(s.regs, dest, read_reg(s.regs, src)), ..s }
}

/// LD (rr),r: a register stored at the address held by a pair.
pub open spec fn spec_ldrr_r(
    s: CpuView,
    upper: TargetRegister,
    lower: TargetRegister,
    byte_reg: TargetRegister,
) -> CpuView {
    CpuView {
        bus: spec_bus_write(
            s.bus,
            spec_join(read_reg(s.regs, upper), read_reg(s.regs, lower)),
            read_reg(s.regs, byte_reg),
        ),
        ..s
    }
}

/// LD r,(rr): the byte at the address held by a pair into a register.
pub open spec fn spec_ldr_rr(
    s: CpuView,
    dest: TargetRegister,
    upper: TargetRegister,
    lower: TargetRegister,
) -> CpuView {
    CpuView {
        regs: write_reg(
            s.regs,
            dest,
            spec_bus_read(s.bus, spec_join(read_reg(s.regs, upper), read_reg(s.regs, lower))),
        ),
        ..s
    }
}

/// LD (rr),u8: the operand byte stored at the address held by a pair.
pub open spec fn spec_ldrr_u8(
    s: CpuView,
    upper: TargetRegister,
    lower: TargetRegister,
    byte: u8,
) -> CpuView {
    CpuView {
        bus: spec_bus_write(
            s.bus,
            spec_join(read_reg(s.regs, upper), read_reg(s.regs, lower)),
            byte,
        ),
        ..s
    }
}

/// INC rr: a 16-bit pair incremented, wrapping; no flags.
pub open spec fn spec_inc_u16(s: CpuView, r1: TargetRegister, r2: TargetRegister) -> CpuView {
    let w = wrap_inc16(spec_join(read_reg(s.regs, r1), read_reg(s.regs, r2)));
    CpuView { regs: write_reg(write_reg(s.regs, r1, (w / 256) as u8), r2, (w % 256) as u8), ..s }
}

/// DEC rr: a 16-bit pair decremented, wrapping; no flags.
pub open spec fn spec_dec_u16(s: CpuView, r1: TargetRegister, r2: TargetRegister) -> CpuView {
    let w = wrap_dec16(spec_join(read_reg(s.regs, r1), read_reg(s.regs, r2)));
    CpuView { regs: write_reg(write_reg(s.regs, r1, (w / 256) as u8), r2, (w % 256) as u8), ..s }
}

/// INC r: a register incremented with the INC flag rule.
pub open spec fn spec_inc_u8(s: CpuView, r: TargetRegister) -> CpuView {
    let v = read_reg(s.regs, r);
    CpuView {
        regs: RegsView { f: spec_inc8_flags(s.regs.f, v), ..write_reg(s.regs, r, wrap_inc8(v)) },
        ..s
    }
}

/// DEC r: a register decremented with the DEC flag rule.
pub open spec fn spec_dec_u8(s: CpuView, r: TargetRegister) -> CpuView {
    let v = read_reg(s.regs, r);
    CpuView {
        regs: RegsView { f: spec_dec8_flags(s.regs.f, v), ..write_reg(s.regs, r, wrap_dec8(v)) },
        ..s
    }
}

/// LD (u16),SP: the stack pointer stored little-endian at the operand
/// address.
pub open spec fn spec_ldnn_sp(s: CpuView, lo: u8, hi: u8) -> CpuView {
    let addr = spec_join(hi, lo);
    CpuView {
        bus: spec_bus_write(
            spec_bus_write(s.bus, addr, (s.sp % 256) as u8),
            wrap_inc16(addr),
            (s.sp / 256) as u8,
        ),
        ..s
    }
}

/// ADD HL,rr: 16-bit add into HL with the ADD HL flag rule (Z untouched).
pub open spec fn spec_addhl_rr(s: CpuView, upper: TargetRegister, lower: TargetRegister) -> CpuView {
    let hl = spec_join(s.regs.h, s.regs.l);
    let rr = spec_join(read_reg(s.regs, upper), read_reg(s.regs, lower));
    let r = spec_add16(hl, rr);
    CpuView {
        regs: RegsView {
            h: (r / 256) as u8,
            l: (r % 256) as u8,
            f: spec_add16_flags(s.regs.f, hl, rr),
            ..s.regs
        },
        ..s
    }
}

/// INC SP: the stack pointer incremented, wrapping; no flags.
pub open spec fn spec_inc_sp(s: CpuView) -> CpuView {
    CpuView { sp: wrap_inc16(s.sp), ..s }
}

/// DEC SP: the stack pointer decremented, wrapping; no flags.
pub open spec fn spec_dec_sp(s: CpuView) -> CpuView {
    CpuView { sp: wrap_dec16(s.sp), ..s }
}

/// ADD HL,SP: 16-bit add of SP into HL with the ADD HL flag rule
/// (Z untouched).
pub open spec fn spec_addhl_sp(s: CpuView) -> CpuView {
    let hl = spec_join(s.regs.h, s.regs.l);
    let r = spec_add16(hl, s.sp);
    CpuView {
        regs: RegsView {
            h: (r / 256) as u8,
            l: (r % 256) as u8,
            f: spec_add16_flags(s.regs.f, hl, s.sp),
            ..s.regs
        },
        ..s
    }
}

/// LD SP,u16: the operand word into the stack pointer.
pub open spec fn spec_ldsp_u16(s: CpuView, lo: u8, hi: u8) -> CpuView {
    CpuView { sp: spec_join(hi, lo), ..s }
}

/// JP u16: the operand word into PC.
pub open spec fn spec_jp_u16(s: CpuView, lo: u8, hi: u8) -> CpuView {
    CpuView { pc: spec_join(hi, lo), ..s }
}

/// CP A,u8: compare the accumulator with the operand; flags only.
pub open spec fn spec_cp_u8(s: CpuView, byte: u8) -> CpuView {
    CpuView { regs: RegsView { f: spec_cp_flags(s.regs.a, byte), ..s.regs }, ..s }
}

/// JR (conditional): if taken, PC moves by the sign-extended offset from
/// the post-operand PC.
pub open spec fn spec_jrcc_i8(s: CpuView, taken: bool, off: u8) -> CpuView {
    CpuView {
        pc: if taken {
            spec_jr_target(s.pc, off)
        } else {
            s.pc
        },
        ..s
    }
}

/// LD (HL+),A: the accumulator stored at HL, then HL incremented.
pub open spec fn spec_ld_inc_hl_a(s: CpuView) -> CpuView {
    let addr = spec_join(s.regs.h, s.regs.l);
    let w = wrap_inc16(addr);
    CpuView {
        regs: RegsView { h: (w / 256) as u8, l: (w % 256) as u8, ..s.regs },
        bus: spec_bus_write(s.bus, addr, s.regs.a),
        ..s
    }
}

/// LD (HL-),A: the accumulator stored at HL, then HL decremented.
pub open spec fn spec_ld_dec_hl_a(s: CpuView) -> CpuView {
    let addr = spec_join(s.regs.h, s.regs.l);
    let w = wrap_dec16(addr);
    CpuView {
        regs: RegsView { h: (w / 256) as u8, l: (w % 256) as u8, ..s.regs },
        bus: spec_bus_write(s.bus, addr, s.regs.a),
        ..s
    }
}

/// LD A,(HL+): the byte at HL into the accumulator, then HL incremented.
pub open spec fn spec_ld_inc_a_hl(s: CpuView) -> CpuView {
    let addr = spec_join(s.regs.h, s.regs.l);
    let w = wrap_inc16(addr);
    CpuView {
        regs: RegsView {
            a: spec_bus_read(s.bus, addr),
            h: (w / 256) as u8,
            l: (w % 256) as u8,
            ..s.regs
        },
        ..s
    }
}

/// LD A,(HL-): the byte at HL into the accumulator, then HL decremented.
pub open spec fn spec_ld_dec_a_hl(s: CpuView) -> CpuView {
    let addr = spec_join(s.regs.h, s.regs.l);
    let w = wrap_dec16(addr);
    CpuView {
        regs: RegsView {
            a: spec_bus_read(s.bus, addr),
            h: (w / 256) as u8,
            l: (w % 256) as u8,
            ..s.regs
        },
        ..s
    }
}

/// XOR A,x: the accumulator xored with a byte, with the XOR flag rule.
pub open spec fn spec_xora(s: CpuView, x: u8) -> CpuView {
    CpuView {
        regs: RegsView { a: s.regs.a ^ x, f: spec_xor8_flags(s.regs.a, x), ..s.regs },
        ..s
    }
}

/// ADD A,x: the accumulator plus a byte, with the ADD flag rule.
pub open spec fn spec_adda(s: CpuView, x: u8) -> CpuView {
    CpuView {
        regs: RegsView { a: spec_add8(s.regs.a, x), f: spec_add8_flags(s.regs.a, x), ..s.regs },
        ..s
    }
}

/// The byte sum with carry-in, wrapping at 0xFF.
pub open spec fn spec_adc8(a: u8, x: u8, cin: bool) -> u8 {
    ((a + x + (if cin {
        1int
    } else {
        0int
    })) % 256) as u8
}

/// Flags after ADC A,x: like ADD, with the carry-in joining both carries.
pub open spec fn spec_adc8_flags(a: u8, x: u8, cin: bool) -> FlagsView {
    let c = if cin {
        1int
    } else {
        0int
    };
    FlagsView {
        z: spec_adc8(a, x, cin) == 0,
        n: false,
        h: a % 16 + x % 16 + c > 15,
        c: a + x + c > 255,
    }
}

/// ADC A,x.
pub open spec fn spec_adca(s: CpuView, x: u8) -> CpuView {
    CpuView {
        regs: RegsView {
            a: spec_adc8(s.regs.a, x, s.regs.f.c),
            f: spec_adc8_flags(s.regs.a, x, s.regs.f.c),
            ..s.regs
        },
        ..s
    }
}

/// The byte difference, wrapping below 0.
pub open spec fn spec_sub8(a: u8, x: u8) -> u8 {
    ((a + 256 - x) % 256) as u8
}

/// Flags after SUB A,x: zero by result, subtract set, half-carry and carry
/// on the nibble and byte borrows.
pub open spec fn spec_sub8_flags(a: u8, x: u8) -> FlagsView {
    FlagsView { z: spec_sub8(a, x) == 0, n: true, h: a % 16 < x % 16, c: a < x }
}

/// SUB A,x.
pub open spec fn spec_suba(s: CpuView, x: u8) -> CpuView {
    CpuView {
        regs: RegsView { a: spec_sub8(s.regs.a, x), f: spec_sub8_flags(s.regs.a, x), ..s.regs },
        ..s
    }
}

/// The byte difference with carry-in, wrapping below 0.
pub open spec fn spec_sbc8(a: u8, x: u8, cin: bool) -> u8 {
    ((a + 256 - x - (if cin {
        1int
    } else {
        0int
    })) % 256) as u8
}

/// Flags after SBC A,x: like SUB, with the carry-in joining both borrows.
pub open spec fn spec_sbc8_flags(a: u8, x: u8, cin: bool) -> FlagsView {
    let c = if cin {
        1int
    } else {
        0int
    };
    FlagsView {
        z: spec_sbc8(a, x, cin) == 0,
        n: true,
        h: a % 16 < x % 16 + c,
        c: a < x + c,
    }
}

/// SBC A,x.
pub open spec fn spec_sbca(s: CpuView, x: u8) -> CpuView {
    CpuView {
        regs: RegsView {
            a: spec_sbc8(s.regs.a, x, s.regs.f.c),
            f: spec_sbc8_flags(s.regs.a, x, s.regs.f.c),
            ..s.regs
        },
        ..s
    }
}

/// AND A,x: zero by result, half-carry always set, carry cleared.
pub open spec fn spec_anda(s: CpuView, x: u8) -> CpuView {
    CpuView {
        regs: RegsView {
            a: s.regs.a & x,
            f: FlagsView { z: (s.regs.a & x) == 0, n: false, h: true, c: false },
            ..s.regs
        },
        ..s
    }
}

/// OR A,x: zero by result, the rest cleared.
pub open spec fn spec_ora(s: CpuView, x: u8) -> CpuView {
    CpuView {
        regs: RegsView {
            a: s.regs.a | x,
            f: FlagsView { z: (s.regs.a | x) == 0, n: false, h: false, c: false },
            ..s.regs
        },
        ..s
    }
}

/// One accumulator ALU operation, selected by bits 5..3 of its opcode:
/// ADD, ADC, SUB, SBC, AND, XOR, OR, CP in that order.
pub open spec fn spec_alu_a(s: CpuView, idx: u8, x: u8) -> CpuView {
    if idx == 0 {
        spec_adda(s, x)
    } else if idx == 1 {
        spec_adca(s, x)
    } else if idx == 2 {
        spec_suba(s, x)
    } else if idx == 3 {
        spec_sbca(s, x)
    } else if idx == 4 {
        spec_anda(s, x)
    } else if idx == 5 {
        spec_xora(s, x)
    } else if idx == 6 {
        spec_ora(s, x)
    } else {
        spec_cp_u8(s, x)
    }
}

/// RET: pop the low byte, then the high byte, into PC.
pub open spec fn spec_ret(s: CpuView) -> CpuView {
    let lo = spec_bus_read(s.bus, s.sp);
    let hi = spec_bus_read(s.bus, wrap_inc16(s.sp));
    CpuView { pc: spec_join(hi, lo), sp: wrap_inc16(wrap_inc16(s.sp)), ..s }
}

/// CALL u16: push the post-operand PC, high byte first, and jump to the
/// operand address.
pub open spec fn spec_call_u16(s: CpuView, lo: u8, hi: u8) -> CpuView {
    let sp1 = wrap_dec16(s.sp);
    let sp2 = wrap_dec16(sp1);
    CpuView {
        pc: spec_join(hi, lo),
        sp: sp2,
        bus: spec_bus_write(
            spec_bus_write(s.bus, sp1, (s.pc / 256) as u8),
            sp2,
            (s.pc % 256) as u8,
        ),
        ..s
    }
}

/// The LD r,r' block 0x40-0x7F (HALT excluded): destination from bits 5..3,
/// source from bits 2..0, index 6 being the (HL) memory operand.
pub open spec fn spec_ld_block(s: CpuView, op: u8) -> CpuView {
    match (spec_reg_of(((op - 0x40) / 8) as u8), spec_reg_of(op % 8)) {
        (Some(d), Some(sr)) => spec_ldrr(s, d, sr),
        (Some(d), None) => spec_ldr_rr(s, d, TargetRegister::H, TargetRegister::L),
        (None, Some(sr)) => spec_ldrr_r(s, TargetRegister::H, TargetRegister::L, sr),
        (None, None) => s,
    }
}

/// The accumulator ALU block 0x80-0xBF: the operation from bits 5..3, the
/// operand from bits 2..0, index 6 being the (HL) memory operand.
pub open spec fn spec_alu_block(s: CpuView, op: u8) -> CpuView {
    let x = match spec_reg_of(op % 8) {
        Some(sr) => read_reg(s.regs, sr),
        None => spec_bus_read(s.bus, spec_join(s.regs.h, s.regs.l)),
    };
    spec_alu_a(s, ((op - 0x80) / 8) as u8, x)
}

/// RLA: rotate the accumulator left through the carry flag.
pub open spec fn spec_rla(s: CpuView) -> CpuView {
    let r = ((s.regs.a * 2) % 256 + if s.regs.f.c {
        1int
    } else {
        0int
    }) as u8;
    CpuView {
        regs: RegsView {
            a: r,
            f: FlagsView { z: false, n: false, h: false, c: s.regs.a >= 128 },
            ..s.regs
        },
        ..s
    }
}

/// RRA: rotate the accumulator right through the carry flag.
pub open spec fn spec_rra(s: CpuView) -> CpuView {
    let r = (s.regs.a / 2 + if s.regs.f.c {
        128int
    } else {
        0int
    }) as u8;
    CpuView {
        regs: RegsView {
            a: r,
            f: FlagsView { z: false, n: false, h: false, c: s.regs.a % 2 == 1 },
            ..s.regs
        },
        ..s
    }
}

/// DAA: correct the accumulator after a BCD addition or subtraction, by
/// the N, H and C flags; Z by result, H cleared, C set when 0x60 was
/// added.
pub open spec fn spec_daa(s: CpuView) -> CpuView {
    let a = s.regs.a;
    let f = s.regs.f;
    if !f.n {
        let carry = f.c || a > 0x99;
        let adj = (if carry {
            0x60int
        } else {
            0int
        }) + (if f.h || a % 16 > 9 {
            6int
        } else {
            0int
        });
        let r = ((a + adj) % 256) as u8;
        CpuView {
            regs: RegsView {
                a: r,
                f: FlagsView { z: r == 0, n: f.n, h: false, c: carry },
                ..s.regs
            },
            ..s
        }
    } else {
        let adj = (if f.c {
            0x60int
        } else {
            0int
        }) + (if f.h {
            6int
        } else {
            0int
        });
        let r = ((a + 256 - adj) % 256) as u8;
        CpuView {
            regs: RegsView { a: r, f: FlagsView { z: r == 0, n: f.n, h: false, c: f.c }, ..s.regs },
            ..s
        }
    }
}

/// CPL: complement the accumulator; N and H set, Z and C untouched.
pub open spec fn spec_cpl(s: CpuView) -> CpuView {
    CpuView {
        regs: RegsView {
            a: (255 - s.regs.a) as u8,
            f: FlagsView { n: true, h: true, ..s.regs.f },
            ..s.regs
        },
        ..s
    }
}

/// SCF: set the carry flag; N and H cleared, Z untouched.
pub open spec fn spec_scf(s: CpuView) -> CpuView {
    CpuView {
        regs: RegsView { f: FlagsView { n: false, h: false, c: true, ..s.regs.f }, ..s.regs },
        ..s
    }
}

/// CCF: complement the carry flag; N and H cleared, Z untouched.
pub open spec fn spec_ccf(s: CpuView) -> CpuView {
    CpuView {
        regs: RegsView {
            f: FlagsView { n: false, h: false, c: !s.regs.f.c, ..s.regs.f },
            ..s.regs
        },
        ..s
    }
}

/// INC (HL): the byte at HL incremented in place with the INC flag rule.
pub open spec fn spec_inc_hl(s: CpuView) -> CpuView {
    let addr = spec_join(s.regs.h, s.regs.l);
    let v = spec_bus_read(s.bus, addr);
    CpuView {
        regs: RegsView { f: spec_inc8_flags(s.regs.f, v), ..s.regs },
        bus: spec_bus_write(s.bus, addr, wrap_inc8(v)),
        ..s
    }
}

/// DEC (HL): the byte at HL decremented in place with the DEC flag rule.
pub open spec fn spec_dec_hl(s: CpuView) -> CpuView {
    let addr = spec_join(s.regs.h, s.regs.l);
    let v = spec_bus_read(s.bus, addr);
    CpuView {
        regs: RegsView { f: spec_dec8_flags(s.regs.f, v), ..s.regs },
        bus: spec_bus_write(s.bus, addr, wrap_dec8(v)),
        ..s
    }
}

/// PUSH rr: the pair stored below SP, high byte first.
pub open spec fn spec_push_rr(s: CpuView, p: TargetPair) -> CpuView {
    let w = read_pair(s.regs, p);
    let sp1 = wrap_dec16(s.sp);
    let sp2 = wrap_dec16(sp1);
    CpuView {
        sp: sp2,
        bus: spec_bus_write(spec_bus_write(s.bus, sp1, (w / 256) as u8), sp2, (w % 256) as u8),
        ..s
    }
}

/// POP rr: the word at SP into the pair, low byte first; popping into AF
/// drops the flag register's low nibble.
pub open spec fn spec_pop_rr(s: CpuView, p: TargetPair) -> CpuView {
    let lo = spec_bus_read(s.bus, s.sp);
    let hi = spec_bus_read(s.bus, wrap_inc16(s.sp));
    CpuView {
        regs: write_pair(s.regs, p, spec_join(hi, lo)),
        sp: wrap_inc16(wrap_inc16(s.sp)),
        ..s
    }
}

/// RST: push PC and jump to the fixed vector.
pub open spec fn spec_rst(s: CpuView, vector: u16) -> CpuView {
    let sp1 = wrap_dec16(s.sp);
    let sp2 = wrap_dec16(sp1);
    CpuView {
        pc: vector,
        sp: sp2,
        bus: spec_bus_write(
            spec_bus_write(s.bus, sp1, (s.pc / 256) as u8),
            sp2,
            (s.pc % 256) as u8,
        ),
        ..s
    }
}

/// The flags of ADD SP,i8 and LD HL,SP+i8: Z and N cleared, half-carry
/// and carry from bits 3 and 7 of the unsigned low-byte addition.
pub open spec fn spec_sp_offset_flags(sp: u16, off: u8) -> FlagsView {
    FlagsView { z: false, n: false, h: sp % 16 + off % 16 > 15, c: sp % 256 + off > 255 }
}

/// ADD SP,i8: the sign-extended offset added to SP, wrapping.
pub open spec fn spec_add_sp(s: CpuView, off: u8) -> CpuView {
    CpuView {
        sp: spec_jr_target(s.sp, off),
        regs: RegsView { f: spec_sp_offset_flags(s.sp, off), ..s.regs },
        ..s
    }
}

/// LD HL,SP+i8: the sign-extended offset added to SP, into HL, with the
/// same flag rule as ADD SP,i8.
pub open spec fn spec_ld_hl_sp(s: CpuView, off: u8) -> CpuView {
    let w = spec_jr_target(s.sp, off);
    CpuView {
        regs: RegsView {
            h: (w / 256) as u8,
            l: (w % 256) as u8,
            f: spec_sp_offset_flags(s.sp, off),
            ..s.regs
        },
        ..s
    }
}

/// LD (u16),A: the accumulator stored at the operand address.
pub open spec fn spec_ldnn_a(s: CpuView, lo: u8, hi: u8) -> CpuView {
    CpuView { bus: spec_bus_write(s.bus, spec_join(hi, lo), s.regs.a), ..s }
}

/// LD A,(u16): the byte at the operand address into the accumulator.
pub open spec fn spec_lda_nn(s: CpuView, lo: u8, hi: u8) -> CpuView {
    CpuView {
        regs: write_reg(s.regs, TargetRegister::A, spec_bus_read(s.bus, spec_join(hi, lo))),
        ..s
    }
}

/// The value computed by a CB-table shift group on one byte: RLC, RRC, RL,
/// RR, SLA, SRA, SWAP, SRL, selected by bits 5..3 of the second opcode
/// byte.
pub open spec fn spec_cb_shift_val(grp: u8, v: u8, cin: bool) -> u8 {
    if grp == 0 {
        ((v * 2) % 256 + if v >= 128 {
            1int
        } else {
            0int
        }) as u8
    } else if grp == 1 {
        (v / 2 + if v % 2 == 1 {
            128int
        } else {
            0int
        }) as u8
    } else if grp == 2 {
        ((v * 2) % 256 + if cin {
            1int
        } else {
            0int
        }) as u8
    } else if grp == 3 {
        (v / 2 + if cin {
            128int
        } else {
            0int
        }) as u8
    } else if grp == 4 {
        ((v * 2) % 256) as u8
    } else if grp == 5 {
        (v / 2 + if v >= 128 {
            128int
        } else {
            0int
        }) as u8
    } else if grp == 6 {
        ((v % 16) * 16 + v / 16) as u8
    } else {
        v / 2
    }
}

/// The bit a CB-table shift group shifts out into the carry; SWAP clears
/// the carry.
pub open spec fn spec_cb_shift_carry(grp: u8, v: u8) -> bool {
    if grp == 1 || grp == 3 || grp == 5 || grp == 7 {
        v % 2 == 1
    } else if grp == 6 {
        false
    } else {
        v >= 128
    }
}

/// The operand of a CB-table instruction written back: a register, or the
/// byte at HL for index 6.
pub open spec fn spec_write_operand(s: CpuView, idx: u8, byte: u8) -> CpuView {
    match spec_reg_of(idx) {
        Some(t) => CpuView { regs: write_reg(s.regs, t, byte), ..s },
        None => CpuView {
            bus: spec_bus_write(s.bus, spec_join(s.regs.h, s.regs.l), byte),
            ..s
        },
    }
}

/// The CB-prefixed table: shifts and rotates (Z by result, N and H
/// cleared, C the shifted-out bit), BIT (Z from the tested bit, H set, C
/// untouched), RES and SET (no flags); the operand from bits 2..0, index 6
/// being the (HL) memory operand.
pub open spec fn spec_cb_execute(s: CpuView, op: u8) -> CpuView {
    let idx = op % 8;
    let v = match spec_reg_of(idx) {
        Some(t) => read_reg(s.regs, t),
        None => spec_bus_read(s.bus, spec_join(s.regs.h, s.regs.l)),
    };
    let grp = op / 8;
    if grp < 8 {
        let r = spec_cb_shift_val(grp, v, s.regs.f.c);
        let fl = FlagsView { z: r == 0, n: false, h: false, c: spec_cb_shift_carry(grp, v) };
        spec_write_operand(CpuView { regs: RegsView { f: fl, ..s.regs }, ..s }, idx, r)
    } else if grp < 16 {
        let n = (grp - 8) as u8;
        CpuView {
            regs: RegsView {
                f: FlagsView { z: ((v >> n) & 1) == 0, n: false, h: true, c: s.regs.f.c },
                ..s.regs
            },
            ..s
        }
    } else if grp < 24 {
        let n = (grp - 16) as u8;
        spec_write_operand(s, idx, v & (0xFFu8 ^ (1u8 << n)))
    } else {
        let n = (grp - 24) as u8;
        spec_write_operand(s, idx, v | (1u8 << n))
    }
}

/// Whether the interpreter implements opcode `op`.
pub open spec fn spec_implemented(op: u8) -> bool {
    if 0x40 <= op < 0xC0 {
        true
    } else {
        match op {
            0x00 | 0x01 | 0x02 | 0x03 | 0x04 | 0x05 | 0x06 | 0x07 => true,
            0x08 | 0x09 | 0x0A | 0x0B | 0x0C | 0x0D | 0x0E | 0x0F => true,
            0x10 => true,
            0x11 | 0x12 | 0x13 | 0x14 | 0x15 | 0x16 | 0x17 | 0x18 | 0x19 | 0x1A | 0x1B | 0x1C
            | 0x1D | 0x1E | 0x1F => true,
            0x20 | 0x21 | 0x22 | 0x23 | 0x24 | 0x25 | 0x26 | 0x27 | 0x28 | 0x29 | 0x2A | 0x2B
            | 0x2C | 0x2D | 0x2E | 0x2F => true,
            0x30 | 0x31 | 0x32 | 0x33 | 0x34 | 0x35 | 0x36 | 0x37 | 0x38 | 0x39 | 0x3A | 0x3B
            | 0x3C | 0x3D | 0x3E | 0x3F => true,
            0xC0 | 0xC1 | 0xC2 | 0xC3 | 0xC4 | 0xC5 | 0xC6 | 0xC7 | 0xC8 | 0xC9 | 0xCA | 0xCB
            | 0xCC | 0xCD | 0xCE | 0xCF => true,
            0xD0 | 0xD1 | 0xD2 | 0xD4 | 0xD5 | 0xD6 | 0xD7 | 0xD8 | 0xD9 | 0xDA | 0xDC | 0xDE
            | 0xDF => true,
            0xE0 | 0xE1 | 0xE2 | 0xE5 | 0xE6 | 0xE7 | 0xE8 | 0xE9 | 0xEA | 0xEE | 0xEF => true,
            0xF0 | 0xF1 | 0xF2 | 0xF3 | 0xF5 | 0xF6 | 0xF7 | 0xF8 | 0xF9 | 0xFA | 0xFB
            | 0xFE | 0xFF => true,
            _ => false,
        }
    }
}

/// The processor after executing opcode `op` from a state whose PC already
/// points at the first operand byte. This is the instruction semantics:
/// each arm names the instruction's transition.
pub open spec fn spec_execute(s: CpuView, op: u8) -> CpuView {
    if op == 0x76 {
        CpuView { halted: true, ..s }
    } else if 0x40 <= op < 0x80 {
        spec_ld_block(s, op)
    } else if 0x80 <= op < 0xC0 {
        spec_alu_block(s, op)
    } else {
        match op {
            0x00 => s,
            0x01 => spec_ldn_u16(
                spec_skip2(s),
                TargetRegister::B,
                TargetRegister::C,
                spec_op1(s),
                spec_op2(s),
            ),
            0x02 => spec_ldrr_r(s, TargetRegister::B, TargetRegister::C, TargetRegister::A),
            0x03 => spec_inc_u16(s, TargetRegister::B, TargetRegister::C),
            0x04 => spec_inc_u8(s, TargetRegister::B),
            0x05 => spec_dec_u8(s, TargetRegister::B),
            0x06 => spec_ldn_u8(spec_skip1(s), TargetRegister::B, spec_op1(s)),
            0x07 => spec_rlca(s),
            0x08 => spec_ldnn_sp(spec_skip2(s), spec_op1(s), spec_op2(s)),
            0x09 => spec_addhl_rr(s, TargetRegister::B, TargetRegister::C),
            0x0A => spec_ldr_rr(s, TargetRegister::A, TargetRegister::B, TargetRegister::C),
            0x0B => spec_dec_u16(s, TargetRegister::B, TargetRegister::C),
            0x0C => spec_inc_u8(s, TargetRegister::C),
            0x0D => spec_dec_u8(s, TargetRegister::C),
            0x0E => spec_ldn_u8(spec_skip1(s), TargetRegister::C, spec_op1(s)),
            0x0F => spec_rrca(s),
            0x10 => CpuView { halted: true, ..spec_skip1(s) },
            0x11 => spec_ldn_u16(
                spec_skip2(s),
                TargetRegister::D,
                TargetRegister::E,
                spec_op1(s),
                spec_op2(s),
            ),
            0x12 => spec_ldrr_r(s, TargetRegister::D, TargetRegister::E, TargetRegister::A),
            0x13 => spec_inc_u16(s, TargetRegister::D, TargetRegister::E),
            0x14 => spec_inc_u8(s, TargetRegister::D),
            0x15 => spec_dec_u8(s, TargetRegister::D),
            0x16 => spec_ldn_u8(spec_skip1(s), TargetRegister::D, spec_op1(s)),
            0x17 => spec_rla(s),
            0x18 => spec_jrcc_i8(spec_skip1(s), true, spec_op1(s)),
            0x19 => spec_addhl_rr(s, TargetRegister::D, TargetRegister::E),
            0x1A => spec_ldr_rr(s, TargetRegister::A, TargetRegister::D, TargetRegister::E),
            0x1B => spec_dec_u16(s, TargetRegister::D, TargetRegister::E),
            0x1C => spec_inc_u8(s, TargetRegister::E),
            0x1D => spec_dec_u8(s, TargetRegister::E),
            0x1E => spec_ldn_u8(spec_skip1(s), TargetRegister::E, spec_op1(s)),
            0x1F => spec_rra(s),
            0x20 => spec_jrcc_i8(spec_skip1(s), s.regs.f.z == false, spec_op1(s)),
            0x21 => spec_ldn_u16(
                spec_skip2(s),
                TargetRegister::H,
                TargetRegister::L,
                spec_op1(s),
                spec_op2(s),
            ),
            0x22 => spec_ld_inc_hl_a(s),
            0x23 => spec_inc_u16(s, TargetRegister::H, TargetRegister::L),
            0x24 => spec_inc_u8(s, TargetRegister::H),
            0x25 => spec_dec_u8(s, TargetRegister::H),
            0x26 => spec_ldn_u8(spec_skip1(s), TargetRegister::H, spec_op1(s)),
            0x27 => spec_daa(s),
            0x28 => spec_jrcc_i8(spec_skip1(s), s.regs.f.z == true, spec_op1(s)),
            0x29 => spec_addhl_rr(s, TargetRegister::H, TargetRegister::L),
            0x2A => spec_ld_inc_a_hl(s),
            0x2B => spec_dec_u16(s, TargetRegister::H, TargetRegister::L),
            0x2C => spec_inc_u8(s, TargetRegister::L),
            0x2D => spec_dec_u8(s, TargetRegister::L),
            0x2E => spec_ldn_u8(spec_skip1(s), TargetRegister::L, spec_op1(s)),
            0x2F => spec_cpl(s),
            0x30 => spec_jrcc_i8(spec_skip1(s), s.regs.f.c == false, spec_op1(s)),
            0x31 => spec_ldsp_u16(spec_skip2(s), spec_op1(s), spec_op2(s)),
            0x32 => spec_ld_dec_hl_a(s),
            0x33 => spec_inc_sp(s),
            0x34 => spec_inc_hl(s),
            0x35 => spec_dec_hl(s),
            0x36 => spec_ldrr_u8(spec_skip1(s), TargetRegister::H, TargetRegister::L, spec_op1(s)),
            0x37 => spec_scf(s),
            0x38 => spec_jrcc_i8(spec_skip1(s), s.regs.f.c == true, spec_op1(s)),
            0x39 => spec_addhl_sp(s),
            0x3A => spec_ld_dec_a_hl(s),
            0x3B => spec_dec_sp(s),
            0x3C => spec_inc_u8(s, TargetRegister::A),
            0x3D => spec_dec_u8(s, TargetRegister::A),
            0x3E => spec_ldn_u8(spec_skip1(s), TargetRegister::A, spec_op1(s)),
            0x3F => spec_ccf(s),
            0xC0 => if s.regs.f.z == false {
                spec_ret(s)
            } else {
                s
            },
            0xC1 => spec_pop_rr(s, TargetPair::BC),
            0xC2 => if s.regs.f.z == false {
                spec_jp_u16(spec_skip2(s), spec_op1(s), spec_op2(s))
            } else {
                spec_skip2(s)
            },
            0xC3 => spec_jp_u16(spec_skip2(s), spec_op1(s), spec_op2(s)),
            0xC4 => if s.regs.f.z == false {
                spec_call_u16(spec_skip2(s), spec_op1(s), spec_op2(s))
            } else {
                spec_skip2(s)
            },
            0xC5 => spec_push_rr(s, TargetPair::BC),
            0xC6 => spec_alu_a(spec_skip1(s), 0, spec_op1(s)),
            0xC7 => spec_rst(s, 0x00),
            0xC8 => if s.regs.f.z == true {
                spec_ret(s)
            } else {
                s
            },
            0xC9 => spec_ret(s),
            0xCA => if s.regs.f.z == true {
                spec_jp_u16(spec_skip2(s), spec_op1(s), spec_op2(s))
            } else {
                spec_skip2(s)
            },
            0xCB => spec_cb_execute(spec_skip1(s), spec_op1(s)),
            0xCC => if s.regs.f.z == true {
                spec_call_u16(spec_skip2(s), spec_op1(s), spec_op2(s))
            } else {
                spec_skip2(s)
            },
            0xCD => spec_call_u16(spec_skip2(s), spec_op1(s), spec_op2(s)),
            0xCE => spec_alu_a(spec_skip1(s), 1, spec_op1(s)),
            0xCF => spec_rst(s, 0x08),
            0xD0 => if s.regs.f.c == false {
                spec_ret(s)
            } else {
                s
            },
            0xD1 => spec_pop_rr(s, TargetPair::DE),
            0xD2 => if s.regs.f.c == false {
                spec_jp_u16(spec_skip2(s), spec_op1(s), spec_op2(s))
            } else {
                spec_skip2(s)
            },
            0xD4 => if s.regs.f.c == false {
                spec_call_u16(spec_skip2(s), spec_op1(s), spec_op2(s))
            } else {
                spec_skip2(s)
            },
            0xD5 => spec_push_rr(s, TargetPair::DE),
            0xD6 => spec_alu_a(spec_skip1(s), 2, spec_op1(s)),
            0xD7 => spec_rst(s, 0x10),
            0xD8 => if s.regs.f.c == true {
                spec_ret(s)
            } else {
                s
            },
            0xD9 => CpuView { ime: true, ..spec_ret(s) },
            0xDA => if s.regs.f.c == true {
                spec_jp_u16(spec_skip2(s), spec_op1(s), spec_op2(s))
            } else {
                spec_skip2(s)
            },
            0xDC => if s.regs.f.c == true {
                spec_call_u16(spec_skip2(s), spec_op1(s), spec_op2(s))
            } else {
                spec_skip2(s)
            },
            0xDE => spec_alu_a(spec_skip1(s), 3, spec_op1(s)),
            0xDF => spec_rst(s, 0x18),
            0xE0 => spec_ldn_a(spec_skip1(s), spec_op1(s)),
            0xE1 => spec_pop_rr(s, TargetPair::HL),
            0xE2 => spec_ldc_a(s),
            0xE5 => spec_push_rr(s, TargetPair::HL),
            0xE6 => spec_alu_a(spec_skip1(s), 4, spec_op1(s)),
            0xE7 => spec_rst(s, 0x20),
            0xE8 => spec_add_sp(spec_skip1(s), spec_op1(s)),
            0xE9 => CpuView { pc: spec_join(s.regs.h, s.regs.l), ..s },
            0xEA => spec_ldnn_a(spec_skip2(s), spec_op1(s), spec_op2(s)),
            0xEE => spec_alu_a(spec_skip1(s), 5, spec_op1(s)),
            0xEF => spec_rst(s, 0x28),
            0xF0 => spec_ldu8_a(spec_skip1(s), spec_op1(s)),
            0xF1 => spec_pop_rr(s, TargetPair::AF),
            0xF2 => spec_lda_c(s),
            0xF3 => CpuView { ime: false, ime_scheduled: false, ..s },
            0xF5 => spec_push_rr(s, TargetPair::AF),
            0xF6 => spec_alu_a(spec_skip1(s), 6, spec_op1(s)),
            0xF7 => spec_rst(s, 0x30),
            0xF8 => spec_ld_hl_sp(spec_skip1(s), spec_op1(s)),
            0xF9 => CpuView { sp: spec_join(s.regs.h, s.regs.l), ..s },
            0xFA => spec_lda_nn(spec_skip2(s), spec_op1(s), spec_op2(s)),
            0xFB => CpuView { ime_scheduled: true, ..s },
            0xFE => spec_cp_u8(spec_skip1(s), spec_op1(s)),
            0xFF => spec_rst(s, 0x38),
            _ => s,
        }
    }
}

/// The interrupt source served from a pending mask: the lowest set bit,
/// VBlank (bit 0) having the highest priority.
pub open spec fn spec_int_index(m: u8) -> u8 {
    if m & 1 != 0 {
        0u8
    } else if m & 2 != 0 {
        1u8
    } else if m & 4 != 0 {
        2u8
    } else if m & 8 != 0 {
        3u8
    } else {
        4u8
    }
}

/// Interrupt dispatch: acknowledge the highest-priority pending source,
/// clear IME, push PC, and jump to the source's vector (0x40 + 8 * index).
pub open spec fn spec_dispatch(s: CpuView) -> CpuView {
    let i = spec_int_index(spec_pending(s.bus));
    let sp1 = wrap_dec16(s.sp);
    let sp2 = wrap_dec16(sp1);
    let b1 = BusView { int_flag: s.bus.int_flag & (0xFFu8 ^ (1u8 << i)), ..s.bus };
    CpuView {
        pc: (0x40 + 8 * i) as u16,
        sp: sp2,
        ime: false,
        bus: spec_bus_write(spec_bus_write(b1, sp1, (s.pc / 256) as u8), sp2, (s.pc % 256) as u8),
        ..s
    }
}

/// Machine cycles of a CB-prefixed instruction: 8 on a register, and on
/// the (HL) memory operand 12 for BIT and 16 for the writing groups.
pub open spec fn spec_cb_cycles(op: u8) -> u32 {
    if op % 8 == 6 {
        if 0x40 <= op < 0x80 {
            12u32
        } else {
            16u32
        }
    } else {
        8u32
    }
}

/// Machine cycles consumed by opcode `op` executed from state `s` (whose
/// PC points at the operands): the opcode table's base cost, or the
/// alternate cost when a conditional branch is taken.
pub open spec fn spec_execute_cycles(s: CpuView, op: u8) -> u32 {
    if op == 0x76 {
        4u32
    } else if 0x40 <= op < 0x80 {
        if op % 8 == 6 || (op - 0x40) / 8 == 6 {
            8u32
        } else {
            4u32
        }
    } else if 0x80 <= op < 0xC0 {
        if op % 8 == 6 {
            8u32
        } else {
            4u32
        }
    } else {
        match op {
            0x01 | 0x11 | 0x21 | 0x31 => 12u32,
            0x02 | 0x12 | 0x22 | 0x32 | 0x0A | 0x1A | 0x2A | 0x3A => 8u32,
            0x03 | 0x13 | 0x23 | 0x33 | 0x0B | 0x1B | 0x2B | 0x3B => 8u32,
            0x06 | 0x0E | 0x16 | 0x1E | 0x26 | 0x2E | 0x3E => 8u32,
            0x08 => 20u32,
            0x09 | 0x19 | 0x29 | 0x39 => 8u32,
            0x18 => 12u32,
            0x20 => if s.regs.f.z == false {
                12u32
            } else {
                8u32
            },
            0x28 => if s.regs.f.z == true {
                12u32
            } else {
                8u32
            },
            0x30 => if s.regs.f.c == false {
                12u32
            } else {
                8u32
            },
            0x38 => if s.regs.f.c == true {
                12u32
            } else {
                8u32
            },
            0x34 | 0x35 | 0x36 => 12u32,
            0xC0 => if s.regs.f.z == false {
                20u32
            } else {
                8u32
            },
            0xC8 => if s.regs.f.z == true {
                20u32
            } else {
                8u32
            },
            0xD0 => if s.regs.f.c == false {
                20u32
            } else {
                8u32
            },
            0xD8 => if s.regs.f.c == true {
                20u32
            } else {
                8u32
            },
            0xC1 | 0xD1 | 0xE1 | 0xF1 => 12u32,
            0xC2 => if s.regs.f.z == false {
                16u32
            } else {
                12u32
            },
            0xCA => if s.regs.f.z == true {
                16u32
            } else {
                12u32
            },
            0xD2 => if s.regs.f.c == false {
                16u32
            } else {
                12u32
            },
            0xDA => if s.regs.f.c == true {
                16u32
            } else {
                12u32
            },
            0xC3 => 16u32,
            0xC4 => if s.regs.f.z == false {
                24u32
            } else {
                12u32
            },
            0xCC => if s.regs.f.z == true {
                24u32
            } else {
                12u32
            },
            0xD4 => if s.regs.f.c == false {
                24u32
            } else {
                12u32
            },
            0xDC => if s.regs.f.c == true {
                24u32
            } else {
                12u32
            },
            0xC5 | 0xD5 | 0xE5 | 0xF5 => 16u32,
            0xC6 | 0xCE | 0xD6 | 0xDE | 0xE6 | 0xEE | 0xF6 | 0xFE => 8u32,
            0xC7 | 0xCF | 0xD7 | 0xDF | 0xE7 | 0xEF | 0xF7 | 0xFF => 16u32,
            0xC9 | 0xD9 => 16u32,
            0xCB => spec_cb_cycles(spec_op1(s)),
            0xCD => 24u32,
            0xE0 | 0xF0 => 12u32,
            0xE2 | 0xF2 => 8u32,
            0xE8 => 16u32,
            0xE9 => 4u32,
            0xEA | 0xFA => 16u32,
            0xF8 => 12u32,
            0xF9 => 8u32,
            _ => 4u32,
        }
    }
}

/// Machine cycles consumed by one step from `s`: 4 idling halted, 20 for
/// an interrupt dispatch, and the instruction's own cost otherwise.
pub open spec fn spec_step_cycles(s: CpuView) -> u32 {
    let pending = spec_pending(s.bus);
    if s.halted && pending == 0 {
        4u32
    } else if s.ime && pending != 0 {
        20u32
    } else {
        let op = spec_bus_read(s.bus, s.pc);
        let s1 = CpuView { pc: wrap_inc16(s.pc), ..if s.halted {
            CpuView { halted: false, ..s }
        } else {
            s
        } };
        spec_execute_cycles(s1, op)
    }
}

/// Whether one step from `s` succeeds: the processor idles halted, serves
/// an interrupt, or finds an implemented opcode at PC.
pub open spec fn spec_step_ok(s: CpuView) -> bool {
    let pending = spec_pending(s.bus);
    if s.halted && pending == 0 {
        true
    } else if s.ime && pending != 0 {
        true
    } else {
        spec_implemented(spec_bus_read(s.bus, s.pc))
    }
}

/// The processor after one step. A halted processor idles until an
/// interrupt is both flagged and enabled, which wakes it whether or not
/// IME is set. With IME set, a pending interrupt dispatches instead of a
/// fetch. Otherwise the opcode at PC executes with PC moved past it (an
/// unimplemented opcode changes nothing but that fetch), and an enable
/// scheduled by EI takes effect after that instruction.
pub open spec fn spec_cpu_step(s: CpuView) -> CpuView {
    let pending = spec_pending(s.bus);
    if s.halted && pending == 0 {
        s
    } else {
        let s0 = if s.halted {
            CpuView { halted: false, ..s }
        } else {
            s
        };
        if s0.ime && pending != 0 {
            spec_dispatch(s0)
        } else {
            let op = spec_bus_read(s0.bus, s0.pc);
            let s1 = CpuView { pc: wrap_inc16(s0.pc), ..s0 };
            let s2 = if spec_implemented(op) {
                spec_execute(s1, op)
            } else {
                s1
            };
            if s0.ime_scheduled && op != 0xF3 {
                CpuView { ime: true, ime_scheduled: false, ..s2 }
            } else {
                s2
            }
        }
    }
}

/// The 8-bit register operand for a three-bit instruction field; `None` is
/// the (HL) memory operand.
fn reg_of(i: u8) -> (r: Option<TargetRegister>)
    ensures
        r == spec_reg_of(i),
{
    match i {
        0 => Some(TargetRegister::B),
        1 => Some(TargetRegister::C),
        2 => Some(TargetRegister::D),
        3 => Some(TargetRegister::E),
        4 => Some(TargetRegister::H),
        5 => Some(TargetRegister::L),
        7 => Some(TargetRegister::A),
        _ => None,
    }
}

impl Cpu {
    /// Reads the opcode or operand byte at PC and moves PC past it.
    fn fetch(&mut self) -> (r: u8)
        requires
            old(self).wf(),
        ensures
            final(self).wf(),
            r == spec_bus_read(old(self)@.bus, old(self)@.pc),
            final(self)@ == (CpuView { pc: wrap_inc16(old(self)@.pc), ..old(self)@ }),
    {
        let opcode = self.bus.read_byte(self.pc);
        self.pc = if self.pc == 0xFFFF {
            0
        } else {
            self.pc + 1
        };
        opcode
    }

    /// Reads the instruction's one or two operand bytes at PC.
    fn fetch_operands(&mut self, length_in_bytes: usize) -> (ops: Vec<u8>)
        requires
            old(self).wf(),
            1 <= length_in_bytes <= 2,
        ensures
            final(self).wf(),
            ops@.len() == length_in_bytes,
            ops@[0] == spec_op1(old(self)@),
            length_in_bytes == 1 ==> final(self)@ == spec_skip1(old(self)@),
            length_in_bytes == 2 ==> ops@[1] == spec_op2(old(self)@) && final(self)@
                == spec_skip2(old(self)@),
    {
        let mut ops: Vec<u8> = Vec::new();
        let b0 = self.fetch();
        ops.push(b0);
        if length_in_bytes == 2 {
            let b1 = self.fetch();
            ops.push(b1);
        }
        ops
    }

    /// LD rr,u16.
    fn ldn_u16(&mut self, reg1: TargetRegister, reg2: TargetRegister, ops: Vec<u8>)
        requires
            ops@.len() == 2,
        ensures
            final(self)@ == spec_ldn_u16(old(self)@, reg1, reg2, ops@[0], ops@[1]),
    {
        self.registers.write(reg1, ops[1]);
        self.registers.write(reg2, ops[0]);
    }

    /// LD r,u8.
    fn ldn_u8(&mut self, reg: TargetRegister, ops: Vec<u8>)
        requires
            ops@.len() == 1,
        ensures
            final(self)@ == spec_ldn_u8(old(self)@, reg, ops@[0]),
    {
        self.registers.write(reg, ops[0]);
    }

    /// LD (FF00+u8),A.
    fn ldn_a(&mut self, operands: Vec<u8>)
        requires
            old(self).wf(),
            operands@.len() == 1,
        ensures
            final(self).wf(),
            final(self)@ == spec_ldn_a(old(self)@, operands@[0]),
    {
        let a = self.registers.read(TargetRegister::A);
        self.bus.write_byte(0xFF00 + operands[0] as u16, a)
    }

    /// LD A,(FF00+u8).
    fn ldu8_a(&mut self, operands: Vec<u8>)
        requires
            old(self).wf(),
            operands@.len() == 1,
        ensures
            final(self).wf(),
            final(self)@ == spec_ldu8_a(old(self)@, operands@[0]),
    {
        let byte = self.bus.read_byte(0xFF00 + operands[0] as u16);
        self.registers.write(TargetRegister::A, byte);
    }

    /// LD (FF00+C),A.
    fn ldc_a(&mut self)
        requires
            old(self).wf(),
        ensures
            final(self).wf(),
            final(self)@ == spec_ldc_a(old(self)@),
    {
        let a = self.registers.read(TargetRegister::A);
        let c = self.registers.read(TargetRegister::C);
        self.bus.write_byte(0xFF00 + c as u16, a)
    }

    /// LD A,(FF00+C).
    fn lda_c(&mut self)
        requires
            old(self).wf(),
        ensures
            final(self).wf(),
            final(self)@ == spec_lda_c(old(self)@),
    {
        let c = self.registers.read(TargetRegister::C);
        let byte = self.bus.read_byte(0xFF00 + c as u16);
        self.registers.write(TargetRegister::A, byte);
    }

    /// RLCA: rotate the accumulator left, Z always cleared.
    fn rlca(&mut self)
        ensures
            final(self)@ == spec_rlca(old(self)@),
    {
        let a = self.registers.read(TargetRegister::A);
        let shifted = ((a as u16 * 2) % 256) as u8 + if a >= 128 {
            1
        } else {
            0
        };
        self.registers.f.set_c(a >= 128);
        self.registers.f.set_z(false);
        self.registers.f.set_n(false);
        self.registers.f.set_h(false);
        self.registers.write(TargetRegister::A, shifted);
    }

    /// RRCA: rotate the accumulator right, Z always cleared.
    fn rrca(&mut self)
        ensures
            final(self)@ == spec_rrca(old(self)@),
    {
        let a = self.registers.read(TargetRegister::A);
        let shifted = a / 2 + if a % 2 == 1 {
            128
        } else {
            0
        };
        self.registers.f.set_c(a % 2 == 1);
        self.registers.f.set_z(false);
        self.registers.f.set_n(false);
        self.registers.f.set_h(false);
        self.registers.write(TargetRegister::A, shifted);
    }

    /// RLA: rotate the accumulator left through the carry flag.
    fn rla(&mut self)
        ensures
            final(self)@ == spec_rla(old(self)@),
    {
        let a = self.registers.read(TargetRegister::A);
        let cin = self.registers.f.get_c();
        let shifted = ((a as u16 * 2) % 256) as u8 + if cin {
            1
        } else {
            0
        };
        self.registers.f.set_c(a >= 128);
        self.registers.f.set_z(false);
        self.registers.f.set_n(false);
        self.registers.f.set_h(false);
        self.registers.write(TargetRegister::A, shifted);
    }

    /// RRA: rotate the accumulator right through the carry flag.
    fn rra(&mut self)
        ensures
            final(self)@ == spec_rra(old(self)@),
    {
        let a = self.registers.read(TargetRegister::A);
        let cin = self.registers.f.get_c();
        let shifted = a / 2 + if cin {
            128
        } else {
            0
        };
        self.registers.f.set_c(a % 2 == 1);
        self.registers.f.set_z(false);
        self.registers.f.set_n(false);
        self.registers.f.set_h(false);
        self.registers.write(TargetRegister::A, shifted);
    }

    /// DAA: correct the accumulator after BCD arithmetic by the flags.
    fn daa(&mut self)
        ensures
            final(self)@ == spec_daa(old(self)@),
    {
        let a = self.registers.read(TargetRegister::A);
        let n = self.registers.f.get_n();
        let half = self.registers.f.get_h();
        let carry_in = self.registers.f.get_c();
        if !n {
            let carry = carry_in || a > 0x99;
            let adj: u16 = (if carry {
                0x60u16
            } else {
                0u16
            }) + (if half || a % 16 > 9 {
                6u16
            } else {
                0u16
            });
            let r = ((a as u16 + adj) % 256) as u8;
            self.registers.f.set_z(r == 0);
            self.registers.f.set_h(false);
            self.registers.f.set_c(carry);
            self.registers.write(TargetRegister::A, r);
        } else {
            let adj: u16 = (if carry_in {
                0x60u16
            } else {
                0u16
            }) + (if half {
                6u16
            } else {
                0u16
            });
            let r = ((a as u16 + 256 - adj) % 256) as u8;
            self.registers.f.set_z(r == 0);
            self.registers.f.set_h(false);
            self.registers.write(TargetRegister::A, r);
        }
    }

    /// CPL: complement the accumulator.
    fn cpl(&mut self)
        ensures
            final(self)@ == spec_cpl(old(self)@),
    {
        let a = self.registers.read(TargetRegister::A);
        self.registers.f.set_n(true);
        self.registers.f.set_h(true);
        self.registers.write(TargetRegister::A, 255 - a);
    }

    /// SCF: set the carry flag.
    fn scf(&mut self)
        ensures
            final(self)@ == spec_scf(old(self)@),
    {
        self.registers.f.set_n(false);
        self.registers.f.set_h(false);
        self.registers.f.set_c(true);
    }

    /// CCF: complement the carry flag.
    fn ccf(&mut self)
        ensures
            final(self)@ == spec_ccf(old(self)@),
    {
        let c = self.registers.f.get_c();
        self.registers.f.set_n(false);
        self.registers.f.set_h(false);
        self.registers.f.set_c(!c);
    }

    /// INC (HL): the byte at HL incremented in place.
    fn inc_hl(&mut self)
        requires
            old(self).wf(),
        ensures
            final(self).wf(),
            final(self)@ == spec_inc_hl(old(self)@),
    {
        let addr = self.read_hl();
        let v = self.bus.read_byte(addr);
        let r = self.inc(v);
        self.bus.write_byte(addr, r);
    }

    /// DEC (HL): the byte at HL decremented in place.
    fn dec_hl(&mut self)
        requires
            old(self).wf(),
        ensures
            final(self).wf(),
            final(self)@ == spec_dec_hl(old(self)@),
    {
        let addr = self.read_hl();
        let v = self.bus.read_byte(addr);
        let r = self.dec(v);
        self.bus.write_byte(addr, r);
    }

    /// PUSH rr.
    fn push_rr(&mut self, target: TargetPair)
        requires
            old(self).wf(),
        ensures
            final(self).wf(),
            final(self)@ == spec_push_rr(old(self)@, target),
    {
        let w = self.registers.read_pair(target);
        let (hi, lo) = crate::split_word(w);
        self.push(hi);
        self.push(lo);
    }

    /// POP rr.
    fn pop_rr(&mut self, target: TargetPair)
        requires
            old(self).wf(),
        ensures
            final(self).wf(),
            final(self)@ == spec_pop_rr(old(self)@, target),
    {
        let lo = self.pop();
        let hi = self.pop();
        let w = crate::join_half_words(hi, lo);
        self.registers.write_pair(target, w);
    }

    /// RST: push PC and jump to the fixed vector.
    fn rst(&mut self, vector: u16)
        requires
            old(self).wf(),
        ensures
            final(self).wf(),
            final(self)@ == spec_rst(old(self)@, vector),
    {
        let (hi, lo) = crate::split_word(self.pc);
        self.push(hi);
        self.push(lo);
        self.pc = vector;
    }

    /// JP cc,u16.
    fn jpcc_u16(&mut self, flag: bool, is_set: bool, operands: Vec<u8>)
        requires
            operands@.len() == 2,
        ensures
            final(self)@ == (if flag == is_set {
                spec_jp_u16(old(self)@, operands@[0], operands@[1])
            } else {
                old(self)@
            }),
    {
        if flag == is_set {
            self.pc = crate::join_half_words(operands[1], operands[0]);
        }
    }

    /// ADD SP,i8: the signed offset into SP, with the low-byte flag rule.
    fn add_sp_i8(&mut self, operands: Vec<u8>)
        requires
            operands@.len() == 1,
        ensures
            final(self)@ == spec_add_sp(old(self)@, operands@[0]),
    {
        let n = operands[0];
        let sp = self.sp;
        let t: u32 = sp as u32 + n as u32 + if n >= 0x80 {
            0xFF00
        } else {
            0
        };
        self.registers.f.set_z(false);
        self.registers.f.set_n(false);
        self.registers.f.set_h(sp % 16 + (n % 16) as u16 > 15);
        self.registers.f.set_c(sp % 256 + n as u16 > 255);
        self.sp = (t % 0x10000) as u16;
    }

    /// LD HL,SP+i8: SP plus the signed offset into HL, with the ADD SP
    /// flag rule.
    fn ld_hl_sp_i8(&mut self, operands: Vec<u8>)
        requires
            operands@.len() == 1,
        ensures
            final(self)@ == spec_ld_hl_sp(old(self)@, operands@[0]),
    {
        let n = operands[0];
        let sp = self.sp;
        let t: u32 = sp as u32 + n as u32 + if n >= 0x80 {
            0xFF00
        } else {
            0
        };
        self.registers.f.set_z(false);
        self.registers.f.set_n(false);
        self.registers.f.set_h(sp % 16 + (n % 16) as u16 > 15);
        self.registers.f.set_c(sp % 256 + n as u16 > 255);
        self.set_hl((t % 0x10000) as u16);
    }

    /// LD (u16),A.
    fn ldnn_a(&mut self, operands: Vec<u8>)
        requires
            old(self).wf(),
            operands@.len() == 2,
        ensures
            final(self).wf(),
            final(self)@ == spec_ldnn_a(old(self)@, operands@[0], operands@[1]),
    {
        let address = crate::join_half_words(operands[1], operands[0]);
        let a = self.registers.read(TargetRegister::A);
        self.bus.write_byte(address, a);
    }

    /// LD A,(u16).
    fn lda_nn(&mut self, operands: Vec<u8>)
        requires
            old(self).wf(),
            operands@.len() == 2,
        ensures
            final(self).wf(),
            final(self)@ == spec_lda_nn(old(self)@, operands@[0], operands@[1]),
    {
        let address = crate::join_half_words(operands[1], operands[0]);
        let byte = self.bus.read_byte(address);
        self.registers.write(TargetRegister::A, byte);
    }

    /// LD r,r'.
    fn ldrr(&mut self, dest_reg: TargetRegister, source_reg: TargetRegister)
        ensures
            final(self)@ == spec_ldrr(old(self)@, dest_reg, source_reg),
    {
        let byte = self.registers.read(source_reg);
        self.registers.write(dest_reg, byte);
    }

    /// LD (rr),r.
    fn ldrr_r(&mut self, upper_reg: TargetRegister, lower_reg: TargetRegister, byte_reg: TargetRegister)
        requires
            old(self).wf(),
        ensures
            final(self).wf(),
            final(self)@ == spec_ldrr_r(old(self)@, upper_reg, lower_reg, byte_reg),
    {
        let address = crate::join_half_words(
            self.registers.read(upper_reg),
            self.registers.read(lower_reg),
        );
        let byte = self.registers.read(byte_reg);
        self.bus.write_byte(address, byte);
    }

    /// LD r,(rr).
    fn ldr_rr(&mut self, dest_reg: TargetRegister, upper_reg: TargetRegister, lower_reg: TargetRegister)
        requires
            old(self).wf(),
        ensures
            final(self).wf(),
            final(self)@ == spec_ldr_rr(old(self)@, dest_reg, upper_reg, lower_reg),
    {
        let address = crate::join_half_words(
            self.registers.read(upper_reg),
            self.registers.read(lower_reg),
        );
        let byte = self.bus.read_byte(address);
        self.registers.write(dest_reg, byte);
    }

    /// LD (rr),u8.
    fn ldrr_u8(&mut self, upper_reg: TargetRegister, lower_reg: TargetRegister, operands: Vec<u8>)
        requires
            old(self).wf(),
            operands@.len() == 1,
        ensures
            final(self).wf(),
            final(self)@ == spec_ldrr_u8(old(self)@, upper_reg, lower_reg, operands@[0]),
    {
        let address = crate::join_half_words(
            self.registers.read(upper_reg),
            self.registers.read(lower_reg),
        );
        self.bus.write_byte(address, operands[0]);
    }

    /// INC rr.
    fn inc_u16(&mut self, reg1: TargetRegister, reg2: TargetRegister)
        ensures
            final(self)@ == spec_inc_u16(old(self)@, reg1, reg2),
    {
        let word = crate::join_half_words(self.registers.read(reg1), self.registers.read(reg2));
        let next = if word == 0xFFFF {
            0
        } else {
            word + 1
        };
        let (upper, lower) = crate::split_word(next);
        self.registers.write(reg1, upper);
        self.registers.write(reg2, lower);
    }

    /// DEC rr.
    fn dec_u16(&mut self, reg1: TargetRegister, reg2: TargetRegister)
        ensures
            final(self)@ == spec_dec_u16(old(self)@, reg1, reg2),
    {
        let word = crate::join_half_words(self.registers.read(reg1), self.registers.read(reg2));
        let next = if word == 0 {
            0xFFFF
        } else {
            word - 1
        };
        let (upper, lower) = crate::split_word(next);
        self.registers.write(reg1, upper);
        self.registers.write(reg2, lower);
    }

    /// INC r.
    fn inc_u8(&mut self, reg: TargetRegister)
        ensures
            final(self)@ == spec_inc_u8(old(self)@, reg),
    {
        let i = self.registers.read(reg);
        let incremented = self.inc(i);
        self.registers.write(reg, incremented);
    }

    /// DEC r.
    fn dec_u8(&mut self, reg: TargetRegister)
        ensures
            final(self)@ == spec_dec_u8(old(self)@, reg),
    {
        let i = self.registers.read(reg);
        let decremented = self.dec(i);
        self.registers.write(reg, decremented);
    }

    /// The INC flag rule: wrapping increment; Z by result, N cleared, H on
    /// low-nibble overflow, C untouched.
    fn inc(&mut self, byte: u8) -> (r: u8)
        ensures
            r == wrap_inc8(byte),
            final(self)@ == (CpuView {
                regs: RegsView { f: spec_inc8_flags(old(self)@.regs.f, byte), ..old(self)@.regs },
                ..old(self)@
            }),
    {
        let incremented = if byte == 0xFF {
            0
        } else {
            byte + 1
        };
        self.registers.f.set_n(false);
        self.registers.f.set_z(incremented == 0);
        self.registers.f.set_h(byte % 16 == 15);
        incremented
    }

    /// The DEC flag rule: wrapping decrement; Z by result, N set, H on
    /// low-nibble borrow, C untouched.
    fn dec(&mut self, byte: u8) -> (r: u8)
        ensures
            r == wrap_dec8(byte),
            final(self)@ == (CpuView {
                regs: RegsView { f: spec_dec8_flags(old(self)@.regs.f, byte), ..old(self)@.regs },
                ..old(self)@
            }),
    {
        let decremented = if byte == 0 {
            0xFF
        } else {
            byte - 1
        };
        self.registers.f.set_n(true);
        self.registers.f.set_z(decremented == 0);
        self.registers.f.set_h(byte % 16 == 0);
        decremented
    }

    /// LD (u16),SP.
    fn ldnn_sp(&mut self, operands: Vec<u8>)
        requires
            old(self).wf(),
            operands@.len() == 2,
        ensures
            final(self).wf(),
            final(self)@ == spec_ldnn_sp(old(self)@, operands@[0], operands@[1]),
    {
        let address = crate::join_half_words(operands[1], operands[0]);
        let sp = self.sp;
        self.bus.write_word(address, sp);
    }

    /// ADD HL,rr.
    fn addhl_rr(&mut self, upper_reg: TargetRegister, lower_reg: TargetRegister)
        ensures
            final(self)@ == spec_addhl_rr(old(self)@, upper_reg, lower_reg),
    {
        let hl = self.read_hl();
        let rr = crate::join_half_words(
            self.registers.read(upper_reg),
            self.registers.read(lower_reg),
        );
        let result = self.add_words(hl, rr);
        self.set_hl(result);
    }

    /// INC SP.
    fn inc_sp(&mut self)
        ensures
            final(self)@ == spec_inc_sp(old(self)@),
    {
        self.sp = if self.sp == 0xFFFF {
            0
        } else {
            self.sp + 1
        };
    }

    /// DEC SP.
    fn dec_sp(&mut self)
        ensures
            final(self)@ == spec_dec_sp(old(self)@),
    {
        self.sp = if self.sp == 0 {
            0xFFFF
        } else {
            self.sp - 1
        };
    }

    /// ADD HL,SP.
    fn addhl_sp(&mut self)
        ensures
            final(self)@ == spec_addhl_sp(old(self)@),
    {
        let hl = self.read_hl();
        let sp = self.sp;
        let result = self.add_words(hl, sp);
        self.set_hl(result);
    }

    /// The ADD HL flag rule: wrapping 16-bit sum; Z untouched, N cleared,
    /// H from bit 11, C from bit 15.
    fn add_words(&mut self, a: u16, b: u16) -> (r: u16)
        ensures
            r == spec_add16(a, b),
            final(self)@ == (CpuView {
                regs: RegsView {
                    f: spec_add16_flags(old(self)@.regs.f, a, b),
                    ..old(self)@.regs
                },
                ..old(self)@
            }),
    {
        let sum: u32 = a as u32 + b as u32;
        let added = (sum % 0x10000) as u16;
        self.registers.f.set_n(false);
        self.registers.f.set_c(sum > 0xFFFF);
        self.registers.f.set_h(a % 0x1000 + b % 0x1000 > 0xFFF);
        added
    }

    /// LD SP,u16.
    fn ldsp_u16(&mut self, operands: Vec<u8>)
        requires
            operands@.len() == 2,
        ensures
            final(self)@ == spec_ldsp_u16(old(self)@, operands@[0], operands@[1]),
    {
        self.sp = crate::join_half_words(operands[1], operands[0])
    }

    /// JP u16.
    fn jp_u16(&mut self, operands: Vec<u8>)
        requires
            operands@.len() == 2,
        ensures
            final(self)@ == spec_jp_u16(old(self)@, operands@[0], operands@[1]),
    {
        self.pc = crate::join_half_words(operands[1], operands[0])
    }

    /// CP A,u8: the CP flag rule; A itself is untouched.
    fn cp_u8(&mut self, operands: Vec<u8>)
        requires
            operands@.len() == 1,
        ensures
            final(self)@ == spec_cp_u8(old(self)@, operands@[0]),
    {
        let value = operands[0];
        let a = self.registers.read(TargetRegister::A);
        self.cp_bytes(a, value);
    }

    /// JR cc,i8: a conditional relative jump from the post-operand PC.
    fn jrcc_i8(&mut self, flag: bool, is_set: bool, operands: Vec<u8>)
        requires
            operands@.len() == 1,
        ensures
            final(self)@ == spec_jrcc_i8(old(self)@, flag == is_set, operands@[0]),
    {
        let n = operands[0];
        if flag == is_set {
            let t: u32 = self.pc as u32 + n as u32 + if n >= 0x80 {
                0xFF00
            } else {
                0
            };
            self.pc = (t % 0x10000) as u16;
        }
    }

    /// JR i8: an unconditional relative jump.
    fn jr_i8(&mut self, operands: Vec<u8>)
        requires
            operands@.len() == 1,
        ensures
            final(self)@ == spec_jrcc_i8(old(self)@, true, operands@[0]),
    {
        let n = operands[0];
        let t: u32 = self.pc as u32 + n as u32 + if n >= 0x80 {
            0xFF00
        } else {
            0
        };
        self.pc = (t % 0x10000) as u16;
    }

    /// LD (HL+),A.
    fn ld_inc_hl_a(&mut self)
        requires
            old(self).wf(),
        ensures
            final(self).wf(),
            final(self)@ == spec_ld_inc_hl_a(old(self)@),
    {
        let addr = self.read_hl();
        let a = self.registers.read(TargetRegister::A);
        self.bus.write_byte(addr, a);
        let next = if addr == 0xFFFF {
            0
        } else {
            addr + 1
        };
        self.set_hl(next);
    }

    /// LD (HL-),A.
    fn ld_dec_hl_a(&mut self)
        requires
            old(self).wf(),
        ensures
            final(self).wf(),
            final(self)@ == spec_ld_dec_hl_a(old(self)@),
    {
        let addr = self.read_hl();
        let a = self.registers.read(TargetRegister::A);
        self.bus.write_byte(addr, a);
        let next = if addr == 0 {
            0xFFFF
        } else {
            addr - 1
        };
        self.set_hl(next);
    }

    /// LD A,(HL+).
    fn ld_inc_a_hl(&mut self)
        requires
            old(self).wf(),
        ensures
            final(self).wf(),
            final(self)@ == spec_ld_inc_a_hl(old(self)@),
    {
        let addr = self.read_hl();
        let byte = self.bus.read_byte(addr);
        self.registers.write(TargetRegister::A, byte);
        let next = if addr == 0xFFFF {
            0
        } else {
            addr + 1
        };
        self.set_hl(next);
    }

    /// LD A,(HL-).
    fn ld_dec_a_hl(&mut self)
        requires
            old(self).wf(),
        ensures
            final(self).wf(),
            final(self)@ == spec_ld_dec_a_hl(old(self)@),
    {
        let addr = self.read_hl();
        let byte = self.bus.read_byte(addr);
        self.registers.write(TargetRegister::A, byte);
        let next = if addr == 0 {
            0xFFFF
        } else {
            addr - 1
        };
        self.set_hl(next);
    }

    /// One accumulator ALU operation: ADD, ADC, SUB, SBC, AND, XOR, OR or
    /// CP on the accumulator and the byte `x`.
    fn alu_a(&mut self, idx: u8, x: u8)
        ensures
            final(self)@ == spec_alu_a(old(self)@, idx, x),
    {
        let a = self.registers.read(TargetRegister::A);
        if idx == 0 {
            let r = self.add_bytes(a, x);
            self.registers.write(TargetRegister::A, r);
        } else if idx == 1 {
            let cin = self.registers.f.get_c();
            let r = self.adc_bytes(a, x, cin);
            self.registers.write(TargetRegister::A, r);
        } else if idx == 2 {
            let r = self.sub_bytes(a, x);
            self.registers.write(TargetRegister::A, r);
        } else if idx == 3 {
            let cin = self.registers.f.get_c();
            let r = self.sbc_bytes(a, x, cin);
            self.registers.write(TargetRegister::A, r);
        } else if idx == 4 {
            let r = self.and_bytes(a, x);
            self.registers.write(TargetRegister::A, r);
        } else if idx == 5 {
            let r = self.xor(a, x);
            self.registers.write(TargetRegister::A, r);
        } else if idx == 6 {
            let r = self.or_bytes(a, x);
            self.registers.write(TargetRegister::A, r);
        } else {
            self.cp_bytes(a, x);
        }
    }

    /// The ADC flag rule: wrapping byte sum with carry-in.
    fn adc_bytes(&mut self, a: u8, b: u8, cin: bool) -> (r: u8)
        ensures
            r == spec_adc8(a, b, cin),
            final(self)@ == (CpuView {
                regs: RegsView { f: spec_adc8_flags(a, b, cin), ..old(self)@.regs },
                ..old(self)@
            }),
    {
        let c: u16 = if cin {
            1
        } else {
            0
        };
        let sum: u16 = a as u16 + b as u16 + c;
        let added = (sum % 256) as u8;
        self.registers.f.set_n(false);
        self.registers.f.set_c(sum > 255);
        self.registers.f.set_h(a % 16 + b % 16 + c as u8 > 15);
        self.registers.f.set_z(added == 0);
        added
    }

    /// The SUB flag rule: wrapping byte difference; Z by result, N set, H
    /// and C on the nibble and byte borrows.
    fn sub_bytes(&mut self, a: u8, b: u8) -> (r: u8)
        ensures
            r == spec_sub8(a, b),
            final(self)@ == (CpuView {
                regs: RegsView { f: spec_sub8_flags(a, b), ..old(self)@.regs },
                ..old(self)@
            }),
    {
        let diff = ((a as u16 + 256 - b as u16) % 256) as u8;
        self.registers.f.set_n(true);
        self.registers.f.set_c(a < b);
        self.registers.f.set_h(a % 16 < b % 16);
        self.registers.f.set_z(diff == 0);
        diff
    }

    /// The SBC flag rule: wrapping byte difference with carry-in.
    fn sbc_bytes(&mut self, a: u8, b: u8, cin: bool) -> (r: u8)
        ensures
            r == spec_sbc8(a, b, cin),
            final(self)@ == (CpuView {
                regs: RegsView { f: spec_sbc8_flags(a, b, cin), ..old(self)@.regs },
                ..old(self)@
            }),
    {
        let c: u16 = if cin {
            1
        } else {
            0
        };
        let diff = ((a as u16 + 256 - b as u16 - c) % 256) as u8;
        self.registers.f.set_n(true);
        self.registers.f.set_c((a as u16) < b as u16 + c);
        self.registers.f.set_h((a % 16) < b % 16 + c as u8);
        self.registers.f.set_z(diff == 0);
        diff
    }

    /// The AND flag rule: Z by result, H set, N and C cleared.
    fn and_bytes(&mut self, a: u8, b: u8) -> (r: u8)
        ensures
            r == (a & b),
            final(self)@ == (CpuView {
                regs: RegsView {
                    f: (FlagsView { z: (a & b) == 0, n: false, h: true, c: false }),
                    ..old(self)@.regs
                },
                ..old(self)@
            }),
    {
        let bit = a & b;
        self.registers.f.set_n(false);
        self.registers.f.set_c(false);
        self.registers.f.set_h(true);
        self.registers.f.set_z(bit == 0);
        bit
    }

    /// The OR flag rule: Z by result, the rest cleared.
    fn or_bytes(&mut self, a: u8, b: u8) -> (r: u8)
        ensures
            r == (a | b),
            final(self)@ == (CpuView {
                regs: RegsView {
                    f: (FlagsView { z: (a | b) == 0, n: false, h: false, c: false }),
                    ..old(self)@.regs
                },
                ..old(self)@
            }),
    {
        let bit = a | b;
        self.registers.f.set_n(false);
        self.registers.f.set_c(false);
        self.registers.f.set_h(false);
        self.registers.f.set_z(bit == 0);
        bit
    }

    /// The CP flag rule: the comparison's flags, the accumulator untouched.
    fn cp_bytes(&mut self, a: u8, b: u8)
        ensures
            final(self)@ == (CpuView {
                regs: RegsView { f: spec_cp_flags(a, b), ..old(self)@.regs },
                ..old(self)@
            }),
    {
        self.registers.f.set_n(true);
        self.registers.f.set_h(a % 16 < b % 16);
        self.registers.f.set_c(a < b);
        self.registers.f.set_z(b == a);
    }

    /// The XOR flag rule: Z by result, the rest cleared.
    fn xor(&mut self, a: u8, b: u8) -> (r: u8)
        ensures
            r == (a ^ b),
            final(self)@ == (CpuView {
                regs: RegsView { f: spec_xor8_flags(a, b), ..old(self)@.regs },
                ..old(self)@
            }),
    {
        self.registers.f.set_h(false);
        self.registers.f.set_n(false);
        self.registers.f.set_c(false);
        let bit = a ^ b;
        self.registers.f.set_z(bit == 0);
        bit
    }

    /// The ADD flag rule: wrapping byte sum; Z by result, N cleared, H from
    /// bit 3, C from bit 7.
    fn add_bytes(&mut self, a: u8, b: u8) -> (r: u8)
        ensures
            r == spec_add8(a, b),
            final(self)@ == (CpuView {
                regs: RegsView { f: spec_add8_flags(a, b), ..old(self)@.regs },
                ..old(self)@
            }),
    {
        let sum: u16 = a as u16 + b as u16;
        let added = (sum % 256) as u8;
        self.registers.f.set_n(false);
        self.registers.f.set_c(sum > 255);
        self.registers.f.set_h(a % 16 + b % 16 > 15);
        self.registers.f.set_z(added == 0);
        added
    }

    /// RET: pop the low byte, then the high byte, into PC.
    fn ret(&mut self)
        requires
            old(self).wf(),
        ensures
            final(self).wf(),
            final(self)@ == spec_ret(old(self)@),
    {
        let lower = self.pop();
        let upper = self.pop();
        self.pc = crate::join_half_words(upper, lower);
    }

    /// RET cc.
    fn retcc(&mut self, flag: bool, is_set: bool)
        requires
            old(self).wf(),
        ensures
            final(self).wf(),
            final(self)@ == (if flag == is_set {
                spec_ret(old(self)@)
            } else {
                old(self)@
            }),
    {
        if flag == is_set {
            self.ret();
        }
    }

    /// CALL u16.
    fn call_u16(&mut self, operands: Vec<u8>)
        requires
            old(self).wf(),
            operands@.len() == 2,
        ensures
            final(self).wf(),
            final(self)@ == spec_call_u16(old(self)@, operands@[0], operands@[1]),
    {
        let (upper, lower) = crate::split_word(self.pc);
        self.push(upper);
        self.push(lower);
        self.pc = crate::join_half_words(operands[1], operands[0])
    }

    /// CALL cc,u16.
    fn callcc_u16(&mut self, flag: bool, is_set: bool, operands: Vec<u8>)
        requires
            old(self).wf(),
            operands@.len() == 2,
        ensures
            final(self).wf(),
            final(self)@ == (if flag == is_set {
                spec_call_u16(old(self)@, operands@[0], operands@[1])
            } else {
                old(self)@
            }),
    {
        if flag == is_set {
            self.call_u16(operands);
        }
    }

    /// Push: decrement SP, then store the byte at the new SP.
    fn push(&mut self, half_word: u8)
        requires
            old(self).wf(),
        ensures
            final(self).wf(),
            final(self)@ == (CpuView {
                sp: wrap_dec16(old(self)@.sp),
                bus: spec_bus_write(old(self)@.bus, wrap_dec16(old(self)@.sp), half_word),
                ..old(self)@
            }),
    {
        self.sp = if self.sp == 0 {
            0xFFFF
        } else {
            self.sp - 1
        };
        self.bus.write_byte(self.sp, half_word)
    }

    /// Pop: read the byte at SP, then increment SP.
    fn pop(&mut self) -> (r: u8)
        requires
            old(self).wf(),
        ensures
            final(self).wf(),
            r == spec_bus_read(old(self)@.bus, old(self)@.sp),
            final(self)@ == (CpuView { sp: wrap_inc16(old(self)@.sp), ..old(self)@ }),
    {
        let byte = self.bus.read_byte(self.sp);
        self.sp = if self.sp == 0xFFFF {
            0
        } else {
            self.sp + 1
        };
        byte
    }

    /// The address held by HL.
    fn read_hl(&self) -> (r: u16)
        ensures
            r == spec_join(self@.regs.h, self@.regs.l),
    {
        crate::join_half_words(self.registers.h, self.registers.l)
    }

    /// Stores a word into HL.
    fn set_hl(&mut self, word: u16)
        ensures
            final(self)@ == (CpuView {
                regs: RegsView {
                    h: (word / 256) as u8,
                    l: (word % 256) as u8,
                    ..old(self)@.regs
                },
                ..old(self)@
            }),
    {
        let (upper, lower) = crate::split_word(word);
        self.registers.h = upper;
        self.registers.l = lower;
    }

    /// HALT: stop advancing until an interrupt would wake the processor.
    fn halt(&mut self)
        ensures
            final(self)@ == (CpuView { halted: true, ..old(self)@ }),
    {
        self.halted = true
    }

    /// The machine cycles `opcode` will consume from the current state:
    /// the table's base cost, or the alternate cost of a taken branch.
    fn cycles_for(&self, opcode: u8) -> (r: u32)
        requires
            self.wf(),
        ensures
            r == spec_execute_cycles(self@, opcode),
    {
        if opcode == 0x76 {
            4
        } else if 0x40 <= opcode && opcode < 0x80 {
            if opcode % 8 == 6 || (opcode - 0x40) / 8 == 6 {
                8
            } else {
                4
            }
        } else if 0x80 <= opcode && opcode < 0xC0 {
            if opcode % 8 == 6 {
                8
            } else {
                4
            }
        } else {
            match opcode {
                0x01 | 0x11 | 0x21 | 0x31 => 12,
                0x02 | 0x12 | 0x22 | 0x32 | 0x0A | 0x1A | 0x2A | 0x3A => 8,
                0x03 | 0x13 | 0x23 | 0x33 | 0x0B | 0x1B | 0x2B | 0x3B => 8,
                0x06 | 0x0E | 0x16 | 0x1E | 0x26 | 0x2E | 0x3E => 8,
                0x08 => 20,
                0x09 | 0x19 | 0x29 | 0x39 => 8,
                0x18 => 12,
                0x20 => if self.registers.f.get_z() == false {
                    12
                } else {
                    8
                },
                0x28 => if self.registers.f.get_z() == true {
                    12
                } else {
                    8
                },
                0x30 => if self.registers.f.get_c() == false {
                    12
                } else {
                    8
                },
                0x38 => if self.registers.f.get_c() == true {
                    12
                } else {
                    8
                },
                0x34 | 0x35 | 0x36 => 12,
                0xC0 => if self.registers.f.get_z() == false {
                    20
                } else {
                    8
                },
                0xC8 => if self.registers.f.get_z() == true {
                    20
                } else {
                    8
                },
                0xD0 => if self.registers.f.get_c() == false {
                    20
                } else {
                    8
                },
                0xD8 => if self.registers.f.get_c() == true {
                    20
                } else {
                    8
                },
                0xC1 | 0xD1 | 0xE1 | 0xF1 => 12,
                0xC2 => if self.registers.f.get_z() == false {
                    16
                } else {
                    12
                },
                0xCA => if self.registers.f.get_z() == true {
                    16
                } else {
                    12
                },
                0xD2 => if self.registers.f.get_c() == false {
                    16
                } else {
                    12
                },
                0xDA => if self.registers.f.get_c() == true {
                    16
                } else {
                    12
                },
                0xC3 => 16,
                0xC4 => if self.registers.f.get_z() == false {
                    24
                } else {
                    12
                },
                0xCC => if self.registers.f.get_z() == true {
                    24
                } else {
                    12
                },
                0xD4 => if self.registers.f.get_c() == false {
                    24
                } else {
                    12
                },
                0xDC => if self.registers.f.get_c() == true {
                    24
                } else {
                    12
                },
                0xC5 | 0xD5 | 0xE5 | 0xF5 => 16,
                0xC6 | 0xCE | 0xD6 | 0xDE | 0xE6 | 0xEE | 0xF6 | 0xFE => 8,
                0xC7 | 0xCF | 0xD7 | 0xDF | 0xE7 | 0xEF | 0xF7 | 0xFF => 16,
                0xC9 | 0xD9 => 16,
                0xCB => {
                    let op2 = self.bus.read_byte(self.pc);
                    if op2 % 8 == 6 {
                        if 0x40 <= op2 && op2 < 0x80 {
                            12
                        } else {
                            16
                        }
                    } else {
                        8
                    }
                },
                0xCD => 24,
                0xE0 | 0xF0 => 12,
                0xE2 | 0xF2 => 8,
                0xE8 => 16,
                0xE9 => 4,
                0xEA | 0xFA => 16,
                0xF8 => 12,
                0xF9 => 8,
                _ => 4,
            }
        }
    }

    /// Executes `opcode`, whose operand bytes (if any) PC points at:
    /// reports the machine cycles consumed, or an unimplemented opcode
    /// without further effect.
    fn execute(&mut self, opcode: u8) -> (r: Result<u32, EmuError>)
        requires
            old(self).wf(),
        ensures
            final(self).wf(),
            spec_implemented(opcode) ==> r == Ok::<u32, EmuError>(
                spec_execute_cycles(old(self)@, opcode),
            ) && final(self)@ == spec_execute(old(self)@, opcode),
            !spec_implemented(opcode) ==> r == Err::<u32, EmuError>(
                EmuError::UnimplementedOpcode(opcode),
            ) && final(self)@ == old(self)@,
    {
        let cycles = self.cycles_for(opcode);
        match self.execute_action(opcode) {
            Ok(_) => Ok(cycles),
            Err(e) => Err(e),
        }
    }

    /// Performs `opcode`'s state transition.
    #[verifier::rlimit(100)]
    #[verifier::spinoff_prover]
    fn execute_action(&mut self, opcode: u8) -> (r: Result<(), EmuError>)
        requires
            old(self).wf(),
        ensures
            final(self).wf(),
            spec_implemented(opcode) ==> r is Ok && final(self)@ == spec_execute(
                old(self)@,
                opcode,
            ),
            !spec_implemented(opcode) ==> r == Err::<(), EmuError>(
                EmuError::UnimplementedOpcode(opcode),
            ) && final(self)@ == old(self)@,
    {
        if opcode == 0x76 {
            self.halt();
            return Ok(());
        }
        if 0x40 <= opcode && opcode < 0x80 {
            let dest = reg_of((opcode - 0x40) / 8);
            let src = reg_of(opcode % 8);
            match (dest, src) {
                (Some(d), Some(sr)) => self.ldrr(d, sr),
                (Some(d), None) => self.ldr_rr(d, TargetRegister::H, TargetRegister::L),
                (None, Some(sr)) => self.ldrr_r(TargetRegister::H, TargetRegister::L, sr),
                (None, None) => {
                    proof {
                        assert(!(0x40 <= opcode && opcode < 0x80 && opcode != 0x76 && (opcode
                            - 0x40) / 8 == 6 && opcode % 8 == 6)) by (bit_vector);
                    }
                },
            }
            return Ok(());
        }
        if 0x80 <= opcode && opcode < 0xC0 {
            let x = match reg_of(opcode % 8) {
                Some(sr) => self.registers.read(sr),
                None => {
                    let hl = self.read_hl();
                    self.bus.read_byte(hl)
                },
            };
            self.alu_a((opcode - 0x80) / 8, x);
            return Ok(());
        }
        if opcode < 0x20 {
            return self.execute_0x(opcode);
        }
        if opcode < 0x40 {
            return self.execute_2x(opcode);
        }
        if opcode < 0xE0 {
            return self.execute_cx(opcode);
        }
        self.execute_ex(opcode)
    }

    /// Executes an opcode from the 0x00-0x1F columns.
    #[verifier::rlimit(100)]
    #[verifier::spinoff_prover]
    fn execute_0x(&mut self, opcode: u8) -> (r: Result<(), EmuError>)
        requires
            old(self).wf(),
            opcode < 0x20,
        ensures
            final(self).wf(),
            spec_implemented(opcode) ==> r is Ok && final(self)@ == spec_execute(
                old(self)@,
                opcode,
            ),
            !spec_implemented(opcode) ==> r == Err::<(), EmuError>(
                EmuError::UnimplementedOpcode(opcode),
            ) && final(self)@ == old(self)@,
    {
        match opcode {
            0x00 => {},
            0x01 => {
                let operands = self.fetch_operands(2);
                self.ldn_u16(TargetRegister::B, TargetRegister::C, operands)
            },
            0x02 => self.ldrr_r(TargetRegister::B, TargetRegister::C, TargetRegister::A),
            0x03 => self.inc_u16(TargetRegister::B, TargetRegister::C),
            0x04 => self.inc_u8(TargetRegister::B),
            0x05 => self.dec_u8(TargetRegister::B),
            0x06 => {
                let operands = self.fetch_operands(1);
                self.ldn_u8(TargetRegister::B, operands)
            },
            0x07 => self.rlca(),
            0x08 => {
                let operands = self.fetch_operands(2);
                self.ldnn_sp(operands);
            },
            0x09 => self.addhl_rr(TargetRegister::B, TargetRegister::C),
            0x0A => self.ldr_rr(TargetRegister::A, TargetRegister::B, TargetRegister::C),
            0x0B => self.dec_u16(TargetRegister::B, TargetRegister::C),
            0x0C => self.inc_u8(TargetRegister::C),
            0x0D => self.dec_u8(TargetRegister::C),
            0x0E => {
                let operands = self.fetch_operands(1);
                self.ldn_u8(TargetRegister::C, operands)
            },
            0x0F => self.rrca(),
            0x10 => {
                // STOP: skip the following byte and halt until woken; a
                // halt-equivalent deep sleep.
                let _operands = self.fetch_operands(1);
                self.halt();
            },
            0x11 => {
                let operands = self.fetch_operands(2);
                self.ldn_u16(TargetRegister::D, TargetRegister::E, operands)
            },
            0x12 => self.ldrr_r(TargetRegister::D, TargetRegister::E, TargetRegister::A),
            0x13 => self.inc_u16(TargetRegister::D, TargetRegister::E),
            0x14 => self.inc_u8(TargetRegister::D),
            0x15 => self.dec_u8(TargetRegister::D),
            0x16 => {
                let operands = self.fetch_operands(1);
                self.ldn_u8(TargetRegister::D, operands)
            },
            0x17 => self.rla(),
            0x18 => {
                let operands = self.fetch_operands(1);
                self.jr_i8(operands);
            },
            0x19 => self.addhl_rr(TargetRegister::D, TargetRegister::E),
            0x1A => self.ldr_rr(TargetRegister::A, TargetRegister::D, TargetRegister::E),
            0x1B => self.dec_u16(TargetRegister::D, TargetRegister::E),
            0x1C => self.inc_u8(TargetRegister::E),
            0x1D => self.dec_u8(TargetRegister::E),
            0x1E => {
                let operands = self.fetch_operands(1);
                self.ldn_u8(TargetRegister::E, operands)
            },
            0x1F => self.rra(),
            _ => {
                return Err(EmuError::UnimplementedOpcode(opcode));
            },
        }
        Ok(())
    }

    /// Executes an opcode from the 0x20-0x3F columns.
    #[verifier::rlimit(100)]
    #[verifier::spinoff_prover]
    fn execute_2x(&mut self, opcode: u8) -> (r: Result<(), EmuError>)
        requires
            old(self).wf(),
            0x20 <= opcode < 0x40,
        ensures
            final(self).wf(),
            spec_implemented(opcode) ==> r is Ok && final(self)@ == spec_execute(
                old(self)@,
                opcode,
            ),
            !spec_implemented(opcode) ==> r == Err::<(), EmuError>(
                EmuError::UnimplementedOpcode(opcode),
            ) && final(self)@ == old(self)@,
    {
        match opcode {
            0x20 => {
                let operands = self.fetch_operands(1);
                let z = self.registers.f.get_z();
                self.jrcc_i8(z, false, operands);
            },
            0x21 => {
                let operands = self.fetch_operands(2);
                self.ldn_u16(TargetRegister::H, TargetRegister::L, operands)
            },
            0x22 => self.ld_inc_hl_a(),
            0x23 => self.inc_u16(TargetRegister::H, TargetRegister::L),
            0x24 => self.inc_u8(TargetRegister::H),
            0x25 => self.dec_u8(TargetRegister::H),
            0x26 => {
                let operands = self.fetch_operands(1);
                self.ldn_u8(TargetRegister::H, operands)
            },
            0x27 => self.daa(),
            0x28 => {
                let operands = self.fetch_operands(1);
                let z = self.registers.f.get_z();
                self.jrcc_i8(z, true, operands);
            },
            0x29 => self.addhl_rr(TargetRegister::H, TargetRegister::L),
            0x2A => self.ld_inc_a_hl(),
            0x2B => self.dec_u16(TargetRegister::H, TargetRegister::L),
            0x2C => self.inc_u8(TargetRegister::L),
            0x2D => self.dec_u8(TargetRegister::L),
            0x2E => {
                let operands = self.fetch_operands(1);
                self.ldn_u8(TargetRegister::L, operands)
            },
            0x2F => self.cpl(),
            0x30 => {
                let operands = self.fetch_operands(1);
                let c = self.registers.f.get_c();
                self.jrcc_i8(c, false, operands);
            },
            0x31 => {
                let operands = self.fetch_operands(2);
                self.ldsp_u16(operands)
            },
            0x32 => self.ld_dec_hl_a(),
            0x33 => self.inc_sp(),
            0x34 => self.inc_hl(),
            0x35 => self.dec_hl(),
            0x36 => {
                let operands = self.fetch_operands(1);
                self.ldrr_u8(TargetRegister::H, TargetRegister::L, operands);
            },
            0x37 => self.scf(),
            0x38 => {
                let operands = self.fetch_operands(1);
                let c = self.registers.f.get_c();
                self.jrcc_i8(c, true, operands);
            },
            0x39 => self.addhl_sp(),
            0x3A => self.ld_dec_a_hl(),
            0x3B => self.dec_sp(),
            0x3C => self.inc_u8(TargetRegister::A),
            0x3D => self.dec_u8(TargetRegister::A),
            0x3E => {
                let operands = self.fetch_operands(1);
                self.ldn_u8(TargetRegister::A, operands)
            },
            0x3F => self.ccf(),
            _ => {
                return Err(EmuError::UnimplementedOpcode(opcode));
            },
        }
        Ok(())
    }

    /// Executes an opcode from the 0xC0-0xDF columns.
    #[verifier::rlimit(100)]
    #[verifier::spinoff_prover]
    fn execute_cx(&mut self, opcode: u8) -> (r: Result<(), EmuError>)
        requires
            old(self).wf(),
            0xC0 <= opcode < 0xE0,
        ensures
            final(self).wf(),
            spec_implemented(opcode) ==> r is Ok && final(self)@ == spec_execute(
                old(self)@,
                opcode,
            ),
            !spec_implemented(opcode) ==> r == Err::<(), EmuError>(
                EmuError::UnimplementedOpcode(opcode),
            ) && final(self)@ == old(self)@,
    {
        match opcode {
            0xC0 => {
                let z = self.registers.f.get_z();
                self.retcc(z, false)
            },
            0xC1 => self.pop_rr(TargetPair::BC),
            0xC2 => {
                let operands = self.fetch_operands(2);
                let z = self.registers.f.get_z();
                self.jpcc_u16(z, false, operands);
            },
            0xC3 => {
                let operands = self.fetch_operands(2);
                self.jp_u16(operands);
            },
            0xC4 => {
                let operands = self.fetch_operands(2);
                let z = self.registers.f.get_z();
                self.callcc_u16(z, false, operands);
            },
            0xC5 => self.push_rr(TargetPair::BC),
            0xC6 => {
                let operands = self.fetch_operands(1);
                self.alu_a(0, operands[0]);
            },
            0xC7 => self.rst(0x00),
            0xC8 => {
                let z = self.registers.f.get_z();
                self.retcc(z, true)
            },
            0xC9 => self.ret(),
            0xCA => {
                let operands = self.fetch_operands(2);
                let z = self.registers.f.get_z();
                self.jpcc_u16(z, true, operands);
            },
            0xCB => {
                let op2 = self.fetch();
                self.execute_cb(op2);
            },
            0xCC => {
                let operands = self.fetch_operands(2);
                let z = self.registers.f.get_z();
                self.callcc_u16(z, true, operands);
            },
            0xCD => {
                let operands = self.fetch_operands(2);
                self.call_u16(operands);
            },
            0xCE => {
                let operands = self.fetch_operands(1);
                self.alu_a(1, operands[0]);
            },
            0xCF => self.rst(0x08),
            0xD0 => {
                let c = self.registers.f.get_c();
                self.retcc(c, false)
            },
            0xD1 => self.pop_rr(TargetPair::DE),
            0xD2 => {
                let operands = self.fetch_operands(2);
                let c = self.registers.f.get_c();
                self.jpcc_u16(c, false, operands);
            },
            0xD4 => {
                let operands = self.fetch_operands(2);
                let c = self.registers.f.get_c();
                self.callcc_u16(c, false, operands);
            },
            0xD5 => self.push_rr(TargetPair::DE),
            0xD6 => {
                let operands = self.fetch_operands(1);
                self.alu_a(2, operands[0]);
            },
            0xD7 => self.rst(0x10),
            0xD8 => {
                let c = self.registers.f.get_c();
                self.retcc(c, true)
            },
            0xD9 => {
                // RETI: return, with interrupts enabled at once.
                self.ret();
                self.ime = true;
            },
            0xDA => {
                let operands = self.fetch_operands(2);
                let c = self.registers.f.get_c();
                self.jpcc_u16(c, true, operands);
            },
            0xDC => {
                let operands = self.fetch_operands(2);
                let c = self.registers.f.get_c();
                self.callcc_u16(c, true, operands);
            },
            0xDE => {
                let operands = self.fetch_operands(1);
                self.alu_a(3, operands[0]);
            },
            0xDF => self.rst(0x18),
            _ => {
                return Err(EmuError::UnimplementedOpcode(opcode));
            },
        }
        Ok(())
    }

    /// Executes an opcode from the 0xE0-0xFF columns.
    #[verifier::rlimit(100)]
    #[verifier::spinoff_prover]
    fn execute_ex(&mut self, opcode: u8) -> (r: Result<(), EmuError>)
        requires
            old(self).wf(),
            0xE0 <= opcode,
        ensures
            final(self).wf(),
            spec_implemented(opcode) ==> r is Ok && final(self)@ == spec_execute(
                old(self)@,
                opcode,
            ),
            !spec_implemented(opcode) ==> r == Err::<(), EmuError>(
                EmuError::UnimplementedOpcode(opcode),
            ) && final(self)@ == old(self)@,
    {
        match opcode {
            0xE0 => {
                let operands = self.fetch_operands(1);
                self.ldn_a(operands);
            },
            0xE1 => self.pop_rr(TargetPair::HL),
            0xE2 => self.ldc_a(),
            0xE5 => self.push_rr(TargetPair::HL),
            0xE6 => {
                let operands = self.fetch_operands(1);
                self.alu_a(4, operands[0]);
            },
            0xE7 => self.rst(0x20),
            0xE8 => {
                let operands = self.fetch_operands(1);
                self.add_sp_i8(operands);
            },
            0xE9 => {
                let hl = self.read_hl();
                self.pc = hl;
            },
            0xEA => {
                let operands = self.fetch_operands(2);
                self.ldnn_a(operands);
            },
            0xEE => {
                let operands = self.fetch_operands(1);
                self.alu_a(5, operands[0]);
            },
            0xEF => self.rst(0x28),
            0xF0 => {
                let operands = self.fetch_operands(1);
                self.ldu8_a(operands);
            },
            0xF1 => self.pop_rr(TargetPair::AF),
            0xF2 => self.lda_c(),
            0xF3 => {
                // DI: interrupt dispatch is gated off at once, cancelling
                // a still-scheduled enable.
                self.ime = false;
                self.ime_scheduled = false;
            },
            0xF5 => self.push_rr(TargetPair::AF),
            0xF6 => {
                let operands = self.fetch_operands(1);
                self.alu_a(6, operands[0]);
            },
            0xF7 => self.rst(0x30),
            0xF8 => {
                let operands = self.fetch_operands(1);
                self.ld_hl_sp_i8(operands);
            },
            0xF9 => {
                let hl = self.read_hl();
                self.sp = hl;
            },
            0xFA => {
                let operands = self.fetch_operands(2);
                self.lda_nn(operands);
            },
            0xFB => {
                // EI: the enable takes effect after the next instruction.
                self.ime_scheduled = true;
            },
            0xFE => {
                let operands = self.fetch_operands(1);
                self.cp_u8(operands);
            },
            0xFF => self.rst(0x38),
            _ => {
                return Err(EmuError::UnimplementedOpcode(opcode));
            },
        }
        Ok(())
    }

    /// Writes a CB-table operand back: to its register, or to the byte at
    /// HL for index 6.
    fn write_operand(&mut self, idx: u8, byte: u8)
        requires
            old(self).wf(),
        ensures
            final(self).wf(),
            final(self)@ == spec_write_operand(old(self)@, idx, byte),
    {
        match reg_of(idx) {
            Some(t) => self.registers.write(t, byte),
            None => {
                let hl = self.read_hl();
                self.bus.write_byte(hl, byte);
            },
        }
    }

    /// One CB-table shift or rotate on a byte, with its flag rule: Z by
    /// result, N and H cleared, C the shifted-out bit.
    fn cb_shift(&mut self, grp: u8, v: u8) -> (r: u8)
        ensures
            r == spec_cb_shift_val(grp, v, old(self)@.regs.f.c),
            final(self)@ == (CpuView {
                regs: RegsView {
                    f: (FlagsView {
                        z: spec_cb_shift_val(grp, v, old(self)@.regs.f.c) == 0,
                        n: false,
                        h: false,
                        c: spec_cb_shift_carry(grp, v),
                    }),
                    ..old(self)@.regs
                },
                ..old(self)@
            }),
    {
        let cin = self.registers.f.get_c();
        let r: u8 = if grp == 0 {
            ((v as u16 * 2) % 256) as u8 + if v >= 128 {
                1
            } else {
                0
            }
        } else if grp == 1 {
            v / 2 + if v % 2 == 1 {
                128
            } else {
                0
            }
        } else if grp == 2 {
            ((v as u16 * 2) % 256) as u8 + if cin {
                1
            } else {
                0
            }
        } else if grp == 3 {
            v / 2 + if cin {
                128
            } else {
                0
            }
        } else if grp == 4 {
            ((v as u16 * 2) % 256) as u8
        } else if grp == 5 {
            v / 2 + if v >= 128 {
                128
            } else {
                0
            }
        } else if grp == 6 {
            (v % 16) * 16 + v / 16
        } else {
            v / 2
        };
        let carry = if grp == 1 || grp == 3 || grp == 5 || grp == 7 {
            v % 2 == 1
        } else if grp == 6 {
            false
        } else {
            v >= 128
        };
        self.registers.f.set_z(r == 0);
        self.registers.f.set_n(false);
        self.registers.f.set_h(false);
        self.registers.f.set_c(carry);
        r
    }

    /// Executes one CB-prefixed instruction: a shift or rotate, a bit
    /// test, or a bit reset or set, on a register or the byte at HL.
    #[verifier::rlimit(100)]
    #[verifier::spinoff_prover]
    fn execute_cb(&mut self, op: u8)
        requires
            old(self).wf(),
        ensures
            final(self).wf(),
            final(self)@ == spec_cb_execute(old(self)@, op),
    {
        let v = match reg_of(op % 8) {
            Some(t) => self.registers.read(t),
            None => {
                let hl = self.read_hl();
                self.bus.read_byte(hl)
            },
        };
        let grp = op / 8;
        if grp < 8 {
            let r = self.cb_shift(grp, v);
            self.write_operand(op % 8, r);
        } else if grp < 16 {
            let n = grp - 8;
            self.registers.f.set_z(((v >> n) & 1) == 0);
            self.registers.f.set_n(false);
            self.registers.f.set_h(true);
        } else if grp < 24 {
            let n = grp - 16;
            self.write_operand(op % 8, v & (0xFFu8 ^ (1u8 << n)));
        } else {
            let n = grp - 24;
            self.write_operand(op % 8, v | (1u8 << n));
        }
    }

    /// Serves the highest-priority pending interrupt: acknowledges it,
    /// clears IME, pushes PC, and jumps to its vector.
    fn dispatch_interrupt(&mut self)
        requires
            old(self).wf(),
        ensures
            final(self).wf(),
            final(self)@ == spec_dispatch(old(self)@),
    {
        let pending = self.bus.pending_interrupts();
        let idx: u8 = if pending & 1 != 0 {
            0
        } else if pending & 2 != 0 {
            1
        } else if pending & 4 != 0 {
            2
        } else if pending & 8 != 0 {
            3
        } else {
            4
        };
        self.bus.clear_interrupt(idx);
        self.ime = false;
        let (upper, lower) = crate::split_word(self.pc);
        self.push(upper);
        self.push(lower);
        self.pc = 0x40 + 8 * idx as u16;
    }

    /// One step, reporting the machine cycles consumed (for the driver to
    /// advance the PPU and timer). Between instructions a flagged and
    /// enabled interrupt wakes a halted processor and, with IME set,
    /// dispatches; otherwise the opcode at PC is fetched and executed, and
    /// an enable scheduled by EI takes effect afterwards. An unimplemented
    /// opcode is reported with no effect beyond its fetch. (The hardware's
    /// halt bug is not reproduced: a halt entered with IME clear and an
    /// interrupt already pending wakes normally.)
    pub fn step(&mut self) -> (r: Result<u32, EmuError>)
        requires
            old(self).wf(),
        ensures
            final(self).wf(),
            final(self)@ == spec_cpu_step(old(self)@),
            (r is Ok) == spec_step_ok(old(self)@),
            spec_step_ok(old(self)@) ==> r == Ok::<u32, EmuError>(spec_step_cycles(old(self)@)),
            !spec_step_ok(old(self)@) ==> r == Err::<u32, EmuError>(
                EmuError::UnimplementedOpcode(spec_bus_read(old(self)@.bus, old(self)@.pc)),
            ),
    {
        let pending = self.bus.pending_interrupts();
        if self.halted {
            if pending == 0 {
                return Ok(4);
            }
            self.halted = false;
        }
        if self.ime && pending != 0 {
            self.dispatch_interrupt();
            return Ok(20);
        }
        let sched = self.ime_scheduled;
        let opcode = self.fetch();
        let result = self.execute(opcode);
        if sched && opcode != 0xF3 {
            self.ime = true;
            self.ime_scheduled = false;
        }
        result
    }
}

/// A NOP step: with no interrupt dispatch due and no enable pending, the
/// 0x00 instruction at PC advances PC by one and changes nothing else —
/// registers, flags, SP and every byte behind the bus included — and
/// succeeds at a cost of 4 clock cycles (one machine cycle).
pub proof fn lemma_nop_step(s: CpuView)
    requires
        !s.halted,
        !s.ime_scheduled,
        !(s.ime && spec_pending(s.bus) != 0),
        spec_bus_read(s.bus, s.pc) == 0x00,
    ensures
        spec_step_ok(s),
        spec_step_cycles(s) == 4,
        spec_cpu_step(s) == (CpuView { pc: wrap_inc16(s.pc), ..s }),
{
}

/// The spin tail of a NOP slide: a JR with offset -2 jumps back onto
/// itself, so a step from it returns the whole machine to exactly the
/// state it started in (SP included), succeeding at a cost of 12 clock
/// cycles.
pub proof fn lemma_jr_minus_two_spins(s: CpuView)
    requires
        !s.halted,
        !s.ime_scheduled,
        !(s.ime && spec_pending(s.bus) != 0),
        spec_bus_read(s.bus, s.pc) == 0x18,
        spec_bus_read(s.bus, wrap_inc16(s.pc)) == 0xFE,
    ensures
        spec_step_ok(s),
        spec_step_cycles(s) == 12,
        spec_cpu_step(s) == s,
{
    let p2 = wrap_inc16(wrap_inc16(s.pc));
    assert(spec_jr_target(p2, 0xFE) == s.pc);
}

/// Stack LIFO: pushing the words `x` then `y` as PUSH and CALL do (high
/// byte first, the stack growing downward through work RAM) and then
/// popping twice returns `y` first and `x` second.
pub proof fn lemma_stack_lifo(b: BusView, sp: u16, x: u16, y: u16)
    requires
        bus_view_wf(b),
        0xC004 <= sp <= 0xDFFF,
    ensures
        ({
            let b1 = spec_bus_write(b, (sp - 1) as u16, (x / 256) as u8);
            let b2 = spec_bus_write(b1, (sp - 2) as u16, (x % 256) as u8);
            let b3 = spec_bus_write(b2, (sp - 3) as u16, (y / 256) as u8);
            let b4 = spec_bus_write(b3, (sp - 4) as u16, (y % 256) as u8);
            spec_join(spec_bus_read(b4, (sp - 3) as u16), spec_bus_read(b4, (sp - 4) as u16)) == y
                && spec_join(
                spec_bus_read(b4, (sp - 1) as u16),
                spec_bus_read(b4, (sp - 2) as u16),
            ) == x
        }),
{
}

} // verus!
