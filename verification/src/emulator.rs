//! The assembled machine: cartridge, RAM blocks, PPU and bus built from a
//! ROM image, with the co-simulation step that drives the CPU and then
//! the PPU and timer by the cycles the instruction consumed.
use vstd::prelude::*;

use crate::bus::{Bus, BusView};
use crate::cartridge::{Cartridge, CartridgeView};
use crate::cpu::{spec_cpu_step, spec_reset_regs, spec_step_cycles, spec_step_ok, Cpu, CpuView};
use crate::gpu::{Gpu, GpuView};
use crate::ram::Ram;
use crate::timer::TimerView;
use crate::EmuError;

verus! {

/// The machine state right after power-on with ROM image `rom` loaded:
/// post-boot registers, cleared memories, the PPU at the top of the frame.
pub open spec fn spec_power_on(rom: Seq<u8>) -> CpuView {
    CpuView {
        regs: spec_reset_regs(),
        pc: 0x100u16,
        sp: 0xFFFEu16,
        halted: false,
        ime: false,
        ime_scheduled: false,
        bus: BusView {
            h_ram: Seq::new(0x80nat, |i: int| 0u8),
            oam: Seq::new(0xA0nat, |i: int| 0u8),
            wram: Seq::new(0x2000nat, |i: int| 0u8),
            vram: Seq::new(0x2000nat, |i: int| 0u8),
            cart: CartridgeView {
                rom,
                ram: Seq::new(0x2000nat, |i: int| 0u8),
                kind: rom[0x147],
                bank_lower: 0u8,
                bank_upper: 0u8,
                mode: false,
                ram_enable: false,
            },
            gpu: GpuView {
                lcdc: 0x91u8,
                scy: 0u8,
                scx: 0u8,
                ly: 0u8,
                bgp: 0xFCu8,
                cycles: 0u32,
                aux: Seq::new(0x0Cnat, |i: int| 0u8),
                fb: Seq::new(23040nat, |i: int| 0u8),
            },
            timer: TimerView {
                div_counter: 0u16,
                tima: 0u8,
                tima_counter: 0u32,
                tma: 0u8,
                tac: 0u8,
                reload_pending: false,
            },
            int_flag: 0u8,
            joypad_select: 0x30u8,
            joypad_state: 0u8,
            serial_data: 0u8,
            serial_ctrl: 0u8,
            serial_out: Seq::<u8>::empty(),
        },
    }
}

/// One co-simulation step: the CPU executes one instruction, then the PPU
/// and the timer advance together by the machine cycles it consumed, in
/// 4-cycle ticks — raising VBlank and STAT interrupts from the PPU and
/// the timer interrupt on TIMA overflow.
pub open spec fn spec_emu_step(s: CpuView) -> CpuView {
    let s1 = spec_cpu_step(s);
    CpuView {
        bus: crate::bus::spec_bus_ticks(s1.bus, (spec_step_cycles(s) / 4) as nat),
        ..s1
    }
}

/// The whole machine: a CPU owning the bus and every device behind it.
pub struct Emulator {
    cpu: Cpu,
}

impl View for Emulator {
    type V = CpuView;

    closed spec fn view(&self) -> CpuView {
        self.cpu@
    }
}

impl Emulator {
    /// Well-formed machine.
    pub open spec fn wf(&self) -> bool {
        crate::bus::bus_view_wf(self@.bus)
    }

    /// A machine over an assembled bus, with the CPU in its post-boot
    /// state.
    pub fn new(bus: Bus) -> (r: Emulator)
        requires
            bus.wf(),
        ensures
            r.wf(),
            r@ == (CpuView {
                regs: spec_reset_regs(),
                pc: 0x100u16,
                sp: 0xFFFEu16,
                halted: false,
                ime: false,
                ime_scheduled: false,
                bus: bus@,
            }),
    {
        Emulator { cpu: Cpu::new(bus) }
    }

    /// Builds the machine from a raw ROM image. The image must cover the
    /// 32 KiB ROM window, and its cartridge-type header byte must name a
    /// controller the core supports: the flat controller-less kind (0x00)
    /// or the MBC1 family (0x01-0x03).
    pub fn from_rom_byte(bytes: Vec<u8>) -> (r: Result<Emulator, EmuError>)
        ensures
            bytes@.len() < 0x8000 ==> r == Err::<Emulator, EmuError>(EmuError::RomTooShort),
            bytes@.len() >= 0x8000 && bytes@[0x147] > 3 ==> r == Err::<Emulator, EmuError>(
                EmuError::UnsupportedCartridgeType(bytes@[0x147]),
            ),
            bytes@.len() >= 0x8000 && bytes@[0x147] <= 3 ==> (r matches Ok(e) && e.wf() && e@
                == spec_power_on(bytes@)),
    {
        if bytes.len() < 0x8000 {
            return Err(EmuError::RomTooShort);
        }
        let kind = bytes[0x147];
        if kind > 3 {
            return Err(EmuError::UnsupportedCartridgeType(kind));
        }
        let video_ram = Ram::with_size(0x2000);
        let h_ram = Ram::with_size(0x80);
        let oam_ram = Ram::with_size(0xA0);
        let working_ram = Ram::with_size(0x2000);
        let cartridge = Cartridge::new(bytes);
        let gpu = Gpu::new();
        proof {
            assert(video_ram@ =~= Seq::new(0x2000nat, |i: int| 0u8));
            assert(h_ram@ =~= Seq::new(0x80nat, |i: int| 0u8));
            assert(oam_ram@ =~= Seq::new(0xA0nat, |i: int| 0u8));
            assert(working_ram@ =~= Seq::new(0x2000nat, |i: int| 0u8));
            assert(cartridge@.ram =~= Seq::new(0x2000nat, |i: int| 0u8));
            assert(gpu@.aux =~= Seq::new(0x0Cnat, |i: int| 0u8));
            assert(gpu@.fb =~= Seq::new(23040nat, |i: int| 0u8));
        }
        let bus = Bus::new(cartridge, video_ram, h_ram, oam_ram, working_ram, gpu);
        Ok(Emulator::new(bus))
    }

    /// One co-simulation step: the CPU executes one instruction and the
    /// PPU and timer then advance by the machine cycles it consumed,
    /// which are returned. An unimplemented opcode is reported before the
    /// devices move.
    #[verifier::loop_isolation(false)]
    pub fn step(&mut self) -> (r: Result<u32, EmuError>)
        requires
            old(self).wf(),
        ensures
            final(self).wf(),
            spec_step_ok(old(self)@) ==> r == Ok::<u32, EmuError>(spec_step_cycles(old(self)@))
                && final(self)@ == spec_emu_step(old(self)@),
            !spec_step_ok(old(self)@) ==> r == Err::<u32, EmuError>(
                EmuError::UnimplementedOpcode(
                    crate::bus::spec_bus_read(old(self)@.bus, old(self)@.pc),
                ),
            ) && final(self)@ == spec_cpu_step(old(self)@),
    {
        let cycles = match self.cpu.step() {
            Ok(c) => c,
            Err(e) => {
                return Err(e);
            },
        };
        let ticks = cycles / 4;
        let mut i: u32 = 0;
        while i < ticks
            invariant
                i <= ticks,
                crate::bus::bus_view_wf(self@.bus),
                self@ == (CpuView {
                    bus: crate::bus::spec_bus_ticks(
                        spec_cpu_step(old(self)@).bus,
                        i as nat,
                    ),
                    ..spec_cpu_step(old(self)@)
                }),
            decreases ticks - i,
        {
            self.cpu.step_gpu();
            self.cpu.step_timer();
            i = i + 1;
        }
        Ok(cycles)
    }

    /// Takes the host's joypad snapshot: pressed buttons as set bits,
    /// directions in the low nibble, actions in the high one.
    pub fn set_joypad(&mut self, state: u8)
        ensures
            final(self)@ == (CpuView {
                bus: crate::bus::BusView { joypad_state: state, ..old(self)@.bus },
                ..old(self)@
            }),
    {
        self.cpu.set_joypad(state)
    }

    /// The cartridge's battery-backed external RAM, for the host to
    /// persist.
    pub fn external_ram(&self) -> (r: &Vec<u8>)
        ensures
            r@ == self@.bus.cart.ram,
    {
        self.cpu.external_ram()
    }

    /// Restores a persisted external RAM blob of the exact window size.
    pub fn load_external_ram(&mut self, data: Vec<u8>) -> (ok: bool)
        requires
            old(self).wf(),
        ensures
            ok == (data@.len() == 0x2000),
            final(self).wf(),
            ok ==> final(self)@.bus.cart.ram == data@,
            !ok ==> final(self)@ == old(self)@,
    {
        self.cpu.load_external_ram(data)
    }

    /// The processor, for inspection.
    pub fn cpu(&self) -> (r: &Cpu)
        ensures
            r@ == self@,
    {
        &self.cpu
    }
}

} // verus!
