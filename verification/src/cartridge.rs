//! The cartridge facade: a ROM image presented through the 32 KiB window
//! at 0x0000-0x7FFF and the optional 8 KiB external RAM window at
//! 0xA000-0xBFFF. The controller kind comes from ROM header byte 0x0147:
//! kind 0 is a flat 32 KiB image; kinds 1-3 are the MBC1 bank controller,
//! whose control registers are written through ROM address space. Writes
//! into ROM address space never mutate ROM bytes.
use vstd::prelude::*;

verus! {

/// External RAM size in bytes (mapped at 0xA000-0xBFFF).
pub const EXTERNAL_RAM_SIZE: usize = 0x2000;

/// Mathematical model of a cartridge: the ROM image, the external RAM,
/// the controller kind from the header, and the MBC1 control registers.
pub ghost struct CartridgeView {
    pub rom: Seq<u8>,
    pub ram: Seq<u8>,
    pub kind: u8,
    pub bank_lower: u8,
    pub bank_upper: u8,
    pub mode: bool,
    pub ram_enable: bool,
}

/// The ROM bank mapped at 0x4000-0x7FFF: bank 1 for a flat image; for
/// MBC1 the 5-bit select (0 reads as 1), joined with the 2-bit upper
/// select outside RAM-banking mode.
pub open spec fn spec_rom_bank(c: CartridgeView) -> u8 {
    if c.kind == 0 {
        1u8
    } else {
        let low = if c.bank_lower % 32 == 0 {
            1u8
        } else {
            (c.bank_lower % 32) as u8
        };
        if c.mode {
            low
        } else {
            (low + (c.bank_upper % 4) * 32) as u8
        }
    }
}

/// Whether the external RAM window responds: always for a flat cartridge,
/// behind the enable gate for MBC1.
pub open spec fn spec_ram_enabled(c: CartridgeView) -> bool {
    c.kind == 0 || c.ram_enable
}

/// The byte a cartridge delivers for `addr`: the fixed bank below 0x4000,
/// the switchable bank below 0x8000, external RAM at 0xA000-0xBFFF, and
/// 0xFF beyond the image, outside every window, or with RAM disabled.
pub open spec fn spec_cart_read(c: CartridgeView, addr: u16) -> u8 {
    if addr < 0x4000 {
        if addr < c.rom.len() {
            c.rom[addr as int]
        } else {
            0xFF
        }
    } else if addr < 0x8000 {
        let idx = spec_rom_bank(c) * 0x4000 + (addr - 0x4000);
        if idx < c.rom.len() {
            c.rom[idx]
        } else {
            0xFF
        }
    } else if 0xA000 <= addr < 0xC000 && spec_ram_enabled(c) && addr - 0xA000 < c.ram.len() {
        c.ram[addr - 0xA000]
    } else {
        0xFF
    }
}

/// The cartridge after a write to `addr`. ROM-space writes are controller
/// writes: on MBC1 they drive the RAM enable gate, the two bank selects
/// and the mode latch, and on a flat cartridge they are dropped. Only
/// enabled external RAM bytes change.
pub open spec fn spec_cart_write(c: CartridgeView, addr: u16, byte: u8) -> CartridgeView {
    if addr < 0x2000 {
        if c.kind == 0 {
            c
        } else {
            CartridgeView { ram_enable: byte % 16 == 0xA, ..c }
        }
    } else if addr < 0x4000 {
        if c.kind == 0 {
            c
        } else {
            CartridgeView { bank_lower: (byte % 32) as u8, ..c }
        }
    } else if addr < 0x6000 {
        if c.kind == 0 {
            c
        } else {
            CartridgeView { bank_upper: (byte % 4) as u8, ..c }
        }
    } else if addr < 0x8000 {
        if c.kind == 0 {
            c
        } else {
            CartridgeView { mode: byte % 2 == 1, ..c }
        }
    } else if 0xA000 <= addr < 0xC000 && spec_ram_enabled(c) && addr - 0xA000 < c.ram.len() {
        CartridgeView { ram: c.ram.update(addr - 0xA000, byte), ..c }
    } else {
        c
    }
}

/// The running header checksum over ROM bytes 0x134 up to (but not
/// including) `i`: starting from zero, each byte folds in as
/// `x <- x - byte - 1`, wrapping.
pub open spec fn spec_header_checksum(rom: Seq<u8>, i: int) -> u8
    decreases i,
{
    if i <= 0x134 {
        0u8
    } else {
        ((spec_header_checksum(rom, i - 1) + 511 - rom[i - 1]) % 256) as u8
    }
}

/// A ROM image with its bank controller and external RAM.
pub struct Cartridge {
    data: Vec<u8>,
    ram: Vec<u8>,
    kind: u8,
    bank_lower: u8,
    bank_upper: u8,
    mode: bool,
    ram_enable: bool,
}

impl View for Cartridge {
    type V = CartridgeView;

    closed spec fn view(&self) -> CartridgeView {
        CartridgeView {
            rom: self.data@,
            ram: self.ram@,
            kind: self.kind,
            bank_lower: self.bank_lower,
            bank_upper: self.bank_upper,
            mode: self.mode,
            ram_enable: self.ram_enable,
        }
    }
}

impl Cartridge {
    /// Well-formed: the external RAM window is fully backed.
    pub open spec fn wf(&self) -> bool {
        self@.ram.len() == EXTERNAL_RAM_SIZE
    }

    /// Wraps a ROM image, reading the controller kind from its header,
    /// with cleared external RAM and the controller at reset.
    pub fn new(data: Vec<u8>) -> (r: Cartridge)
        ensures
            r.wf(),
            r@.rom == data@,
            r@.kind == (if data@.len() > 0x147 {
                data@[0x147]
            } else {
                0u8
            }),
            r@.bank_lower == 0 && r@.bank_upper == 0,
            !r@.mode && !r@.ram_enable,
            forall|i: int| 0 <= i < EXTERNAL_RAM_SIZE ==> r@.ram[i] == 0u8,
    {
        let kind = if data.len() > 0x147 {
            data[0x147]
        } else {
            0
        };
        let mut ram: Vec<u8> = Vec::new();
        while ram.len() < EXTERNAL_RAM_SIZE
            invariant
                ram@.len() <= EXTERNAL_RAM_SIZE,
                forall|i: int| 0 <= i < ram@.len() ==> ram@[i] == 0u8,
            decreases EXTERNAL_RAM_SIZE - ram@.len(),
        {
            ram.push(0);
        }
        Cartridge { data, ram, kind, bank_lower: 0, bank_upper: 0, mode: false, ram_enable: false }
    }

    /// The ROM bank currently mapped at 0x4000-0x7FFF.
    fn rom_bank(&self) -> (r: u8)
        ensures
            r == spec_rom_bank(self@),
    {
        if self.kind == 0 {
            1
        } else {
            let low = if self.bank_lower % 32 == 0 {
                1
            } else {
                self.bank_lower % 32
            };
            if self.mode {
                low
            } else {
                low + (self.bank_upper % 4) * 32
            }
        }
    }

    /// The byte visible at `address` through the cartridge.
    pub fn read(&self, address: u16) -> (r: u8)
        ensures
            r == spec_cart_read(self@, address),
    {
        if address < 0x4000 {
            if (address as usize) < self.data.len() {
                self.data[address as usize]
            } else {
                0xFF
            }
        } else if address < 0x8000 {
            let idx: usize = self.rom_bank() as usize * 0x4000 + (address - 0x4000) as usize;
            if idx < self.data.len() {
                self.data[idx]
            } else {
                0xFF
            }
        } else if 0xA000 <= address && address < 0xC000 && (self.kind == 0 || self.ram_enable)
            && ((address - 0xA000) as usize) < self.ram.len() {
            self.ram[(address - 0xA000) as usize]
        } else {
            0xFF
        }
    }

    /// Whether the header checksum at 0x14D matches the fold of the bytes
    /// 0x134-0x14C. A mismatch is a warning for the host, never fatal.
    pub fn header_checksum_ok(&self) -> (r: bool)
        ensures
            r == (self@.rom.len() >= 0x150 && spec_header_checksum(self@.rom, 0x14D)
                == self@.rom[0x14D]),
    {
        if self.data.len() < 0x150 {
            return false;
        }
        let mut x: u8 = 0;
        let mut i: usize = 0x134;
        while i < 0x14D
            invariant
                0x134 <= i <= 0x14D,
                self@.rom.len() >= 0x150,
                x == spec_header_checksum(self@.rom, i as int),
            decreases 0x14D - i,
        {
            let b = self.data[i];
            x = ((x as u16 + 511 - b as u16) % 256) as u8;
            i = i + 1;
        }
        x == self.data[0x14D]
    }

    /// The battery-backed external RAM as an opaque byte blob, for the
    /// host to persist.
    pub fn external_ram(&self) -> (r: &Vec<u8>)
        ensures
            r@ == self@.ram,
    {
        &self.ram
    }

    /// Restores a persisted external RAM blob; only a blob of the exact
    /// window size is accepted.
    pub fn load_external_ram(&mut self, data: Vec<u8>) -> (ok: bool)
        ensures
            ok == (data@.len() == EXTERNAL_RAM_SIZE),
            ok ==> final(self)@ == (CartridgeView { ram: data@, ..old(self)@ }),
            !ok ==> final(self)@ == old(self)@,
            old(self).wf() ==> final(self).wf(),
    {
        if data.len() == EXTERNAL_RAM_SIZE {
            self.ram = data;
            true
        } else {
            false
        }
    }

    /// A write through the cartridge: a controller write in ROM space,
    /// a byte store in enabled external RAM, and a no-op elsewhere.
    pub fn write(&mut self, address: u16, byte: u8)
        ensures
            final(self)@ == spec_cart_write(old(self)@, address, byte),
    {
        if address < 0x2000 {
            if self.kind != 0 {
                self.ram_enable = byte % 16 == 0xA;
            }
        } else if address < 0x4000 {
            if self.kind != 0 {
                self.bank_lower = byte % 32;
            }
        } else if address < 0x6000 {
            if self.kind != 0 {
                self.bank_upper = byte % 4;
            }
        } else if address < 0x8000 {
            if self.kind != 0 {
                self.mode = byte % 2 == 1;
            }
        } else if 0xA000 <= address && address < 0xC000 && (self.kind == 0 || self.ram_enable)
            && ((address - 0xA000) as usize) < self.ram.len() {
            self.ram.set((address - 0xA000) as usize, byte);
        }
    }
}

} // verus!
