//! Core of a Game Boy (DMG) emulator: the CPU interpreter, the memory bus
//! with its address decoder, the cartridge and its bank controller, the
//! picture-processing unit's scanline state machine, and the timer — all
//! advanced in lockstep by the cycles each instruction consumes.
use vstd::prelude::*;

pub mod bus;
pub mod cartridge;
pub mod cpu;
pub mod emulator;
pub mod gpu;
pub mod ram;
pub mod timer;

verus! {

/// The failures the core distinguishes: an opcode outside the implemented
/// tables (reported with the opcode byte), an unsupported cartridge
/// controller kind (reported with the header byte), and a ROM image shorter
/// than the 32 KiB the address map requires.
#[derive(Clone, Copy, Debug, PartialEq, Eq, Structural)]
pub enum EmuError {
    UnimplementedOpcode(u8),
    UnsupportedCartridgeType(u8),
    RomTooShort,
}

/// The value of a 16-bit word assembled from an upper and a lower byte.
pub open spec fn spec_join(upper: u8, lower: u8) -> u16 {
    (upper * 256 + lower) as u16
}

/// Combines two bytes into a 16-bit word, upper byte in the high half.
pub fn join_half_words(upper: u8, lower: u8) -> (w: u16)
    ensures
        w == spec_join(upper, lower),
        w == upper * 256 + lower,
{
    upper as u16 * 256 + lower as u16
}

/// Splits a 16-bit word into its upper and lower bytes.
pub fn split_word(word: u16) -> (r: (u8, u8))
    ensures
        r.0 == word / 256,
        r.1 == word % 256,
        word == spec_join(r.0, r.1),
{
    ((word / 256) as u8, (word % 256) as u8)
}

} // verus!
