//! An emulator core for the 8-bit console CPU family: instruction decoding,
//! the memory bus with its mirrored address ranges, cartridge images, and the
//! register machine that executes decoded instructions.

pub mod bus;
pub mod cart;
pub mod cpu;
pub mod flags;
pub mod isa;
pub mod mem;
pub mod nes;
pub mod ppu;
