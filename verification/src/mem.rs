//! The memory bus: owns the cartridge and the 2 KB of work RAM, and routes
//! every CPU access through the address-decode table of [`crate::bus`].
//!
//! The bus is the sole arbiter of address-to-storage mapping; nothing else
//! touches RAM or cartridge storage directly.

use vstd::prelude::*;
use crate::bus::{BusModel, spec_read, spec_read_word, spec_write, io_read, zero_bytes, RAM_SIZE};
use crate::cart::Cart;

verus! {

/// The memory bus. Reads of the two program-ROM ranges go to the
/// cartridge's first two banks; writes outside RAM are rejected and dropped.
pub struct Mem {
    pub cart: Cart,
    pub ram: Vec<u8>,
}

impl View for Mem {
    type V = BusModel;

    open spec fn view(&self) -> BusModel {
        BusModel {
            ram: self.ram@,
            bank0: self.cart.spec_prg()[0],
            bank1: self.cart.spec_prg()[1],
        }
    }
}

impl Mem {
    /// The bus holds 2 KB of RAM and a cartridge with at least the two
    /// mapped program banks.
    pub open spec fn wf(&self) -> bool {
        &&& self.cart.wf()
        &&& self.cart.spec_prg().len() >= 2
        &&& self.ram@.len() == RAM_SIZE
    }

    /// A bus over the given cartridge, with RAM zeroed.
    pub fn new(cart: Cart) -> (r: Mem)
        requires
            cart.wf(),
            cart.spec_prg().len() >= 2,
        ensures
            r.wf(),
            r.cart == cart,
            forall|i: int| 0 <= i < RAM_SIZE ==> r@.ram[i] == 0u8,
    {
        Mem { cart, ram: zero_bytes(RAM_SIZE) }
    }

    /// One byte read through the address-decode table.
    pub fn read_byte(&self, virtual_address: u16) -> (r: u8)
        requires
            self.wf(),
        ensures
            r == spec_read(self@, virtual_address),
    {
        if virtual_address < 0x2000 {
            // RAM, mirrored every 0x800 bytes
            self.ram[(virtual_address % 0x800) as usize]
        } else if virtual_address < 0x4000 {
            // I/O registers, mirrored every 8 bytes
            io_read(virtual_address % 8)
        } else if virtual_address < 0x4020 {
            // peripheral I/O stub
            0x00
        } else if virtual_address < 0x6000 {
            // expansion ROM stub
            0x00
        } else if virtual_address < 0x8000 {
            // battery RAM stub
            0x00
        } else if virtual_address < 0xC000 {
            self.cart.read_from_lower_bank(virtual_address % 0x4000)
        } else {
            self.cart.read_from_upper_bank(virtual_address % 0x4000)
        }
    }

    /// A 16-bit word read little-endian: low byte at `virtual_address`, high
    /// byte at the following address (wrapping at the top of the space).
    pub fn read_word(&self, virtual_address: u16) -> (r: u16)
        requires
            self.wf(),
        ensures
            r == spec_read_word(self@, virtual_address),
    {
        let lo: u8 = self.read_byte(virtual_address);
        let hi: u8 = self.read_byte(
            if virtual_address == 0xFFFF {
                0
            } else {
                virtual_address + 1
            },
        );
        hi as u16 * 256 + lo as u16
    }

    /// One byte written through the address-decode table: only the RAM range
    /// is writable, and writes anywhere else are dropped.
    pub fn write_byte(&mut self, virtual_address: u16, val: u8)
        requires
            old(self).wf(),
        ensures
            final(self).wf(),
            final(self)@ == spec_write(old(self)@, virtual_address, val),
            final(self).cart == old(self).cart,
    {
        if virtual_address < 0x2000 {
            let address: usize = (virtual_address % 0x800) as usize;
            self.ram[address] = val;
        }
    }
}

} // verus!
