//! The console: owns the CPU core and wires a loaded cartridge into its
//! two mapped program-ROM slots.

use vstd::prelude::*;
use crate::bus::PRG_ROM_BANK_SIZE;
use crate::cart::Cart;
use crate::cpu::Cpu;
use crate::flags::DX_FLAG;

verus! {

/// A byte-for-byte copy of a buffer.
fn clone_bytes(src: &Vec<u8>) -> (r: Vec<u8>)
    ensures
        r@ == src@,
{
    let mut out: Vec<u8> = Vec::new();
    let mut j: usize = 0;
    while j < src.len()
        invariant
            j <= src@.len(),
            out@ == src@.subrange(0, j as int),
        decreases src@.len() - j,
    {
        out.push(src[j]);
        proof {
            assert(out@ =~= src@.subrange(0, j + 1));
        }
        j = j + 1;
    }
    proof {
        assert(out@ =~= src@);
    }
    out
}

/// The console. The CPU owns the mapped program banks and the work RAM;
/// everything reaches them through its bus decode.
pub struct Nes {
    pub cpu: Cpu,
}

impl Nes {
    /// A console in reset state over a loaded cartridge. A cartridge with
    /// a single program bank has that bank appear in both mapped slots
    /// (the standard mirroring for the smallest fixed-mapping boards);
    /// with two or more, the first two banks fill the lower and upper
    /// slots.
    pub fn new(cart: Cart) -> (r: Nes)
        requires
            cart.wf(),
            cart.spec_prg().len() >= 1,
        ensures
            r.cpu.wf(),
            r.cpu@.pc == 0 && r.cpu@.a == 0 && r.cpu@.x == 0 && r.cpu@.y == 0,
            r.cpu@.s == 0xFF,
            r.cpu@.p == DX_FLAG,
            r.cpu@.bus.bank0 == cart.spec_prg()[0],
            r.cpu@.bus.bank1 == if cart.spec_prg().len() >= 2 {
                cart.spec_prg()[1]
            } else {
                cart.spec_prg()[0]
            },
            forall|i: int| 0 <= i < 0x800 ==> r.cpu@.bus.ram[i] == 0u8,
    {
        let ghost banks = cart.spec_prg();
        proof {
            assert(banks[0].len() == PRG_ROM_BANK_SIZE);
            if banks.len() >= 2 {
                assert(banks[1].len() == PRG_ROM_BANK_SIZE);
            }
        }
        let parts = cart.into_parts();
        let mut prg_rom = parts.1;
        proof {
            assert(prg_rom@[0]@ == banks[0]);
            if prg_rom@.len() >= 2 {
                assert(prg_rom@[1]@ == banks[1]);
            }
        }
        if prg_rom.len() == 1 {
            let mirror = clone_bytes(&prg_rom[0]);
            prg_rom.push(mirror);
        }
        Nes { cpu: Cpu::new(prg_rom) }
    }

    /// Runs the emulation loop. Stepping is driven externally through the
    /// CPU; this entry point leaves the machine untouched.
    pub fn run(&mut self)
        ensures
            *final(self) == *old(self),
    {
        self.cpu.run();
    }
}

} // verus!
