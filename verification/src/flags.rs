//! The CPU status register: an 8-bit set of independently addressable
//! condition flags.
//!
//! Bit layout, from bit 0 up: Carry, Zero, Interrupt-disable, Decimal
//! (storage only on this platform), Break, an always-set spare bit,
//! Overflow, Negative.

use vstd::prelude::*;

verus! {

pub const C_FLAG: u8 = 0b0000_0001;
pub const Z_FLAG: u8 = 0b0000_0010;
pub const I_FLAG: u8 = 0b0000_0100;
pub const D_FLAG: u8 = 0b0000_1000;
pub const B_FLAG: u8 = 0b0001_0000;
pub const X_FLAG: u8 = 0b0010_0000;
pub const V_FLAG: u8 = 0b0100_0000;
pub const N_FLAG: u8 = 0b1000_0000;

pub const NZ_FLAG: u8 = N_FLAG | Z_FLAG;
pub const DX_FLAG: u8 = D_FLAG | X_FLAG;

/// True when every bit of `mask` is set in `bits`.
pub open spec fn has_flag(bits: u8, mask: u8) -> bool {
    bits & mask == mask
}

/// The flag byte after the Zero/Negative pair has been recomputed for a
/// result byte `x`: both bits are cleared, then Zero is set when `x` is zero
/// and Negative when bit 7 of `x` is set.
pub open spec fn spec_set_zn(bits: u8, x: u8) -> u8 {
    if x == 0 {
        (bits & !NZ_FLAG) | Z_FLAG
    } else if x >= 0x80 {
        (bits & !NZ_FLAG) | N_FLAG
    } else {
        bits & !NZ_FLAG
    }
}

/// The flag byte after the Overflow bit has been recomputed for the sum
/// `a + b` truncated to the result byte `c`: the standard two's-complement
/// test `((a ^ c) & (b ^ c)) & 0x80`.
pub open spec fn spec_set_v(bits: u8, a: u8, b: u8, c: u8) -> u8 {
    if ((a ^ c) & (b ^ c)) & 0x80 != 0 {
        (bits & !V_FLAG) | V_FLAG
    } else {
        bits & !V_FLAG
    }
}

/// The flag byte after the Carry bit has been recomputed from a 9-bit
/// intermediate value: carry is set exactly when the value exceeds 0xFF.
pub open spec fn spec_set_c(bits: u8, val: u16) -> u8 {
    if val > 0xFF {
        (bits & !C_FLAG) | C_FLAG
    } else {
        bits & !C_FLAG
    }
}

/// The status register. The two bits with no meaning on this platform
/// (Decimal and the spare bit) are kept set, matching the reset state.
#[derive(Clone, Copy, PartialEq, Eq, Structural, Debug)]
pub struct CpuFlags {
    pub bits: u8,
}

impl CpuFlags {
    /// The raw flag byte.
    pub fn bits(&self) -> (r: u8)
        ensures
            r == self.bits,
    {
        self.bits
    }

    /// A register built from a raw byte, as popped from the stack.
    pub fn from_bits(bits: u8) -> (r: CpuFlags)
        ensures
            r.bits == bits,
    {
        CpuFlags { bits }
    }

    /// The reset value: only the two storage-only bits are set.
    pub fn none() -> (r: CpuFlags)
        ensures
            r.bits == DX_FLAG,
    {
        CpuFlags { bits: DX_FLAG }
    }

    /// Sets every bit of `mask`.
    pub fn insert(&mut self, mask: u8)
        ensures
            final(self).bits == old(self).bits | mask,
    {
        self.bits = self.bits | mask;
    }

    /// Clears every bit of `mask`.
    pub fn remove(&mut self, mask: u8)
        ensures
            final(self).bits == old(self).bits & !mask,
    {
        self.bits = self.bits & !mask;
    }

    /// True when every bit of `mask` is set.
    pub fn contains(&self, mask: u8) -> (r: bool)
        ensures
            r == has_flag(self.bits, mask),
    {
        self.bits & mask == mask
    }

    /// This register with every bit of `mask` set, leaving `self` unchanged.
    pub fn or(self, mask: u8) -> (r: CpuFlags)
        ensures
            r.bits == self.bits | mask,
    {
        CpuFlags { bits: self.bits | mask }
    }

    /// Recomputes the Zero/Negative pair for a result byte.
    pub fn set_zn(&mut self, x: u8)
        ensures
            final(self).bits == spec_set_zn(old(self).bits, x),
    {
        self.remove(NZ_FLAG);
        if x == 0 {
            self.insert(Z_FLAG);
        } else if x >= 0x80 {
            self.insert(N_FLAG);
        }
    }

    /// Recomputes the Overflow bit for the sum `a + b` truncated to `c`.
    pub fn set_v(&mut self, a: u8, b: u8, c: u8)
        ensures
            final(self).bits == spec_set_v(old(self).bits, a, b, c),
    {
        self.remove(V_FLAG);
        if ((a ^ c) & (b ^ c)) & 0x80 != 0 {
            self.insert(V_FLAG);
        }
    }

    /// Recomputes the Carry bit from a 9-bit intermediate value.
    pub fn set_c(&mut self, val: u16)
        ensures
            final(self).bits == spec_set_c(old(self).bits, val),
    {
        self.remove(C_FLAG);
        if val > 0xFF {
            self.insert(C_FLAG);
        }
    }

    /// Resets the register to the reset value.
    pub fn clear(&mut self)
        ensures
            final(self).bits == DX_FLAG,
    {
        self.bits = DX_FLAG;
    }
}

} // verus!
