//! The mathematical model of the memory bus: 2 KB of work RAM mirrored four
//! times, the eight-register I/O window mirrored through 0x2000-0x3FFF,
//! stubbed peripheral ranges, and the two fixed 16 KB program-ROM banks.
//!
//! This model is the single place the address-decode rules live; the
//! executable bus of `Mem` and the CPU's own accesses are both specified
//! against it.

use vstd::prelude::*;

verus! {

pub const RAM_SIZE: usize = 0x0800;
pub const PRG_ROM_BANK_SIZE: usize = 0x4000;
pub const CHR_ROM_BANK_SIZE: usize = 0x2000;

/// The bus state: work RAM and the two mapped program-ROM banks.
#[verifier::ext_equal]
pub struct BusModel {
    pub ram: Seq<u8>,
    pub bank0: Seq<u8>,
    pub bank1: Seq<u8>,
}

/// The storage sizes the decode rules assume.
pub open spec fn bus_wf(m: BusModel) -> bool {
    &&& m.ram.len() == RAM_SIZE
    &&& m.bank0.len() == PRG_ROM_BANK_SIZE
    &&& m.bank1.len() == PRG_ROM_BANK_SIZE
}

/// What a read of I/O register `idx` (0-7) returns. The registers belong to
/// collaborators outside this core, so reads return fixed placeholder values.
pub open spec fn io_reg_value(idx: u16) -> u8 {
    if idx == 0 {
        0x11
    } else if idx == 1 {
        0x22
    } else if idx == 2 {
        0x33
    } else if idx == 3 {
        0x44
    } else if idx == 4 {
        0x55
    } else if idx == 5 {
        0x66
    } else if idx == 6 {
        0x77
    } else {
        0x88
    }
}

/// The byte a read of virtual address `addr` returns:
///
/// | range           | target                                  |
/// |-----------------|-----------------------------------------|
/// | 0x0000-0x1FFF   | work RAM, `addr % 0x800` (mirrored 4x)   |
/// | 0x2000-0x3FFF   | I/O register `addr % 8`                  |
/// | 0x4000-0x7FFF   | unmapped stubs, read as 0                |
/// | 0x8000-0xBFFF   | program-ROM bank 0 at `addr % 0x4000`    |
/// | 0xC000-0xFFFF   | program-ROM bank 1 at `addr % 0x4000`    |
pub open spec fn spec_read(m: BusModel, addr: u16) -> u8 {
    if addr < 0x2000 {
        m.ram[(addr % 0x800) as int]
    } else if addr < 0x4000 {
        io_reg_value(addr % 8)
    } else if addr < 0x8000 {
        0x00
    } else if addr < 0xC000 {
        m.bank0[(addr % 0x4000) as int]
    } else {
        m.bank1[(addr % 0x4000) as int]
    }
}

/// The bus state after a write of `val` to `addr`: only the RAM range is
/// writable; writes anywhere else (ROM, read-only registers, stubs) are
/// rejected and dropped, leaving the state unchanged.
pub open spec fn spec_write(m: BusModel, addr: u16, val: u8) -> BusModel {
    if addr < 0x2000 {
        BusModel { ram: m.ram.update((addr % 0x800) as int, val), ..m }
    } else {
        m
    }
}

/// The address one past `addr`, wrapping at the top of the address space.
pub open spec fn inc16(addr: u16) -> u16 {
    if addr == 0xFFFF {
        0
    } else {
        (addr + 1) as u16
    }
}

/// The 16-bit value assembled little-endian from a low and a high byte.
pub open spec fn word_le(lo: u8, hi: u8) -> u16 {
    (hi * 256 + lo) as u16
}

/// The 16-bit word read little-endian at `addr`: low byte at `addr`, high
/// byte at the following address (wrapping at the top of the address space).
pub open spec fn spec_read_word(m: BusModel, addr: u16) -> u16 {
    word_le(spec_read(m, addr), spec_read(m, inc16(addr)))
}

/// Reads I/O register `idx` (0-7).
pub(crate) fn io_read(idx: u16) -> (r: u8)
    requires
        idx < 8,
    ensures
        r == io_reg_value(idx),
{
    if idx == 0 {
        0x11
    } else if idx == 1 {
        0x22
    } else if idx == 2 {
        0x33
    } else if idx == 3 {
        0x44
    } else if idx == 4 {
        0x55
    } else if idx == 5 {
        0x66
    } else if idx == 6 {
        0x77
    } else {
        0x88
    }
}

/// A fresh all-zero buffer of `n` bytes.
pub(crate) fn zero_bytes(n: usize) -> (r: Vec<u8>)
    ensures
        r@.len() == n,
        forall|i: int| 0 <= i < n ==> r@[i] == 0u8,
{
    let mut out: Vec<u8> = Vec::new();
    let mut j: usize = 0;
    while j < n
        invariant
            j <= n,
            out@.len() == j,
            forall|i: int| 0 <= i < j ==> out@[i] == 0u8,
        decreases n - j,
    {
        out.push(0u8);
        j = j + 1;
    }
    out
}

/// Work-RAM mirroring round trip: a byte written at RAM address `a` is read
/// back unchanged at `a` itself and at each of its three mirror addresses.
pub proof fn lemma_ram_mirror_round_trip(m: BusModel, a: u16, v: u8)
    requires
        bus_wf(m),
        a < 0x0800,
    ensures
        spec_read(spec_write(m, a, v), a) == v,
        spec_read(spec_write(m, a, v), (a + 0x0800) as u16) == v,
        spec_read(spec_write(m, a, v), (a + 0x1000) as u16) == v,
        spec_read(spec_write(m, a, v), (a + 0x1800) as u16) == v,
{
}

} // verus!
