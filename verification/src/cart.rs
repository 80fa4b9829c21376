//! Cartridge images: the fixed 16-byte header with its magic signature and
//! reserved bytes, and the program/character ROM banks that follow it.
//!
//! Header layout, byte by byte: a 4-byte identifier `4E 45 53 1A`, the
//! program-bank count (16 KB units), the character-bank count (8 KB units),
//! two flag bytes, the program-RAM count (8 KB units, 0 meaning 8 KB), two
//! further flag bytes, and five reserved bytes that must be zero.

use vstd::prelude::*;
use crate::bus::{PRG_ROM_BANK_SIZE, CHR_ROM_BANK_SIZE};

verus! {

pub const TRAINER_SIZE: usize = 512;

/// One 16 KB program-ROM bank.
pub type PrgRomBank = Vec<u8>;

/// The ordered program-ROM banks of a cartridge.
pub type PrgRom = Vec<PrgRomBank>;

/// One 8 KB character-ROM bank.
pub type ChrRomBank = Vec<u8>;

/// The ordered character-ROM banks of a cartridge.
pub type ChrRom = Vec<ChrRomBank>;

/// The decoded 16-byte cartridge header.
pub struct CartHeader {
    pub identifier: [u8; 4],
    pub prg_rom_count: u8,
    pub chr_rom_count: u8,
    pub flags_6: u8,
    pub flags_7: u8,
    pub prg_ram_count: u8,
    pub flags_9: u8,
    pub flags_10: u8,
    pub zeros: [u8; 5],
}

/// True when `flags` has every bit of `flag` set.
pub open spec fn spec_flag_set(flags: u8, flag: u8) -> bool {
    flags & flag != 0
}

/// Where the program banks start in a cartridge image: right after the
/// 16-byte header, or after the 512-byte trainer block when one is present.
pub open spec fn spec_prg_start(h: CartHeader) -> int {
    if spec_flag_set(h.flags_6, 4) {
        16 + TRAINER_SIZE
    } else {
        16
    }
}

/// Where the character banks start: after the declared program banks.
pub open spec fn spec_chr_start(h: CartHeader) -> int {
    spec_prg_start(h) + h.prg_rom_count * PRG_ROM_BANK_SIZE
}

/// How many bytes a cartridge image with header `h` must hold.
pub open spec fn spec_total_size(h: CartHeader) -> int {
    spec_chr_start(h) + h.chr_rom_count * CHR_ROM_BANK_SIZE
}

/// True when `d` is a loadable cartridge image: a valid header followed by
/// every byte the declared bank counts require.
pub open spec fn spec_load_ok(d: Seq<u8>) -> bool {
    &&& d.len() >= 16
    &&& spec_header_valid(d)
    &&& d.len() >= spec_total_size(spec_header_of(d))
}

/// Program bank `i` of the image `d`: 16 KB starting at its declared offset.
pub open spec fn spec_prg_slice(d: Seq<u8>, i: int) -> Seq<u8> {
    d.subrange(
        spec_prg_start(spec_header_of(d)) + i * PRG_ROM_BANK_SIZE,
        spec_prg_start(spec_header_of(d)) + (i + 1) * PRG_ROM_BANK_SIZE,
    )
}

/// Character bank `i` of the image `d`: 8 KB starting at its declared offset.
pub open spec fn spec_chr_slice(d: Seq<u8>, i: int) -> Seq<u8> {
    d.subrange(
        spec_chr_start(spec_header_of(d)) + i * CHR_ROM_BANK_SIZE,
        spec_chr_start(spec_header_of(d)) + (i + 1) * CHR_ROM_BANK_SIZE,
    )
}

/// The header decoded field by field from 16 raw bytes.
pub open spec fn spec_header_of(b: Seq<u8>) -> CartHeader {
    CartHeader {
        identifier: [b[0], b[1], b[2], b[3]],
        prg_rom_count: b[4],
        chr_rom_count: b[5],
        flags_6: b[6],
        flags_7: b[7],
        prg_ram_count: b[8],
        flags_9: b[9],
        flags_10: b[10],
        zeros: [b[11], b[12], b[13], b[14], b[15]],
    }
}

/// True when 16 raw header bytes carry the magic signature and all-zero
/// reserved field that a valid header requires.
pub open spec fn spec_header_valid(b: Seq<u8>) -> bool {
    &&& b[0] == 0x4E
    &&& b[1] == 0x45
    &&& b[2] == 0x53
    &&& b[3] == 0x1A
    &&& b[11] == 0
    &&& b[12] == 0
    &&& b[13] == 0
    &&& b[14] == 0
    &&& b[15] == 0
}

impl CartHeader {
    /// True when this header carries the magic signature `N E S 0x1A` and
    /// its five reserved bytes are all zero.
    pub open spec fn spec_valid(&self) -> bool {
        &&& self.identifier[0] == 0x4E
        &&& self.identifier[1] == 0x45
        &&& self.identifier[2] == 0x53
        &&& self.identifier[3] == 0x1A
        &&& self.zeros[0] == 0
        &&& self.zeros[1] == 0
        &&& self.zeros[2] == 0
        &&& self.zeros[3] == 0
        &&& self.zeros[4] == 0
    }

    /// Checks the magic signature and the reserved zero bytes.
    pub fn is_valid(&self) -> (r: bool)
        ensures
            r == self.spec_valid(),
    {
        if self.identifier[0] != 0x4E {
            return false;
        }
        if self.identifier[1] != 0x45 {
            return false;
        }
        if self.identifier[2] != 0x53 {
            return false;
        }
        if self.identifier[3] != 0x1A {
            return false;
        }
        if self.zeros[0] != 0 || self.zeros[1] != 0 || self.zeros[2] != 0 || self.zeros[3] != 0
            || self.zeros[4] != 0 {
            return false;
        }
        true
    }

    /// Decodes and validates a 16-byte header buffer: the header is produced
    /// exactly when the magic signature matches and the reserved bytes are
    /// all zero.
    pub fn new(bytes: &[u8]) -> (r: Option<CartHeader>)
        requires
            bytes@.len() >= 16,
        ensures
            r is Some <==> spec_header_valid(bytes@),
            r matches Some(h) ==> h == spec_header_of(bytes@),
    {
        let h = Cart::decode_header(bytes);
        if h.is_valid() {
            Some(h)
        } else {
            None
        }
    }

    /// True when bit 2 of flags byte 6 reports a 512-byte trainer block.
    pub fn has_trainer(&self) -> (r: bool)
        ensures
            r == spec_flag_set(self.flags_6, 4),
    {
        self.flags_6 & 4 != 0
    }

    /// True when bit 1 of flags byte 6 reports battery-backed RAM.
    pub fn has_sram(&self) -> (r: bool)
        ensures
            r == spec_flag_set(self.flags_6, 2),
    {
        self.flags_6 & 2 != 0
    }

    /// The program-ROM size in KB: one 16 KB unit per counted bank.
    pub fn prg_rom_size(&self) -> (r: usize)
        ensures
            r == self.prg_rom_count * 16,
    {
        self.prg_rom_count as usize * 16
    }

    /// The character-ROM size in KB: one 8 KB unit per counted bank.
    pub fn chr_rom_size(&self) -> (r: usize)
        ensures
            r == self.chr_rom_count * 8,
    {
        self.chr_rom_count as usize * 8
    }

    /// The program-RAM size in KB: one 8 KB unit per counted bank, with a
    /// count of zero meaning 8 KB for compatibility.
    pub fn prg_ram_size(&self) -> (r: usize)
        ensures
            self.prg_ram_count == 0 ==> r == 8,
            self.prg_ram_count != 0 ==> r == self.prg_ram_count * 8,
    {
        if self.prg_ram_count == 0 {
            8
        } else {
            self.prg_ram_count as usize * 8
        }
    }
}

/// Copies `len` bytes of `data` starting at `start` into a fresh vector.
fn copy_range(data: &[u8], start: usize, len: usize) -> (r: Vec<u8>)
    requires
        start + len <= data@.len(),
    ensures
        r@ == data@.subrange(start as int, start + len),
{
    let n: usize = data.len();
    let mut out: Vec<u8> = Vec::new();
    let mut j: usize = 0;
    while j < len
        invariant
            n == data@.len(),
            start + len <= data@.len(),
            j <= len,
            out@ == data@.subrange(start as int, start + j),
        decreases len - j,
    {
        out.push(data[start + j]);
        proof {
            assert(out@ =~= data@.subrange(start as int, start + j + 1));
        }
        j = j + 1;
    }
    out
}

/// A loaded cartridge: the decoded header and the ROM banks it declared.
pub struct Cart {
    pub header: CartHeader,
    pub prg_rom: PrgRom,
    pub chr_rom: ChrRom,
}

impl Cart {
    /// The program-ROM banks, each as a byte sequence.
    pub open spec fn spec_prg(&self) -> Seq<Seq<u8>> {
        self.prg_rom@.map_values(|b: PrgRomBank| b@)
    }

    /// The character-ROM banks, each as a byte sequence.
    pub open spec fn spec_chr(&self) -> Seq<Seq<u8>> {
        self.chr_rom@.map_values(|b: ChrRomBank| b@)
    }

    /// Every program bank is 16 KB and every character bank is 8 KB.
    pub open spec fn wf(&self) -> bool {
        &&& forall|i: int|
            0 <= i < self.spec_prg().len() ==> (#[trigger] self.spec_prg()[i]).len()
                == PRG_ROM_BANK_SIZE
        &&& forall|i: int|
            0 <= i < self.spec_chr().len() ==> (#[trigger] self.spec_chr()[i]).len()
                == CHR_ROM_BANK_SIZE
    }

    /// Decodes a 16-byte header buffer field by field, without validation.
    pub fn decode_header(header_bytes: &[u8]) -> (r: CartHeader)
        requires
            header_bytes@.len() >= 16,
        ensures
            r == spec_header_of(header_bytes@),
    {
        CartHeader {
            identifier: [header_bytes[0], header_bytes[1], header_bytes[2], header_bytes[3]],
            prg_rom_count: header_bytes[4],
            chr_rom_count: header_bytes[5],
            flags_6: header_bytes[6],
            flags_7: header_bytes[7],
            prg_ram_count: header_bytes[8],
            flags_9: header_bytes[9],
            flags_10: header_bytes[10],
            zeros: [
                header_bytes[11],
                header_bytes[12],
                header_bytes[13],
                header_bytes[14],
                header_bytes[15],
            ],
        }
    }

    /// A cartridge assembled from an already-decoded header and its banks.
    pub fn from_parts(header: CartHeader, prg_rom: PrgRom, chr_rom: ChrRom) -> (r: Cart)
        requires
            forall|i: int|
                0 <= i < prg_rom@.len() ==> (#[trigger] prg_rom@[i])@.len() == PRG_ROM_BANK_SIZE,
            forall|i: int|
                0 <= i < chr_rom@.len() ==> (#[trigger] chr_rom@[i])@.len() == CHR_ROM_BANK_SIZE,
        ensures
            r.wf(),
            r.header == header,
            r.spec_prg() == prg_rom@.map_values(|b: PrgRomBank| b@),
            r.spec_chr() == chr_rom@.map_values(|b: ChrRomBank| b@),
    {
        Cart { header, prg_rom, chr_rom }
    }

    /// One byte of the lower mapped program bank (bank 0).
    pub fn read_from_lower_bank(&self, addr: u16) -> (r: u8)
        requires
            self.wf(),
            self.spec_prg().len() >= 1,
            addr < PRG_ROM_BANK_SIZE,
        ensures
            r == self.spec_prg()[0][addr as int],
    {
        proof {
            assert(self.spec_prg()[0] == self.prg_rom@[0]@);
        }
        self.prg_rom[0][addr as usize]
    }

    /// One byte of the upper mapped program bank (bank 1).
    pub fn read_from_upper_bank(&self, addr: u16) -> (r: u8)
        requires
            self.wf(),
            self.spec_prg().len() >= 2,
            addr < PRG_ROM_BANK_SIZE,
        ensures
            r == self.spec_prg()[1][addr as int],
    {
        proof {
            assert(self.spec_prg()[1] == self.prg_rom@[1]@);
        }
        self.prg_rom[1][addr as usize]
    }

    /// Loads a cartridge from a complete image: the 16-byte header, the
    /// optional trainer block (skipped), then the declared program and
    /// character banks in order. Returns `None` exactly when the header is
    /// invalid or the image is shorter than the declared banks require.
    pub fn load(data: &[u8]) -> (r: Option<Cart>)
        ensures
            r is Some <==> spec_load_ok(data@),
            r matches Some(c) ==> ({
                &&& c.header == spec_header_of(data@)
                &&& c.wf()
                &&& c.spec_prg().len() == spec_header_of(data@).prg_rom_count
                &&& c.spec_chr().len() == spec_header_of(data@).chr_rom_count
                &&& forall|i: int|
                    0 <= i < c.spec_prg().len() ==> #[trigger] c.spec_prg()[i] == spec_prg_slice(
                        data@,
                        i,
                    )
                &&& forall|i: int|
                    0 <= i < c.spec_chr().len() ==> #[trigger] c.spec_chr()[i] == spec_chr_slice(
                        data@,
                        i,
                    )
            }),
    {
        if data.len() < 16 {
            return None;
        }
        let header = match CartHeader::new(data) {
            Some(h) => h,
            None => { return None; },
        };
        let prg_count = header.prg_rom_count as usize;
        let chr_count = header.chr_rom_count as usize;
        let prg_start: usize = if header.has_trainer() {
            16 + TRAINER_SIZE
        } else {
            16
        };
        let chr_start: usize = prg_start + prg_count * PRG_ROM_BANK_SIZE;
        let total: usize = chr_start + chr_count * CHR_ROM_BANK_SIZE;
        if data.len() < total {
            return None;
        }
        let mut prg_rom: PrgRom = Vec::new();
        let mut i: usize = 0;
        while i < prg_count
            invariant
                i <= prg_count,
                chr_start == prg_start + prg_count * PRG_ROM_BANK_SIZE,
                total == chr_start + chr_count * CHR_ROM_BANK_SIZE,
                total <= data@.len(),
                prg_start == spec_prg_start(header),
                header == spec_header_of(data@),
                prg_count == header.prg_rom_count,
                prg_rom@.len() == i,
                forall|k: int|
                    0 <= k < i ==> (#[trigger] prg_rom@[k])@ == spec_prg_slice(data@, k),
            decreases prg_count - i,
        {
            prg_rom.push(copy_range(data, prg_start + i * PRG_ROM_BANK_SIZE, PRG_ROM_BANK_SIZE));
            i = i + 1;
        }
        let mut chr_rom: ChrRom = Vec::new();
        let mut j: usize = 0;
        while j < chr_count
            invariant
                j <= chr_count,
                chr_start == prg_start + prg_count * PRG_ROM_BANK_SIZE,
                total == chr_start + chr_count * CHR_ROM_BANK_SIZE,
                total <= data@.len(),
                prg_start == spec_prg_start(header),
                header == spec_header_of(data@),
                prg_count == header.prg_rom_count,
                chr_count == header.chr_rom_count,
                chr_rom@.len() == j,
                forall|k: int|
                    0 <= k < j ==> (#[trigger] chr_rom@[k])@ == spec_chr_slice(data@, k),
            decreases chr_count - j,
        {
            chr_rom.push(copy_range(data, chr_start + j * CHR_ROM_BANK_SIZE, CHR_ROM_BANK_SIZE));
            j = j + 1;
        }
        Some(Cart { header, prg_rom, chr_rom })
    }

    /// Moves the banks out of the cartridge: the header, the program banks
    /// and the character banks, in that order.
    pub fn into_parts(self) -> (r: (CartHeader, PrgRom, ChrRom))
        ensures
            r.0 == self.header,
            r.1@.map_values(|b: PrgRomBank| b@) == self.spec_prg(),
            r.2@.map_values(|b: ChrRomBank| b@) == self.spec_chr(),
    {
        (self.header, self.prg_rom, self.chr_rom)
    }
}

} // verus!
