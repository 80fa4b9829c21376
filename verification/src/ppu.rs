//! The picture unit's data structures: sprite attribute memory, video RAM
//! with its pattern and name tables, and the status register. Rendering
//! itself is a collaborator outside this core; what lives here is the
//! storage and the register state the CPU-visible bus exposes.

use vstd::prelude::*;
use crate::bus::{CHR_ROM_BANK_SIZE, zero_bytes};
use crate::cart::ChrRom;

verus! {

pub const SPR_RAM_SIZE: usize = 256;

pub const SPR_COLOR_MASK: u8 = 0b0000_0011;
pub const SPR_PRIORITY_FLAG: u8 = 0b0010_0000;
pub const SPR_H_FLIP: u8 = 0b0100_0000;
pub const SPR_V_FLIP: u8 = 0b1000_0000;

pub const PATTERN_TABLE_SIZE: usize = 0x1000;
pub const NAME_TABLE_SIZE: usize = 0x03C0;
pub const ATTRIBUTE_TABLE_SIZE: usize = 0x0040;
pub const VRAM_SIZE: usize = 0x2400;

/// Sprite attribute memory: 64 sprites of four bytes each.
pub struct SprRam {
    pub buf: Vec<u8>,
}

/// One sprite record: its Y coordinate (minus one), its pattern index,
/// its attribute byte, and its X coordinate, in storage order.
pub struct Spr {
    pub data: [u8; 4],
}

impl SprRam {
    /// The buffer holds exactly the 64 four-byte records.
    pub open spec fn wf(&self) -> bool {
        self.buf@.len() == SPR_RAM_SIZE
    }

    /// Sprite memory zeroed.
    pub fn new() -> (r: SprRam)
        ensures
            r.wf(),
            forall|i: int| 0 <= i < SPR_RAM_SIZE ==> r.buf@[i] == 0u8,
    {
        SprRam { buf: zero_bytes(SPR_RAM_SIZE) }
    }

    /// One byte of sprite memory.
    pub fn get(&self, idx: usize) -> (r: u8)
        requires
            self.wf(),
            idx < SPR_RAM_SIZE,
        ensures
            r == self.buf@[idx as int],
    {
        self.buf[idx]
    }

    /// The four bytes of sprite record `idx`.
    pub fn spr(&self, idx: usize) -> (r: Spr)
        requires
            self.wf(),
            idx < 64,
        ensures
            r.data@ =~= self.buf@.subrange(4 * idx, 4 * idx + 4),
    {
        let base = idx * 4;
        let r = Spr {
            data: [self.buf[base], self.buf[base + 1], self.buf[base + 2], self.buf[base + 3]],
        };
        proof {
            assert(r.data@ =~= self.buf@.subrange(4 * idx, 4 * idx + 4));
        }
        r
    }
}

impl Spr {
    /// The Y coordinate of the sprite's top edge, minus one.
    pub fn y(&self) -> (r: u8)
        ensures
            r == self.data@[0],
    {
        self.data[0]
    }

    /// The X coordinate of the sprite's left edge.
    pub fn x(&self) -> (r: u8)
        ensures
            r == self.data@[3],
    {
        self.data[3]
    }

    /// The sprite's index into the pattern tables.
    pub fn idx(&self) -> (r: u8)
        ensures
            r == self.data@[1],
    {
        self.data[1]
    }

    /// The two most significant color bits, shifted into place.
    pub fn color(&self) -> (r: u8)
        ensures
            r == (self.data@[2] % 4) * 4,
    {
        (self.data[2] % 4) * 4
    }

    /// True when the sprite has priority over the background.
    pub fn has_priority(&self) -> (r: bool)
        ensures
            r == (self.data@[2] & SPR_PRIORITY_FLAG != 0),
    {
        self.data[2] & SPR_PRIORITY_FLAG != 0
    }

    /// True when the sprite is flipped horizontally.
    pub fn h_flip(&self) -> (r: bool)
        ensures
            r == (self.data@[2] & SPR_H_FLIP != 0),
    {
        self.data[2] & SPR_H_FLIP != 0
    }

    /// True when the sprite is flipped vertically.
    pub fn v_flip(&self) -> (r: bool)
        ensures
            r == (self.data@[2] & SPR_V_FLIP != 0),
    {
        self.data[2] & SPR_V_FLIP != 0
    }
}

/// Video RAM: the two pattern tables followed by one name table with its
/// attribute table.
pub struct VRam {
    pub buf: Vec<u8>,
}

/// A copy of one 4 KB pattern table.
pub struct PatternTable {
    pub pattern_table: Vec<u8>,
}

/// A copy of one name table together with its attribute table.
pub struct NameTable {
    pub name_table: Vec<u8>,
}

/// A copy of one attribute table.
pub struct AttrTable {
    pub attr_table: Vec<u8>,
}

impl VRam {
    /// The buffer holds the pattern tables and one name/attribute table.
    pub open spec fn wf(&self) -> bool {
        self.buf@.len() == VRAM_SIZE
    }

    /// Video RAM seeded with the first character bank of the cartridge;
    /// the space past the bank starts zeroed.
    pub fn new(chr_rom: ChrRom) -> (r: VRam)
        requires
            chr_rom@.len() >= 1,
            chr_rom@[0]@.len() == CHR_ROM_BANK_SIZE,
        ensures
            r.wf(),
            forall|i: int| 0 <= i < CHR_ROM_BANK_SIZE ==> r.buf@[i] == chr_rom@[0]@[i],
            forall|i: int| CHR_ROM_BANK_SIZE <= i < VRAM_SIZE ==> r.buf@[i] == 0u8,
    {
        let mut buf = zero_bytes(VRAM_SIZE);
        let bank = &chr_rom[0];
        let mut i: usize = 0;
        while i < CHR_ROM_BANK_SIZE
            invariant
                i <= CHR_ROM_BANK_SIZE,
                buf@.len() == VRAM_SIZE,
                bank@.len() == CHR_ROM_BANK_SIZE,
                forall|k: int| 0 <= k < i ==> buf@[k] == bank@[k],
                forall|k: int| i <= k < VRAM_SIZE ==> buf@[k] == 0u8,
            decreases CHR_ROM_BANK_SIZE - i,
        {
            buf[i] = bank[i];
            i = i + 1;
        }
        VRam { buf }
    }

    /// A copy of pattern table 0 or 1: even indices give the first table,
    /// odd ones the second.
    pub fn pattern_table(&self, idx: usize) -> (r: PatternTable)
        requires
            self.wf(),
        ensures
            idx % 2 == 0 ==> r.pattern_table@ == self.buf@.subrange(0, PATTERN_TABLE_SIZE as int),
            idx % 2 != 0 ==> r.pattern_table@ == self.buf@.subrange(
                PATTERN_TABLE_SIZE as int,
                2 * PATTERN_TABLE_SIZE,
            ),
    {
        let start: usize = if idx % 2 == 0 {
            0
        } else {
            PATTERN_TABLE_SIZE
        };
        PatternTable { pattern_table: copy_vec_range(&self.buf, start, PATTERN_TABLE_SIZE) }
    }

    /// A copy of the name table with its attribute table. A single table
    /// is resident, so every index yields the same storage.
    pub fn name_table(&self, _idx: usize) -> (r: NameTable)
        requires
            self.wf(),
        ensures
            r.name_table@ == self.buf@.subrange(
                0x2000,
                0x2000 + NAME_TABLE_SIZE + ATTRIBUTE_TABLE_SIZE,
            ),
    {
        NameTable {
            name_table: copy_vec_range(&self.buf, 0x2000, NAME_TABLE_SIZE + ATTRIBUTE_TABLE_SIZE),
        }
    }
}

impl PatternTable {
    /// One byte of the pattern table.
    pub fn get(&self, idx: u8) -> (r: u8)
        requires
            self.pattern_table@.len() == PATTERN_TABLE_SIZE,
        ensures
            r == self.pattern_table@[idx as int],
    {
        self.pattern_table[idx as usize]
    }
}

impl NameTable {
    /// The attribute table held in the last 64 bytes of the name table.
    pub fn attr_table(&self) -> (r: AttrTable)
        requires
            self.name_table@.len() == NAME_TABLE_SIZE + ATTRIBUTE_TABLE_SIZE,
        ensures
            r.attr_table@ == self.name_table@.subrange(
                NAME_TABLE_SIZE as int,
                NAME_TABLE_SIZE + ATTRIBUTE_TABLE_SIZE,
            ),
    {
        AttrTable { attr_table: copy_vec_range(&self.name_table, NAME_TABLE_SIZE,
            ATTRIBUTE_TABLE_SIZE) }
    }
}

/// Copies `len` bytes of `src` starting at `start` into a fresh vector.
fn copy_vec_range(src: &Vec<u8>, start: usize, len: usize) -> (r: Vec<u8>)
    requires
        start + len <= src@.len(),
    ensures
        r@ == src@.subrange(start as int, start + len),
{
    let n: usize = src.len();
    let mut out: Vec<u8> = Vec::new();
    let mut j: usize = 0;
    while j < len
        invariant
            n == src@.len(),
            start + len <= src@.len(),
            j <= len,
            out@ == src@.subrange(start as int, start + j),
        decreases len - j,
    {
        out.push(src[start + j]);
        proof {
            assert(out@ =~= src@.subrange(start as int, start + j + 1));
        }
        j = j + 1;
    }
    out
}

/// The status register bits a CPU read of the status port reports.
pub struct PpuStatus {
    pub sprite_overflow: bool,
    pub sprite_zero_hit: bool,
    pub v_blank: bool,
}

impl PpuStatus {
    /// The status byte for the current bits: sprite overflow in bit 5,
    /// sprite-zero hit in bit 6, vertical blank in bit 7.
    pub open spec fn spec_read(&self) -> u8 {
        (if self.sprite_overflow {
            0x20u8
        } else {
            0u8
        }) | (if self.sprite_zero_hit {
            0x40u8
        } else {
            0u8
        }) | (if self.v_blank {
            0x80u8
        } else {
            0u8
        })
    }

    /// All bits clear.
    pub fn new() -> (r: PpuStatus)
        ensures
            !r.sprite_overflow,
            !r.sprite_zero_hit,
            !r.v_blank,
    {
        PpuStatus { sprite_overflow: false, sprite_zero_hit: false, v_blank: false }
    }

    /// The status byte.
    pub fn read(&self) -> (r: u8)
        ensures
            r == self.spec_read(),
    {
        (if self.sprite_overflow {
            0x20u8
        } else {
            0u8
        }) | (if self.sprite_zero_hit {
            0x40u8
        } else {
            0u8
        }) | (if self.v_blank {
            0x80u8
        } else {
            0u8
        })
    }
}

/// The register file of the picture unit.
pub struct PpuRegisters {
    pub ppu_status: PpuStatus,
}

impl PpuRegisters {
    /// All registers in reset state.
    pub fn new() -> (r: PpuRegisters)
        ensures
            !r.ppu_status.sprite_overflow,
            !r.ppu_status.sprite_zero_hit,
            !r.ppu_status.v_blank,
    {
        PpuRegisters { ppu_status: PpuStatus::new() }
    }
}

/// The picture unit: video RAM, sprite memory, and registers.
pub struct Ppu {
    pub vram: VRam,
    pub spr_ram: SprRam,
    pub registers: PpuRegisters,
}

impl Ppu {
    /// Both memories sized as the address decode assumes.
    pub open spec fn wf(&self) -> bool {
        &&& self.vram.wf()
        &&& self.spr_ram.wf()
    }

    /// A picture unit seeded with the cartridge's first character bank.
    pub fn new(chr_rom: ChrRom) -> (r: Ppu)
        requires
            chr_rom@.len() >= 1,
            chr_rom@[0]@.len() == CHR_ROM_BANK_SIZE,
        ensures
            r.wf(),
            !r.registers.ppu_status.v_blank,
    {
        Ppu { vram: VRam::new(chr_rom), spr_ram: SprRam::new(), registers: PpuRegisters::new() }
    }

    /// Reads the status register: returns the current byte and clears the
    /// vertical-blank bit, as a hardware status read does.
    pub fn read_ppu_status(&mut self) -> (r: u8)
        ensures
            r == old(self).registers.ppu_status.spec_read(),
            !final(self).registers.ppu_status.v_blank,
            final(self).registers.ppu_status.sprite_overflow == old(
                self,
            ).registers.ppu_status.sprite_overflow,
            final(self).registers.ppu_status.sprite_zero_hit == old(
                self,
            ).registers.ppu_status.sprite_zero_hit,
            final(self).vram == old(self).vram,
            final(self).spr_ram == old(self).spr_ram,
    {
        let reg = self.registers.ppu_status.read();
        self.registers.ppu_status.v_blank = false;
        reg
    }

    /// Advances the scanline counter's side effects: vertical blank begins
    /// after the last visible line (240) and every per-frame status bit
    /// clears on the pre-render line (260).
    pub fn do_scanline(&mut self, scanline: usize)
        ensures
            final(self).vram == old(self).vram,
            final(self).spr_ram == old(self).spr_ram,
            scanline == 240 ==> final(self).registers.ppu_status.v_blank,
            scanline == 260 ==> ({
                &&& !final(self).registers.ppu_status.v_blank
                &&& !final(self).registers.ppu_status.sprite_zero_hit
                &&& !final(self).registers.ppu_status.sprite_overflow
            }),
            scanline != 240 && scanline != 260 ==> final(self).registers == old(self).registers,
    {
        if scanline == 240 {
            self.registers.ppu_status.v_blank = true;
        }
        if scanline == 260 {
            self.registers.ppu_status.v_blank = false;
            self.registers.ppu_status.sprite_zero_hit = false;
            self.registers.ppu_status.sprite_overflow = false;
        }
    }

    /// One byte read from the picture unit's address space: pattern and
    /// name tables are backed by video RAM, everything past them reads 0.
    pub fn read_byte(&self, virtual_address: u16) -> (r: u8)
        requires
            self.wf(),
        ensures
            virtual_address < 0x2000 ==> r == self.vram.buf@[virtual_address as int],
            virtual_address >= 0x2000 ==> r == 0,
    {
        if virtual_address < 0x2000 {
            self.vram.buf[virtual_address as usize]
        } else {
            0
        }
    }

    /// One byte written to the picture unit's address space: only the
    /// video-RAM range below the palettes is writable here.
    pub fn write_byte(&mut self, virtual_address: u16, val: u8)
        requires
            old(self).wf(),
        ensures
            final(self).wf(),
            virtual_address < 0x2000 ==> final(self).vram.buf@ == old(self).vram.buf@.update(
                virtual_address as int,
                val,
            ),
            virtual_address >= 0x2000 ==> final(self).vram == old(self).vram,
            final(self).spr_ram == old(self).spr_ram,
            final(self).registers == old(self).registers,
    {
        if virtual_address < 0x2000 {
            self.vram.buf[virtual_address as usize] = val;
        }
    }
}

} // verus!
