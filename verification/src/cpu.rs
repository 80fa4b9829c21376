//! The CPU core: register state and the fetch, decode, resolve-address,
//! read-operand, execute, write-back cycle of each instruction.
//!
//! Every executable step is specified against [`CpuModel`], a mathematical
//! snapshot of the registers and the memory the CPU can reach through the
//! bus decode rules of [`crate::bus`].

use vstd::prelude::*;
use crate::bus::{BusModel, bus_wf, spec_read, spec_read_word, spec_write, word_le, inc16, io_read,
    zero_bytes, RAM_SIZE, PRG_ROM_BANK_SIZE};
use crate::cart::PrgRom;
use crate::flags::{CpuFlags, has_flag, spec_set_zn, spec_set_v, spec_set_c, C_FLAG, Z_FLAG, I_FLAG,
    D_FLAG, B_FLAG, V_FLAG, N_FLAG, DX_FLAG};
use crate::isa::{Instr, AddressMode, Instruction, spec_decode, decode};

verus! {

/// A 16-bit virtual address on the CPU bus.
pub type VAddr = u16;

/// The mathematical snapshot of the whole CPU: the six registers and the
/// memory reachable through the bus.
#[verifier::ext_equal]
pub struct CpuModel {
    pub pc: u16,
    pub a: u8,
    pub x: u8,
    pub y: u8,
    pub s: u8,
    pub p: u8,
    pub bus: BusModel,
}

/// `v + 1` with 8-bit wraparound.
pub open spec fn inc8(v: u8) -> u8 {
    if v == 0xFF {
        0
    } else {
        (v + 1) as u8
    }
}

/// `v - 1` with 8-bit wraparound.
pub open spec fn dec8(v: u8) -> u8 {
    if v == 0 {
        0xFF
    } else {
        (v - 1) as u8
    }
}

/// `v - 1` with 16-bit wraparound.
pub open spec fn dec16(v: u16) -> u16 {
    if v == 0 {
        0xFFFF
    } else {
        (v - 1) as u16
    }
}

/// A non-negative value reduced to 16 bits.
pub open spec fn wrap16(n: int) -> u16 {
    (n % 0x10000) as u16
}

/// The sum of two bytes with 8-bit wraparound.
pub open spec fn wrap8_add(a: u8, b: u8) -> u8 {
    ((a + b) % 0x100) as u8
}

/// The model after one byte is pushed: the byte lands in the stack page at
/// `0x0100 | s`, then the stack pointer decrements with 8-bit wraparound.
pub open spec fn spec_push(m: CpuModel, val: u8) -> CpuModel {
    CpuModel {
        s: dec8(m.s),
        bus: BusModel { ram: m.bus.ram.update(0x100 + m.s, val), ..m.bus },
        ..m
    }
}

/// One byte popped: the stack pointer increments with 8-bit wraparound,
/// then the byte is read from the stack page. Returns the new model and the
/// byte.
pub open spec fn spec_pop(m: CpuModel) -> (CpuModel, u8) {
    (CpuModel { s: inc8(m.s), ..m }, m.bus.ram[0x100 + inc8(m.s)])
}

/// A 16-bit address pushed as two bytes: high byte first, then low byte.
pub open spec fn spec_push_addr(m: CpuModel, addr: u16) -> CpuModel {
    spec_push(spec_push(m, (addr / 256) as u8), (addr % 256) as u8)
}

/// A 16-bit address popped as two bytes: low byte first, then high byte.
pub open spec fn spec_pop_addr(m: CpuModel) -> (CpuModel, u16) {
    let (m1, lo) = spec_pop(m);
    let (m2, hi) = spec_pop(m1);
    (m2, word_le(lo, hi))
}

/// Where a taken branch lands: the operand byte is reinterpreted as a
/// signed 8-bit offset and added to the program counter, wrapping at the
/// edges of the address space.
pub open spec fn spec_branch_dest(pc: u16, offset: u8) -> u16 {
    wrap16(pc + offset + if offset >= 0x80 { 0xFF00int } else { 0int })
}

/// What executing one mnemonic does to the machine, given the operand byte
/// `v` that the read phase produced: the new machine model, paired with the
/// result byte handed to the write-back phase (0 where no result is
/// written).
///
/// Flag rules: Zero/Negative are always recomputed together from the
/// result; Carry comes from the 9-bit intermediate before truncation (or
/// the shifted-out bit); Overflow uses the two's-complement test
/// `((a ^ r) & (b ^ r)) & 0x80`. Subtraction runs as `A + !M + C`, and
/// compares as `A + !M + 1` with the accumulator left untouched.
pub open spec fn spec_exec(m: CpuModel, instr: Instr, v: u8) -> (CpuModel, u8) {
    match instr {
        // Load and store
        Instr::LDA => (CpuModel { a: v, p: spec_set_zn(m.p, v), ..m }, 0),
        Instr::LDX => (CpuModel { x: v, p: spec_set_zn(m.p, v), ..m }, 0),
        Instr::LDY => (CpuModel { y: v, p: spec_set_zn(m.p, v), ..m }, 0),
        Instr::STA => (m, m.a),
        Instr::STX => (m, m.x),
        Instr::STY => (m, m.y),
        // Arithmetic
        Instr::ADC => {
            let c: int = if has_flag(m.p, C_FLAG) {
                1
            } else {
                0
            };
            let sum = m.a + v + c;
            let r = (sum % 256) as u8;
            let p1 = spec_set_c(m.p, sum as u16);
            let p2 = spec_set_v(p1, m.a, v, r);
            (CpuModel { a: r, p: spec_set_zn(p2, r), ..m }, 0)
        },
        Instr::SBC => {
            let c: int = if has_flag(m.p, C_FLAG) {
                1
            } else {
                0
            };
            let sum = m.a + (255 - v) + c;
            let r = (sum % 256) as u8;
            let p1 = spec_set_c(m.p, sum as u16);
            let p2 = spec_set_v(p1, r, v, m.a);
            (CpuModel { a: r, p: spec_set_zn(p2, r), ..m }, 0)
        },
        Instr::INC => {
            let r = inc8(v);
            (CpuModel { p: spec_set_zn(m.p, r), ..m }, r)
        },
        Instr::INX => {
            let r = inc8(m.x);
            (CpuModel { x: r, p: spec_set_zn(m.p, r), ..m }, 0)
        },
        Instr::INY => {
            let r = inc8(m.y);
            (CpuModel { y: r, p: spec_set_zn(m.p, r), ..m }, 0)
        },
        Instr::DEC => {
            let r = dec8(v);
            (CpuModel { p: spec_set_zn(m.p, r), ..m }, r)
        },
        Instr::DEX => {
            let r = dec8(m.x);
            (CpuModel { x: r, p: spec_set_zn(m.p, r), ..m }, 0)
        },
        Instr::DEY => {
            let r = dec8(m.y);
            (CpuModel { y: r, p: spec_set_zn(m.p, r), ..m }, 0)
        },
        // Shift and rotate
        Instr::ASL => {
            let r = ((v * 2) % 256) as u8;
            let p1 = spec_set_c(m.p, (v * 2) as u16);
            (CpuModel { p: spec_set_zn(p1, r), ..m }, r)
        },
        Instr::LSR => {
            let r = (v / 2) as u8;
            let p1 = if v & C_FLAG != 0 {
                (m.p & !C_FLAG) | C_FLAG
            } else {
                m.p & !C_FLAG
            };
            (CpuModel { p: spec_set_zn(p1, r), ..m }, r)
        },
        Instr::ROL => {
            let c: int = if has_flag(m.p, C_FLAG) {
                1
            } else {
                0
            };
            let r = ((v * 2 + c) % 256) as u8;
            let p1 = spec_set_c(m.p, (v * 2) as u16);
            (CpuModel { p: spec_set_zn(p1, r), ..m }, r)
        },
        Instr::ROR => {
            let r = (v / 2 + if has_flag(m.p, C_FLAG) {
                0x80int
            } else {
                0int
            }) as u8;
            let p1 = if v & 0x01 != 0 {
                (m.p & !C_FLAG) | C_FLAG
            } else {
                m.p & !C_FLAG
            };
            (CpuModel { p: spec_set_zn(p1, r), ..m }, r)
        },
        // Logic
        Instr::AND => {
            let r = m.a & v;
            (CpuModel { a: r, p: spec_set_zn(m.p, r), ..m }, 0)
        },
        Instr::ORA => {
            let r = m.a | v;
            (CpuModel { a: r, p: spec_set_zn(m.p, r), ..m }, 0)
        },
        Instr::EOR => {
            let r = m.a ^ v;
            (CpuModel { a: r, p: spec_set_zn(m.p, r), ..m }, 0)
        },
        // Compare and test bit
        Instr::CMP => {
            let sum = m.a + (255 - v) + 1;
            let r = (sum % 256) as u8;
            let p1 = spec_set_c(m.p, sum as u16);
            (CpuModel { p: spec_set_zn(p1, r), ..m }, 0)
        },
        Instr::CPX => {
            let sum = m.x + (255 - v) + 1;
            let r = (sum % 256) as u8;
            let p1 = spec_set_c(m.p, sum as u16);
            (CpuModel { p: spec_set_zn(p1, r), ..m }, 0)
        },
        Instr::CPY => {
            let sum = m.y + (255 - v) + 1;
            let r = (sum % 256) as u8;
            let p1 = spec_set_c(m.p, sum as u16);
            (CpuModel { p: spec_set_zn(p1, r), ..m }, 0)
        },
        Instr::BIT => {
            let p0 = m.p & !(Z_FLAG | N_FLAG | V_FLAG);
            let p1 = if v >= 0x80 {
                p0 | N_FLAG
            } else {
                p0
            };
            let p2 = if v & 0x40 != 0 {
                p1 | V_FLAG
            } else {
                p1
            };
            let p3 = if m.a & v == 0 {
                p2 | Z_FLAG
            } else {
                p2
            };
            (CpuModel { p: p3, ..m }, 0)
        },
        // Branch
        Instr::BCC => (
            if !has_flag(m.p, C_FLAG) {
                CpuModel { pc: spec_branch_dest(m.pc, v), ..m }
            } else {
                m
            },
            0,
        ),
        Instr::BCS => (
            if has_flag(m.p, C_FLAG) {
                CpuModel { pc: spec_branch_dest(m.pc, v), ..m }
            } else {
                m
            },
            0,
        ),
        Instr::BEQ => (
            if has_flag(m.p, Z_FLAG) {
                CpuModel { pc: spec_branch_dest(m.pc, v), ..m }
            } else {
                m
            },
            0,
        ),
        Instr::BMI => (
            if has_flag(m.p, N_FLAG) {
                CpuModel { pc: spec_branch_dest(m.pc, v), ..m }
            } else {
                m
            },
            0,
        ),
        Instr::BNE => (
            if !has_flag(m.p, Z_FLAG) {
                CpuModel { pc: spec_branch_dest(m.pc, v), ..m }
            } else {
                m
            },
            0,
        ),
        Instr::BPL => (
            if !has_flag(m.p, N_FLAG) {
                CpuModel { pc: spec_branch_dest(m.pc, v), ..m }
            } else {
                m
            },
            0,
        ),
        Instr::BVC => (
            if !has_flag(m.p, V_FLAG) {
                CpuModel { pc: spec_branch_dest(m.pc, v), ..m }
            } else {
                m
            },
            0,
        ),
        Instr::BVS => (
            if has_flag(m.p, V_FLAG) {
                CpuModel { pc: spec_branch_dest(m.pc, v), ..m }
            } else {
                m
            },
            0,
        ),
        // Transfer
        Instr::TAX => (CpuModel { x: m.a, p: spec_set_zn(m.p, m.a), ..m }, 0),
        Instr::TXA => (CpuModel { a: m.x, p: spec_set_zn(m.p, m.x), ..m }, 0),
        Instr::TAY => (CpuModel { y: m.a, p: spec_set_zn(m.p, m.a), ..m }, 0),
        Instr::TYA => (CpuModel { a: m.y, p: spec_set_zn(m.p, m.y), ..m }, 0),
        Instr::TSX => (CpuModel { x: m.s, p: spec_set_zn(m.p, m.s), ..m }, 0),
        Instr::TXS => (CpuModel { s: m.x, p: spec_set_zn(m.p, m.x), ..m }, 0),
        // Stack
        Instr::PHA => (spec_push(m, m.a), 0),
        Instr::PLA => {
            let (m1, val) = spec_pop(m);
            (CpuModel { a: val, p: spec_set_zn(m1.p, val), ..m1 }, 0)
        },
        Instr::PHP => (spec_push(m, m.p), 0),
        Instr::PLP => {
            let (m1, val) = spec_pop(m);
            (CpuModel { p: val, ..m1 }, 0)
        },
        // Subroutines and jump: JMP and JSR act in the run phase, where the
        // effective address is at hand, so they leave the machine unchanged
        // here.
        Instr::RTS => {
            let (m1, w) = spec_pop_addr(m);
            (CpuModel { pc: inc16(w), ..m1 }, 0)
        },
        Instr::RTI => {
            let (m1, pv) = spec_pop(m);
            let (m2, w) = spec_pop_addr(m1);
            (CpuModel { p: pv, pc: w, ..m2 }, 0)
        },
        // Set and clear
        Instr::SEC => (CpuModel { p: m.p | C_FLAG, ..m }, 0),
        Instr::SED => (CpuModel { p: m.p | D_FLAG, ..m }, 0),
        Instr::SEI => (CpuModel { p: m.p | I_FLAG, ..m }, 0),
        Instr::CLC => (CpuModel { p: m.p & !C_FLAG, ..m }, 0),
        Instr::CLD => (m, 0),  // the Decimal flag has no effect on this platform
        Instr::CLI => (CpuModel { p: m.p & !I_FLAG, ..m }, 0),
        Instr::CLV => (CpuModel { p: m.p & !V_FLAG, ..m }, 0),
        // Miscellaneous
        Instr::NOP => (m, 0),
        Instr::BRK => {
            let m1 = spec_push_addr(m, inc16(m.pc));
            let m2 = spec_push(m1, m.p | B_FLAG);
            (CpuModel { p: m.p | I_FLAG, pc: spec_read_word(m2.bus, 0xFFFE), ..m2 }, 0)
        },
        // JMP, JSR, and the undefined sentinel leave the machine unchanged.
        _ => (m, 0),
    }
}

/// How many operand bytes an addressing mode consumes from the
/// instruction stream.
pub open spec fn spec_mode_len(mode: AddressMode) -> int {
    match mode {
        AddressMode::ZP => 1,
        AddressMode::ZPX => 1,
        AddressMode::ZPY => 1,
        AddressMode::IMM => 1,
        AddressMode::REL => 1,
        AddressMode::INDX => 1,
        AddressMode::INDY => 1,
        AddressMode::ABS => 2,
        AddressMode::ABSX => 2,
        AddressMode::ABSY => 2,
        AddressMode::IND => 2,
        AddressMode::IMP => 0,
        AddressMode::ACC => 0,
        AddressMode::ADDRESS_MODE_NONE => 0,
    }
}

/// The program counter after the operand bytes of `mode` are consumed.
pub open spec fn spec_pc_after(pc: u16, mode: AddressMode) -> u16 {
    if spec_mode_len(mode) == 0 {
        pc
    } else if spec_mode_len(mode) == 1 {
        inc16(pc)
    } else {
        inc16(inc16(pc))
    }
}

/// The effective address an addressing mode resolves to, with the program
/// counter standing on the first operand byte.
///
/// Zero-page indexing wraps within the first 256 bytes; absolute indexing
/// wraps at the top of the address space. Indirect modes read a 16-bit
/// little-endian pointer whose high byte comes from the next sequential
/// address (no page-wrap quirk: the hardware bug where a pointer at a page
/// boundary fails to carry is deliberately not reproduced). The modes that
/// form no memory address (implied, accumulator) resolve to 0, and
/// immediate/relative modes resolve to the operand byte itself, which the
/// read phase consumes directly.
pub open spec fn spec_resolve(m: CpuModel, mode: AddressMode) -> u16 {
    match mode {
        AddressMode::ZP => spec_read(m.bus, m.pc) as u16,
        AddressMode::IMM => spec_read(m.bus, m.pc) as u16,
        AddressMode::REL => spec_read(m.bus, m.pc) as u16,
        AddressMode::ZPX => wrap8_add(spec_read(m.bus, m.pc), m.x) as u16,
        AddressMode::ZPY => wrap8_add(spec_read(m.bus, m.pc), m.y) as u16,
        AddressMode::ABS => spec_read_word(m.bus, m.pc),
        AddressMode::ABSX => wrap16(spec_read_word(m.bus, m.pc) + m.x),
        AddressMode::ABSY => wrap16(spec_read_word(m.bus, m.pc) + m.y),
        AddressMode::IND => spec_read_word(m.bus, spec_read_word(m.bus, m.pc)),
        AddressMode::IMP => 0,
        AddressMode::ACC => 0,
        AddressMode::INDX => spec_read_word(m.bus, wrap8_add(spec_read(m.bus, m.pc), m.x) as u16),
        AddressMode::INDY => wrap16(spec_read_word(m.bus, spec_read(m.bus, m.pc) as u16) + m.y),
        AddressMode::ADDRESS_MODE_NONE => 0,
    }
}

/// The mnemonics whose read phase fetches the operand from memory.
pub open spec fn spec_is_read_instr(i: Instr) -> bool {
    match i {
        Instr::ADC => true,
        Instr::AND => true,
        Instr::ASL => true,
        Instr::BIT => true,
        Instr::CMP => true,
        Instr::CPX => true,
        Instr::CPY => true,
        Instr::DEC => true,
        Instr::EOR => true,
        Instr::INC => true,
        Instr::LDA => true,
        Instr::LDX => true,
        Instr::LDY => true,
        Instr::LSR => true,
        Instr::ORA => true,
        Instr::ROL => true,
        Instr::ROR => true,
        Instr::SBC => true,
        _ => false,
    }
}

/// The mnemonics whose write-back phase stores the result to memory.
pub open spec fn spec_is_write_instr(i: Instr) -> bool {
    match i {
        Instr::ASL => true,
        Instr::DEC => true,
        Instr::INC => true,
        Instr::LSR => true,
        Instr::ROL => true,
        Instr::ROR => true,
        Instr::STA => true,
        Instr::STX => true,
        Instr::STY => true,
        _ => false,
    }
}

/// The operand byte the read phase hands to execution: the accumulator for
/// accumulator mode, the consumed operand byte itself for immediate and
/// relative modes, the byte at the effective address for the mnemonics
/// that read memory, and 0 otherwise.
pub open spec fn spec_mem_read(m: CpuModel, addr: u16, instr: Instruction) -> u8 {
    if instr.address_mode == AddressMode::ACC {
        m.a
    } else if instr.address_mode == AddressMode::IMM || instr.address_mode == AddressMode::REL {
        (addr % 256) as u8
    } else if spec_is_read_instr(instr.instr) {
        spec_read(m.bus, addr)
    } else {
        0
    }
}

/// What the write-back phase does with the result byte: accumulator-mode
/// instructions store it in the accumulator, the store and
/// read-modify-write mnemonics write it through the bus, and everything
/// else discards it.
pub open spec fn spec_mem_write(m: CpuModel, addr: u16, val: u8, instr: Instruction) -> CpuModel {
    if instr.address_mode == AddressMode::ACC {
        CpuModel { a: val, ..m }
    } else if spec_is_write_instr(instr.instr) {
        CpuModel { bus: spec_write(m.bus, addr, val), ..m }
    } else {
        m
    }
}

/// One full instruction step from model `m`: fetch and decode the opcode
/// at the program counter, resolve the effective address, read the
/// operand, execute, and write back. JMP loads the program counter with
/// the effective address directly; JSR first pushes the address of its
/// last operand byte (the return address minus one). An opcode that does
/// not decode leaves the machine unchanged (the executable step refuses
/// it instead).
pub open spec fn spec_step(m: CpuModel) -> CpuModel {
    match spec_decode(spec_read(m.bus, m.pc)) {
        None => m,
        Some(i) => {
            let m1 = CpuModel { pc: inc16(m.pc), ..m };
            let addr = spec_resolve(m1, i.address_mode);
            let m2 = CpuModel { pc: spec_pc_after(m1.pc, i.address_mode), ..m1 };
            if i.instr == Instr::JMP {
                CpuModel { pc: addr, ..m2 }
            } else if i.instr == Instr::JSR {
                CpuModel { pc: addr, ..spec_push_addr(m2, dec16(m2.pc)) }
            } else {
                let v = spec_mem_read(m2, addr, i);
                let stepped = spec_exec(m2, i.instr, v);
                spec_mem_write(stepped.0, addr, stepped.1, i)
            }
        },
    }
}

/// The base cycle count of the instruction at the program counter.
pub open spec fn spec_step_cycles(m: CpuModel) -> usize {
    match spec_decode(spec_read(m.bus, m.pc)) {
        None => 0,
        Some(i) => i.cycles,
    }
}

/// The error a step reports when the opcode at the program counter has no
/// defined instruction: the offending byte and where it was fetched.
#[derive(Clone, Copy, PartialEq, Eq, Structural, Debug)]
pub struct StepError {
    pub opcode: u8,
    pub pc: u16,
}

/// The CPU register file. Reset state: all registers zero, the stack
/// pointer at 0xFF (hardware reset value), and only the two storage-only
/// status bits set.
pub struct CpuState {
    pub pc: VAddr,
    pub a: u8,
    pub x: u8,
    pub y: u8,
    pub s: u8,
    pub p: CpuFlags,
}

impl CpuState {
    /// The reset register file.
    pub fn new() -> (r: CpuState)
        ensures
            r.pc == 0,
            r.a == 0,
            r.x == 0,
            r.y == 0,
            r.s == 0xFF,
            r.p.bits == DX_FLAG,
    {
        CpuState { pc: 0x0000, a: 0x00, x: 0x00, y: 0x00, s: 0xFF, p: CpuFlags::none() }
    }
}

/// The CPU core: the register file, the two mapped program-ROM banks, and
/// the 2 KB of work RAM it reaches through the bus decode rules.
pub struct Cpu {
    pub state: CpuState,
    pub prg_rom: PrgRom,
    pub ram: Vec<u8>,
}

impl View for Cpu {
    type V = CpuModel;

    open spec fn view(&self) -> CpuModel {
        CpuModel {
            pc: self.state.pc,
            a: self.state.a,
            x: self.state.x,
            y: self.state.y,
            s: self.state.s,
            p: self.state.p.bits,
            bus: BusModel {
                ram: self.ram@,
                bank0: self.prg_rom@[0]@,
                bank1: self.prg_rom@[1]@,
            },
        }
    }
}

impl Cpu {
    /// The CPU holds 2 KB of RAM and at least the two mapped 16 KB banks.
    pub open spec fn wf(&self) -> bool {
        &&& self.prg_rom@.len() >= 2
        &&& self.prg_rom@[0]@.len() == PRG_ROM_BANK_SIZE
        &&& self.prg_rom@[1]@.len() == PRG_ROM_BANK_SIZE
        &&& self.ram@.len() == RAM_SIZE
    }

    /// A CPU in reset state over the given program ROM, with RAM zeroed.
    pub fn new(prg_rom: PrgRom) -> (r: Cpu)
        requires
            prg_rom@.len() >= 2,
            prg_rom@[0]@.len() == PRG_ROM_BANK_SIZE,
            prg_rom@[1]@.len() == PRG_ROM_BANK_SIZE,
        ensures
            r.wf(),
            r@.pc == 0 && r@.a == 0 && r@.x == 0 && r@.y == 0,
            r@.s == 0xFF,
            r@.p == DX_FLAG,
            r@.bus.bank0 == prg_rom@[0]@,
            r@.bus.bank1 == prg_rom@[1]@,
            forall|i: int| 0 <= i < RAM_SIZE ==> r@.bus.ram[i] == 0u8,
    {
        Cpu { state: CpuState::new(), prg_rom, ram: zero_bytes(RAM_SIZE) }
    }

    /// Runs the emulation loop. Stepping is driven externally through
    /// `instr_run`; this entry point leaves the machine untouched.
    pub fn run(&mut self)
        ensures
            *final(self) == *old(self),
    {
    }

    /// One byte read from the bus.
    pub fn read_byte(&self, virtual_address: VAddr) -> (r: u8)
        requires
            self.wf(),
        ensures
            r == spec_read(self@.bus, virtual_address),
    {
        if virtual_address < 0x2000 {
            // RAM, mirrored every 0x800 bytes
            self.ram[(virtual_address % 0x800) as usize]
        } else if virtual_address < 0x4000 {
            // I/O registers, mirrored every 8 bytes
            io_read(virtual_address % 8)
        } else if virtual_address < 0x4020 {
            // peripheral I/O stub
            0x00
        } else if virtual_address < 0x6000 {
            // expansion ROM stub
            0x00
        } else if virtual_address < 0x8000 {
            // battery RAM stub
            0x00
        } else if virtual_address < 0xC000 {
            self.prg_rom[0][(virtual_address % 0x4000) as usize]
        } else {
            self.prg_rom[1][(virtual_address % 0x4000) as usize]
        }
    }

    /// One byte written to the bus: only the RAM range is writable, and
    /// writes anywhere else (ROM, read-only registers, stubs) are rejected
    /// and dropped.
    pub fn write_byte(&mut self, virtual_address: VAddr, val: u8)
        requires
            old(self).wf(),
        ensures
            final(self).wf(),
            final(self)@ == (CpuModel {
                bus: spec_write(old(self)@.bus, virtual_address, val),
                ..old(self)@
            }),
    {
        if virtual_address < 0x2000 {
            let address: usize = (virtual_address % 0x800) as usize;
            self.ram[address] = val;
        }
    }

    /// A 16-bit pointer read little-endian from the bus: low byte at the
    /// given address, high byte at the following one.
    pub fn read_addr(&self, virtual_address: VAddr) -> (r: VAddr)
        requires
            self.wf(),
        ensures
            r == spec_read_word(self@.bus, virtual_address),
    {
        let lo: u8 = self.read_byte(virtual_address);
        let hi: u8 = self.read_byte(
            if virtual_address == 0xFFFF {
                0
            } else {
                virtual_address + 1
            },
        );
        hi as u16 * 256 + lo as u16
    }

    /// Reads the byte at the program counter and advances the counter by 1.
    fn read_pc_byte(&mut self) -> (r: u8)
        requires
            old(self).wf(),
        ensures
            final(self).wf(),
            r == spec_read(old(self)@.bus, old(self)@.pc),
            final(self)@ == (CpuModel { pc: inc16(old(self)@.pc), ..old(self)@ }),
    {
        let byte = self.read_byte(self.state.pc);
        self.state.pc = if self.state.pc == 0xFFFF {
            0
        } else {
            self.state.pc + 1
        };
        byte
    }

    /// Reads the two bytes at the program counter as a little-endian
    /// address and advances the counter by 2.
    fn read_pc_addr(&mut self) -> (r: VAddr)
        requires
            old(self).wf(),
        ensures
            final(self).wf(),
            r == spec_read_word(old(self)@.bus, old(self)@.pc),
            final(self)@ == (CpuModel { pc: inc16(inc16(old(self)@.pc)), ..old(self)@ }),
    {
        let lo: u8 = self.read_pc_byte();
        let hi: u8 = self.read_pc_byte();
        hi as u16 * 256 + lo as u16
    }

    /// Adds a branch offset (a signed 8-bit displacement) to the program
    /// counter.
    fn add_pc_rel(&mut self, offset: u8)
        ensures
            final(self)@ == (CpuModel {
                pc: spec_branch_dest(old(self)@.pc, offset),
                ..old(self)@
            }),
            final(self).wf() == old(self).wf(),
    {
        let adjust: u32 = if offset >= 0x80 {
            0xFF00
        } else {
            0
        };
        let t: u32 = self.state.pc as u32 + offset as u32 + adjust;
        self.state.pc = (t % 0x10000) as u16;
    }

    /// Fetches the byte at the program counter, advances the counter past
    /// it, and decodes it. Callers must rule out undefined opcodes first.
    pub fn instr_decode(&mut self) -> (r: Instruction)
        requires
            old(self).wf(),
            spec_decode(spec_read(old(self)@.bus, old(self)@.pc)) is Some,
        ensures
            final(self).wf(),
            Some(r) == spec_decode(spec_read(old(self)@.bus, old(self)@.pc)),
            final(self)@ == (CpuModel { pc: inc16(old(self)@.pc), ..old(self)@ }),
    {
        Instruction::new(self.read_pc_byte())
    }

    /// Resolves the effective address for an addressing mode, consuming
    /// the operand bytes at the program counter.
    pub fn instr_mem_addr(&mut self, mode: AddressMode) -> (r: VAddr)
        requires
            old(self).wf(),
        ensures
            final(self).wf(),
            r == spec_resolve(old(self)@, mode),
            final(self)@ == (CpuModel { pc: spec_pc_after(old(self)@.pc, mode), ..old(self)@ }),
    {
        match mode {
            AddressMode::ZP | AddressMode::IMM | AddressMode::REL => {
                self.read_pc_byte() as VAddr
            },
            AddressMode::ZPX => {
                let b = self.read_pc_byte();
                // 8-bit wraparound: zero-page indexing never leaves the page
                (b as u16 + self.state.x as u16) % 0x100
            },
            AddressMode::ZPY => {
                let b = self.read_pc_byte();
                (b as u16 + self.state.y as u16) % 0x100
            },
            AddressMode::ABS => self.read_pc_addr(),
            AddressMode::ABSX => {
                let w = self.read_pc_addr();
                ((w as u32 + self.state.x as u32) % 0x10000) as u16
            },
            AddressMode::ABSY => {
                let w = self.read_pc_addr();
                ((w as u32 + self.state.y as u32) % 0x10000) as u16
            },
            AddressMode::IND => {
                let indirect_address: VAddr = self.read_pc_addr();
                self.read_addr(indirect_address)
            },
            AddressMode::IMP | AddressMode::ACC | AddressMode::ADDRESS_MODE_NONE => {
                // implied and accumulator instructions form no memory address
                0x0000
            },
            AddressMode::INDX => {
                let b = self.read_pc_byte();
                let indirect_address: VAddr = (b as u16 + self.state.x as u16) % 0x100;
                self.read_addr(indirect_address)
            },
            AddressMode::INDY => {
                let b = self.read_pc_byte();
                let w = self.read_addr(b as VAddr);
                ((w as u32 + self.state.y as u32) % 0x10000) as u16
            },
        }
    }

    /// The read phase: produces the operand byte for execution, reading
    /// through the bus only for the mnemonics that fetch from memory.
    pub fn instr_mem_read(&self, addr: VAddr, instr: Instruction) -> (r: u8)
        requires
            self.wf(),
        ensures
            r == spec_mem_read(self@, addr, instr),
    {
        let am = instr.address_mode;
        if am == AddressMode::ACC {
            self.state.a
        } else if am == AddressMode::IMM || am == AddressMode::REL {
            (addr % 256) as u8
        } else {
            match instr.instr {
                Instr::ADC | Instr::AND | Instr::ASL | Instr::BIT | Instr::CMP | Instr::CPX
                    | Instr::CPY | Instr::DEC | Instr::EOR | Instr::INC | Instr::LDA
                    | Instr::LDX | Instr::LDY | Instr::LSR | Instr::ORA | Instr::ROL
                    | Instr::ROR | Instr::SBC => self.read_byte(addr),
                _ => 0,
            }
        }
    }

    /// The write-back phase: stores the result byte into the accumulator
    /// or through the bus for the mnemonics that write one, and discards
    /// it otherwise.
    pub fn instr_mem_write(&mut self, addr: VAddr, from_exec: u8, instr: Instruction)
        requires
            old(self).wf(),
        ensures
            final(self).wf(),
            final(self)@ == spec_mem_write(old(self)@, addr, from_exec, instr),
    {
        if instr.address_mode == AddressMode::ACC {
            self.state.a = from_exec;
        } else {
            match instr.instr {
                Instr::ASL | Instr::DEC | Instr::INC | Instr::LSR | Instr::ROL | Instr::ROR
                    | Instr::STA | Instr::STX | Instr::STY => {
                    self.write_byte(addr, from_exec);
                },
                _ => {},
            }
        }
    }

    /// Executes the instruction at the program counter through all five
    /// phases and returns its base cycle count. Callers must rule out
    /// undefined opcodes first; `step` offers the checked entry point.
    pub fn instr_run(&mut self) -> (r: usize)
        requires
            old(self).wf(),
            spec_decode(spec_read(old(self)@.bus, old(self)@.pc)) is Some,
        ensures
            final(self).wf(),
            final(self)@ == spec_step(old(self)@),
            r == spec_step_cycles(old(self)@),
    {
        let instr = self.instr_decode();
        let m_addr = self.instr_mem_addr(instr.address_mode);
        if instr.instr == Instr::JMP {
            self.state.pc = m_addr;
        } else if instr.instr == Instr::JSR {
            // the counter already points past the operand; push the
            // return address minus one
            let pc = if self.state.pc == 0 {
                0xFFFF
            } else {
                self.state.pc - 1
            };
            self.push_addr(pc);
            self.state.pc = m_addr;
        } else {
            let m = self.instr_mem_read(m_addr, instr);
            let x = self.instr_exec(instr.instr, m);
            self.instr_mem_write(m_addr, x, instr);
        }
        instr.cycles
    }

    /// Executes the instruction at the program counter, or reports an
    /// undefined opcode as a recoverable error, leaving the machine
    /// untouched so the caller can decide how to proceed.
    pub fn step(&mut self) -> (r: Result<usize, StepError>)
        requires
            old(self).wf(),
        ensures
            final(self).wf(),
            spec_decode(spec_read(old(self)@.bus, old(self)@.pc)) is Some ==> ({
                &&& r == Ok::<usize, StepError>(spec_step_cycles(old(self)@))
                &&& final(self)@ == spec_step(old(self)@)
            }),
            spec_decode(spec_read(old(self)@.bus, old(self)@.pc)) is None ==> ({
                &&& r == Err::<usize, StepError>(StepError {
                    opcode: spec_read(old(self)@.bus, old(self)@.pc),
                    pc: old(self)@.pc,
                })
                &&& final(self)@ == old(self)@
            }),
    {
        let opcode = self.read_byte(self.state.pc);
        match decode(opcode) {
            Some(_) => Ok(self.instr_run()),
            None => Err(StepError { opcode, pc: self.state.pc }),
        }
    }

    /// Executes one decoded mnemonic on the operand byte `from_mem`,
    /// mutating registers, flags, and (for stack and break instructions)
    /// the stack page, and returns the result byte for the write-back
    /// phase.
    pub fn instr_exec(&mut self, instr: Instr, from_mem: u8) -> (r: u8)
        requires
            old(self).wf(),
        ensures
            final(self).wf(),
            final(self)@ == spec_exec(old(self)@, instr, from_mem).0,
            r == spec_exec(old(self)@, instr, from_mem).1,
    {
        let a: u8 = self.state.a;
        let x: u8 = self.state.x;
        let y: u8 = self.state.y;
        let s: u8 = self.state.s;
        let p: CpuFlags = self.state.p;
        let m: u8 = from_mem;
        let mut out: u8 = 0;
        match instr {
            // Load and store
            Instr::LDA => {
                self.state.a = m;
                self.state.p.set_zn(m);
            },
            Instr::LDX => {
                self.state.x = m;
                self.state.p.set_zn(m);
            },
            Instr::LDY => {
                self.state.y = m;
                self.state.p.set_zn(m);
            },
            Instr::STA => {
                out = self.state.a;
            },
            Instr::STX => {
                out = self.state.x;
            },
            Instr::STY => {
                out = self.state.y;
            },
            // Arithmetic
            Instr::ADC => {
                let c: u16 = if p.contains(C_FLAG) {
                    1
                } else {
                    0
                };
                let val: u16 = a as u16 + m as u16 + c;
                self.state.p.set_c(val);
                let val: u8 = (val % 256) as u8;
                self.state.p.set_v(a, m, val);
                self.state.p.set_zn(val);
                self.state.a = val;
            },
            Instr::SBC => {
                // subtraction runs as A + !M + C
                let c: u16 = if p.contains(C_FLAG) {
                    1
                } else {
                    0
                };
                let val: u16 = a as u16 + (255 - m) as u16 + c;
                self.state.p.set_c(val);
                let val: u8 = (val % 256) as u8;
                self.state.p.set_v(val, m, a);
                self.state.p.set_zn(val);
                self.state.a = val;
            },
            Instr::INC => {
                out = if m == 0xFF {
                    0
                } else {
                    m + 1
                };
                self.state.p.set_zn(out);
            },
            Instr::INX => {
                self.state.x = if x == 0xFF {
                    0
                } else {
                    x + 1
                };
                let r = self.state.x;
                self.state.p.set_zn(r);
            },
            Instr::INY => {
                self.state.y = if y == 0xFF {
                    0
                } else {
                    y + 1
                };
                let r = self.state.y;
                self.state.p.set_zn(r);
            },
            Instr::DEC => {
                out = if m == 0 {
                    0xFF
                } else {
                    m - 1
                };
                self.state.p.set_zn(out);
            },
            Instr::DEX => {
                self.state.x = if x == 0 {
                    0xFF
                } else {
                    x - 1
                };
                let r = self.state.x;
                self.state.p.set_zn(r);
            },
            Instr::DEY => {
                self.state.y = if y == 0 {
                    0xFF
                } else {
                    y - 1
                };
                let r = self.state.y;
                self.state.p.set_zn(r);
            },
            // Shift and rotate
            Instr::ASL => {
                let val: u16 = m as u16 * 2;
                self.state.p.set_c(val);
                let val: u8 = (val % 256) as u8;
                self.state.p.set_zn(val);
                out = val;
            },
            Instr::LSR => {
                self.state.p.remove(C_FLAG);
                if m & C_FLAG != 0 {
                    self.state.p.insert(C_FLAG);
                }
                out = m / 2;
                self.state.p.set_zn(out);
            },
            Instr::ROL => {
                let c: u16 = if p.contains(C_FLAG) {
                    1
                } else {
                    0
                };
                out = ((m as u16 * 2 + c) % 256) as u8;
                self.state.p.set_c(m as u16 * 2);
                self.state.p.set_zn(out);
            },
            Instr::ROR => {
                out = m / 2 + if p.contains(C_FLAG) {
                    0x80
                } else {
                    0x00
                };
                self.state.p.remove(C_FLAG);
                if m & 0x01 != 0 {
                    self.state.p.insert(C_FLAG);
                }
                self.state.p.set_zn(out);
            },
            // Logic
            Instr::AND => {
                self.state.a = a & m;
                let r = self.state.a;
                self.state.p.set_zn(r);
            },
            Instr::ORA => {
                self.state.a = a | m;
                let r = self.state.a;
                self.state.p.set_zn(r);
            },
            Instr::EOR => {
                self.state.a = a ^ m;
                let r = self.state.a;
                self.state.p.set_zn(r);
            },
            // Compare and test bit: compares run as A + !M + 1 and leave
            // the compared register untouched
            Instr::CMP => {
                let val: u16 = a as u16 + (255 - m) as u16 + 1;
                self.state.p.set_c(val);
                let val: u8 = (val % 256) as u8;
                self.state.p.set_zn(val);
            },
            Instr::CPX => {
                let val: u16 = x as u16 + (255 - m) as u16 + 1;
                self.state.p.set_c(val);
                let val: u8 = (val % 256) as u8;
                self.state.p.set_zn(val);
            },
            Instr::CPY => {
                let val: u16 = y as u16 + (255 - m) as u16 + 1;
                self.state.p.set_c(val);
                let val: u8 = (val % 256) as u8;
                self.state.p.set_zn(val);
            },
            Instr::BIT => {
                // Negative and Overflow come from bits 7/6 of the operand
                // itself; Zero from the AND with the accumulator.
                self.state.p.remove(Z_FLAG | N_FLAG | V_FLAG);
                if m >= 0x80 {
                    self.state.p.insert(N_FLAG);
                }
                if m & 0x40 != 0 {
                    self.state.p.insert(V_FLAG);
                }
                if a & m == 0 {
                    self.state.p.insert(Z_FLAG);
                }
            },
            // Branch
            Instr::BCC => {
                if !p.contains(C_FLAG) {
                    self.add_pc_rel(m);
                }
            },
            Instr::BCS => {
                if p.contains(C_FLAG) {
                    self.add_pc_rel(m);
                }
            },
            Instr::BEQ => {
                if p.contains(Z_FLAG) {
                    self.add_pc_rel(m);
                }
            },
            Instr::BMI => {
                if p.contains(N_FLAG) {
                    self.add_pc_rel(m);
                }
            },
            Instr::BNE => {
                if !p.contains(Z_FLAG) {
                    self.add_pc_rel(m);
                }
            },
            Instr::BPL => {
                if !p.contains(N_FLAG) {
                    self.add_pc_rel(m);
                }
            },
            Instr::BVC => {
                if !p.contains(V_FLAG) {
                    self.add_pc_rel(m);
                }
            },
            Instr::BVS => {
                if p.contains(V_FLAG) {
                    self.add_pc_rel(m);
                }
            },
            // Transfer
            Instr::TAX => {
                self.state.x = a;
                self.state.p.set_zn(a);
            },
            Instr::TXA => {
                self.state.a = x;
                self.state.p.set_zn(x);
            },
            Instr::TAY => {
                self.state.y = a;
                self.state.p.set_zn(a);
            },
            Instr::TYA => {
                self.state.a = y;
                self.state.p.set_zn(y);
            },
            Instr::TSX => {
                self.state.x = s;
                self.state.p.set_zn(s);
            },
            Instr::TXS => {
                self.state.s = x;
                self.state.p.set_zn(x);
            },
            // Stack
            Instr::PHA => {
                self.push(a);
            },
            Instr::PLA => {
                let val = self.pop();
                self.state.a = val;
                self.state.p.set_zn(val);
            },
            Instr::PHP => {
                self.push(p.bits());
            },
            Instr::PLP => {
                let val = self.pop();
                self.state.p = CpuFlags::from_bits(val);
            },
            // Subroutines and jump: JMP and JSR act in the run phase,
            // where the effective address is at hand.
            Instr::RTS => {
                let w = self.pop_addr();
                self.state.pc = if w == 0xFFFF {
                    0
                } else {
                    w + 1
                };
            },
            Instr::RTI => {
                let val = self.pop();
                self.state.p = CpuFlags::from_bits(val);
                let w = self.pop_addr();
                self.state.pc = w;
            },
            // Set and clear
            Instr::SEC => {
                self.state.p.insert(C_FLAG);
            },
            Instr::SED => {
                self.state.p.insert(D_FLAG);
            },
            Instr::SEI => {
                self.state.p.insert(I_FLAG);
            },
            Instr::CLC => {
                self.state.p.remove(C_FLAG);
            },
            Instr::CLD => {
                // the Decimal flag has no effect on this platform
            },
            Instr::CLI => {
                self.state.p.remove(I_FLAG);
            },
            Instr::CLV => {
                self.state.p.remove(V_FLAG);
            },
            // Miscellaneous
            Instr::NOP => {},
            Instr::BRK => {
                let pc = if self.state.pc == 0xFFFF {
                    0
                } else {
                    self.state.pc + 1
                };
                self.push_addr(pc);
                self.push(p.bits() | B_FLAG);
                self.state.p.insert(I_FLAG);
                self.state.pc = self.read_addr(0xFFFE);
            },
            // JMP, JSR, and the undefined sentinel: nothing to execute here
            _ => {},
        }
        out
    }

    /// Pushes one byte: it lands in the stack page at `0x0100 | s`, then
    /// the stack pointer decrements with 8-bit wraparound.
    pub fn push(&mut self, val: u8)
        requires
            old(self).wf(),
        ensures
            final(self).wf(),
            final(self)@ == spec_push(old(self)@, val),
    {
        let addr: usize = 0x100 + self.state.s as usize;
        self.ram[addr] = val;
        self.state.s = if self.state.s == 0 {
            0xFF
        } else {
            self.state.s - 1
        };
    }

    /// Pushes a 16-bit address: high byte first, then low byte.
    pub fn push_addr(&mut self, addr: VAddr)
        requires
            old(self).wf(),
        ensures
            final(self).wf(),
            final(self)@ == spec_push_addr(old(self)@, addr),
    {
        self.push((addr / 256) as u8);
        self.push((addr % 256) as u8);
    }

    /// Pops one byte: the stack pointer increments with 8-bit wraparound,
    /// then the byte is read from the stack page.
    pub fn pop(&mut self) -> (r: u8)
        requires
            old(self).wf(),
        ensures
            final(self).wf(),
            final(self)@ == spec_pop(old(self)@).0,
            r == spec_pop(old(self)@).1,
    {
        self.state.s = if self.state.s == 0xFF {
            0
        } else {
            self.state.s + 1
        };
        let addr: usize = 0x100 + self.state.s as usize;
        self.ram[addr]
    }

    /// Pops a 16-bit address: low byte first, then high byte.
    pub fn pop_addr(&mut self) -> (r: VAddr)
        requires
            old(self).wf(),
        ensures
            final(self).wf(),
            final(self)@ == spec_pop_addr(old(self)@).0,
            r == spec_pop_addr(old(self)@).1,
    {
        let lo = self.pop();
        let hi = self.pop();
        hi as u16 * 256 + lo as u16
    }
}

/// Pushing a 16-bit address and then popping returns the original address
/// unchanged and restores the stack pointer, from any starting stack
/// pointer, wraparound included.
pub proof fn lemma_stack_round_trip(m: CpuModel, addr: u16)
    requires
        bus_wf(m.bus),
    ensures
        spec_pop_addr(spec_push_addr(m, addr)).1 == addr,
        spec_pop_addr(spec_push_addr(m, addr)).0.s == m.s,
        spec_pop_addr(spec_push_addr(m, addr)).0.pc == m.pc,
{
    assert((addr / 256) * 256 + addr % 256 == addr) by (nonlinear_arith);
}

/// Subroutine linkage pairing: executing JSR from `m.pc`, immediately
/// followed by the RTS it lands on, leaves the program counter exactly
/// three bytes past the JSR opcode (opcode plus two operand bytes) and
/// restores the stack pointer to its pre-JSR value.
#[verifier::rlimit(100)]
pub proof fn lemma_jsr_rts_round_trip(m: CpuModel)
    requires
        bus_wf(m.bus),
        spec_read(m.bus, m.pc) == 0x20,  // the JSR absolute opcode
        // the instruction the jump lands on is RTS
        spec_read(spec_step(m).bus, spec_step(m).pc) == 0x60,
    ensures
        spec_step(spec_step(m)).pc == wrap16(m.pc + 3),
        spec_step(spec_step(m)).s == m.s,
{
    // the JSR step: consume the opcode and the two-byte target, push the
    // return address minus one, land on the target
    let m1 = CpuModel { pc: inc16(m.pc), ..m };
    let target = spec_resolve(m1, AddressMode::ABS);
    let m2 = CpuModel { pc: spec_pc_after(m1.pc, AddressMode::ABS), ..m1 };
    let ret = dec16(m2.pc);
    let mj = CpuModel { pc: target, ..spec_push_addr(m2, ret) };
    assert(spec_decode(0x20) == Some(
        Instruction { instr: Instr::JSR, address_mode: AddressMode::ABS, cycles: 6 },
    ));
    assert(spec_step(m) == mj);
    // the RTS step: pop the saved address and resume one byte past it
    assert(spec_decode(0x60) == Some(
        Instruction { instr: Instr::RTS, address_mode: AddressMode::IMP, cycles: 6 },
    ));
    assert((ret / 256) * 256 + ret % 256 == ret) by (nonlinear_arith);
    let mr = CpuModel { pc: inc16(target), ..mj };
    assert(spec_pop_addr(mr).1 == ret);
    assert(spec_pop_addr(mr).0.s == m.s);
    assert(spec_step(mj).pc == inc16(ret));
    assert(inc16(ret) == wrap16(m.pc + 3));
}

} // verus!
