use rustnes::cpu::Cpu;
use rustnes::flags::{CpuFlags, C_FLAG, N_FLAG, V_FLAG, Z_FLAG};
use rustnes::isa::Instr;

fn prg_rom_bank(init: u8) -> Vec<u8> {
    vec![init; 0x4000]
}

fn empty_cpu() -> Cpu {
    Cpu::new(vec![prg_rom_bank(0), prg_rom_bank(0)])
}

fn none() -> CpuFlags {
    CpuFlags::none()
}

/// ## Load and Store
#[test]
fn cpu_instr_exec_lda_test() {
    let mut cpu;
    let mut x;

    cpu = empty_cpu();
    x = cpu.instr_exec(Instr::LDA, 0x01);
    assert_eq!(x, 0x00);
    assert_eq!(cpu.state.a, 0x01);
    assert_eq!(cpu.state.p, none());

    cpu = empty_cpu();
    x = cpu.instr_exec(Instr::LDA, 0x00);
    assert_eq!(x, 0x00);
    assert_eq!(cpu.state.a, 0x00);
    assert_eq!(cpu.state.p, none().or(Z_FLAG));

    cpu = empty_cpu();
    x = cpu.instr_exec(Instr::LDA, 0xFF);
    assert_eq!(x, 0x00);
    assert_eq!(cpu.state.a, 0xFF);
    assert_eq!(cpu.state.p, none().or(N_FLAG));
}

#[test]
fn cpu_instr_exec_ldx_test() {
    let mut cpu;
    let mut x;

    cpu = empty_cpu();
    x = cpu.instr_exec(Instr::LDX, 0x01);
    assert_eq!(x, 0x00);
    assert_eq!(cpu.state.x, 0x01);
    assert_eq!(cpu.state.p, none());

    cpu = empty_cpu();
    x = cpu.instr_exec(Instr::LDX, 0x00);
    assert_eq!(x, 0x00);
    assert_eq!(cpu.state.x, 0x00);
    assert_eq!(cpu.state.p, none().or(Z_FLAG));

    cpu = empty_cpu();
    x = cpu.instr_exec(Instr::LDX, 0xFF);
    assert_eq!(x, 0x00);
    assert_eq!(cpu.state.x, 0xFF);
    assert_eq!(cpu.state.p, none().or(N_FLAG));
}

#[test]
fn cpu_instr_exec_ldy_test() {
    let mut cpu;
    let mut x;

    cpu = empty_cpu();
    x = cpu.instr_exec(Instr::LDY, 0x01);
    assert_eq!(x, 0x00);
    assert_eq!(cpu.state.y, 0x01);
    assert_eq!(cpu.state.p, none());

    cpu = empty_cpu();
    x = cpu.instr_exec(Instr::LDY, 0x00);
    assert_eq!(x, 0x00);
    assert_eq!(cpu.state.y, 0x00);
    assert_eq!(cpu.state.p, none().or(Z_FLAG));

    cpu = empty_cpu();
    x = cpu.instr_exec(Instr::LDY, 0xFF);
    assert_eq!(x, 0x00);
    assert_eq!(cpu.state.y, 0xFF);
    assert_eq!(cpu.state.p, none().or(N_FLAG));
}

#[test]
fn cpu_instr_exec_sta_test() {
    let mut cpu;
    let mut x;

    cpu = empty_cpu();
    cpu.state.a = 0x01;
    x = cpu.instr_exec(Instr::STA, 0x00);
    assert_eq!(x, 0x01);

    cpu = empty_cpu();
    cpu.state.a = 0x00;
    x = cpu.instr_exec(Instr::STA, 0x00);
    assert_eq!(x, 0x00);

    cpu = empty_cpu();
    cpu.state.a = 0xFF;
    x = cpu.instr_exec(Instr::STA, 0x00);
    assert_eq!(x, 0xFF);
}

#[test]
fn cpu_instr_exec_stx_test() {
    let mut cpu;
    let mut x;

    cpu = empty_cpu();
    cpu.state.x = 0x01;
    x = cpu.instr_exec(Instr::STX, 0x00);
    assert_eq!(x, 0x01);

    cpu = empty_cpu();
    cpu.state.x = 0x00;
    x = cpu.instr_exec(Instr::STX, 0x00);
    assert_eq!(x, 0x00);

    cpu = empty_cpu();
    cpu.state.x = 0xFF;
    x = cpu.instr_exec(Instr::STX, 0x00);
    assert_eq!(x, 0xFF);
}

#[test]
fn cpu_instr_exec_sty_test() {
    let mut cpu;
    let mut x;

    cpu = empty_cpu();
    cpu.state.y = 0x01;
    x = cpu.instr_exec(Instr::STY, 0x00);
    assert_eq!(x, 0x01);

    cpu = empty_cpu();
    cpu.state.y = 0x00;
    x = cpu.instr_exec(Instr::STY, 0x00);
    assert_eq!(x, 0x00);

    cpu = empty_cpu();
    cpu.state.y = 0xFF;
    x = cpu.instr_exec(Instr::STY, 0x00);
    assert_eq!(x, 0xFF);
}

/// ## Arithmetic
#[test]
fn cpu_instr_exec_adc_test() {
    let mut cpu;
    let mut x;

    // ADC 0x01 + 0x01, no carry, no flags set
    cpu = empty_cpu();
    cpu.state.a = 0x01;
    x = cpu.instr_exec(Instr::ADC, 0x01);
    assert_eq!(x, 0x00);
    assert_eq!(cpu.state.a, 0x02);
    assert_eq!(cpu.state.p, none());

    // ADC 0x01 + 0x01, with carry, no flags set
    cpu = empty_cpu();
    cpu.state.a = 0x01;
    cpu.state.p.insert(C_FLAG);
    x = cpu.instr_exec(Instr::ADC, 0x01);
    assert_eq!(x, 0x00);
    assert_eq!(cpu.state.a, 0x03);
    assert_eq!(cpu.state.p, none());

    // ADC 0xFF + 0x01, no carry, carry set, zero set
    cpu = empty_cpu();
    cpu.state.a = 0xFF;
    x = cpu.instr_exec(Instr::ADC, 0x01);
    assert_eq!(x, 0x00);
    assert_eq!(cpu.state.a, 0x00);
    assert_eq!(cpu.state.p, none().or(C_FLAG).or(Z_FLAG));

    // ADC 0xFF + 0x02, no carry, carry set
    cpu = empty_cpu();
    cpu.state.a = 0xFF;
    x = cpu.instr_exec(Instr::ADC, 0x02);
    assert_eq!(x, 0x00);
    assert_eq!(cpu.state.a, 0x01);
    assert_eq!(cpu.state.p, none().or(C_FLAG));

    // ADC 0x7F + 0x01, no carry, overflow set, negative set
    cpu = empty_cpu();
    cpu.state.a = 0x7F;
    x = cpu.instr_exec(Instr::ADC, 0x01);
    assert_eq!(x, 0x00);
    assert_eq!(cpu.state.a, 0x80);
    assert_eq!(cpu.state.p, none().or(V_FLAG).or(N_FLAG));

    // ADC 0xFF + 0xFF, no carry, carry set, negative set
    cpu = empty_cpu();
    cpu.state.a = 0xFF;
    x = cpu.instr_exec(Instr::ADC, 0xFF);
    assert_eq!(x, 0x00);
    assert_eq!(cpu.state.a, 0xFE);
    assert_eq!(cpu.state.p, none().or(C_FLAG).or(N_FLAG));

    // ADC 0x7F + 0x7F, no carry, overflow set, negative set
    cpu = empty_cpu();
    cpu.state.a = 0x7F;
    x = cpu.instr_exec(Instr::ADC, 0x7F);
    assert_eq!(x, 0x00);
    assert_eq!(cpu.state.a, 0xFE);
    assert_eq!(cpu.state.p, none().or(V_FLAG).or(N_FLAG));

    // ADC 0xFF + 0x7F, no carry, carry set
    cpu = empty_cpu();
    cpu.state.a = 0xFF;
    x = cpu.instr_exec(Instr::ADC, 0x7F);
    assert_eq!(x, 0x00);
    assert_eq!(cpu.state.a, 0x7E);
    assert_eq!(cpu.state.p, none().or(C_FLAG));

    // ADC 0x80 + 0x80, no carry, carry set, zero set, overflow set
    cpu = empty_cpu();
    cpu.state.a = 0x80;
    x = cpu.instr_exec(Instr::ADC, 0x80);
    assert_eq!(x, 0x00);
    assert_eq!(cpu.state.a, 0x00);
    assert_eq!(cpu.state.p, none().or(C_FLAG).or(V_FLAG).or(Z_FLAG));

    // ADC 0x80 + 0x7F, no carry, negative set
    cpu = empty_cpu();
    cpu.state.a = 0x80;
    x = cpu.instr_exec(Instr::ADC, 0x7F);
    assert_eq!(x, 0x00);
    assert_eq!(cpu.state.a, 0xFF);
    assert_eq!(cpu.state.p, none().or(N_FLAG));

    // ADC 0x80 + 0xFF, no carry, carry set, overflow set
    cpu = empty_cpu();
    cpu.state.a = 0x80;
    x = cpu.instr_exec(Instr::ADC, 0xFF);
    assert_eq!(x, 0x00);
    assert_eq!(cpu.state.a, 0x7F);
    assert_eq!(cpu.state.p, none().or(C_FLAG).or(V_FLAG));
}

#[test]
fn cpu_instr_exec_sbc_test() {
    let mut bank = prg_rom_bank(0xC5);

    // SBC IMM 0x5 - 0x3, with carry, carry set
    bank[0x0000] = 0xE9;
    bank[0x0001] = 0x03;

    // SBC IMM 0x5 - 0x3, no carry, carry set
    bank[0x0002] = 0xE9;
    bank[0x0003] = 0x03;

    // SBC IMM 0x5 - 0x5, with carry, carry set, zero set
    bank[0x0004] = 0xE9;
    bank[0x0005] = 0x05;

    // SBC IMM 0x3 - 0x5, with carry, negative set
    bank[0x0006] = 0xE9;
    bank[0x0007] = 0x05;

    // SBC IMM 0x80 - 0x01, with carry, overflow set, carry set
    bank[0x0008] = 0xE9;
    bank[0x0009] = 0x01;

    // SBC IMM 0x7F - 0xFF, with carry, carry set, negative set
    bank[0x000A] = 0xE9;
    bank[0x000B] = 0xFF;

    // SBC IMM 0xC0 - 0x40, no carry, overflow set, carry set
    bank[0x000C] = 0xE9;
    bank[0x000D] = 0x40;

    let mut cpu = Cpu::new(vec![bank, prg_rom_bank(0xC5)]);
    cpu.state.pc = 0x8000;

    // SBC IMM 0x5 - 0x3, with carry, carry set
    cpu.state.a = 0x05;
    cpu.state.p.clear();
    cpu.state.p.insert(C_FLAG);
    cpu.instr_run();
    assert_eq!(cpu.state.pc, 0x8002);
    assert_eq!(cpu.state.a, 0x02);
    assert_eq!(cpu.state.p, none().or(C_FLAG));

    // SBC IMM 0x5 - 0x3, no carry, carry set
    cpu.state.a = 0x05;
    cpu.state.p.clear();
    cpu.instr_run();
    assert_eq!(cpu.state.pc, 0x8004);
    assert_eq!(cpu.state.a, 0x01);
    assert_eq!(cpu.state.p, none().or(C_FLAG));

    // SBC IMM 0x5 - 0x5, with carry, carry set, zero set
    cpu.state.a = 0x05;
    cpu.state.p.clear();
    cpu.state.p.insert(C_FLAG);
    cpu.instr_run();
    assert_eq!(cpu.state.pc, 0x8006);
    assert_eq!(cpu.state.a, 0x00);
    assert_eq!(cpu.state.p, none().or(C_FLAG).or(Z_FLAG));

    // SBC IMM 0x3 - 0x5, with carry, negative set
    cpu.state.a = 0x03;
    cpu.state.p.clear();
    cpu.state.p.insert(C_FLAG);
    cpu.instr_run();
    assert_eq!(cpu.state.pc, 0x8008);
    assert_eq!(cpu.state.a, 0xFE);
    assert_eq!(cpu.state.p, none().or(N_FLAG));

    // SBC IMM 0x80 - 0x01, with carry, overflow set, carry set
    cpu.state.a = 0x80;
    cpu.state.p.clear();
    cpu.state.p.insert(C_FLAG);
    cpu.instr_run();
    assert_eq!(cpu.state.pc, 0x800A);
    assert_eq!(cpu.state.a, 0x7F);
    assert_eq!(cpu.state.p, none().or(C_FLAG).or(V_FLAG));

    // SBC IMM 0x7F - 0xFF, with carry, overflow set, negative set
    cpu.state.a = 0x7F;
    cpu.state.p.clear();
    cpu.state.p.insert(C_FLAG);
    cpu.instr_run();
    assert_eq!(cpu.state.pc, 0x800C);
    assert_eq!(cpu.state.a, 0x80);
    assert_eq!(cpu.state.p, none().or(V_FLAG).or(N_FLAG));

    // SBC IMM 0xC0 - 0x40, no carry, overflow set, carry set
    cpu.state.a = 0xC0;
    cpu.state.p.clear();
    cpu.instr_run();
    assert_eq!(cpu.state.pc, 0x800E);
    assert_eq!(cpu.state.a, 0x7F);
    assert_eq!(cpu.state.p, none().or(V_FLAG).or(C_FLAG));
}

#[test]
fn cpu_instr_exec_inc_test() {
    let mut cpu;
    let mut x;

    cpu = empty_cpu();
    x = cpu.instr_exec(Instr::INC, 0x00);
    assert_eq!(x, 0x01);
    assert_eq!(cpu.state.p, none());

    cpu = empty_cpu();
    x = cpu.instr_exec(Instr::INC, 0xFF);
    assert_eq!(x, 0x00);
    assert_eq!(cpu.state.p, none().or(Z_FLAG));

    cpu = empty_cpu();
    x = cpu.instr_exec(Instr::INC, 0x7F);
    assert_eq!(x, 0x80);
    assert_eq!(cpu.state.p, none().or(N_FLAG));
}

#[test]
fn cpu_instr_exec_inx_test() {
    let mut cpu;
    let mut x;

    cpu = empty_cpu();
    cpu.state.x = 0x00;
    x = cpu.instr_exec(Instr::INX, 0x00);
    assert_eq!(x, 0x00);
    assert_eq!(cpu.state.x, 0x01);
    assert_eq!(cpu.state.p, none());

    cpu = empty_cpu();
    cpu.state.x = 0xFF;
    x = cpu.instr_exec(Instr::INX, 0x00);
    assert_eq!(x, 0x00);
    assert_eq!(cpu.state.x, 0x00);
    assert_eq!(cpu.state.p, none().or(Z_FLAG));

    cpu = empty_cpu();
    cpu.state.x = 0x7F;
    x = cpu.instr_exec(Instr::INX, 0x00);
    assert_eq!(x, 0x00);
    assert_eq!(cpu.state.x, 0x80);
    assert_eq!(cpu.state.p, none().or(N_FLAG));
}

#[test]
fn cpu_instr_exec_iny_test() {
    let mut cpu;
    let mut x;

    cpu = empty_cpu();
    cpu.state.y = 0x00;
    x = cpu.instr_exec(Instr::INY, 0x00);
    assert_eq!(x, 0x00);
    assert_eq!(cpu.state.y, 0x01);
    assert_eq!(cpu.state.p, none());

    cpu = empty_cpu();
    cpu.state.y = 0xFF;
    x = cpu.instr_exec(Instr::INY, 0x00);
    assert_eq!(x, 0x00);
    assert_eq!(cpu.state.y, 0x00);
    assert_eq!(cpu.state.p, none().or(Z_FLAG));

    cpu = empty_cpu();
    cpu.state.y = 0x7F;
    x = cpu.instr_exec(Instr::INY, 0x00);
    assert_eq!(x, 0x00);
    assert_eq!(cpu.state.y, 0x80);
    assert_eq!(cpu.state.p, none().or(N_FLAG));
}

#[test]
fn cpu_instr_exec_dec_test() {
    let mut cpu;
    let mut x;

    cpu = empty_cpu();
    x = cpu.instr_exec(Instr::DEC, 0xFF);
    assert_eq!(x, 0xFE);
    assert_eq!(cpu.state.p, none().or(N_FLAG));

    cpu = empty_cpu();
    x = cpu.instr_exec(Instr::DEC, 0x01);
    assert_eq!(x, 0x00);
    assert_eq!(cpu.state.p, none().or(Z_FLAG));

    cpu = empty_cpu();
    x = cpu.instr_exec(Instr::DEC, 0x80);
    assert_eq!(x, 0x7F);
    assert_eq!(cpu.state.p, none());
}

#[test]
fn cpu_instr_exec_dex_test() {
    let mut cpu;
    let mut x;

    cpu = empty_cpu();
    cpu.state.x = 0xFF;
    x = cpu.instr_exec(Instr::DEX, 0x00);
    assert_eq!(x, 0x00);
    assert_eq!(cpu.state.x, 0xFE);
    assert_eq!(cpu.state.p, none().or(N_FLAG));

    cpu = empty_cpu();
    cpu.state.x = 0x01;
    x = cpu.instr_exec(Instr::DEX, 0x00);
    assert_eq!(x, 0x00);
    assert_eq!(cpu.state.x, 0x00);
    assert_eq!(cpu.state.p, none().or(Z_FLAG));

    cpu = empty_cpu();
    cpu.state.x = 0x80;
    x = cpu.instr_exec(Instr::DEX, 0x00);
    assert_eq!(x, 0x00);
    assert_eq!(cpu.state.x, 0x7F);
    assert_eq!(cpu.state.p, none());
}

/// ## Shift and Rotate
#[test]
fn cpu_instr_exec_asl_test() {
    let mut cpu;
    let mut x;

    cpu = empty_cpu();
    x = cpu.instr_exec(Instr::ASL, 0x00);
    assert_eq!(x, 0x00);
    assert_eq!(cpu.state.p, none().or(Z_FLAG));

    cpu = empty_cpu();
    x = cpu.instr_exec(Instr::ASL, 0x80);
    assert_eq!(x, 0x00);
    assert_eq!(cpu.state.p, none().or(C_FLAG).or(Z_FLAG));

    cpu = empty_cpu();
    x = cpu.instr_exec(Instr::ASL, 0xFF);
    assert_eq!(x, 0xFE);
    assert_eq!(cpu.state.p, none().or(C_FLAG).or(N_FLAG));

    cpu = empty_cpu();
    x = cpu.instr_exec(Instr::ASL, 0x01);
    assert_eq!(x, 0x02);
    assert_eq!(cpu.state.p, none());

    cpu = empty_cpu();
    x = cpu.instr_exec(Instr::ASL, 0xAA);
    assert_eq!(x, 0x54);
    assert_eq!(cpu.state.p, none().or(C_FLAG));

    cpu = empty_cpu();
    x = cpu.instr_exec(Instr::ASL, 0x55);
    assert_eq!(x, 0xAA);
    assert_eq!(cpu.state.p, none().or(N_FLAG));
}

#[test]
fn cpu_instr_exec_lsr_test() {
    let mut cpu;
    let mut x;

    cpu = empty_cpu();
    x = cpu.instr_exec(Instr::LSR, 0x00);
    assert_eq!(x, 0x00);
    assert_eq!(cpu.state.p, none().or(Z_FLAG));

    cpu = empty_cpu();
    x = cpu.instr_exec(Instr::LSR, 0xFF);
    assert_eq!(x, 0x7F);
    assert_eq!(cpu.state.p, none().or(C_FLAG));

    cpu = empty_cpu();
    x = cpu.instr_exec(Instr::LSR, 0x01);
    assert_eq!(x, 0x00);
    assert_eq!(cpu.state.p, none().or(C_FLAG).or(Z_FLAG));

    cpu = empty_cpu();
    x = cpu.instr_exec(Instr::LSR, 0x02);
    assert_eq!(x, 0x01);
    assert_eq!(cpu.state.p, none());

    cpu = empty_cpu();
    x = cpu.instr_exec(Instr::LSR, 0xAA);
    assert_eq!(x, 0x55);
    assert_eq!(cpu.state.p, none());

    cpu = empty_cpu();
    x = cpu.instr_exec(Instr::LSR, 0x55);
    assert_eq!(x, 0x2A);
    assert_eq!(cpu.state.p, none().or(C_FLAG));
}

#[test]
fn cpu_instr_exec_rol_test() {
    let mut cpu;
    let mut x;

    cpu = empty_cpu();
    x = cpu.instr_exec(Instr::ROL, 0x00);
    assert_eq!(x, 0x00);
    assert_eq!(cpu.state.p, none().or(Z_FLAG));

    cpu = empty_cpu();
    x = cpu.instr_exec(Instr::ROL, 0xFF);
    assert_eq!(x, 0xFE);
    assert_eq!(cpu.state.p, none().or(C_FLAG).or(N_FLAG));

    cpu = empty_cpu();
    cpu.state.p.insert(C_FLAG);
    x = cpu.instr_exec(Instr::ROL, 0xFF);
    assert_eq!(x, 0xFF);
    assert_eq!(cpu.state.p, none().or(C_FLAG).or(N_FLAG));

    cpu = empty_cpu();
    cpu.state.p.insert(C_FLAG);
    x = cpu.instr_exec(Instr::ROL, 0x7F);
    assert_eq!(x, 0xFF);
    assert_eq!(cpu.state.p, none().or(N_FLAG));
}

/// ## Logic
#[test]
fn cpu_instr_exec_and_test() {
    let mut cpu;

    cpu = empty_cpu();
    cpu.state.a = 0xFF;
    cpu.instr_exec(Instr::AND, 0x00);
    assert_eq!(cpu.state.a, 0x00);
    assert_eq!(cpu.state.p, none().or(Z_FLAG));

    cpu = empty_cpu();
    cpu.state.a = 0xFF;
    cpu.instr_exec(Instr::AND, 0x80);
    assert_eq!(cpu.state.a, 0x80);
    assert_eq!(cpu.state.p, none().or(N_FLAG));

    cpu = empty_cpu();
    cpu.state.a = 0xFF;
    cpu.instr_exec(Instr::AND, 0x0F);
    assert_eq!(cpu.state.a, 0x0F);
    assert_eq!(cpu.state.p, none());
}

#[test]
fn cpu_instr_exec_ora_test() {
    let mut cpu;

    cpu = empty_cpu();
    cpu.state.a = 0xFF;
    cpu.instr_exec(Instr::ORA, 0x00);
    assert_eq!(cpu.state.a, 0xFF);
    assert_eq!(cpu.state.p, none().or(N_FLAG));

    cpu = empty_cpu();
    cpu.state.a = 0xF0;
    cpu.instr_exec(Instr::ORA, 0x0F);
    assert_eq!(cpu.state.a, 0xFF);
    assert_eq!(cpu.state.p, none().or(N_FLAG));

    cpu = empty_cpu();
    cpu.state.a = 0x00;
    cpu.instr_exec(Instr::ORA, 0x00);
    assert_eq!(cpu.state.a, 0x00);
    assert_eq!(cpu.state.p, none().or(Z_FLAG));

    cpu = empty_cpu();
    cpu.state.a = 0x01;
    cpu.instr_exec(Instr::ORA, 0x00);
    assert_eq!(cpu.state.a, 0x01);
    assert_eq!(cpu.state.p, none());
}

#[test]
fn cpu_instr_exec_eor_test() {
    let mut cpu;

    cpu = empty_cpu();
    cpu.state.a = 0xFF;
    cpu.instr_exec(Instr::EOR, 0xFF);
    assert_eq!(cpu.state.a, 0x00);
    assert_eq!(cpu.state.p, none().or(Z_FLAG));

    cpu = empty_cpu();
    cpu.state.a = 0x80;
    cpu.instr_exec(Instr::EOR, 0x7F);
    assert_eq!(cpu.state.a, 0xFF);
    assert_eq!(cpu.state.p, none().or(N_FLAG));

    cpu = empty_cpu();
    cpu.state.a = 0x01;
    cpu.instr_exec(Instr::EOR, 0x00);
    assert_eq!(cpu.state.a, 0x01);
    assert_eq!(cpu.state.p, none());

    cpu = empty_cpu();
    cpu.state.a = 0x01;
    cpu.instr_exec(Instr::EOR, 0x0F);
    assert_eq!(cpu.state.a, 0x0E);
    assert_eq!(cpu.state.p, none());
}

/// ## Compare and Test Bit
#[test]
fn cpu_instr_exec_cmp_test() {
    let mut cpu;

    cpu = empty_cpu();
    cpu.state.a = 0x01;
    cpu.instr_exec(Instr::CMP, 0x00);
    assert_eq!(cpu.state.p, none().or(C_FLAG));

    cpu = empty_cpu();
    cpu.state.a = 0x01;
    cpu.instr_exec(Instr::CMP, 0x01);
    assert_eq!(cpu.state.p, none().or(C_FLAG).or(Z_FLAG));

    cpu = empty_cpu();
    cpu.state.a = 0x01;
    cpu.instr_exec(Instr::CMP, 0x02);
    assert_eq!(cpu.state.p, none().or(N_FLAG));

    cpu = empty_cpu();
    cpu.state.a = 0x00;
    cpu.instr_exec(Instr::CMP, 0xFF);
    assert_eq!(cpu.state.p, none());

    cpu = empty_cpu();
    cpu.state.a = 0xFF;
    cpu.instr_exec(Instr::CMP, 0x00);
    assert_eq!(cpu.state.p, none().or(C_FLAG).or(N_FLAG));

    cpu = empty_cpu();
    cpu.state.a = 0x01;
    cpu.instr_exec(Instr::CMP, 0xFF);
    assert_eq!(cpu.state.p, none());

    cpu = empty_cpu();
    cpu.state.a = 0x7F;
    cpu.instr_exec(Instr::CMP, 0x80);
    assert_eq!(cpu.state.p, none().or(N_FLAG));
}

#[test]
fn cpu_instr_exec_cpx_test() {
    let mut cpu;

    cpu = empty_cpu();
    cpu.state.x = 0x01;
    cpu.instr_exec(Instr::CPX, 0x00);
    assert_eq!(cpu.state.p, none().or(C_FLAG));

    cpu = empty_cpu();
    cpu.state.x = 0x01;
    cpu.instr_exec(Instr::CPX, 0x01);
    assert_eq!(cpu.state.p, none().or(C_FLAG).or(Z_FLAG));

    cpu = empty_cpu();
    cpu.state.x = 0x01;
    cpu.instr_exec(Instr::CPX, 0x02);
    assert_eq!(cpu.state.p, none().or(N_FLAG));

    cpu = empty_cpu();
    cpu.state.x = 0x00;
    cpu.instr_exec(Instr::CPX, 0xFF);
    assert_eq!(cpu.state.p, none());

    cpu = empty_cpu();
    cpu.state.x = 0xFF;
    cpu.instr_exec(Instr::CPX, 0x00);
    assert_eq!(cpu.state.p, none().or(C_FLAG).or(N_FLAG));

    cpu = empty_cpu();
    cpu.state.x = 0x01;
    cpu.instr_exec(Instr::CPX, 0xFF);
    assert_eq!(cpu.state.p, none());

    cpu = empty_cpu();
    cpu.state.x = 0x7F;
    cpu.instr_exec(Instr::CPX, 0x80);
    assert_eq!(cpu.state.p, none().or(N_FLAG));
}

#[test]
fn cpu_instr_exec_cpy_test() {
    let mut cpu;

    cpu = empty_cpu();
    cpu.state.y = 0x01;
    cpu.instr_exec(Instr::CPY, 0x00);
    assert_eq!(cpu.state.p, none().or(C_FLAG));

    cpu = empty_cpu();
    cpu.state.y = 0x01;
    cpu.instr_exec(Instr::CPY, 0x01);
    assert_eq!(cpu.state.p, none().or(C_FLAG).or(Z_FLAG));

    cpu = empty_cpu();
    cpu.state.y = 0x01;
    cpu.instr_exec(Instr::CPY, 0x02);
    assert_eq!(cpu.state.p, none().or(N_FLAG));

    cpu = empty_cpu();
    cpu.state.y = 0x00;
    cpu.instr_exec(Instr::CPY, 0xFF);
    assert_eq!(cpu.state.p, none());

    cpu = empty_cpu();
    cpu.state.y = 0xFF;
    cpu.instr_exec(Instr::CPY, 0x00);
    assert_eq!(cpu.state.p, none().or(C_FLAG).or(N_FLAG));

    cpu = empty_cpu();
    cpu.state.y = 0x01;
    cpu.instr_exec(Instr::CPY, 0xFF);
    assert_eq!(cpu.state.p, none());

    cpu = empty_cpu();
    cpu.state.y = 0x7F;
    cpu.instr_exec(Instr::CPY, 0x80);
    assert_eq!(cpu.state.p, none().or(N_FLAG));
}

#[test]
fn cpu_instr_exec_bit_test() {
    let mut cpu;

    cpu = empty_cpu();
    cpu.instr_exec(Instr::BIT, 0x00);
    assert_eq!(cpu.state.p, none().or(Z_FLAG));

    cpu = empty_cpu();
    cpu.instr_exec(Instr::BIT, 0x80);
    assert_eq!(cpu.state.p, none().or(Z_FLAG).or(N_FLAG));

    cpu = empty_cpu();
    cpu.instr_exec(Instr::BIT, 0x40);
    assert_eq!(cpu.state.p, none().or(Z_FLAG).or(V_FLAG));

    cpu = empty_cpu();
    cpu.instr_exec(Instr::BIT, 0xC0);
    assert_eq!(cpu.state.p, none().or(Z_FLAG).or(V_FLAG).or(N_FLAG));

    cpu = empty_cpu();
    cpu.state.a = 0x01;
    cpu.instr_exec(Instr::BIT, 0x00);
    assert_eq!(cpu.state.p, none().or(Z_FLAG));

    cpu = empty_cpu();
    cpu.state.a = 0x01;
    cpu.instr_exec(Instr::BIT, 0x01);
    assert_eq!(cpu.state.p, none());

    cpu = empty_cpu();
    cpu.state.a = 0x01;
    cpu.instr_exec(Instr::BIT, 0x81);
    assert_eq!(cpu.state.p, none().or(N_FLAG));

    cpu = empty_cpu();
    cpu.state.a = 0x01;
    cpu.instr_exec(Instr::BIT, 0x41);
    assert_eq!(cpu.state.p, none().or(V_FLAG));

    cpu = empty_cpu();
    cpu.state.a = 0x01;
    cpu.instr_exec(Instr::BIT, 0xC1);
    assert_eq!(cpu.state.p, none().or(V_FLAG).or(N_FLAG));
}
