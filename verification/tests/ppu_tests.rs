use rustnes::ppu::{Ppu, SprRam, VRam, SPR_H_FLIP, SPR_PRIORITY_FLAG, SPR_V_FLIP};

#[test]
fn ppu_spr_test() {
}

#[test]
fn ppu_spr_ram_test() {
    let mut spr_ram = SprRam::new();

    for i in 0..spr_ram.buf.len() {
        assert_eq!(spr_ram.get(i), 0x00);
    }

    spr_ram.buf[0x00] = 0xAA;
    spr_ram.buf[0x01] = 0xBB;
    spr_ram.buf[0x02] = SPR_PRIORITY_FLAG | SPR_H_FLIP | SPR_V_FLIP | 0b00000011;
    spr_ram.buf[0x03] = 0xDD;

    assert_eq!(spr_ram.get(0x00), 0xAA);
    assert_eq!(spr_ram.get(0x01), 0xBB);
    assert_eq!(spr_ram.get(0x02), 0b11100011);
    assert_eq!(spr_ram.get(0x03), 0xDD);

    let spr = spr_ram.spr(0);

    assert_eq!(spr.y(), 0xAA);
    assert_eq!(spr.x(), 0xDD);
    assert_eq!(spr.idx(), 0xBB);
    assert_eq!(spr.color(), 0b00001100);
    assert_eq!(spr.has_priority(), true);
    assert_eq!(spr.h_flip(), true);
    assert_eq!(spr.v_flip(), true);
}

#[test]
fn ppu_vram_tables_test() {
    let mut chr_bank = vec![0u8; 0x2000];
    chr_bank[0x0000] = 0x11;
    chr_bank[0x1000] = 0x22;

    let vram = VRam::new(vec![chr_bank]);

    let pt0 = vram.pattern_table(0);
    let pt1 = vram.pattern_table(1);
    assert_eq!(pt0.get(0), 0x11);
    assert_eq!(pt1.get(0), 0x22);

    let nt = vram.name_table(0);
    assert_eq!(nt.name_table.len(), 0x0400);
    let at = nt.attr_table();
    assert_eq!(at.attr_table.len(), 0x0040);
}

#[test]
fn ppu_status_and_scanline_test() {
    let chr_bank = vec![0u8; 0x2000];
    let mut ppu = Ppu::new(vec![chr_bank]);

    assert_eq!(ppu.read_ppu_status(), 0x00);

    // vertical blank begins after the last visible scanline
    ppu.do_scanline(240);
    let status = ppu.read_ppu_status();
    assert_eq!(status, 0x80);
    // a status read clears the vertical-blank bit
    assert_eq!(ppu.read_ppu_status(), 0x00);

    // the pre-render line clears every per-frame bit
    ppu.do_scanline(240);
    ppu.do_scanline(260);
    assert_eq!(ppu.read_ppu_status(), 0x00);
}

#[test]
fn ppu_read_write_byte_test() {
    let mut chr_bank = vec![0u8; 0x2000];
    chr_bank[5] = 0x42;
    let mut ppu = Ppu::new(vec![chr_bank]);

    assert_eq!(ppu.read_byte(0x0005), 0x42);
    // past the video-RAM range, reads return 0
    assert_eq!(ppu.read_byte(0x2000), 0x00);

    ppu.write_byte(0x0005, 0x24);
    assert_eq!(ppu.read_byte(0x0005), 0x24);

    // writes past the range are dropped
    ppu.write_byte(0x2000, 0x99);
    assert_eq!(ppu.read_byte(0x2000), 0x00);
}
