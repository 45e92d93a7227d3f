use rfc::cartridge::Mirroring;
use rfc::mapper::mapper0::Mapper0;
use rfc::ppu::Ppu;

fn make_mapper() -> Mapper0 {
    Mapper0::new(vec![0u8; 16384], vec![0u8; 8192])
}

#[test]
fn test_ppuctrl_write_and_nametable_bits() {
    let mut ppu = Ppu::new(Mirroring::Horizontal);
    let mut mapper = make_mapper();
    ppu.write_register(0x2000, 0x03, &mut mapper);
    assert_eq!(ppu.ctrl, 0x03);
    assert_eq!(ppu.t & 0x0C00, 0x0C00);
}

#[test]
fn test_ppustatus_clears_vblank_and_resets_latch() {
    let mut ppu = Ppu::new(Mirroring::Horizontal);
    let mapper = make_mapper();
    ppu.status = 0x80;
    ppu.w = true;
    ppu.data_buffer = 0x1F;
    let val = ppu.read_register(0x2002, &mapper);
    assert_eq!(val, 0x80 | 0x1F);
    assert_eq!(ppu.status & 0x80, 0);
    assert!(!ppu.w);
}

#[test]
fn test_ppuaddr_double_write_sets_v() {
    let mut ppu = Ppu::new(Mirroring::Horizontal);
    let mut mapper = make_mapper();
    ppu.write_register(0x2006, 0x21, &mut mapper);
    assert!(ppu.w);
    ppu.write_register(0x2006, 0x08, &mut mapper);
    assert!(!ppu.w);
    assert_eq!(ppu.v, 0x2108);
}

#[test]
fn test_ppudata_buffered_read() {
    let mut ppu = Ppu::new(Mirroring::Horizontal);
    let mapper = make_mapper();
    ppu.vram[0] = 0xAA;
    ppu.vram[1] = 0xBB;
    ppu.v = 0x2000;
    ppu.data_buffer = 0x00;
    let val = ppu.read_register(0x2007, &mapper);
    assert_eq!(val, 0x00);
    assert_eq!(ppu.v, 0x2001);
    let val = ppu.read_register(0x2007, &mapper);
    assert_eq!(val, 0xAA);
}

#[test]
fn test_ppudata_palette_read_immediate() {
    let mut ppu = Ppu::new(Mirroring::Horizontal);
    let mapper = make_mapper();
    ppu.palette[0] = 0x30;
    ppu.v = 0x3F00;
    let val = ppu.read_register(0x2007, &mapper);
    assert_eq!(val, 0x30);
}

#[test]
fn test_nametable_mirroring_vertical() {
    let mut ppu = Ppu::new(Mirroring::Vertical);
    let mut mapper = make_mapper();
    ppu.v = 0x2000;
    ppu.write_register(0x2007, 0xAA, &mut mapper);
    assert_eq!(ppu.vram[0], 0xAA);
    ppu.v = 0x2800;
    ppu.data_buffer = 0;
    let _ = ppu.read_register(0x2007, &mapper);
    ppu.v = 0x2800;
    ppu.data_buffer = 0;
    let idx0 = ppu.mirror_nametable_addr(0x2000);
    let idx2 = ppu.mirror_nametable_addr(0x2800);
    assert_eq!(idx0, idx2);
}

#[test]
fn test_nametable_mirroring_horizontal() {
    let ppu = Ppu::new(Mirroring::Horizontal);
    let idx0 = ppu.mirror_nametable_addr(0x2000);
    let idx1 = ppu.mirror_nametable_addr(0x2400);
    let idx2 = ppu.mirror_nametable_addr(0x2800);
    let idx3 = ppu.mirror_nametable_addr(0x2C00);
    assert_eq!(idx0, idx1);
    assert_eq!(idx2, idx3);
    assert_ne!(idx0, idx2);
}

#[test]
fn test_palette_mirroring() {
    let mut ppu = Ppu::new(Mirroring::Horizontal);
    let mut mapper = make_mapper();
    ppu.v = 0x3F00;
    ppu.write_register(0x2007, 0x0F, &mut mapper);
    assert_eq!(ppu.palette[0], 0x0F);
    let idx = ppu.mirror_palette_addr(0x3F10);
    assert_eq!(idx, 0);
}

#[test]
fn test_nmi_on_ctrl_enable_during_vblank() {
    let mut ppu = Ppu::new(Mirroring::Horizontal);
    let mut mapper = make_mapper();
    ppu.status = 0x80;
    ppu.ctrl = 0x00;
    ppu.write_register(0x2000, 0x80, &mut mapper);
    assert!(ppu.nmi_pending);
}

#[test]
fn test_ppuscroll_double_write() {
    let mut ppu = Ppu::new(Mirroring::Horizontal);
    let mut mapper = make_mapper();
    ppu.write_register(0x2005, 0b01101_101, &mut mapper);
    assert_eq!(ppu.x, 5);
    assert_eq!(ppu.t & 0x1F, 13);
    assert!(ppu.w);
    ppu.write_register(0x2005, 0b11010_011, &mut mapper);
    assert!(!ppu.w);
}

#[test]
fn test_oamdata_write_increments_addr() {
    let mut ppu = Ppu::new(Mirroring::Horizontal);
    let mut mapper = make_mapper();
    ppu.write_register(0x2003, 0x00, &mut mapper);
    ppu.write_register(0x2004, 0xAA, &mut mapper);
    assert_eq!(ppu.oam[0], 0xAA);
    assert_eq!(ppu.oam_addr, 1);
}

#[test]
fn test_vram_increment_32() {
    let mut ppu = Ppu::new(Mirroring::Horizontal);
    let mut mapper = make_mapper();
    ppu.write_register(0x2000, 0x04, &mut mapper);
    ppu.v = 0x2000;
    ppu.write_register(0x2007, 0x42, &mut mapper);
    assert_eq!(ppu.v, 0x2020);
}

#[test]
fn ppudata_write_then_read_back() {
    let mut ppu = Ppu::new(Mirroring::Vertical);
    let mut mapper = make_mapper();
    ppu.write_register(0x2006, 0x2A, &mut mapper);
    ppu.write_register(0x2006, 0x10, &mut mapper);
    ppu.write_register(0x2007, 0x99, &mut mapper);
    ppu.write_register(0x2006, 0x22, &mut mapper);
    ppu.write_register(0x2006, 0x10, &mut mapper);
    let _ = ppu.read_register(0x2007, &mapper);
    assert_eq!(ppu.read_register(0x2007, &mapper), 0x99);
}

#[test]
fn vblank_starts_at_line_241_and_frame_completes_after_262_lines() {
    let mut ppu = Ppu::new(Mirroring::Horizontal);
    let mapper = make_mapper();
    ppu.ctrl = 0x80;
    for _ in 0..(241 * 341 + 1) {
        ppu.step(&mapper);
    }
    assert_eq!(ppu.status & 0x80, 0x80);
    assert!(ppu.nmi_pending);
    assert!(!ppu.frame_complete);
    for _ in 0..(21 * 341 - 1) {
        ppu.step(&mapper);
    }
    assert!(ppu.frame_complete);
    assert_eq!(ppu.scanline, 0);
    assert_eq!(ppu.cycle, 0);
}

#[test]
fn pattern_reads_go_to_the_cartridge() {
    let mut chr = vec![0u8; 8192];
    chr[0x0123] = 0x5C;
    let mapper = Mapper0::new(vec![0u8; 16384], chr);
    let mut ppu = Ppu::new(Mirroring::Horizontal);
    ppu.v = 0x0123;
    let _ = ppu.read_register(0x2007, &mapper);
    assert_eq!(ppu.read_register(0x2007, &mapper), 0x5C);
}

#[test]
fn pre_render_line_clears_vblank_and_sprite_zero_hit() {
    let mut ppu = Ppu::new(Mirroring::Horizontal);
    let mapper = make_mapper();
    ppu.scanline = 261;
    ppu.cycle = 0;
    ppu.status = 0xE0;
    ppu.step(&mapper);
    assert_eq!((ppu.scanline, ppu.cycle), (261, 1));
    assert_eq!(ppu.status, 0x20);
}
