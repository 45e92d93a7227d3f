use rfc::cartridge::Mirroring;
use rfc::mapper::mapper0::Mapper0;
use rfc::mapper::mapper1::Mapper1;
use rfc::mapper::mapper2::Mapper2;
use rfc::mapper::mapper3::Mapper3;
use rfc::mapper::mapper4::Mapper4;
use rfc::mapper::{Board, Mapper};

#[test]
fn test_mapper0_32kb_prg() {
    let prg = vec![0u8; 32768];
    let chr = vec![0u8; 8192];
    let mut mapper = Mapper0::new(prg, chr);
    assert_eq!(mapper.cpu_read(0x8000), 0);
    mapper.cpu_write(0x8000, 0xFF);
    assert_eq!(mapper.cpu_read(0x8000), 0);
}

#[test]
fn test_mapper0_16kb_mirror() {
    let mut prg = vec![0u8; 16384];
    prg[0] = 0xAA;
    let chr = vec![0u8; 8192];
    let mapper = Mapper0::new(prg, chr);
    assert_eq!(mapper.cpu_read(0x8000), 0xAA);
    assert_eq!(mapper.cpu_read(0xC000), 0xAA);
}

#[test]
fn test_mapper0_chr_read() {
    let prg = vec![0u8; 16384];
    let mut chr = vec![0u8; 8192];
    chr[0x0100] = 0x55;
    let mapper = Mapper0::new(prg, chr);
    assert_eq!(mapper.ppu_read(0x0100), 0x55);
}

/// Five serial writes that load `value` into the register selected by `addr`.
fn serial_write(mapper: &mut Mapper1, addr: u16, value: u8) {
    for i in 0..5 {
        mapper.cpu_write(addr, (value >> i) & 1);
    }
}

#[test]
fn test_shift_register_accumulates_5_writes() {
    let prg = vec![0u8; 16384 * 4];
    let chr = vec![0u8; 8192];
    let mut mapper = Mapper1::new(prg, chr);
    mapper.cpu_write(0x8000, 1);
    mapper.cpu_write(0x8000, 0);
    mapper.cpu_write(0x8000, 1);
    mapper.cpu_write(0x8000, 0);
    mapper.cpu_write(0x8000, 1);
    assert_eq!(mapper.control, 21);
}

#[test]
fn test_shift_register_reset_on_bit7() {
    let prg = vec![0u8; 16384 * 4];
    let chr = vec![0u8; 8192];
    let mut mapper = Mapper1::new(prg, chr);
    mapper.cpu_write(0x8000, 1);
    mapper.cpu_write(0x8000, 1);
    mapper.cpu_write(0x8000, 0x80);
    assert_eq!(mapper.write_count, 0);
    assert_eq!(mapper.shift_register, 0);
    assert!(mapper.control & 0x0C == 0x0C);
}

#[test]
fn test_prg_banking_mode3_fix_last_switch_first() {
    let mut prg = vec![0u8; 16384 * 4];
    prg[0] = 0xAA;
    prg[16384] = 0xBB;
    prg[16384 * 2] = 0xCC;
    prg[16384 * 3] = 0xDD;
    let mut mapper = Mapper1::new(prg, vec![]);
    assert_eq!(mapper.cpu_read(0x8000), 0xAA);
    assert_eq!(mapper.cpu_read(0xC000), 0xDD);
    serial_write(&mut mapper, 0xE000, 2);
    assert_eq!(mapper.cpu_read(0x8000), 0xCC);
    assert_eq!(mapper.cpu_read(0xC000), 0xDD);
}

#[test]
fn test_prg_banking_mode2_fix_first_switch_last() {
    let mut prg = vec![0u8; 16384 * 4];
    prg[0] = 0xAA;
    prg[16384] = 0xBB;
    prg[16384 * 2] = 0xCC;
    prg[16384 * 3] = 0xDD;
    let mut mapper = Mapper1::new(prg, vec![]);
    serial_write(&mut mapper, 0x8000, 0x08);
    assert_eq!(mapper.cpu_read(0x8000), 0xAA);
    assert_eq!(mapper.cpu_read(0xC000), 0xAA);
    serial_write(&mut mapper, 0xE000, 2);
    assert_eq!(mapper.cpu_read(0x8000), 0xAA);
    assert_eq!(mapper.cpu_read(0xC000), 0xCC);
}

#[test]
fn test_chr_4kb_banking() {
    let mut chr = vec![0u8; 4096 * 4];
    chr[0] = 0x11;
    chr[4096] = 0x22;
    chr[4096 * 2] = 0x33;
    chr[4096 * 3] = 0x44;
    let prg = vec![0u8; 16384 * 2];
    let mut mapper = Mapper1::new(prg, chr);
    serial_write(&mut mapper, 0x8000, 0x1C);
    serial_write(&mut mapper, 0xA000, 1);
    assert_eq!(mapper.ppu_read(0x0000), 0x22);
    serial_write(&mut mapper, 0xC000, 3);
    assert_eq!(mapper.ppu_read(0x1000), 0x44);
}

#[test]
fn test_mirroring_changes() {
    let prg = vec![0u8; 16384 * 2];
    let chr = vec![0u8; 8192];
    let mut mapper = Mapper1::new(prg, chr);
    serial_write(&mut mapper, 0x8000, 0x0E);
    assert_eq!(mapper.mirroring(), Some(Mirroring::Vertical));
    serial_write(&mut mapper, 0x8000, 0x0F);
    assert_eq!(mapper.mirroring(), Some(Mirroring::Horizontal));
}

#[test]
fn test_prg_ram_read_write() {
    let prg = vec![0u8; 16384 * 2];
    let mut mapper = Mapper1::new(prg, vec![]);
    mapper.cpu_write(0x6000, 0x42);
    assert_eq!(mapper.cpu_read(0x6000), 0x42);
    mapper.cpu_write(0x7FFF, 0xFF);
    assert_eq!(mapper.cpu_read(0x7FFF), 0xFF);
}

#[test]
fn mapper1_test_chr_ram_writable() {
    let prg = vec![0u8; 16384 * 2];
    let mut mapper = Mapper1::new(prg, vec![]);
    mapper.ppu_write(0x0100, 0xAB);
    assert_eq!(mapper.ppu_read(0x0100), 0xAB);
}

#[test]
fn test_bank_switching() {
    let mut prg = vec![0u8; 16384 * 4];
    prg[0] = 0xAA;
    prg[16384] = 0xBB;
    let mut mapper = Mapper2::new(prg, vec![]);
    assert_eq!(mapper.cpu_read(0x8000), 0xAA);
    mapper.cpu_write(0x8000, 1);
    assert_eq!(mapper.cpu_read(0x8000), 0xBB);
}

#[test]
fn test_fixed_last_bank() {
    let mut prg = vec![0u8; 16384 * 4];
    prg[16384 * 3] = 0xCC;
    let mapper = Mapper2::new(prg, vec![]);
    assert_eq!(mapper.cpu_read(0xC000), 0xCC);
}

#[test]
fn mapper2_test_chr_ram_writable() {
    let mut mapper = Mapper2::new(vec![0u8; 16384], vec![]);
    mapper.ppu_write(0x0100, 0x55);
    assert_eq!(mapper.ppu_read(0x0100), 0x55);
}

#[test]
fn test_chr_bank_switching() {
    let mut chr = vec![0u8; 8192 * 4];
    chr[0] = 0xAA;
    chr[8192] = 0xBB;
    chr[8192 * 2] = 0xCC;
    let mut mapper = Mapper3::new(vec![0u8; 32768], chr);
    assert_eq!(mapper.ppu_read(0x0000), 0xAA);
    mapper.cpu_write(0x8000, 1);
    assert_eq!(mapper.ppu_read(0x0000), 0xBB);
    mapper.cpu_write(0x8000, 2);
    assert_eq!(mapper.ppu_read(0x0000), 0xCC);
}

#[test]
fn test_prg_mirroring_16kb() {
    let mut prg = vec![0u8; 16384];
    prg[0] = 0xDD;
    let mapper = Mapper3::new(prg, vec![0u8; 8192]);
    assert_eq!(mapper.cpu_read(0x8000), 0xDD);
    assert_eq!(mapper.cpu_read(0xC000), 0xDD);
}

fn make_mapper4(prg_banks_8k: usize, chr_banks_1k: usize) -> Mapper4 {
    let mut prg = vec![0u8; prg_banks_8k * 8192];
    for i in 0..prg_banks_8k {
        prg[i * 8192] = i as u8;
    }
    let mut chr = vec![0u8; chr_banks_1k * 1024];
    for i in 0..chr_banks_1k {
        chr[i * 1024] = i as u8;
    }
    Mapper4::new(prg, chr, Mirroring::Vertical)
}

#[test]
fn test_prg_bank_mode_0() {
    let mut mapper = make_mapper4(16, 8);
    mapper.cpu_write(0x8000, 6);
    mapper.cpu_write(0x8001, 2);
    mapper.cpu_write(0x8000, 7);
    mapper.cpu_write(0x8001, 5);
    assert_eq!(mapper.cpu_read(0x8000), 2);
    assert_eq!(mapper.cpu_read(0xA000), 5);
    assert_eq!(mapper.cpu_read(0xC000), 14);
    assert_eq!(mapper.cpu_read(0xE000), 15);
}

#[test]
fn test_prg_bank_mode_1() {
    let mut mapper = make_mapper4(16, 8);
    mapper.cpu_write(0x8000, 0x46);
    mapper.cpu_write(0x8001, 2);
    mapper.cpu_write(0x8000, 0x47);
    mapper.cpu_write(0x8001, 5);
    assert_eq!(mapper.cpu_read(0x8000), 14);
    assert_eq!(mapper.cpu_read(0xA000), 5);
    assert_eq!(mapper.cpu_read(0xC000), 2);
    assert_eq!(mapper.cpu_read(0xE000), 15);
}

#[test]
fn test_chr_bank_normal() {
    let mut mapper = make_mapper4(16, 32);
    mapper.cpu_write(0x8000, 0);
    mapper.cpu_write(0x8001, 4);
    mapper.cpu_write(0x8000, 1);
    mapper.cpu_write(0x8001, 10);
    mapper.cpu_write(0x8000, 2);
    mapper.cpu_write(0x8001, 20);
    mapper.cpu_write(0x8000, 3);
    mapper.cpu_write(0x8001, 21);
    mapper.cpu_write(0x8000, 4);
    mapper.cpu_write(0x8001, 22);
    mapper.cpu_write(0x8000, 5);
    mapper.cpu_write(0x8001, 23);
    assert_eq!(mapper.ppu_read(0x0000), 4);
    assert_eq!(mapper.ppu_read(0x0400), 5);
    assert_eq!(mapper.ppu_read(0x0800), 10);
    assert_eq!(mapper.ppu_read(0x0C00), 11);
    assert_eq!(mapper.ppu_read(0x1000), 20);
    assert_eq!(mapper.ppu_read(0x1400), 21);
    assert_eq!(mapper.ppu_read(0x1800), 22);
    assert_eq!(mapper.ppu_read(0x1C00), 23);
}

#[test]
fn test_chr_bank_inverted() {
    let mut mapper = make_mapper4(16, 32);
    mapper.cpu_write(0x8000, 0x80);
    mapper.cpu_write(0x8001, 4);
    mapper.cpu_write(0x8000, 0x81);
    mapper.cpu_write(0x8001, 10);
    mapper.cpu_write(0x8000, 0x82);
    mapper.cpu_write(0x8001, 20);
    mapper.cpu_write(0x8000, 0x83);
    mapper.cpu_write(0x8001, 21);
    mapper.cpu_write(0x8000, 0x84);
    mapper.cpu_write(0x8001, 22);
    mapper.cpu_write(0x8000, 0x85);
    mapper.cpu_write(0x8001, 23);
    assert_eq!(mapper.ppu_read(0x0000), 20);
    assert_eq!(mapper.ppu_read(0x0400), 21);
    assert_eq!(mapper.ppu_read(0x0800), 22);
    assert_eq!(mapper.ppu_read(0x0C00), 23);
    assert_eq!(mapper.ppu_read(0x1000), 4);
    assert_eq!(mapper.ppu_read(0x1400), 5);
    assert_eq!(mapper.ppu_read(0x1800), 10);
    assert_eq!(mapper.ppu_read(0x1C00), 11);
}

#[test]
fn test_irq_counter_countdown() {
    let mut mapper = make_mapper4(16, 8);
    mapper.cpu_write(0xC000, 3);
    mapper.cpu_write(0xC001, 0);
    mapper.cpu_write(0xE001, 0);
    mapper.notify_scanline();
    assert!(!mapper.irq_pending());
    mapper.notify_scanline();
    assert!(!mapper.irq_pending());
    mapper.notify_scanline();
    assert!(!mapper.irq_pending());
    mapper.notify_scanline();
    assert!(mapper.irq_pending());
    mapper.irq_acknowledge();
    assert!(!mapper.irq_pending());
}

#[test]
fn test_irq_disabled() {
    let mut mapper = make_mapper4(16, 8);
    mapper.cpu_write(0xC000, 1);
    mapper.cpu_write(0xC001, 0);
    mapper.cpu_write(0xE000, 0);
    mapper.notify_scanline();
    mapper.notify_scanline();
    assert!(!mapper.irq_pending());
}

#[test]
fn test_prg_ram() {
    let mut mapper = make_mapper4(16, 8);
    mapper.cpu_write(0x6000, 0xAB);
    assert_eq!(mapper.cpu_read(0x6000), 0xAB);
    mapper.cpu_write(0x7FFF, 0xCD);
    assert_eq!(mapper.cpu_read(0x7FFF), 0xCD);
}

#[test]
fn test_mirroring_control() {
    let mut mapper = make_mapper4(16, 8);
    assert_eq!(mapper.mirroring, Mirroring::Vertical);
    mapper.cpu_write(0xA000, 1);
    assert_eq!(mapper.mirroring, Mirroring::Horizontal);
    mapper.cpu_write(0xA000, 0);
    assert_eq!(mapper.mirroring, Mirroring::Vertical);
}

#[test]
fn board_dispatches_to_its_mapper() {
    let mut prg = vec![0u8; 16384 * 4];
    prg[16384] = 0xBB;
    let mut board = Board::Uxrom(Mapper2::new(prg, vec![]));
    board.cpu_write(0x8000, 1);
    assert_eq!(board.cpu_read(0x8000), 0xBB);
    assert_eq!(board.mirroring(), None);
    assert!(!board.irq_pending());
}

#[test]
fn uxrom_last_bank_survives_bank_writes() {
    let mut prg = vec![0u8; 16384 * 4];
    prg[16384 * 3 + 5] = 0x5E;
    let mut mapper = Mapper2::new(prg, vec![]);
    for bank in 0..8u8 {
        mapper.cpu_write(0xC000, bank);
        assert_eq!(mapper.cpu_read(0xC005), 0x5E);
    }
}

#[test]
fn mmc3_latch_of_one_fires_on_second_scanline() {
    let mut mapper = make_mapper4(16, 8);
    mapper.cpu_write(0xC000, 1);
    mapper.cpu_write(0xC001, 0);
    mapper.cpu_write(0xE001, 0);
    mapper.notify_scanline();
    assert!(!mapper.irq_pending());
    mapper.notify_scanline();
    assert!(mapper.irq_pending());
}
