use rfc::bus::Bus;
use rfc::cartridge::{Cartridge, Mirroring};
use rfc::mapper::mapper0::Mapper0;
use rfc::mapper::Board;

#[test]
fn test_ram_read_write() {
    let mut bus = Bus::new();
    bus.write(0x0000, 0x42);
    assert_eq!(bus.read(0x0000), 0x42);
}

#[test]
fn test_ram_mirroring() {
    let mut bus = Bus::new();
    bus.write(0x0000, 0xAB);
    assert_eq!(bus.read(0x0800), 0xAB);
    assert_eq!(bus.read(0x1000), 0xAB);
    assert_eq!(bus.read(0x1800), 0xAB);
}

#[test]
fn test_ram_mirror_write() {
    let mut bus = Bus::new();
    bus.write(0x0800, 0xCD);
    assert_eq!(bus.read(0x0000), 0xCD);
}

#[test]
fn test_cartridge_read() {
    let mut bus = Bus::new();
    let mut prg = vec![0u8; 32768];
    prg[0] = 0xEA; // NOP at $8000
    prg[0x7FFC] = 0x00; // Reset vector low ($FFFC)
    prg[0x7FFD] = 0x80; // Reset vector high -> $8000
    let chr = vec![0u8; 8192];
    let cart = Cartridge {
        mapper: Board::Nrom(Mapper0::new(prg, chr)),
        mirroring: Mirroring::Horizontal,
    };
    bus.load_cartridge(cart);
    assert_eq!(bus.read(0x8000), 0xEA);
    assert_eq!(bus.read(0xFFFC), 0x00);
    assert_eq!(bus.read(0xFFFD), 0x80);
}

#[test]
fn ram_write_leaves_other_locations() {
    let mut bus = Bus::new();
    bus.write(0x0010, 0x11);
    bus.write(0x0011, 0x22);
    bus.write(0x1810, 0x33);
    assert_eq!(bus.read(0x0010), 0x33);
    assert_eq!(bus.read(0x0011), 0x22);
}

#[test]
fn oam_dma_copies_page_and_charges_cycles() {
    let mut bus = Bus::new();
    for i in 0..256u16 {
        bus.write(0x0200 + i, (i as u8) ^ 0x5A);
    }
    bus.write(0x4014, 0x02);
    assert_eq!(bus.dma_cycles, 513);
    for i in 0..256usize {
        assert_eq!(bus.ppu.oam[i], (i as u8) ^ 0x5A);
    }
}

#[test]
fn controller_port_strobes_both_pads() {
    let mut bus = Bus::new();
    bus.joypad1.set_button(rfc::joypad::Button::A, true);
    bus.joypad2.set_button(rfc::joypad::Button::B, true);
    bus.write(0x4016, 1);
    bus.write(0x4016, 0);
    assert_eq!(bus.read(0x4016), 1);
    assert_eq!(bus.read(0x4016), 0);
    assert_eq!(bus.read(0x4017), 0);
    assert_eq!(bus.read(0x4017), 1);
}

#[test]
fn ppu_registers_mirror_every_eight_bytes() {
    let mut bus = Bus::new();
    bus.write(0x2006 + 0x08 * 5, 0x21);
    bus.write(0x3FFE, 0x08);
    assert_eq!(bus.ppu.v, 0x2108);
}

#[test]
fn unmapped_cartridge_space_reads_zero() {
    let mut bus = Bus::new();
    assert_eq!(bus.read(0x8000), 0);
    assert_eq!(bus.read(0x4018), 0);
}
