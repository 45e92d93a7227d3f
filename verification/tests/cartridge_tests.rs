use rfc::cartridge::{Cartridge, Mirroring};
use rfc::mapper::{Board, Mapper};

fn make_ines_header(prg_banks: u8, chr_banks: u8, flags6: u8, flags7: u8) -> Vec<u8> {
    let mut header = vec![0x4E, 0x45, 0x53, 0x1A];
    header.push(prg_banks);
    header.push(chr_banks);
    header.push(flags6);
    header.push(flags7);
    header.extend_from_slice(&[0u8; 8]);
    header.extend(vec![0u8; prg_banks as usize * 16384]);
    header.extend(vec![0u8; chr_banks as usize * 8192]);
    header
}

#[test]
fn test_parse_valid_ines() {
    let data = make_ines_header(2, 1, 0x01, 0x00);
    let cart = Cartridge::from_ines(&data).unwrap();
    assert_eq!(cart.mirroring, Mirroring::Vertical);
}

#[test]
fn test_horizontal_mirroring() {
    let data = make_ines_header(1, 1, 0x00, 0x00);
    let cart = Cartridge::from_ines(&data).unwrap();
    assert_eq!(cart.mirroring, Mirroring::Horizontal);
}

#[test]
fn test_invalid_header() {
    let data = vec![0u8; 16];
    assert!(Cartridge::from_ines(&data).is_err());
}

#[test]
fn test_unsupported_mapper() {
    let data = make_ines_header(1, 1, 0x50, 0x00); // Mapper 5 (MMC5) unsupported
    assert!(Cartridge::from_ines(&data).is_err());
}

#[test]
fn test_chr_ram_when_no_chr_rom() {
    let data = make_ines_header(1, 0, 0x00, 0x00);
    let cart = Cartridge::from_ines(&data).unwrap();
    assert_eq!(cart.mapper.ppu_read(0x0000), 0);
}

#[test]
fn error_messages_name_the_problem() {
    let short = vec![0x4E, 0x45, 0x53];
    assert_eq!(Cartridge::from_ines(&short).err().unwrap(), "Invalid iNES header");
    let mut truncated = make_ines_header(2, 1, 0x00, 0x00);
    truncated.pop();
    assert_eq!(
        Cartridge::from_ines(&truncated).err().unwrap(),
        "File too small for declared ROM sizes"
    );
    let mmc5 = make_ines_header(1, 1, 0x50, 0x00);
    assert_eq!(Cartridge::from_ines(&mmc5).err().unwrap(), "Unsupported mapper: 5");
    let high = make_ines_header(1, 1, 0x20, 0xF0);
    assert_eq!(Cartridge::from_ines(&high).err().unwrap(), "Unsupported mapper: 242");
}

#[test]
fn header_selects_board_and_mirroring() {
    let four = make_ines_header(1, 1, 0x09, 0x00);
    assert_eq!(Cartridge::from_ines(&four).unwrap().mirroring, Mirroring::FourScreen);
    let mmc1 = make_ines_header(2, 1, 0x10, 0x00);
    assert!(matches!(Cartridge::from_ines(&mmc1).unwrap().mapper, Board::Mmc1(_)));
    let uxrom = make_ines_header(2, 0, 0x20, 0x00);
    assert!(matches!(Cartridge::from_ines(&uxrom).unwrap().mapper, Board::Uxrom(_)));
    let cnrom = make_ines_header(1, 2, 0x30, 0x00);
    assert!(matches!(Cartridge::from_ines(&cnrom).unwrap().mapper, Board::Cnrom(_)));
    let mmc3 = make_ines_header(2, 1, 0x40, 0x00);
    assert!(matches!(Cartridge::from_ines(&mmc3).unwrap().mapper, Board::Mmc3(_)));
}

#[test]
fn trainer_is_skipped() {
    let mut data = vec![0x4E, 0x45, 0x53, 0x1A, 1, 1, 0x04, 0];
    data.extend_from_slice(&[0u8; 8]);
    data.extend(vec![0xEEu8; 512]);
    let mut prg = vec![0u8; 16384];
    prg[0] = 0x77;
    data.extend(prg);
    data.extend(vec![0u8; 8192]);
    let cart = Cartridge::from_ines(&data).unwrap();
    assert_eq!(cart.mapper.cpu_read(0x8000), 0x77);
}
