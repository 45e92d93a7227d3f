use vstd::prelude::*;
use crate::mapper::{Board, BoardModel, Mapper};
use crate::mapper::mapper0::Mapper0;
use crate::mapper::mapper1::Mapper1;
use crate::mapper::mapper2::{Mapper2, blank_chr};
use crate::mapper::mapper3::Mapper3;
use crate::mapper::mapper4::Mapper4;

verus! {

/// How the four logical nametables map onto the PPU's two kilobytes of VRAM.
#[derive(Debug, Clone, Copy, PartialEq, Eq, Structural)]
pub enum Mirroring {
    Horizontal,
    Vertical,
    FourScreen,
}

/// A loaded game: its board and its header's mirroring.
pub struct Cartridge {
    pub mapper: Board,
    pub mirroring: Mirroring,
}

/// The state of a cartridge.
pub ghost struct CartridgeModel {
    pub mapper: BoardModel,
    pub mirroring: Mirroring,
}

impl View for Cartridge {
    type V = CartridgeModel;

    open spec fn view(&self) -> CartridgeModel {
        CartridgeModel { mapper: self.mapper@, mirroring: self.mirroring }
    }
}

/// Whether a file starts with a complete iNES header ("NES" and $1A, then 12 more bytes).
pub open spec fn ines_header_valid(d: Seq<u8>) -> bool {
    &&& d.len() >= 16
    &&& d[0] == 0x4E
    &&& d[1] == 0x45
    &&& d[2] == 0x53
    &&& d[3] == 0x1A
}

/// The mapper number: high nibble from flags 7, low nibble from the high nibble of flags 6.
pub open spec fn ines_mapper_number(d: Seq<u8>) -> u8 {
    (d[7] & 0xF0) | (d[6] >> 4u8)
}

/// The mirroring from flags 6: bit 3 four-screen, else bit 0 vertical, else horizontal.
pub open spec fn ines_mirroring(d: Seq<u8>) -> Mirroring {
    if d[6] & 0x08 != 0 {
        Mirroring::FourScreen
    } else if d[6] & 0x01 != 0 {
        Mirroring::Vertical
    } else {
        Mirroring::Horizontal
    }
}

/// Where PRG ROM starts: after the header and the 512-byte trainer when flags 6 bit 2 says there is one.
pub open spec fn ines_prg_start(d: Seq<u8>) -> int {
    16 + if d[6] & 0x04 != 0 { 512int } else { 0int }
}

/// PRG ROM size: header byte 4 in 16 KB units.
pub open spec fn ines_prg_size(d: Seq<u8>) -> int {
    d[4] * 16384
}

/// CHR ROM size: header byte 5 in 8 KB units.
pub open spec fn ines_chr_size(d: Seq<u8>) -> int {
    d[5] * 8192
}

/// Whether the file holds all the ROM its header declares.
pub open spec fn ines_fits(d: Seq<u8>) -> bool {
    d.len() >= ines_prg_start(d) + ines_prg_size(d) + ines_chr_size(d)
}

/// The PRG ROM bytes.
pub open spec fn ines_prg(d: Seq<u8>) -> Seq<u8> {
    d.subrange(ines_prg_start(d), ines_prg_start(d) + ines_prg_size(d))
}

/// The CHR ROM bytes, or 8 KB of zeroed CHR RAM when the file has none.
pub open spec fn ines_chr(d: Seq<u8>) -> Seq<u8> {
    let start = ines_prg_start(d) + ines_prg_size(d);
    if ines_chr_size(d) > 0 {
        d.subrange(start, start + ines_chr_size(d))
    } else {
        blank_chr()
    }
}

/// The board a mapper number selects, freshly built; `None` for unsupported numbers.
pub open spec fn ines_board(n: u8, prg: Seq<u8>, chr: Seq<u8>, mirroring: Mirroring) -> Option<BoardModel> {
    if n == 0 {
        Some(BoardModel::Nrom(Mapper0::new_model(prg, chr)))
    } else if n == 1 {
        Some(BoardModel::Mmc1(Mapper1::new_model(prg, chr)))
    } else if n == 2 {
        Some(BoardModel::Uxrom(Mapper2::new_model(prg, chr)))
    } else if n == 3 {
        Some(BoardModel::Cnrom(Mapper3::new_model(prg, chr)))
    } else if n == 4 {
        Some(BoardModel::Mmc3(Mapper4::new_model(prg, chr, mirroring)))
    } else {
        None
    }
}

/// The character of a decimal digit.
pub open spec fn digit_char(d: int) -> char {
    seq!['0', '1', '2', '3', '4', '5', '6', '7', '8', '9'][d]
}

/// The decimal digits of a byte, without leading zeros.
pub open spec fn decimal(n: u8) -> Seq<char> {
    if n >= 100 {
        seq![digit_char((n / 100) as int), digit_char(((n / 10) % 10) as int), digit_char((n % 10) as int)]
    } else if n >= 10 {
        seq![digit_char((n / 10) as int), digit_char((n % 10) as int)]
    } else {
        seq![digit_char(n as int)]
    }
}

fn digit_str(d: u8) -> (r: &'static str)
    requires
        d < 10,
    ensures
        r@ == seq![digit_char(d as int)],
{
    proof {
        reveal_strlit("0");
        reveal_strlit("1");
        reveal_strlit("2");
        reveal_strlit("3");
        reveal_strlit("4");
        reveal_strlit("5");
        reveal_strlit("6");
        reveal_strlit("7");
        reveal_strlit("8");
        reveal_strlit("9");
    }
    let r = match d {
        0 => "0",
        1 => "1",
        2 => "2",
        3 => "3",
        4 => "4",
        5 => "5",
        6 => "6",
        7 => "7",
        8 => "8",
        _ => "9",
    };
    assert(r@ =~= seq![digit_char(d as int)]);
    r
}

/// Appends the decimal digits of a byte to a string.
fn append_decimal(s: &mut String, n: u8)
    ensures
        final(s)@ == old(s)@ + decimal(n),
{
    if n >= 100 {
        s.append(digit_str(n / 100));
    }
    if n >= 10 {
        s.append(digit_str((n / 10) % 10));
    }
    s.append(digit_str(n % 10));
    assert(final(s)@ =~= old(s)@ + decimal(n));
}

/// The layout of an iNES file: after the 16-byte header, and the 512-byte trainer when
/// flags 6 bit 2 announces one, come the PRG ROM (byte 4 times 16 KB) and right after it
/// the CHR ROM (byte 5 times 8 KB). A file without CHR ROM gets 8 KB of zeroed CHR RAM.
/// On an NROM board the PPU's pattern address `a` reads byte `a` of the CHR ROM, the file
/// byte that far past the end of the PRG ROM.
pub proof fn lemma_ines_layout(d: Seq<u8>, i: int, a: u16)
    requires
        ines_header_valid(d),
        ines_fits(d),
    ensures
        ({
            let t: int = if d[6] & 0x04 != 0 { 512 } else { 0 };
            let chr_at = 16 + t + d[4] * 16384;
            &&& ines_prg(d).len() == d[4] * 16384
            &&& 0 <= i < d[4] * 16384 ==> ines_prg(d)[i] == d[16 + t + i]
            &&& d[5] > 0 ==> ines_chr(d).len() == d[5] * 8192
            &&& d[5] > 0 && 0 <= i < d[5] * 8192 ==> ines_chr(d)[i] == d[chr_at + i]
            &&& d[5] == 0 ==> ines_chr(d).len() == 8192
            &&& d[5] == 0 && 0 <= i < 8192 ==> ines_chr(d)[i] == 0
            &&& ines_mapper_number(d) == 0 && d[5] > 0 && a <= 0x1FFF ==> Board::ppu_read_model(
                ines_board(0, ines_prg(d), ines_chr(d), ines_mirroring(d)).unwrap(),
                a,
            ) == d[chr_at + a]
        }),
{
    assert(d[5] * 8192 >= 0);
    if d[5] > 0 {
        assert(d[5] * 8192 >= 8192);
    }
}

impl Cartridge {
    /// Parses an iNES file. Errors, in this order: a short file or bad magic gives
    /// "Invalid iNES header"; a file shorter than its declared ROM gives
    /// "File too small for declared ROM sizes"; a mapper other than 0-4 gives
    /// "Unsupported mapper: " and its number.
    pub fn from_ines(data: &[u8]) -> (r: Result<Self, String>)
        ensures
            !ines_header_valid(data@) ==> (r matches Err(e) && e@ == "Invalid iNES header"@),
            ines_header_valid(data@) && !ines_fits(data@) ==> (r matches Err(e) && e@
                == "File too small for declared ROM sizes"@),
            ines_header_valid(data@) && ines_fits(data@) && ines_mapper_number(data@) > 4 ==> (r matches Err(e)
                && e@ == "Unsupported mapper: "@ + decimal(ines_mapper_number(data@))),
            ines_header_valid(data@) && ines_fits(data@) && ines_mapper_number(data@) <= 4 ==> (r matches Ok(c)
                && Some(c.mapper@) == ines_board(
                ines_mapper_number(data@),
                ines_prg(data@),
                ines_chr(data@),
                ines_mirroring(data@),
            ) && c.mirroring == ines_mirroring(data@) && Board::inv_model(c.mapper@)),
    {
        if data.len() < 16 || data[0] != 0x4E || data[1] != 0x45 || data[2] != 0x53 || data[3] != 0x1A {
            return Err("Invalid iNES header".to_owned());
        }
        let prg_rom_size = data[4] as usize * 16384;
        let chr_rom_size = data[5] as usize * 8192;
        let flags6 = data[6];
        let flags7 = data[7];

        let mapper_number = (flags7 & 0xF0) | (flags6 >> 4u8);

        let mirroring = if flags6 & 0x08 != 0 {
            Mirroring::FourScreen
        } else if flags6 & 0x01 != 0 {
            Mirroring::Vertical
        } else {
            Mirroring::Horizontal
        };

        let has_trainer = flags6 & 0x04 != 0;
        let prg_start: usize = 16 + if has_trainer { 512 } else { 0 };
        let chr_start = prg_start + prg_rom_size;

        if data.len() < chr_start + chr_rom_size {
            return Err("File too small for declared ROM sizes".to_owned());
        }

        let prg_rom = vstd::slice::slice_to_vec(vstd::slice::slice_subrange(data, prg_start, prg_start + prg_rom_size));
        let chr_rom = if chr_rom_size > 0 {
            vstd::slice::slice_to_vec(vstd::slice::slice_subrange(data, chr_start, chr_start + chr_rom_size))
        } else {
            let v = vec![0u8; 8192];
            assert(v@ =~= blank_chr());
            v
        };

        let mapper = if mapper_number == 0 {
            Board::Nrom(Mapper0::new(prg_rom, chr_rom))
        } else if mapper_number == 1 {
            Board::Mmc1(Mapper1::new(prg_rom, chr_rom))
        } else if mapper_number == 2 {
            Board::Uxrom(Mapper2::new(prg_rom, chr_rom))
        } else if mapper_number == 3 {
            Board::Cnrom(Mapper3::new(prg_rom, chr_rom))
        } else if mapper_number == 4 {
            Board::Mmc3(Mapper4::new(prg_rom, chr_rom, mirroring))
        } else {
            let mut msg = "Unsupported mapper: ".to_owned();
            append_decimal(&mut msg, mapper_number);
            return Err(msg);
        };

        Ok(Cartridge { mapper, mirroring })
    }
}

} // verus!
