use vstd::prelude::*;
use crate::cartridge::Mirroring;
use crate::mapper::Mapper;

verus! {

/// Index into a PRG ROM that is mirrored when it holds a single 16 KB bank.
pub open spec fn nrom_prg_index(len: nat, addr: u16) -> int {
    if len == 16384 {
        (addr - 0x8000) % 16384
    } else {
        addr - 0x8000
    }
}

/// NROM: no bank switching. A 16 KB PRG ROM is mirrored at $8000 and $C000,
/// a 32 KB one fills $8000-$FFFF; 8 KB of CHR ROM sits at PPU $0000-$1FFF.
pub struct Mapper0 {
    pub prg_rom: Vec<u8>,
    pub chr_rom: Vec<u8>,
}

/// The state of an NROM board.
pub ghost struct Mapper0Model {
    pub prg: Seq<u8>,
    pub chr: Seq<u8>,
}

impl View for Mapper0 {
    type V = Mapper0Model;

    open spec fn view(&self) -> Mapper0Model {
        Mapper0Model { prg: self.prg_rom@, chr: self.chr_rom@ }
    }
}

impl Mapper0 {
    /// The state of a freshly built board.
    pub open spec fn new_model(prg: Seq<u8>, chr: Seq<u8>) -> Mapper0Model {
        Mapper0Model { prg, chr }
    }

    /// An NROM board with the given PRG and CHR ROM.
    pub fn new(prg_rom: Vec<u8>, chr_rom: Vec<u8>) -> (r: Self)
        ensures
            r@ == Mapper0::new_model(prg_rom@, chr_rom@),
    {
        Self { prg_rom, chr_rom }
    }
}

impl Mapper for Mapper0 {
    open spec fn inv_model(v: Mapper0Model) -> bool {
        true
    }

    open spec fn cpu_read_ok(v: Mapper0Model, addr: u16) -> bool {
        addr >= 0x8000 ==> nrom_prg_index(v.prg.len(), addr) < v.prg.len()
    }

    open spec fn cpu_read_model(v: Mapper0Model, addr: u16) -> u8 {
        if addr >= 0x8000 {
            v.prg[nrom_prg_index(v.prg.len(), addr)]
        } else {
            0
        }
    }

    open spec fn cpu_write_model(v: Mapper0Model, addr: u16, data: u8) -> Mapper0Model {
        v
    }

    open spec fn ppu_read_ok(v: Mapper0Model, addr: u16) -> bool {
        addr <= 0x1FFF && v.chr.len() > 0 ==> addr < v.chr.len()
    }

    open spec fn ppu_read_model(v: Mapper0Model, addr: u16) -> u8 {
        if addr <= 0x1FFF && v.chr.len() > 0 {
            v.chr[addr as int]
        } else {
            0
        }
    }

    open spec fn ppu_write_ok(v: Mapper0Model, addr: u16) -> bool {
        true
    }

    open spec fn ppu_write_model(v: Mapper0Model, addr: u16, data: u8) -> Mapper0Model {
        v
    }

    open spec fn scanline_model(v: Mapper0Model) -> Mapper0Model {
        v
    }

    open spec fn irq_model(v: Mapper0Model) -> bool {
        false
    }

    open spec fn acknowledge_model(v: Mapper0Model) -> Mapper0Model {
        v
    }

    open spec fn mirroring_model(v: Mapper0Model) -> Option<Mirroring> {
        None
    }

    fn cpu_read(&self, addr: u16) -> (r: u8) {
        if addr >= 0x8000 {
            let mut index = (addr - 0x8000) as usize;
            if self.prg_rom.len() == 16384 {
                index = index % 16384;
            }
            self.prg_rom[index]
        } else {
            0
        }
    }

    fn cpu_write(&mut self, _addr: u16, _data: u8) {
    }

    fn ppu_read(&self, addr: u16) -> (r: u8) {
        if addr <= 0x1FFF {
            if self.chr_rom.len() == 0 {
                0
            } else {
                self.chr_rom[addr as usize]
            }
        } else {
            0
        }
    }

    fn ppu_write(&mut self, _addr: u16, _data: u8) {
    }

    fn notify_scanline(&mut self) {
    }

    fn irq_pending(&self) -> (r: bool) {
        false
    }

    fn irq_acknowledge(&mut self) {
    }

    fn mirroring(&self) -> (r: Option<Mirroring>) {
        None
    }
}

/// A 16 KB PRG ROM appears twice: $C000-$FFFF read what $8000-$BFFF read.
pub proof fn lemma_nrom_16k_mirror(v: Mapper0Model, addr: u16)
    requires
        v.prg.len() == 16384,
        0x8000 <= addr <= 0xBFFF,
    ensures
        Mapper0::cpu_read_model(v, (addr + 0x4000) as u16) == Mapper0::cpu_read_model(v, addr),
{
}

} // verus!
