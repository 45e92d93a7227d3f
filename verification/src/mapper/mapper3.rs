use vstd::prelude::*;
use crate::cartridge::Mirroring;
use crate::mapper::Mapper;
use crate::mapper::mapper0::nrom_prg_index;

verus! {

/// CNROM: fixed PRG ROM as in NROM, and one of four 8 KB CHR ROM banks
/// selected by writes to $8000-$FFFF.
pub struct Mapper3 {
    pub prg_rom: Vec<u8>,
    pub chr_rom: Vec<u8>,
    pub chr_bank: u8,
}

/// The state of a CNROM board.
pub ghost struct Mapper3Model {
    pub prg: Seq<u8>,
    pub chr: Seq<u8>,
    pub chr_bank: u8,
}

impl View for Mapper3 {
    type V = Mapper3Model;

    open spec fn view(&self) -> Mapper3Model {
        Mapper3Model { prg: self.prg_rom@, chr: self.chr_rom@, chr_bank: self.chr_bank }
    }
}

impl Mapper3 {
    /// The state of a freshly built board: CHR bank 0 selected.
    pub open spec fn new_model(prg: Seq<u8>, chr: Seq<u8>) -> Mapper3Model {
        Mapper3Model { prg, chr, chr_bank: 0 }
    }

    /// A CNROM board (see `new_model`).
    pub fn new(prg_rom: Vec<u8>, chr_rom: Vec<u8>) -> (r: Self)
        ensures
            r@ == Mapper3::new_model(prg_rom@, chr_rom@),
    {
        Self { prg_rom, chr_rom, chr_bank: 0 }
    }
}

impl Mapper for Mapper3 {
    open spec fn inv_model(v: Mapper3Model) -> bool {
        true
    }

    open spec fn cpu_read_ok(v: Mapper3Model, addr: u16) -> bool {
        addr >= 0x8000 ==> nrom_prg_index(v.prg.len(), addr) < v.prg.len()
    }

    open spec fn cpu_read_model(v: Mapper3Model, addr: u16) -> u8 {
        if addr >= 0x8000 {
            v.prg[nrom_prg_index(v.prg.len(), addr)]
        } else {
            0
        }
    }

    open spec fn cpu_write_model(v: Mapper3Model, addr: u16, data: u8) -> Mapper3Model {
        if addr >= 0x8000 {
            Mapper3Model { chr_bank: data & 0x03, ..v }
        } else {
            v
        }
    }

    open spec fn ppu_read_ok(v: Mapper3Model, addr: u16) -> bool {
        true
    }

    open spec fn ppu_read_model(v: Mapper3Model, addr: u16) -> u8 {
        let offset = v.chr_bank * 8192 + addr;
        if addr <= 0x1FFF && offset < v.chr.len() {
            v.chr[offset]
        } else {
            0
        }
    }

    open spec fn ppu_write_ok(v: Mapper3Model, addr: u16) -> bool {
        true
    }

    open spec fn ppu_write_model(v: Mapper3Model, addr: u16, data: u8) -> Mapper3Model {
        v
    }

    open spec fn scanline_model(v: Mapper3Model) -> Mapper3Model {
        v
    }

    open spec fn irq_model(v: Mapper3Model) -> bool {
        false
    }

    open spec fn acknowledge_model(v: Mapper3Model) -> Mapper3Model {
        v
    }

    open spec fn mirroring_model(v: Mapper3Model) -> Option<Mirroring> {
        None
    }

    fn cpu_read(&self, addr: u16) -> (r: u8) {
        if addr >= 0x8000 {
            let mut index = (addr - 0x8000) as usize;
            if self.prg_rom.len() == 16384 {
                index = index % 16384;
            }
            self.prg_rom[index]
        } else {
            0
        }
    }

    fn cpu_write(&mut self, addr: u16, data: u8) {
        if addr >= 0x8000 {
            self.chr_bank = data & 0x03;
        }
    }

    fn ppu_read(&self, addr: u16) -> (r: u8) {
        if addr <= 0x1FFF {
            let offset = self.chr_bank as usize * 8192 + addr as usize;
            if offset < self.chr_rom.len() {
                self.chr_rom[offset]
            } else {
                0
            }
        } else {
            0
        }
    }

    fn ppu_write(&mut self, _addr: u16, _data: u8) {
    }

    fn notify_scanline(&mut self) {
    }

    fn irq_pending(&self) -> (r: bool) {
        false
    }

    fn irq_acknowledge(&mut self) {
    }

    fn mirroring(&self) -> (r: Option<Mirroring>) {
        None
    }
}

/// A write to $8000-$FFFF selects the 8 KB CHR bank its low two bits name, and leaves
/// PRG as it was.
pub proof fn lemma_cnrom_chr_bank(v: Mapper3Model, waddr: u16, data: u8, addr: u16, paddr: u16)
    requires
        0x8000 <= waddr,
        paddr <= 0x1FFF,
        (data & 0x03) * 8192 + paddr < v.chr.len(),
    ensures
        Mapper3::ppu_read_model(Mapper3::cpu_write_model(v, waddr, data), paddr) == v.chr[(data
            & 0x03) * 8192 + paddr],
        Mapper3::cpu_read_model(Mapper3::cpu_write_model(v, waddr, data), addr)
            == Mapper3::cpu_read_model(v, addr),
{
}

} // verus!
