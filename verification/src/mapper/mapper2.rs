use vstd::prelude::*;
use crate::cartridge::Mirroring;
use crate::mapper::Mapper;

verus! {

/// UxROM: a switchable 16 KB PRG bank at $8000-$BFFF, the last bank fixed at
/// $C000-$FFFF, and 8 KB of writable CHR RAM.
pub struct Mapper2 {
    pub prg_rom: Vec<u8>,
    pub chr_ram: Vec<u8>,
    pub bank_select: u8,
    pub prg_banks: u8,
}

/// The state of a UxROM board.
pub ghost struct Mapper2Model {
    pub prg: Seq<u8>,
    pub chr: Seq<u8>,
    pub bank_select: u8,
    pub prg_banks: u8,
}

impl View for Mapper2 {
    type V = Mapper2Model;

    open spec fn view(&self) -> Mapper2Model {
        Mapper2Model {
            prg: self.prg_rom@,
            chr: self.chr_ram@,
            bank_select: self.bank_select,
            prg_banks: self.prg_banks,
        }
    }
}

/// Offset into PRG ROM of a CPU address under UxROM banking.
pub open spec fn uxrom_prg_offset(bank_select: u8, prg_banks: u8, addr: u16) -> int {
    if addr <= 0xBFFF {
        bank_select * 16384 + (addr - 0x8000)
    } else {
        (prg_banks - 1) * 16384 + (addr - 0xC000)
    }
}

/// Eight kilobytes of zeroes: the CHR RAM a board gets when the file has no CHR ROM.
pub open spec fn blank_chr() -> Seq<u8> {
    Seq::new(8192, |i: int| 0u8)
}

impl Mapper2 {
    /// The state of a freshly built board: bank 0 selected; an empty CHR ROM becomes
    /// 8 KB of zeroed CHR RAM.
    pub open spec fn new_model(prg: Seq<u8>, chr: Seq<u8>) -> Mapper2Model {
        Mapper2Model {
            prg,
            chr: if chr.len() == 0 { blank_chr() } else { chr },
            bank_select: 0,
            prg_banks: (prg.len() / 16384) as u8,
        }
    }

    /// A UxROM board (see `new_model`).
    pub fn new(prg_rom: Vec<u8>, chr_rom: Vec<u8>) -> (r: Self)
        ensures
            r@ == Mapper2::new_model(prg_rom@, chr_rom@),
    {
        let prg_banks = (prg_rom.len() / 16384) as u8;
        let chr_ram = if chr_rom.len() == 0 {
            let v = vec![0u8; 8192];
            assert(v@ =~= blank_chr());
            v
        } else {
            chr_rom
        };
        Self { prg_rom, chr_ram, bank_select: 0, prg_banks }
    }
}

impl Mapper for Mapper2 {
    open spec fn inv_model(v: Mapper2Model) -> bool {
        true
    }

    open spec fn cpu_read_ok(v: Mapper2Model, addr: u16) -> bool {
        addr >= 0x8000 ==> {
            &&& (addr >= 0xC000 ==> v.prg_banks >= 1)
            &&& uxrom_prg_offset(v.bank_select, v.prg_banks, addr) < v.prg.len()
        }
    }

    open spec fn cpu_read_model(v: Mapper2Model, addr: u16) -> u8 {
        if addr >= 0x8000 {
            v.prg[uxrom_prg_offset(v.bank_select, v.prg_banks, addr)]
        } else {
            0
        }
    }

    open spec fn cpu_write_model(v: Mapper2Model, addr: u16, data: u8) -> Mapper2Model {
        if addr >= 0x8000 {
            Mapper2Model { bank_select: data & 0x0F, ..v }
        } else {
            v
        }
    }

    open spec fn ppu_read_ok(v: Mapper2Model, addr: u16) -> bool {
        addr <= 0x1FFF ==> addr < v.chr.len()
    }

    open spec fn ppu_read_model(v: Mapper2Model, addr: u16) -> u8 {
        if addr <= 0x1FFF {
            v.chr[addr as int]
        } else {
            0
        }
    }

    open spec fn ppu_write_ok(v: Mapper2Model, addr: u16) -> bool {
        addr <= 0x1FFF ==> addr < v.chr.len()
    }

    open spec fn ppu_write_model(v: Mapper2Model, addr: u16, data: u8) -> Mapper2Model {
        if addr <= 0x1FFF {
            Mapper2Model { chr: v.chr.update(addr as int, data), ..v }
        } else {
            v
        }
    }

    open spec fn scanline_model(v: Mapper2Model) -> Mapper2Model {
        v
    }

    open spec fn irq_model(v: Mapper2Model) -> bool {
        false
    }

    open spec fn acknowledge_model(v: Mapper2Model) -> Mapper2Model {
        v
    }

    open spec fn mirroring_model(v: Mapper2Model) -> Option<Mirroring> {
        None
    }

    fn cpu_read(&self, addr: u16) -> (r: u8) {
        if addr >= 0x8000 && addr <= 0xBFFF {
            let offset = self.bank_select as usize * 16384 + (addr - 0x8000) as usize;
            self.prg_rom[offset]
        } else if addr >= 0xC000 {
            let offset = (self.prg_banks as usize - 1) * 16384 + (addr - 0xC000) as usize;
            self.prg_rom[offset]
        } else {
            0
        }
    }

    fn cpu_write(&mut self, addr: u16, data: u8) {
        if addr >= 0x8000 {
            self.bank_select = data & 0x0F;
        }
    }

    fn ppu_read(&self, addr: u16) -> (r: u8) {
        if addr <= 0x1FFF {
            self.chr_ram[addr as usize]
        } else {
            0
        }
    }

    fn ppu_write(&mut self, addr: u16, data: u8) {
        if addr <= 0x1FFF {
            self.chr_ram.set(addr as usize, data);
        }
    }

    fn notify_scanline(&mut self) {
    }

    fn irq_pending(&self) -> (r: bool) {
        false
    }

    fn irq_acknowledge(&mut self) {
    }

    fn mirroring(&self) -> (r: Option<Mirroring>) {
        None
    }
}

/// The last 16 KB bank stays at $C000-$FFFF whatever the CPU writes, and a write to
/// $8000-$FFFF switches $8000-$BFFF to the bank its low four bits name.
pub proof fn lemma_uxrom_banks(v: Mapper2Model, waddr: u16, data: u8, addr: u16)
    requires
        0x8000 <= waddr,
        0x8000 <= addr,
    ensures
        addr >= 0xC000 ==> Mapper2::cpu_read_model(Mapper2::cpu_write_model(v, waddr, data), addr)
            == Mapper2::cpu_read_model(v, addr),
        addr >= 0xC000 ==> Mapper2::cpu_read_model(v, addr) == v.prg[(v.prg_banks - 1) * 16384 + (
        addr - 0xC000)],
        addr <= 0xBFFF ==> Mapper2::cpu_read_model(Mapper2::cpu_write_model(v, waddr, data), addr)
            == v.prg[(data & 0x0F) * 16384 + (addr - 0x8000)],
{
}

/// CHR RAM gives back what the PPU last wrote at a pattern address.
pub proof fn lemma_uxrom_chr_ram_read_after_write(v: Mapper2Model, addr: u16, data: u8)
    requires
        addr <= 0x1FFF,
        addr < v.chr.len(),
    ensures
        Mapper2::ppu_read_model(Mapper2::ppu_write_model(v, addr, data), addr) == data,
{
}

} // verus!
